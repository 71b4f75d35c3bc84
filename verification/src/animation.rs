//! Model animations: a skeleton and a frame-major table of bone poses.
//!
//! The native library stores an animation's poses as `frameCount` rows of
//! `boneCount` transforms; an animation here keeps the whole table as one
//! flat, frame-major vector, and the accessors recover the per-frame rows
//! with their exact positions pinned down.

use crate::types::{BoneInfo, Transform};
use vstd::prelude::*;
use vstd::string::StringExecFns;

verus! {

/// An animation as read out of the native library: its bones and its
/// frame-major pose table.
#[derive(Debug)]
pub struct ModelAnimation {
    pub bones: Vec<BoneInfo>,
    pub frame_count: usize,
    pub frame_poses: Vec<Transform>,
}

/// Read and write access to an animation's bones and pose table.
pub trait RaylibModelAnimation: Sized {
    /// The pose table holds exactly one transform per bone per frame.
    spec fn wf(&self) -> bool;

    spec fn bones_view(&self) -> Seq<BoneInfo>;

    spec fn bone_count(&self) -> nat;

    spec fn num_frames(&self) -> nat;

    /// The flat, frame-major pose table: the pose of bone `j` in frame `i`
    /// sits at position `i * bone_count() + j`.
    spec fn poses_view(&self) -> Seq<Transform>;

    fn bones(&self) -> (r: &[BoneInfo])
        ensures
            r@ == self.bones_view(),
            r@.len() == self.bone_count(),
    ;

    /// Overwrite one bone of the skeleton, leaving the pose table untouched.
    fn set_bone(&mut self, i: usize, b: BoneInfo)
        requires
            i < old(self).bone_count(),
        ensures
            final(self).wf() == old(self).wf(),
            final(self).bones_view() == old(self).bones_view().update(i as int, b),
            final(self).num_frames() == old(self).num_frames(),
            final(self).poses_view() == old(self).poses_view(),
    ;

    /// The pose table cut into frames: one row of `bone_count()` transforms
    /// per frame, in frame order.
    fn frame_poses(&self) -> (r: Vec<Vec<Transform>>)
        requires
            self.wf(),
        ensures
            r@.len() == self.num_frames(),
            forall|i: int| 0 <= i < r@.len() ==> #[trigger] r@[i]@.len() == self.bone_count(),
            forall|i: int, j: int|
                0 <= i < r@.len() && 0 <= j < self.bone_count() ==> #[trigger] r@[i]@[j]
                    == self.poses_view()[i * self.bone_count() + j],
    ;

    /// Overwrite the pose of one bone in one frame, leaving every other pose
    /// and the skeleton unchanged.
    fn set_frame_pose(&mut self, frame: usize, bone: usize, pose: Transform)
        requires
            old(self).wf(),
            frame < old(self).num_frames(),
            bone < old(self).bone_count(),
        ensures
            final(self).wf(),
            final(self).bones_view() == old(self).bones_view(),
            final(self).num_frames() == old(self).num_frames(),
            final(self).poses_view() == old(self).poses_view().update(
                frame * old(self).bone_count() + bone,
                pose,
            ),
    ;
}

impl RaylibModelAnimation for ModelAnimation {
    open spec fn wf(&self) -> bool {
        self.frame_poses@.len() == self.frame_count * self.bones@.len()
    }

    open spec fn bones_view(&self) -> Seq<BoneInfo> {
        self.bones@
    }

    open spec fn bone_count(&self) -> nat {
        self.bones@.len()
    }

    open spec fn num_frames(&self) -> nat {
        self.frame_count as nat
    }

    open spec fn poses_view(&self) -> Seq<Transform> {
        self.frame_poses@
    }

    fn bones(&self) -> (r: &[BoneInfo]) {
        self.bones.as_slice()
    }

    fn set_bone(&mut self, i: usize, b: BoneInfo) {
        self.bones.set(i, b);
    }

    fn frame_poses(&self) -> (r: Vec<Vec<Transform>>) {
        let bc = self.bones.len();
        let fc = self.frame_count;
        let n = self.frame_poses.len();
        let mut top: Vec<Vec<Transform>> = Vec::new();
        let mut i: usize = 0;
        while i < fc
            invariant
                self.wf(),
                bc == self.bone_count(),
                fc == self.num_frames(),
                n == self.poses_view().len(),
                i <= fc,
                top@.len() == i,
                forall|k: int| 0 <= k < i ==> #[trigger] top@[k]@.len() == bc,
                forall|k: int, j: int|
                    0 <= k < i && 0 <= j < bc ==> #[trigger] top@[k]@[j] == self.poses_view()[k * bc
                        + j],
            decreases fc - i,
        {
            let mut row: Vec<Transform> = Vec::new();
            let mut j: usize = 0;
            while j < bc
                invariant
                    self.wf(),
                    bc == self.bone_count(),
                    fc == self.num_frames(),
                    n == self.poses_view().len(),
                    i < fc,
                    j <= bc,
                    row@.len() == j,
                    forall|l: int| 0 <= l < j ==> #[trigger] row@[l] == self.poses_view()[i * bc
                        + l],
                decreases bc - j,
            {
                proof {
                    assert(i * bc + j < fc * bc) by (nonlinear_arith)
                        requires
                            i < fc,
                            j < bc,
                    ;
                }
                let idx: usize = i * bc + j;
                row.push(self.frame_poses[idx]);
                j = j + 1;
            }
            top.push(row);
            i = i + 1;
        }
        top
    }

    fn set_frame_pose(&mut self, frame: usize, bone: usize, pose: Transform) {
        let bc = self.bones.len();
        let fc = self.frame_count;
        let n = self.frame_poses.len();
        proof {
            assert(frame * bc + bone < fc * bc) by (nonlinear_arith)
                requires
                    frame < fc,
                    bone < bc,
            ;
            assert(fc * bc == n);
        }
        let idx: usize = frame * bc + bone;
        self.frame_poses.set(idx, pose);
    }
}

impl ModelAnimation {
    /// Assemble an animation from its skeleton and a full frame-major pose
    /// table.
    pub fn new(bones: Vec<BoneInfo>, frame_count: usize, frame_poses: Vec<Transform>) -> (a:
        ModelAnimation)
        requires
            frame_poses@.len() == frame_count * bones@.len(),
        ensures
            a.wf(),
            a.bones_view() == bones@,
            a.num_frames() == frame_count,
            a.poses_view() == frame_poses@,
    {
        ModelAnimation { bones, frame_count, frame_poses }
    }
}

/// Wrap the animations read from a model file, rejecting an empty load: the
/// native loader reports a zero count by handing nothing back.
pub fn load_model_animations(filename: &str, anims: Vec<ModelAnimation>) -> (r: Result<
    Vec<ModelAnimation>,
    String,
>)
    ensures
        r is Ok <==> anims@.len() > 0,
        r matches Ok(v) ==> v@ == anims@,
        r matches Err(e) ==> e@ == "No model animations loaded from "@ + filename@,
{
    if anims.len() == 0 {
        let mut msg: String = "No model animations loaded from ".to_owned();
        msg.append(filename);
        Err(msg)
    } else {
        Ok(anims)
    }
}

} // verus!
