//! Models: the components read out of a native model handle, and the
//! load-time validity decisions.
//!
//! The native loader returns a struct of component pointers; a pointer that
//! came back null means the component is absent. Loading translates the
//! native sentinel pattern into an error, exactly as the binding layer does:
//! a model file load fails only when every component is absent, a
//! model-from-mesh load fails when either the meshes or the materials are.

use crate::animation::{ModelAnimation, RaylibModelAnimation};
use crate::material::{Material, RaylibMaterial};
use crate::mesh::{Mesh, RaylibMesh};
use crate::types::{BoneInfo, Transform};
use vstd::prelude::*;
use vstd::string::StringExecFns;

verus! {

/// What the native loader handed back: each component is `None` where its
/// pointer came back null.
pub struct ModelDesc {
    pub meshes: Option<Vec<Mesh>>,
    pub materials: Option<Vec<Material>>,
    pub bones: Option<Vec<BoneInfo>>,
    pub bind_pose: Option<Transform>,
}

impl ModelDesc {
    /// Every mesh and material present is itself well-formed.
    pub open spec fn wf(&self) -> bool {
        &&& (self.meshes matches Some(v) ==> forall|i: int|
            0 <= i < v@.len() ==> #[trigger] v@[i].wf())
        &&& (self.materials matches Some(v) ==> forall|i: int|
            0 <= i < v@.len() ==> #[trigger] v@[i].wf())
    }
}

/// The contents of an optionally-present native array: absent means empty.
pub open spec fn opt_vec_view<T>(o: Option<Vec<T>>) -> Seq<T> {
    match o {
        Some(v) => v@,
        None => Seq::empty(),
    }
}

/// An optionally-present native array, as an optional sequence.
pub open spec fn opt_seq_view<T>(o: Option<Vec<T>>) -> Option<Seq<T>> {
    match o {
        Some(v) => Some(v@),
        None => None,
    }
}

/// A model file load fails exactly when every component pointer of the
/// returned handle is null.
pub open spec fn model_load_failed(desc: ModelDesc) -> bool {
    &&& desc.meshes is None
    &&& desc.materials is None
    &&& desc.bones is None
    &&& desc.bind_pose is None
}

/// A model: its meshes, materials, and optional skeleton and bind pose.
pub struct Model {
    pub meshes: Vec<Mesh>,
    pub materials: Vec<Material>,
    pub bones: Option<Vec<BoneInfo>>,
    pub bind_pose: Option<Transform>,
}

/// Read access to a model's components, and the skeleton-match check.
pub trait RaylibModel: Sized {
    /// Every mesh and material of the model is itself well-formed.
    spec fn wf(&self) -> bool;

    spec fn meshes_view(&self) -> Seq<Mesh>;

    spec fn materials_view(&self) -> Seq<Material>;

    spec fn bones_view(&self) -> Option<Seq<BoneInfo>>;

    spec fn bind_pose_view(&self) -> Option<Transform>;

    /// The number of bones: zero when the model has no skeleton.
    spec fn bone_count(&self) -> nat;

    fn meshes(&self) -> (r: &[Mesh])
        ensures
            r@ == self.meshes_view(),
    ;

    fn materials(&self) -> (r: &[Material])
        ensures
            r@ == self.materials_view(),
    ;

    fn bones(&self) -> (r: Option<&[BoneInfo]>)
        ensures
            r is Some <==> self.bones_view() is Some,
            r matches Some(b) ==> self.bones_view() == Some(b@) && b@.len() == self.bone_count(),
    ;

    fn bind_pose(&self) -> (r: Option<&Transform>)
        ensures
            r is Some <==> self.bind_pose_view() is Some,
            r matches Some(t) ==> self.bind_pose_view() == Some(*t),
    ;

    /// Overwrite one bone of a model that has a skeleton, leaving everything
    /// else unchanged.
    fn set_bone(&mut self, i: usize, b: BoneInfo)
        requires
            old(self).bones_view() is Some,
            i < old(self).bone_count(),
        ensures
            old(self).wf() ==> final(self).wf(),
            final(self).bones_view() matches Some(s) && old(self).bones_view() matches Some(
                t,
            ) && s == t.update(i as int, b),
            final(self).bone_count() == old(self).bone_count(),
            final(self).meshes_view() == old(self).meshes_view(),
            final(self).materials_view() == old(self).materials_view(),
            final(self).bind_pose_view() == old(self).bind_pose_view(),
    ;

    /// Overwrite the model's bind pose, leaving everything else unchanged.
    fn set_bind_pose(&mut self, t: Transform)
        ensures
            old(self).wf() ==> final(self).wf(),
            final(self).bind_pose_view() == Some(t),
            final(self).meshes_view() == old(self).meshes_view(),
            final(self).materials_view() == old(self).materials_view(),
            final(self).bones_view() == old(self).bones_view(),
    ;

    /// Whether an animation's skeleton matches the model's: the native
    /// check compares the two bone counts.
    fn is_model_animation_valid(&self, anim: &ModelAnimation) -> (r: bool)
        ensures
            r == (self.bone_count() == anim.bone_count()),
    ;
}

impl RaylibModel for Model {
    open spec fn wf(&self) -> bool {
        &&& (forall|i: int| 0 <= i < self.meshes@.len() ==> #[trigger] self.meshes@[i].wf())
        &&& (forall|i: int| 0 <= i < self.materials@.len() ==> #[trigger] self.materials@[i].wf())
    }

    open spec fn meshes_view(&self) -> Seq<Mesh> {
        self.meshes@
    }

    open spec fn materials_view(&self) -> Seq<Material> {
        self.materials@
    }

    open spec fn bones_view(&self) -> Option<Seq<BoneInfo>> {
        opt_seq_view(self.bones)
    }

    open spec fn bind_pose_view(&self) -> Option<Transform> {
        self.bind_pose
    }

    open spec fn bone_count(&self) -> nat {
        match self.bones {
            Some(v) => v@.len(),
            None => 0,
        }
    }

    fn meshes(&self) -> (r: &[Mesh]) {
        self.meshes.as_slice()
    }

    fn materials(&self) -> (r: &[Material]) {
        self.materials.as_slice()
    }

    fn bones(&self) -> (r: Option<&[BoneInfo]>) {
        match &self.bones {
            Some(v) => Some(v.as_slice()),
            None => None,
        }
    }

    fn bind_pose(&self) -> (r: Option<&Transform>) {
        match &self.bind_pose {
            Some(t) => Some(t),
            None => None,
        }
    }

    fn set_bone(&mut self, i: usize, b: BoneInfo) {
        match &mut self.bones {
            Some(v) => {
                v.set(i, b);
            },
            None => {
            },
        }
    }

    fn set_bind_pose(&mut self, t: Transform) {
        self.bind_pose = Some(t);
    }

    fn is_model_animation_valid(&self, anim: &ModelAnimation) -> (r: bool) {
        let model_bones: usize = match &self.bones {
            Some(v) => v.len(),
            None => 0,
        };
        model_bones == anim.bones().len()
    }
}

/// Wrap what the native model-file loader handed back, rejecting a handle
/// whose every component pointer came back null.
pub fn load_model(filename: &str, desc: ModelDesc) -> (r: Result<Model, String>)
    requires
        desc.wf(),
    ensures
        r is Err <==> model_load_failed(desc),
        r matches Err(e) ==> e@ == "could not load model "@ + filename@,
        r matches Ok(m) ==> {
            &&& m.wf()
            &&& m.meshes_view() == opt_vec_view(desc.meshes)
            &&& m.materials_view() == opt_vec_view(desc.materials)
            &&& m.bones_view() == opt_seq_view(desc.bones)
            &&& m.bind_pose_view() == desc.bind_pose
        },
{
    let ModelDesc { meshes, materials, bones, bind_pose } = desc;
    if meshes.is_none() && materials.is_none() && bones.is_none() && bind_pose.is_none() {
        let mut msg: String = "could not load model ".to_owned();
        msg.append(filename);
        return Err(msg);
    }
    let meshes: Vec<Mesh> = match meshes {
        Some(v) => v,
        None => Vec::new(),
    };
    let materials: Vec<Material> = match materials {
        Some(v) => v,
        None => Vec::new(),
    };
    Ok(Model { meshes, materials, bones, bind_pose })
}

/// Wrap what the native model-from-mesh loader handed back, rejecting a
/// handle whose meshes or materials pointer came back null.
pub fn load_model_from_mesh(desc: ModelDesc) -> (r: Result<Model, String>)
    requires
        desc.wf(),
    ensures
        r is Err <==> (desc.meshes is None || desc.materials is None),
        r matches Err(e) ==> e@ == "Could not load model from mesh"@,
        r matches Ok(m) ==> {
            &&& m.wf()
            &&& m.meshes_view() == opt_vec_view(desc.meshes)
            &&& m.materials_view() == opt_vec_view(desc.materials)
            &&& m.bones_view() == opt_seq_view(desc.bones)
            &&& m.bind_pose_view() == desc.bind_pose
        },
{
    let ModelDesc { meshes, materials, bones, bind_pose } = desc;
    if meshes.is_none() || materials.is_none() {
        return Err("Could not load model from mesh".to_owned());
    }
    let meshes: Vec<Mesh> = match meshes {
        Some(v) => v,
        None => Vec::new(),
    };
    let materials: Vec<Material> = match materials {
        Some(v) => v,
        None => Vec::new(),
    };
    Ok(Model { meshes, materials, bones, bind_pose })
}

} // verus!
