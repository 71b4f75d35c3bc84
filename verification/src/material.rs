//! Materials: a shader reference plus a fixed table of material maps.
//!
//! The native library gives every material the same fixed number of map
//! slots; a material here keeps that table as a vector whose length is pinned
//! by the well-formedness predicate.

use crate::types::{Color, Shader, Texture2D};
use vstd::prelude::*;
use vstd::string::StringExecFns;

verus! {

/// Number of map slots the native library allocates per material.
pub const MAX_MATERIAL_MAPS: usize = 12;

/// One material-map slot: a texture, a tint color and a scalar value (the
/// 32-bit pattern of the native scalar).
#[derive(Clone, Copy, PartialEq, Eq, Structural, Debug)]
pub struct MaterialMap {
    pub texture: Texture2D,
    pub color: Color,
    pub value: u32,
}

/// The kind of a material map, in the slot order the native library uses.
#[derive(Clone, Copy, PartialEq, Eq, Structural, Debug)]
pub enum MaterialMapIndex {
    Albedo,
    Metalness,
    Normal,
    Roughness,
    Occlusion,
    Emission,
    Height,
    Cubemap,
    Irradiance,
    Prefilter,
    Brdf,
}

impl MaterialMapIndex {
    /// The slot this kind of map occupies in a material's map table.
    pub open spec fn spec_slot(self) -> int {
        match self {
            MaterialMapIndex::Albedo => 0,
            MaterialMapIndex::Metalness => 1,
            MaterialMapIndex::Normal => 2,
            MaterialMapIndex::Roughness => 3,
            MaterialMapIndex::Occlusion => 4,
            MaterialMapIndex::Emission => 5,
            MaterialMapIndex::Height => 6,
            MaterialMapIndex::Cubemap => 7,
            MaterialMapIndex::Irradiance => 8,
            MaterialMapIndex::Prefilter => 9,
            MaterialMapIndex::Brdf => 10,
        }
    }

    pub fn slot(self) -> (i: usize)
        ensures
            i == self.spec_slot(),
            i < MAX_MATERIAL_MAPS,
    {
        match self {
            MaterialMapIndex::Albedo => 0,
            MaterialMapIndex::Metalness => 1,
            MaterialMapIndex::Normal => 2,
            MaterialMapIndex::Roughness => 3,
            MaterialMapIndex::Occlusion => 4,
            MaterialMapIndex::Emission => 5,
            MaterialMapIndex::Height => 6,
            MaterialMapIndex::Cubemap => 7,
            MaterialMapIndex::Irradiance => 8,
            MaterialMapIndex::Prefilter => 9,
            MaterialMapIndex::Brdf => 10,
        }
    }
}

impl MaterialMap {
    pub fn texture(&self) -> (r: &Texture2D)
        ensures
            *r == self.texture,
    {
        &self.texture
    }

    pub fn color(&self) -> (r: &Color)
        ensures
            *r == self.color,
    {
        &self.color
    }

    /// The 32-bit pattern of the slot's scalar value.
    pub fn value(&self) -> (r: &u32)
        ensures
            *r == self.value,
    {
        &self.value
    }

    pub fn set_texture(&mut self, t: Texture2D)
        ensures
            final(self).texture == t,
            final(self).color == old(self).color,
            final(self).value == old(self).value,
    {
        self.texture = t;
    }

    pub fn set_color(&mut self, c: Color)
        ensures
            final(self).color == c,
            final(self).texture == old(self).texture,
            final(self).value == old(self).value,
    {
        self.color = c;
    }

    pub fn set_value(&mut self, v: u32)
        ensures
            final(self).value == v,
            final(self).texture == old(self).texture,
            final(self).color == old(self).color,
    {
        self.value = v;
    }
}

/// A material map with its texture replaced and everything else kept.
pub open spec fn with_texture(m: MaterialMap, t: Texture2D) -> MaterialMap {
    MaterialMap { texture: t, ..m }
}

/// A material: its shader and its fixed table of map slots.
#[derive(Debug)]
pub struct Material {
    pub shader: Shader,
    pub maps: Vec<MaterialMap>,
}

/// Read and write access to a material's shader and map table.
pub trait RaylibMaterial: Sized {
    /// The map table holds exactly one slot per possible map kind.
    spec fn wf(&self) -> bool;

    spec fn shader_id(&self) -> u32;

    spec fn shader_locs(&self) -> Seq<i32>;

    spec fn maps_view(&self) -> Seq<MaterialMap>;

    fn shader(&self) -> (r: &Shader)
        ensures
            r.id == self.shader_id(),
            r.locs@ == self.shader_locs(),
    ;

    fn maps(&self) -> (r: &[MaterialMap])
        requires
            self.wf(),
        ensures
            r@ == self.maps_view(),
            r@.len() == MAX_MATERIAL_MAPS,
    ;

    /// Bind a texture to the slot for the given map kind, leaving every other
    /// slot and the shader unchanged.
    fn set_material_texture(&mut self, map_type: MaterialMapIndex, texture: Texture2D)
        requires
            old(self).wf(),
        ensures
            final(self).wf(),
            final(self).maps_view() == old(self).maps_view().update(
                map_type.spec_slot(),
                with_texture(old(self).maps_view()[map_type.spec_slot()], texture),
            ),
            final(self).shader_id() == old(self).shader_id(),
            final(self).shader_locs() == old(self).shader_locs(),
    ;
}

impl RaylibMaterial for Material {
    open spec fn wf(&self) -> bool {
        self.maps@.len() == MAX_MATERIAL_MAPS
    }

    open spec fn shader_id(&self) -> u32 {
        self.shader.id
    }

    open spec fn shader_locs(&self) -> Seq<i32> {
        self.shader.locs@
    }

    open spec fn maps_view(&self) -> Seq<MaterialMap> {
        self.maps@
    }

    fn shader(&self) -> (r: &Shader) {
        &self.shader
    }

    fn maps(&self) -> (r: &[MaterialMap]) {
        self.maps.as_slice()
    }

    fn set_material_texture(&mut self, map_type: MaterialMapIndex, texture: Texture2D) {
        let i = map_type.slot();
        let m = self.maps[i];
        self.maps.set(i, MaterialMap { texture, ..m });
    }
}

impl Material {
    /// Assemble a material from a shader and a full map table.
    pub fn new(shader: Shader, maps: Vec<MaterialMap>) -> (m: Material)
        requires
            maps@.len() == MAX_MATERIAL_MAPS,
        ensures
            m.wf(),
            m.shader_id() == shader.id,
            m.shader_locs() == shader.locs@,
            m.maps_view() == maps@,
    {
        Material { shader, maps }
    }

    /// Wrap the materials read from a material file, rejecting an empty load:
    /// the native loader reports a non-positive count by handing nothing back.
    pub fn load_materials(filename: &str, loaded: Vec<Material>) -> (r: Result<
        Vec<Material>,
        String,
    >)
        ensures
            r is Ok <==> loaded@.len() > 0,
            r matches Ok(v) ==> v@ == loaded@,
            r matches Err(e) ==> e@ == "No materials loaded from "@ + filename@,
    {
        if loaded.len() == 0 {
            let mut msg: String = "No materials loaded from ".to_owned();
            msg.append(filename);
            Err(msg)
        } else {
            Ok(loaded)
        }
    }
}

} // verus!
