use raylib::animation::{ModelAnimation, RaylibModelAnimation};
use raylib::material::{Material, MaterialMap, MaterialMapIndex, RaylibMaterial, MAX_MATERIAL_MAPS};
use raylib::mesh::{Mesh, RaylibMesh};
use raylib::model::{Model, RaylibModel};
use raylib::no_drop;
use raylib::types::{BoneInfo, Color, Shader, Texture2D, Transform, Vector3, Vector4};

fn v3(n: u32) -> Vector3 {
    Vector3 { x: n, y: n + 1, z: n + 2 }
}

fn tr(n: u32) -> Transform {
    Transform {
        translation: v3(n),
        rotation: Vector4 { x: n, y: n + 1, z: n + 2, w: n + 3 },
        scale: v3(n + 4),
    }
}

fn color(n: u8) -> Color {
    Color { r: n, g: n, b: n, a: 255 }
}

fn tex(id: u32) -> Texture2D {
    Texture2D { id, width: 4, height: 4, mipmaps: 1, format: 7 }
}

fn map(n: u32) -> MaterialMap {
    MaterialMap { texture: tex(n), color: color(2), value: n }
}

fn material(id: u32) -> Material {
    Material::new(
        Shader { id, locs: vec![3, 1, 4] },
        (0..MAX_MATERIAL_MAPS as u32).map(map).collect(),
    )
}

fn bone(parent: i32) -> BoneInfo {
    BoneInfo { name: [7u8; 32], parent }
}

#[test]
fn mesh_buffers_come_back_as_given() {
    let m = Mesh::new(
        vec![v3(0), v3(3)],
        vec![v3(10), v3(13)],
        vec![v3(20), v3(23)],
        vec![color(1), color(2)],
        vec![5u16, 6u16],
    );
    assert_eq!(m.vertices(), &[v3(0), v3(3)][..]);
    assert_eq!(m.normals(), &[v3(10), v3(13)][..]);
    assert_eq!(m.tangents(), &[v3(20), v3(23)][..]);
    assert_eq!(m.colors(), &[color(1), color(2)][..]);
    assert_eq!(m.indicies(), &[5u16, 6u16][..]);
}

#[test]
fn mesh_set_vertex_touches_one_entry() {
    let mut m = Mesh::new(
        vec![v3(0), v3(3)],
        vec![v3(10), v3(13)],
        vec![v3(20), v3(23)],
        vec![color(1), color(2)],
        vec![5u16, 6u16],
    );
    m.set_vertex(1, v3(99));
    assert_eq!(m.vertices(), &[v3(0), v3(99)][..]);
    assert_eq!(m.normals(), &[v3(10), v3(13)][..]);
}

#[test]
fn material_map_table_has_every_slot() {
    let m = material(8);
    assert_eq!(m.maps().len(), MAX_MATERIAL_MAPS);
    assert_eq!(m.shader().id, 8);
    assert_eq!(m.shader().locs, vec![3, 1, 4]);
    assert_eq!(m.maps()[10], map(10));
}

#[test]
fn set_material_texture_changes_only_its_slot() {
    let mut m = material(8);
    m.set_material_texture(MaterialMapIndex::Normal, tex(77));
    assert_eq!(m.maps()[2].texture, tex(77));
    assert_eq!(m.maps()[2].color, color(2));
    assert_eq!(m.maps()[2].value, 2);
    for i in 0..MAX_MATERIAL_MAPS {
        if i != 2 {
            assert_eq!(m.maps()[i], map(i as u32));
        }
    }
    assert_eq!(m.shader().id, 8);
}

#[test]
fn material_map_accessors_and_setters() {
    let mut mm = map(3);
    assert_eq!(*mm.texture(), tex(3));
    assert_eq!(*mm.color(), color(2));
    assert_eq!(*mm.value(), 3);
    mm.set_texture(tex(9));
    mm.set_color(color(5));
    mm.set_value(42);
    assert_eq!(mm, MaterialMap { texture: tex(9), color: color(5), value: 42 });
}

#[test]
fn frame_poses_recovers_the_frame_rows() {
    let flat = vec![tr(0), tr(1), tr(2), tr(10), tr(11), tr(12)];
    let a = ModelAnimation::new(vec![bone(-1), bone(0), bone(1)], 2, flat);
    let rows = a.frame_poses();
    assert_eq!(rows.len(), 2);
    assert_eq!(rows[0], vec![tr(0), tr(1), tr(2)]);
    assert_eq!(rows[1], vec![tr(10), tr(11), tr(12)]);
}

#[test]
fn frame_poses_of_a_frameless_animation_is_empty() {
    let a = ModelAnimation::new(vec![bone(-1)], 0, Vec::new());
    assert_eq!(a.frame_poses().len(), 0);
}

#[test]
fn set_frame_pose_touches_one_pose() {
    let flat = vec![tr(0), tr(1), tr(2), tr(10), tr(11), tr(12)];
    let mut a = ModelAnimation::new(vec![bone(-1), bone(0), bone(1)], 2, flat);
    a.set_frame_pose(1, 2, tr(50));
    let rows = a.frame_poses();
    assert_eq!(rows[0], vec![tr(0), tr(1), tr(2)]);
    assert_eq!(rows[1], vec![tr(10), tr(11), tr(50)]);
}

#[test]
fn animation_bones_and_set_bone() {
    let mut a = ModelAnimation::new(vec![bone(-1), bone(0)], 0, Vec::new());
    assert_eq!(a.bones().len(), 2);
    assert_eq!(a.bones()[1].parent, 0);
    a.set_bone(1, bone(5));
    assert_eq!(a.bones()[1].parent, 5);
    assert_eq!(a.bones()[0].parent, -1);
}

#[test]
fn skeleton_match_compares_bone_counts() {
    let model = Model {
        meshes: Vec::new(),
        materials: Vec::new(),
        bones: Some(vec![bone(-1), bone(0)]),
        bind_pose: Some(tr(1)),
    };
    let matching = ModelAnimation::new(vec![bone(-1), bone(0)], 0, Vec::new());
    let other = ModelAnimation::new(vec![bone(-1)], 0, Vec::new());
    assert!(model.is_model_animation_valid(&matching));
    assert!(!model.is_model_animation_valid(&other));
}

#[test]
fn boneless_model_matches_boneless_animation() {
    let model =
        Model { meshes: Vec::new(), materials: Vec::new(), bones: None, bind_pose: None };
    let boneless = ModelAnimation::new(Vec::new(), 0, Vec::new());
    let boned = ModelAnimation::new(vec![bone(-1)], 0, Vec::new());
    assert!(model.is_model_animation_valid(&boneless));
    assert!(!model.is_model_animation_valid(&boned));
}

#[test]
fn model_set_bone_and_set_bind_pose() {
    let mut model = Model {
        meshes: Vec::new(),
        materials: Vec::new(),
        bones: Some(vec![bone(-1), bone(0)]),
        bind_pose: None,
    };
    model.set_bone(0, bone(9));
    assert_eq!(model.bones().unwrap()[0].parent, 9);
    assert_eq!(model.bones().unwrap()[1].parent, 0);
    assert!(model.bind_pose().is_none());
    model.set_bind_pose(tr(4));
    assert_eq!(*model.bind_pose().unwrap(), tr(4));
}

#[test]
fn no_drop_consumes_without_effect() {
    let v = vec![1u8, 2u8];
    no_drop(v);
    no_drop(5u64);
}
