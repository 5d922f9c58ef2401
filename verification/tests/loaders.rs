use blend_load::blend_collection::{blend_collection_loader, BlendCollectionLoader};
use blend_load::blend_material::{
    blend_material_loader, AlphaMode, BlendAlphaMode, BlendMaterialAssetLoader,
    BlendMaterialLoader, BlenderStandardMaterial,
};
use blend_load::blend_mesh::{blend_mesh_loader, BlendMeshLoader};
use blend_load::rapier_physics::{ColliderDescription, RigidBody, ShapeError};
use blend_load::scalars::{ColorBits, IVec3, QuatBits, Transform, Vec3Bits};
use blend_load::world::{EntityRecord, World};
use blend_load::BlendLoadPlugin;

fn bits(x: f32) -> u32 {
    x.to_bits()
}

fn identity_transform() -> Transform {
    Transform {
        translation: Vec3Bits { x: bits(0.0), y: bits(0.0), z: bits(0.0) },
        rotation: QuatBits::identity(),
    }
}

fn color(r: f32, g: f32, b: f32, a: f32) -> ColorBits {
    ColorBits { red: bits(r), green: bits(g), blue: bits(b), alpha: bits(a) }
}

fn plain_material(alpha_mode: BlendAlphaMode) -> BlenderStandardMaterial {
    BlenderStandardMaterial {
        base_color: color(0.8, 0.7, 0.6, 1.0),
        base_color_texture: None,
        emissive: color(0.0, 0.0, 0.0, 1.0),
        emissive_texture: None,
        perceptual_roughness: bits(0.4),
        metallic: bits(0.0),
        metallic_roughness_texture: None,
        reflectance: bits(0.5),
        normal_map_texture: None,
        occlusion_texture: None,
        double_sided: false,
        unlit: false,
        alpha_mode,
    }
}

#[test]
fn mesh_loader_pass_attaches_a_handle_and_requests_the_load() {
    let mut w = World::new();
    let mut e = EntityRecord::new(identity_transform());
    e.mesh_loader = Some(BlendMeshLoader { path: "models/crate.mesh".to_owned() });
    w.push_entity(e);
    w.push_entity(EntityRecord::new(identity_transform()));
    let requests = blend_mesh_loader(&mut w);
    assert_eq!(requests.len(), 1);
    assert_eq!(requests[0].entity, 0);
    assert_eq!(requests[0].path, "models/crate.mesh");
    assert!(w.entities[0].mesh_loader.is_none());
    assert_eq!(
        w.entities[0].mesh_handle.as_ref().map(|h| h.path.as_str()),
        Some("models/crate.mesh")
    );
    assert!(w.entities[1].mesh_handle.is_none());
}

#[test]
fn material_loader_pass_attaches_a_handle_and_requests_the_load() {
    let mut w = World::new();
    w.push_entity(EntityRecord::new(identity_transform()));
    let mut e = EntityRecord::new(identity_transform());
    e.material_loader = Some(BlendMaterialLoader { path: "materials/steel.material".to_owned() });
    w.push_entity(e);
    let requests = blend_material_loader(&mut w);
    assert_eq!(requests.len(), 1);
    assert_eq!(requests[0].entity, 1);
    assert_eq!(requests[0].path, "materials/steel.material");
    assert!(w.entities[1].material_loader.is_none());
    assert_eq!(
        w.entities[1].material_handle.as_ref().map(|h| h.path.as_str()),
        Some("materials/steel.material")
    );
}

#[test]
fn collection_loader_pass_requests_a_parented_spawn() {
    let mut w = World::new();
    let mut e = EntityRecord::new(identity_transform());
    e.collection_loader = Some(BlendCollectionLoader { path: "scenes/props.scn".to_owned() });
    w.push_entity(e);
    let requests = blend_collection_loader(&mut w);
    assert_eq!(requests.len(), 1);
    assert_eq!(requests[0].parent, 0);
    assert_eq!(requests[0].path, "scenes/props.scn");
    assert!(w.entities[0].collection_loader.is_none());
    // a second pass has nothing left to consume
    let again = blend_collection_loader(&mut w);
    assert!(again.is_empty());
}

#[test]
fn material_record_resolves_with_its_dependencies_in_order() {
    let mut m = plain_material(BlendAlphaMode::Mask(bits(0.25)));
    m.base_color_texture = Some("textures/albedo.png".to_owned());
    m.normal_map_texture = Some("textures/normal.png".to_owned());
    let loader = BlendMaterialAssetLoader;
    let (params, deps) = loader.load(m);
    assert_eq!(deps, vec!["textures/albedo.png", "textures/normal.png"]);
    assert_eq!(
        params.base_color_texture.as_ref().map(|h| h.path.as_str()),
        Some("textures/albedo.png")
    );
    assert_eq!(
        params.normal_map_texture.as_ref().map(|h| h.path.as_str()),
        Some("textures/normal.png")
    );
    assert!(params.emissive_texture.is_none());
    assert!(params.metallic_roughness_texture.is_none());
    assert!(params.occlusion_texture.is_none());
    assert_eq!(params.base_color, color(0.8, 0.7, 0.6, 1.0));
    assert_eq!(params.perceptual_roughness, bits(0.4));
    assert_eq!(params.reflectance, bits(0.5));
    assert_eq!(params.alpha_mode, AlphaMode::Mask(bits(0.25)));
    assert_eq!(loader.extensions(), "material");
}

#[test]
fn opaque_and_blend_alpha_modes_copy_through() {
    let loader = BlendMaterialAssetLoader;
    let (params, deps) = loader.load(plain_material(BlendAlphaMode::Opaque));
    assert_eq!(params.alpha_mode, AlphaMode::Opaque);
    assert!(deps.is_empty());
    let (params, _) = loader.load(plain_material(BlendAlphaMode::Blend));
    assert_eq!(params.alpha_mode, AlphaMode::Blend);
}

fn full_scene() -> World {
    let mut w = World::new();
    let mut e0 = EntityRecord::new(identity_transform());
    e0.collection_loader = Some(BlendCollectionLoader { path: "scenes/sub.scn".to_owned() });
    w.push_entity(e0);
    let mut e1 = EntityRecord::new(identity_transform());
    e1.mesh_loader = Some(BlendMeshLoader { path: "models/a.mesh".to_owned() });
    e1.material_loader = Some(BlendMaterialLoader { path: "materials/a.material".to_owned() });
    w.push_entity(e1);
    let mut e2 = EntityRecord::new(identity_transform());
    e2.body_description = Some(blend_load::rapier_physics::RigidBodyDescription {
        body_status: 1,
        damping_angular: bits(0.0),
        damping_linear: bits(0.0),
        ccd_enable: false,
        sleep_allow: true,
        velocity_linear: Vec3Bits { x: bits(0.0), y: bits(0.0), z: bits(0.0) },
        velocity_angular: Vec3Bits { x: bits(0.0), y: bits(0.0), z: bits(0.0) },
        lock_translation: IVec3 { x: 0, y: 0, z: 0 },
        lock_rotation: IVec3 { x: 0, y: 0, z: 0 },
    });
    e2.collider_description = Some(ColliderDescription::new(
        bits(0.5),
        bits(0.0),
        false,
        bits(1.0),
        Vec3Bits { x: bits(0.0), y: bits(0.0), z: bits(0.0) },
        0,
        1.5f32.to_bits().to_le_bytes().to_vec(),
    ));
    w.push_entity(e2);
    w
}

#[test]
fn one_tick_resolves_every_descriptor_kind() {
    let mut w = full_scene();
    let plugin = BlendLoadPlugin::new();
    let out = plugin.build(&mut w).expect("tick must succeed");
    assert_eq!(out.collection_spawns.len(), 1);
    assert_eq!(out.collection_spawns[0].parent, 0);
    assert_eq!(out.collection_spawns[0].path, "scenes/sub.scn");
    assert_eq!(out.mesh_loads.len(), 1);
    assert_eq!(out.mesh_loads[0].entity, 1);
    assert_eq!(out.material_loads.len(), 1);
    assert_eq!(out.material_loads[0].entity, 1);
    for e in &w.entities {
        assert!(e.collection_loader.is_none());
        assert!(e.mesh_loader.is_none());
        assert!(e.material_loader.is_none());
        assert!(e.body_description.is_none());
        assert!(e.collider_description.is_none());
    }
    assert_eq!(w.entities[2].body.as_ref().map(|b| b.body), Some(RigidBody::Fixed));
    assert!(w.entities[2].collider.is_some());
    // a second tick finds nothing to do
    let out2 = plugin.build(&mut w).expect("second tick must succeed");
    assert!(out2.collection_spawns.is_empty());
    assert!(out2.mesh_loads.is_empty());
    assert!(out2.material_loads.is_empty());
}

fn body_and_mesh_world() -> World {
    let mut w = World::new();
    let mut e = EntityRecord::new(identity_transform());
    e.mesh_loader = Some(BlendMeshLoader { path: "models/a.mesh".to_owned() });
    e.body_description = Some(blend_load::rapier_physics::RigidBodyDescription {
        body_status: 2,
        damping_angular: bits(0.1),
        damping_linear: bits(0.2),
        ccd_enable: true,
        sleep_allow: false,
        velocity_linear: Vec3Bits { x: bits(0.0), y: bits(0.0), z: bits(0.0) },
        velocity_angular: Vec3Bits { x: bits(0.0), y: bits(0.0), z: bits(0.0) },
        lock_translation: IVec3 { x: 1, y: 0, z: 0 },
        lock_rotation: IVec3 { x: 0, y: 0, z: 0 },
    });
    w.push_entity(e);
    w
}

#[test]
fn body_and_mesh_passes_commute() {
    let mut w1 = body_and_mesh_world();
    let mut w2 = body_and_mesh_world();
    let r1 = blend_mesh_loader(&mut w1);
    blend_load::rapier_physics::body_description_to_builder(&mut w1);
    blend_load::rapier_physics::body_description_to_builder(&mut w2);
    let r2 = blend_mesh_loader(&mut w2);
    assert_eq!(r1, r2);
    let a = &w1.entities[0];
    let b = &w2.entities[0];
    assert_eq!(a.body, b.body);
    assert_eq!(a.mesh_handle, b.mesh_handle);
    assert!(a.body_description.is_none() && b.body_description.is_none());
    assert!(a.mesh_loader.is_none() && b.mesh_loader.is_none());
    assert_eq!(a.body.as_ref().map(|c| c.body), Some(RigidBody::KinematicPositionBased));
}

#[test]
fn a_bad_collider_fails_the_tick_but_other_kinds_still_resolve() {
    let mut w = full_scene();
    let mut bad = EntityRecord::new(identity_transform());
    bad.collider_description = Some(ColliderDescription::new(
        bits(0.5),
        bits(0.0),
        false,
        bits(1.0),
        Vec3Bits { x: bits(0.0), y: bits(0.0), z: bits(0.0) },
        7,
        vec![],
    ));
    w.push_entity(bad);
    let plugin = BlendLoadPlugin::new();
    let r = plugin.build(&mut w);
    assert!(matches!(r, Err(ShapeError::UnknownTag)));
    // the other descriptor kinds were consumed...
    for e in &w.entities {
        assert!(e.collection_loader.is_none());
        assert!(e.mesh_loader.is_none());
        assert!(e.material_loader.is_none());
        assert!(e.body_description.is_none());
    }
    // ...but no collider was: the collider pass commits nothing on failure
    assert!(w.entities[2].collider_description.is_some());
    assert!(w.entities[3].collider_description.is_some());
    assert!(w.entities[2].collider.is_none());
}
