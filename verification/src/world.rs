//! The entity/component state the resolution passes transform.
//!
//! The host owns entity identity and storage; the pipeline only reads and
//! writes component sets. This model keeps, per entity, exactly the
//! components the pipeline touches: the spatial transform it reads, the five
//! transient descriptors it consumes, and the resolved components and
//! handles it attaches. Each descriptor kind is in one of two states per
//! entity: pending (descriptor present, nothing resolved) or resolved
//! (descriptor gone, its counterpart present); a pass moves every pending
//! entity to resolved in one step, and entities never move back.

use crate::assets::Handle;
use crate::blend_collection::BlendCollectionLoader;
use crate::blend_label::BlendLabel;
use crate::blend_material::BlendMaterialLoader;
use crate::blend_mesh::BlendMeshLoader;
use crate::rapier_physics::{
    ColliderComponents, ColliderDescription, RigidBodyComponents, RigidBodyDescription,
};
use crate::scalars::Transform;
use vstd::prelude::*;

verus! {

/// One live entity as the pipeline sees it.
pub struct EntityRecord {
    /// The entity's pose; rigid-body resolution captures it as the body's
    /// initial pose.
    pub transform: Transform,
    /// The authored name, if any. No pass touches it.
    pub label: Option<BlendLabel>,
    /// Pending mesh load, consumed by the mesh loader pass.
    pub mesh_loader: Option<BlendMeshLoader>,
    /// Pending material load, consumed by the material loader pass.
    pub material_loader: Option<BlendMaterialLoader>,
    /// Pending nested-scene spawn, consumed by the collection loader pass.
    pub collection_loader: Option<BlendCollectionLoader>,
    /// Pending rigid body, consumed by the body resolution pass.
    pub body_description: Option<RigidBodyDescription>,
    /// Pending collider, consumed by the collider resolution pass.
    pub collider_description: Option<ColliderDescription>,
    /// Forward reference to the entity's mesh asset, once requested.
    pub mesh_handle: Option<Handle>,
    /// Forward reference to the entity's material asset, once requested.
    pub material_handle: Option<Handle>,
    /// The resolved rigid-body component set, once resolved.
    pub body: Option<RigidBodyComponents>,
    /// The resolved collider component set, once resolved.
    pub collider: Option<ColliderComponents>,
}

impl EntityRecord {
    /// A bare entity: a pose and nothing else.
    pub fn new(transform: Transform) -> (r: EntityRecord)
        ensures
            r.transform == transform,
            r.label is None,
            r.mesh_loader is None,
            r.material_loader is None,
            r.collection_loader is None,
            r.body_description is None,
            r.collider_description is None,
            r.mesh_handle is None,
            r.material_handle is None,
            r.body is None,
            r.collider is None,
    {
        EntityRecord {
            transform,
            label: None,
            mesh_loader: None,
            material_loader: None,
            collection_loader: None,
            body_description: None,
            collider_description: None,
            mesh_handle: None,
            material_handle: None,
            body: None,
            collider: None,
        }
    }
}

/// The live entities, indexed by position. The host assigns identity; the
/// pipeline never creates or destroys entries, it only rewrites components.
pub struct World {
    pub entities: Vec<EntityRecord>,
}

impl World {
    /// An empty world.
    pub fn new() -> (r: World)
        ensures
            r.entities@ == Seq::<EntityRecord>::empty(),
    {
        World { entities: Vec::new() }
    }

    /// Adds an entity, returning its index.
    pub fn push_entity(&mut self, e: EntityRecord) -> (idx: usize)
        ensures
            final(self).entities@ == old(self).entities@.push(e),
            idx == old(self).entities@.len(),
    {
        let idx = self.entities.len();
        self.entities.push(e);
        idx
    }
}

} // verus!
