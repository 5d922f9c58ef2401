//! Scene-content ingestion core: a binary geometry decoder, a tagged shape
//! payload decoder, a material record resolver, and a one-shot descriptor
//! resolution pipeline that replaces transient descriptor components with
//! their native runtime counterparts.
//!
//! Scalar fields that the host simulation treats as IEEE-754 single-precision
//! values are carried here as their raw little-endian bit patterns (`u32`);
//! the pipeline never does arithmetic on them, it only moves them.

pub mod assets;
pub mod blend_collection;
pub mod blend_label;
pub mod blend_material;
pub mod blend_mesh;
pub mod rapier_physics;
pub mod scalars;
pub mod words;
pub mod world;

use crate::assets::{LoadRequest, SpawnRequest};
use crate::blend_collection::{blend_collection_loader, spec_collection_pass, spec_spawn_requests};
use crate::blend_material::{
    blend_material_loader, spec_material_loader_pass, spec_material_requests,
};
use crate::blend_mesh::{
    blend_mesh_loader, spec_mesh_loader_pass, spec_mesh_loader_step, spec_mesh_requests,
};
use crate::rapier_physics::{
    body_description_to_builder, collider_description_to_builder, spec_body_pass, spec_body_step,
    spec_collider_pass, spec_colliders_ok, spec_first_collider_error, ShapeError,
};
use crate::world::{EntityRecord, World};
use vstd::prelude::*;

verus! {

/// Everything one tick of the pipeline asks the host to do asynchronously:
/// the nested scenes to load and spawn, and the mesh and material assets to
/// load, each already tied to its entity by an attached forward reference.
pub struct TickOutput {
    pub collection_spawns: Vec<SpawnRequest>,
    pub mesh_loads: Vec<LoadRequest>,
    pub material_loads: Vec<LoadRequest>,
}

/// The pipeline itself: the fixed registry of resolution passes, run once
/// per simulation tick in registration order. The passes read disjoint
/// descriptors and write disjoint components, so the order is not load-
/// bearing; it is simply the order they are registered in.
pub struct BlendLoadPlugin {}

impl Default for BlendLoadPlugin {
    fn default() -> (r: Self)
        ensures
            r == (BlendLoadPlugin {  }),
    {
        BlendLoadPlugin {  }
    }
}

impl BlendLoadPlugin {
    pub fn new() -> (r: Self)
        ensures
            r == (BlendLoadPlugin {  }),
    {
        BlendLoadPlugin {  }
    }

    /// Runs one scheduling pass of every resolution system: collections,
    /// meshes, materials, rigid bodies, then colliders. Each pass consumes
    /// its descriptor kind everywhere at once; a collider descriptor that
    /// does not decode fails the tick after the other kinds have resolved,
    /// leaving every collider descriptor in place.
    pub fn build(&self, w: &mut World) -> (r: Result<TickOutput, ShapeError>)
        ensures
            ({
                let s0 = old(w).entities@;
                let s1 = spec_collection_pass(s0);
                let s2 = spec_mesh_loader_pass(s1);
                let s3 = spec_material_loader_pass(s2);
                let s4 = spec_body_pass(s3);
                match r {
                    Ok(out) => spec_colliders_ok(s4) && final(w).entities@ == spec_collider_pass(
                        s4,
                    ) && out.collection_spawns@ == spec_spawn_requests(s0, 0) && out.mesh_loads@
                        == spec_mesh_requests(s1, 0) && out.material_loads@
                        == spec_material_requests(s2, 0),
                    Err(e) => !spec_colliders_ok(s4) && final(w).entities@ == s4 && e
                        == spec_first_collider_error(s4),
                }
            }),
    {
        let collection_spawns = blend_collection_loader(w);
        let mesh_loads = blend_mesh_loader(w);
        let material_loads = blend_material_loader(w);
        body_description_to_builder(w);
        match collider_description_to_builder(w) {
            Ok(_) => Ok(TickOutput { collection_spawns, mesh_loads, material_loads }),
            Err(e) => Err(e),
        }
    }
}

/// Resolution of different descriptor kinds is commutative: each pass reads
/// only its own descriptor kind (plus, for rigid bodies, the transform,
/// which no pass writes) and writes only its own disjoint components, so two
/// passes leave the world the same in either order. Shown here for the
/// rigid-body and mesh loader passes.
pub proof fn lemma_body_and_mesh_passes_commute(es: Seq<EntityRecord>)
    ensures
        spec_body_pass(spec_mesh_loader_pass(es)) == spec_mesh_loader_pass(spec_body_pass(es)),
{
    let lhs = spec_body_pass(spec_mesh_loader_pass(es));
    let rhs = spec_mesh_loader_pass(spec_body_pass(es));
    assert forall|i: int| 0 <= i < es.len() implies lhs[i] == rhs[i] by {
        assert(spec_body_step(spec_mesh_loader_step(es[i])) == spec_mesh_loader_step(
            spec_body_step(es[i]),
        ));
    }
    assert(lhs =~= rhs);
}

} // verus!
