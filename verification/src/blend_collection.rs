//! Nested-collection descriptors: a referenced sub-scene expanded into
//! child entities.

use crate::assets::SpawnRequest;
use crate::world::{EntityRecord, World};
use vstd::prelude::*;

verus! {

/// Transient component: the path of another collection to load and spawn as
/// children of the entity that carries it.
#[derive(PartialEq, Eq, Debug)]
pub struct BlendCollectionLoader {
    pub path: String,
}

impl Default for BlendCollectionLoader {
    fn default() -> (r: Self)
        ensures
            r.path@ == Seq::<char>::empty(),
    {
        BlendCollectionLoader { path: String::new() }
    }
}

/// What the collection loader pass does to one entity: the pending spawn, if
/// any, is removed; everything else is untouched. The requested load and
/// spawn run asynchronously on the host, so the descriptor it came from is
/// gone before anything is instantiated, and a retried load can never
/// double-spawn from the same descriptor.
pub open spec fn spec_collection_step(e: EntityRecord) -> EntityRecord {
    EntityRecord { collection_loader: None, ..e }
}

/// What the collection loader pass does to the whole world.
pub open spec fn spec_collection_pass(es: Seq<EntityRecord>) -> Seq<EntityRecord> {
    Seq::new(es.len(), |i: int| spec_collection_step(es[i]))
}

/// The spawns the collection loader pass requests, scanning from entity `i`
/// on: one per pending collection loader, in entity order, each under the
/// loader's path and parented to its entity.
pub open spec fn spec_spawn_requests(es: Seq<EntityRecord>, i: int) -> Seq<SpawnRequest>
    decreases es.len() - i,
{
    if 0 <= i < es.len() {
        let rest = spec_spawn_requests(es, i + 1);
        match es[i].collection_loader {
            Some(l) => seq![SpawnRequest { parent: i as usize, path: l.path }] + rest,
            None => rest,
        }
    } else {
        Seq::empty()
    }
}

/// The collection loader pass. For every entity that carries a
/// `BlendCollectionLoader`, the component is removed and a load-and-spawn of
/// its path is requested, parented under the entity — nothing waits for the
/// scene to arrive. Entities without one, and every other component, are
/// untouched.
pub fn blend_collection_loader(w: &mut World) -> (requests: Vec<SpawnRequest>)
    ensures
        final(w).entities@ == spec_collection_pass(old(w).entities@),
        requests@ == spec_spawn_requests(old(w).entities@, 0),
{
    let ghost es0 = w.entities@;
    let n = w.entities.len();
    let mut out: Vec<EntityRecord> = Vec::with_capacity(n);
    let mut requests: Vec<SpawnRequest> = Vec::new();
    let mut i: usize = 0;
    while i < n
        invariant
            i <= n,
            n == es0.len(),
            out@.len() == i,
            w.entities@ == es0.subrange(i as int, n as int),
            forall|j: int| 0 <= j < i ==> out@[j] == spec_collection_step(es0[j]),
            requests@ + spec_spawn_requests(es0, i as int) == spec_spawn_requests(es0, 0),
        decreases n - i,
    {
        let ghost reqs_before = requests@;
        let e = w.entities.remove(0);
        proof {
            assert(w.entities@ =~= es0.subrange((i + 1) as int, n as int));
        }
        let EntityRecord {
            transform,
            label,
            mesh_loader,
            material_loader,
            collection_loader,
            body_description,
            collider_description,
            mesh_handle,
            material_handle,
            body,
            collider,
        } = e;
        match collection_loader {
            Some(l) => {
                let BlendCollectionLoader { path } = l;
                requests.push(SpawnRequest { parent: i, path });
                proof {
                    assert(reqs_before + spec_spawn_requests(es0, i as int) =~= requests@
                        + spec_spawn_requests(es0, i + 1));
                }
            },
            None => {},
        }
        out.push(
            EntityRecord {
                transform,
                label,
                mesh_loader,
                material_loader,
                collection_loader: None,
                body_description,
                collider_description,
                mesh_handle,
                material_handle,
                body,
                collider,
            },
        );
        i = i + 1;
    }
    w.entities = out;
    proof {
        assert(final(w).entities@ =~= spec_collection_pass(es0));
        assert(requests@ + spec_spawn_requests(es0, n as int) =~= requests@);
    }
    requests
}

} // verus!
