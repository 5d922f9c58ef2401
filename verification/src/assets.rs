//! Types at the seam to the asset-loading collaborator.
//!
//! The pipeline never blocks on asset bytes: it hands out requests and
//! attaches forward references. The host performs the actual loads on its
//! own schedule.

use vstd::prelude::*;

verus! {

/// An opaque forward reference to an asset, keyed by the content-addressable
/// path it was requested under. The backing data may arrive on a later tick,
/// or never; consumers must tolerate either.
#[derive(PartialEq, Eq, Debug)]
pub struct Handle {
    pub path: String,
}

/// An asynchronous load the resolution pass asks the asset collaborator to
/// start: the entity at index `entity` wants the asset at `path`.
#[derive(PartialEq, Eq, Debug)]
pub struct LoadRequest {
    pub entity: usize,
    pub path: String,
}

/// A request to load the nested scene at `path` and instantiate it under
/// the entity at index `parent`.
#[derive(PartialEq, Eq, Debug)]
pub struct SpawnRequest {
    pub parent: usize,
    pub path: String,
}

} // verus!
