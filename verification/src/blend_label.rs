//! The name label attached to authored objects.

use vstd::prelude::*;

verus! {

/// Component that carries the authored name of the object.
#[derive(PartialEq, Eq, Debug)]
pub struct BlendLabel {
    pub name: String,
}

impl Default for BlendLabel {
    fn default() -> (r: Self)
        ensures
            r.name@ == Seq::<char>::empty(),
    {
        BlendLabel { name: String::new() }
    }
}

} // verus!
