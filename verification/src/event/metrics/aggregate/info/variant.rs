//! Building the description of a variant.
use super::{Str, Variant};
use vstd::prelude::*;

verus! {

/// The fields of a `Variant`, before it is built.
pub struct Builder {
    pub id: usize,
    pub name: Str,
}

impl Builder {
    pub fn build(self) -> (r: Variant)
        ensures
            r.id == self.id,
            r.name == self.name,
    {
        Variant { id: self.id, name: self.name }
    }
}

} // verus!
