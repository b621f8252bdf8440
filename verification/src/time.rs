//! Points in time, relative to the start of the clock that measures them.
use vstd::prelude::*;

verus! {

/// A point in time, as the number of microseconds since the clock started.
#[derive(Clone, Copy, Debug, PartialEq, Eq, Structural, Hash)]
pub struct Timestamp {
    pub micros: u64,
}

} // verus!
