//! Application protocol error codes.
use crate::varint::VarInt;
use vstd::prelude::*;

verus! {

/// An error code defined by the application protocol, carried by a
/// CONNECTION_CLOSE frame of type 0x1d.
#[derive(Clone, Copy, Debug, PartialEq, Eq, Structural, Hash)]
pub struct Error(pub VarInt);

} // verus!
