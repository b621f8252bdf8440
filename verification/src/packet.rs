//! Packet number spaces and packet numbers.
use vstd::prelude::*;

verus! {

/// The three independent packet number spaces of a QUIC connection.
#[derive(Clone, Copy, Debug, PartialEq, Eq, Structural, Hash)]
pub enum PacketNumberSpace {
    Initial,
    Handshake,
    ApplicationData,
}

/// A packet number within the space it belongs to.
#[derive(Clone, Copy, Debug, PartialEq, Eq, Structural, Hash)]
pub struct PacketNumber {
    pub space: PacketNumberSpace,
    pub value: u64,
}

impl PacketNumber {
    pub fn space(&self) -> (r: PacketNumberSpace)
        ensures
            r == self.space,
    {
        self.space
    }

    pub fn as_u64(&self) -> (r: u64)
        ensures
            r == self.value,
    {
        self.value
    }
}

} // verus!
