//! Whether a frame probes a new path (RFC 9000, section 9.1): a packet is a
//! probing packet only when all of its frames are probing frames.
use vstd::prelude::*;

verus! {

/// Describes if a frame is probing
#[derive(Clone, Copy, Debug, PartialEq, Eq, Structural, Hash)]
pub enum Probe {
    NonProbing,
    Probing,
}

impl Probe {
    /// Returns true if the `Probe` is set to `Probing`
    pub fn is_probing(self) -> (r: bool)
        ensures
            r == (self == Probe::Probing),
    {
        matches!(self, Self::Probing)
    }
}

/// Combining: probing only when both are probing.
pub open spec fn spec_probe_or(a: Probe, b: Probe) -> Probe {
    if a == Probe::Probing && b == Probe::Probing {
        Probe::Probing
    } else {
        Probe::NonProbing
    }
}

impl core::ops::BitOr<Probe> for Probe {
    type Output = Self;

    fn bitor(self, rhs: Self) -> (r: Self) {
        match (self, rhs) {
            (Self::Probing, Self::Probing) => Self::Probing,
            (_, _) => Self::NonProbing,
        }
    }
}

impl vstd::std_specs::ops::BitOrSpecImpl<Probe> for Probe {
    open spec fn obeys_bitor_spec() -> bool {
        true
    }

    open spec fn bitor_req(self, rhs: Probe) -> bool {
        true
    }

    open spec fn bitor_spec(self, rhs: Probe) -> Probe {
        spec_probe_or(self, rhs)
    }
}

impl core::ops::BitOrAssign<Probe> for Probe {
    fn bitor_assign(&mut self, rhs: Self)
        ensures
            *final(self) == spec_probe_or(*old(self), rhs),
    {
        *self = *self | rhs;
    }
}

/// Trait to retrieve if a frame is probing
pub trait PathProbing {
    fn probe(&self) -> (r: Probe)
        default_ensures
            r == Probe::NonProbing,
    {
        Probe::NonProbing
    }
}

impl<A> PathProbing for crate::frame::Ack<A> {}

impl<'a> PathProbing for crate::frame::ConnectionClose<'a> {}

impl<Data> PathProbing for crate::frame::Crypto<Data> {}

impl PathProbing for crate::frame::DataBlocked {}

impl PathProbing for crate::frame::HandshakeDone {}

impl PathProbing for crate::frame::MaxData {}

impl PathProbing for crate::frame::MaxStreamData {}

impl PathProbing for crate::frame::MaxStreams {}

impl<'a> PathProbing for crate::frame::NewConnectionId<'a> {
    fn probe(&self) -> (r: Probe)
        ensures
            r == Probe::Probing,
    {
        Probe::Probing
    }
}

impl<'a> PathProbing for crate::frame::NewToken<'a> {}

impl PathProbing for crate::frame::Padding {
    fn probe(&self) -> (r: Probe)
        ensures
            r == Probe::Probing,
    {
        Probe::Probing
    }
}

impl<'a> PathProbing for crate::frame::PathChallenge<'a> {
    fn probe(&self) -> (r: Probe)
        ensures
            r == Probe::Probing,
    {
        Probe::Probing
    }
}

impl<'a> PathProbing for crate::frame::PathResponse<'a> {
    fn probe(&self) -> (r: Probe)
        ensures
            r == Probe::Probing,
    {
        Probe::Probing
    }
}

/// Combining two values with `|` gives `Probing` exactly when both are
/// `Probing`: the operation is commutative and associative, `Probing` leaves
/// a value unchanged, and `NonProbing` absorbs any value.
pub proof fn lemma_probe_or(a: Probe, b: Probe, c: Probe)
    ensures
        spec_probe_or(a, b) == Probe::Probing <==> (a == Probe::Probing && b == Probe::Probing),
        spec_probe_or(a, b) == spec_probe_or(b, a),
        spec_probe_or(spec_probe_or(a, b), c) == spec_probe_or(a, spec_probe_or(b, c)),
        spec_probe_or(a, Probe::Probing) == a,
        spec_probe_or(a, Probe::NonProbing) == Probe::NonProbing,
        spec_probe_or(a, a) == a,
{
}

} // verus!
