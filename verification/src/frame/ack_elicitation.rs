//! Whether a frame or packet requires the peer to acknowledge it (RFC 9002,
//! section 2).
use vstd::prelude::*;

verus! {

/// Describes if a frame or packet requires an ACK from the peer
#[derive(Clone, Copy, Debug, PartialEq, Eq, Structural, Hash)]
pub enum AckElicitation {
    NonEliciting,
    Eliciting,
}

impl AckElicitation {
    /// Returns true if the `AckElicitation` is set to `Eliciting`
    pub fn is_ack_eliciting(self) -> (r: bool)
        ensures
            r == (self == AckElicitation::Eliciting),
    {
        matches!(self, Self::Eliciting)
    }
}

/// Combining: a packet elicits an ACK when any of its frames does.
pub open spec fn spec_ack_elicitation_or(a: AckElicitation, b: AckElicitation) -> AckElicitation {
    if a == AckElicitation::Eliciting || b == AckElicitation::Eliciting {
        AckElicitation::Eliciting
    } else {
        AckElicitation::NonEliciting
    }
}

impl Default for AckElicitation {
    fn default() -> (r: Self)
        ensures
            r == AckElicitation::NonEliciting,
    {
        Self::NonEliciting
    }
}

impl core::ops::BitOr<AckElicitation> for AckElicitation {
    type Output = Self;

    fn bitor(self, rhs: Self) -> (r: Self) {
        match (self, rhs) {
            (Self::Eliciting, _) => Self::Eliciting,
            (_, Self::Eliciting) => Self::Eliciting,
            (_, _) => Self::NonEliciting,
        }
    }
}

impl vstd::std_specs::ops::BitOrSpecImpl<AckElicitation> for AckElicitation {
    open spec fn obeys_bitor_spec() -> bool {
        true
    }

    open spec fn bitor_req(self, rhs: AckElicitation) -> bool {
        true
    }

    open spec fn bitor_spec(self, rhs: AckElicitation) -> AckElicitation {
        spec_ack_elicitation_or(self, rhs)
    }
}

impl core::ops::BitOrAssign<AckElicitation> for AckElicitation {
    fn bitor_assign(&mut self, rhs: Self)
        ensures
            *final(self) == spec_ack_elicitation_or(*old(self), rhs),
    {
        *self = *self | rhs;
    }
}

/// Trait to retrieve the AckElicitation for a given value
pub trait AckElicitable {
    fn ack_elicitation(&self) -> (r: AckElicitation)
        default_ensures
            r == AckElicitation::Eliciting,
    {
        AckElicitation::Eliciting
    }
}

impl<A> AckElicitable for crate::frame::Ack<A> {
    fn ack_elicitation(&self) -> (r: AckElicitation)
        ensures
            r == AckElicitation::NonEliciting,
    {
        AckElicitation::NonEliciting
    }
}

impl<'a> AckElicitable for crate::frame::ConnectionClose<'a> {
    fn ack_elicitation(&self) -> (r: AckElicitation)
        ensures
            r == AckElicitation::NonEliciting,
    {
        AckElicitation::NonEliciting
    }
}

impl<Data> AckElicitable for crate::frame::Crypto<Data> {}

impl<Data> AckElicitable for crate::frame::Datagram<Data> {}

impl AckElicitable for crate::frame::DataBlocked {}

impl AckElicitable for crate::frame::DcStatelessResetTokens {}

impl AckElicitable for crate::frame::HandshakeDone {}

impl AckElicitable for crate::frame::MaxData {}

impl AckElicitable for crate::frame::MaxStreamData {}

impl AckElicitable for crate::frame::MaxStreams {}

impl<'a> AckElicitable for crate::frame::NewConnectionId<'a> {}

impl<'a> AckElicitable for crate::frame::NewToken<'a> {}

impl AckElicitable for crate::frame::Padding {
    fn ack_elicitation(&self) -> (r: AckElicitation)
        ensures
            r == AckElicitation::NonEliciting,
    {
        AckElicitation::NonEliciting
    }
}

impl<'a> AckElicitable for crate::frame::PathChallenge<'a> {}

impl<'a> AckElicitable for crate::frame::PathResponse<'a> {}

/// Combining two values with `|` gives `Eliciting` exactly when either
/// is `Eliciting`: the operation is commutative and associative,
/// `NonEliciting` leaves a value unchanged, and `Eliciting` absorbs any value.
pub proof fn lemma_ack_elicitation_or(a: AckElicitation, b: AckElicitation, c: AckElicitation)
    ensures
        spec_ack_elicitation_or(a, b) == AckElicitation::Eliciting <==> (a
            == AckElicitation::Eliciting || b == AckElicitation::Eliciting),
        spec_ack_elicitation_or(a, b) == spec_ack_elicitation_or(b, a),
        spec_ack_elicitation_or(spec_ack_elicitation_or(a, b), c) == spec_ack_elicitation_or(
            a,
            spec_ack_elicitation_or(b, c),
        ),
        spec_ack_elicitation_or(a, AckElicitation::NonEliciting) == a,
        spec_ack_elicitation_or(a, AckElicitation::Eliciting) == AckElicitation::Eliciting,
        spec_ack_elicitation_or(a, a) == a,
{
}

} // verus!
