//! Whether a frame counts toward bytes in flight and is limited by the
//! congestion controller (RFC 9002, section 7).
use vstd::prelude::*;

verus! {

/// Trait to retrieve CongestionControlled for a given value
pub trait CongestionControlled {
    fn is_congestion_controlled(&self) -> (r: bool)
        default_ensures
            r,
    {
        true
    }
}

impl<A> CongestionControlled for crate::frame::Ack<A> {
    fn is_congestion_controlled(&self) -> (r: bool)
        ensures
            !r,
    {
        false
    }
}

impl<'a> CongestionControlled for crate::frame::ConnectionClose<'a> {}

impl<Data> CongestionControlled for crate::frame::Crypto<Data> {}

impl<Data> CongestionControlled for crate::frame::Datagram<Data> {}

impl CongestionControlled for crate::frame::DataBlocked {}

impl CongestionControlled for crate::frame::DcStatelessResetTokens {}

impl CongestionControlled for crate::frame::HandshakeDone {}

impl CongestionControlled for crate::frame::MaxData {}

impl CongestionControlled for crate::frame::MaxStreamData {}

impl CongestionControlled for crate::frame::MaxStreams {}

impl<'a> CongestionControlled for crate::frame::NewConnectionId<'a> {}

impl<'a> CongestionControlled for crate::frame::NewToken<'a> {}

/// PADDING frames make packets count toward bytes in flight without
/// eliciting an acknowledgment, yet are not themselves congestion controlled.
impl CongestionControlled for crate::frame::Padding {
    fn is_congestion_controlled(&self) -> (r: bool)
        ensures
            !r,
    {
        false
    }
}

impl<'a> CongestionControlled for crate::frame::PathChallenge<'a> {}

impl<'a> CongestionControlled for crate::frame::PathResponse<'a> {}

} // verus!
