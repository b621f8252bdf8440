//! The number of bytes a frame progresses the connection by.
use vstd::prelude::*;

verus! {

/// Trait to retrieve the number of bytes that the frame progresses the connection by
pub trait ForwardProgress {
    fn bytes_progressed(&self) -> (r: usize)
        default_ensures
            r == 0,
    {
        0
    }
}

impl<A> ForwardProgress for crate::frame::Ack<A> {}

impl<'a> ForwardProgress for crate::frame::ConnectionClose<'a> {}

impl<Data> ForwardProgress for crate::frame::Crypto<Data> {}

impl ForwardProgress for crate::frame::DataBlocked {}

impl ForwardProgress for crate::frame::HandshakeDone {}

impl ForwardProgress for crate::frame::MaxData {}

impl ForwardProgress for crate::frame::MaxStreamData {}

impl ForwardProgress for crate::frame::MaxStreams {}

impl<'a> ForwardProgress for crate::frame::NewConnectionId<'a> {}

impl<'a> ForwardProgress for crate::frame::NewToken<'a> {}

impl ForwardProgress for crate::frame::Padding {}

impl<'a> ForwardProgress for crate::frame::PathChallenge<'a> {}

impl<'a> ForwardProgress for crate::frame::PathResponse<'a> {}

} // verus!
