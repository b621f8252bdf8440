//! The number of bytes a frame progresses the connection by within a packet
//! number space: CRYPTO frames of the Initial and Handshake spaces move the
//! handshake forward.
use crate::codec::Encodable;
use crate::packet::PacketNumberSpace;
use vstd::prelude::*;

verus! {

/// Trait to retrieve the number of bytes that the frame progresses the connection by
/// within the given packet number space
pub trait ConnectionProgress {
    /// Whether the frame's size can be measured.
    open spec fn progress_measurable(&self) -> bool {
        true
    }

    fn bytes_progressed(&self, space: PacketNumberSpace) -> (r: usize)
        requires
            self.progress_measurable(),
        default_ensures
            r == 0,
    {
        0
    }
}

impl<A> ConnectionProgress for crate::frame::Ack<A> {}

impl<'a> ConnectionProgress for crate::frame::ConnectionClose<'a> {}

impl<Data: Encodable> ConnectionProgress for crate::frame::Crypto<Data> {
    /// The frame can be encoded, and its encoding fits in memory.
    open spec fn progress_measurable(&self) -> bool {
        self.encodable() && self.spec_encoding().len() <= usize::MAX
    }

    fn bytes_progressed(&self, space: PacketNumberSpace) -> (r: usize)
        ensures
            r == match space {
                PacketNumberSpace::Initial | PacketNumberSpace::Handshake => self.spec_encoding().len(),
                PacketNumberSpace::ApplicationData => 0,
            },
    {
        match space {
            PacketNumberSpace::Initial | PacketNumberSpace::Handshake => self.encoding_size(),
            // Crypto frames in the ApplicationData space do not progress the connection
            PacketNumberSpace::ApplicationData => 0,
        }
    }
}

impl ConnectionProgress for crate::frame::DataBlocked {}

impl ConnectionProgress for crate::frame::HandshakeDone {}

impl ConnectionProgress for crate::frame::MaxData {}

impl ConnectionProgress for crate::frame::MaxStreamData {}

impl ConnectionProgress for crate::frame::MaxStreams {}

impl<'a> ConnectionProgress for crate::frame::NewConnectionId<'a> {}

impl<'a> ConnectionProgress for crate::frame::NewToken<'a> {}

impl ConnectionProgress for crate::frame::Padding {}

impl<'a> ConnectionProgress for crate::frame::PathChallenge<'a> {}

impl<'a> ConnectionProgress for crate::frame::PathResponse<'a> {}

} // verus!
