//! How frames are described in the events that report them.
use super::{
    Ack, ConnectionClose, Crypto, DataBlocked, HandshakeDone, MaxData, MaxStreamData, MaxStreams,
    NewConnectionId, NewToken, Padding, PathChallenge, PathResponse,
};
use crate::event::{builder, IntoEvent};
use vstd::prelude::*;

verus! {

/// Retrieves the kind of frame that an event reports.
pub trait AsEvent {
    fn as_event(&self) -> (f: builder::Frame)
        default_ensures
            f == builder::Frame::Padding,
    {
        builder::Frame::Padding
    }
}

impl AsEvent for Padding {
}

impl<A> AsEvent for Ack<A> {
    fn as_event(&self) -> (f: builder::Frame)
        ensures
            f == builder::Frame::Ack,
    {
        builder::Frame::Ack
    }
}

impl<'a> AsEvent for Crypto<&'a [u8]> {
    fn as_event(&self) -> (f: builder::Frame)
        ensures
            f == spec_crypto_event(self.offset@, self.data@.len()),
    {
        self.into_event()
    }
}

impl<'a> AsEvent for NewToken<'a> {
    fn as_event(&self) -> (f: builder::Frame)
        ensures
            f == builder::Frame::NewToken,
    {
        builder::Frame::NewToken
    }
}

impl AsEvent for MaxData {
    fn as_event(&self) -> (f: builder::Frame)
        ensures
            f == builder::Frame::MaxData,
    {
        builder::Frame::MaxData
    }
}

impl AsEvent for MaxStreamData {
    fn as_event(&self) -> (f: builder::Frame)
        ensures
            f == builder::Frame::MaxStreamData,
    {
        builder::Frame::MaxStreamData
    }
}

impl AsEvent for MaxStreams {
    fn as_event(&self) -> (f: builder::Frame)
        ensures
            f == spec_max_streams_event(self.stream_type),
    {
        self.into_event()
    }
}

impl AsEvent for DataBlocked {
    fn as_event(&self) -> (f: builder::Frame)
        ensures
            f == builder::Frame::DataBlocked,
    {
        builder::Frame::DataBlocked
    }
}

impl<'a> AsEvent for NewConnectionId<'a> {
    fn as_event(&self) -> (f: builder::Frame)
        ensures
            f == builder::Frame::NewConnectionId,
    {
        builder::Frame::NewConnectionId
    }
}

impl<'a> AsEvent for PathChallenge<'a> {
    fn as_event(&self) -> (f: builder::Frame)
        ensures
            f == builder::Frame::PathChallenge,
    {
        builder::Frame::PathChallenge
    }
}

impl<'a> AsEvent for PathResponse<'a> {
    fn as_event(&self) -> (f: builder::Frame)
        ensures
            f == builder::Frame::PathResponse,
    {
        builder::Frame::PathResponse
    }
}

impl<'a> AsEvent for ConnectionClose<'a> {
    fn as_event(&self) -> (f: builder::Frame)
        ensures
            f == builder::Frame::ConnectionClose,
    {
        builder::Frame::ConnectionClose
    }
}

impl AsEvent for HandshakeDone {
    fn as_event(&self) -> (f: builder::Frame)
        ensures
            f == builder::Frame::HandshakeDone,
    {
        builder::Frame::HandshakeDone
    }
}

/// The event that describes a CRYPTO frame at `offset` carrying `len`
/// bytes: the length is reported modulo 2^16.
pub open spec fn spec_crypto_event(offset: u64, len: nat) -> builder::Frame {
    builder::Frame::Crypto { offset, len: (len % 0x10000) as u16 }
}

/// The event that describes a MAX_STREAMS frame for streams of type `t`.
pub open spec fn spec_max_streams_event(t: crate::stream::StreamType) -> builder::Frame {
    builder::Frame::MaxStreams { stream_type: crate::stream::spec_stream_type_event(t) }
}

impl<'a> IntoEvent<builder::Frame> for &'a Padding {
    fn into_event(self) -> (f: builder::Frame)
        ensures
            f == builder::Frame::Padding,
    {
        builder::Frame::Padding
    }
}

impl<'a, A> IntoEvent<builder::Frame> for &'a Ack<A> {
    fn into_event(self) -> (f: builder::Frame)
        ensures
            f == builder::Frame::Ack,
    {
        builder::Frame::Ack
    }
}

impl<'a, 'b> IntoEvent<builder::Frame> for &'a Crypto<&'b [u8]> {
    fn into_event(self) -> (f: builder::Frame)
        ensures
            f == spec_crypto_event(self.offset@, self.data@.len()),
    {
        let len: usize = self.data.len();
        let len16: u16 = (len % 0x10000) as u16;
        builder::Frame::Crypto { offset: self.offset.as_u64(), len: len16 }
    }
}

impl<'a, 'b> IntoEvent<builder::Frame> for &'a NewToken<'b> {
    fn into_event(self) -> (f: builder::Frame)
        ensures
            f == builder::Frame::NewToken,
    {
        builder::Frame::NewToken
    }
}

impl<'a> IntoEvent<builder::Frame> for &'a MaxData {
    fn into_event(self) -> (f: builder::Frame)
        ensures
            f == builder::Frame::MaxData,
    {
        builder::Frame::MaxData
    }
}

impl<'a> IntoEvent<builder::Frame> for &'a MaxStreamData {
    fn into_event(self) -> (f: builder::Frame)
        ensures
            f == builder::Frame::MaxStreamData,
    {
        builder::Frame::MaxStreamData
    }
}

impl<'a> IntoEvent<builder::Frame> for &'a MaxStreams {
    fn into_event(self) -> (f: builder::Frame)
        ensures
            f == spec_max_streams_event(self.stream_type),
    {
        builder::Frame::MaxStreams { stream_type: (&self.stream_type).into_event() }
    }
}

impl<'a> IntoEvent<builder::Frame> for &'a DataBlocked {
    fn into_event(self) -> (f: builder::Frame)
        ensures
            f == builder::Frame::DataBlocked,
    {
        builder::Frame::DataBlocked
    }
}

impl<'a, 'b> IntoEvent<builder::Frame> for &'a NewConnectionId<'b> {
    fn into_event(self) -> (f: builder::Frame)
        ensures
            f == builder::Frame::NewConnectionId,
    {
        builder::Frame::NewConnectionId
    }
}

impl<'a, 'b> IntoEvent<builder::Frame> for &'a PathChallenge<'b> {
    fn into_event(self) -> (f: builder::Frame)
        ensures
            f == builder::Frame::PathChallenge,
    {
        builder::Frame::PathChallenge
    }
}

impl<'a, 'b> IntoEvent<builder::Frame> for &'a PathResponse<'b> {
    fn into_event(self) -> (f: builder::Frame)
        ensures
            f == builder::Frame::PathResponse,
    {
        builder::Frame::PathResponse
    }
}

impl<'a, 'b> IntoEvent<builder::Frame> for &'a ConnectionClose<'b> {
    fn into_event(self) -> (f: builder::Frame)
        ensures
            f == builder::Frame::ConnectionClose,
    {
        builder::Frame::ConnectionClose
    }
}

impl<'a> IntoEvent<builder::Frame> for &'a HandshakeDone {
    fn into_event(self) -> (f: builder::Frame)
        ensures
            f == builder::Frame::HandshakeDone,
    {
        builder::Frame::HandshakeDone
    }
}

} // verus!
