//! Decoding a frame of any of the kinds this crate holds: the first byte
//! names the kind, and the kind's own decoder reads the rest.
use super::ack_elicitation::{AckElicitable, AckElicitation};
use super::ack::{spec_ack_tag, spec_decode_ack, AckRangesDecoder, ACK_TAG, ACK_W_ECN_TAG};
use super::connection_close::{
    spec_decode_connection_close, APPLICATION_ERROR_TAG, QUIC_ERROR_TAG,
};
use super::crypto::{spec_decode_crypto, CryptoRef, CRYPTO_TAG};
use super::data_blocked::DATA_BLOCKED_TAG;
use super::handshake_done::HANDSHAKE_DONE_TAG;
use super::max_data::MAX_DATA_TAG;
use super::max_stream_data::{spec_decode_two_varints, MAX_STREAM_DATA_TAG};
use super::max_streams::{spec_max_streams_tag, spec_max_streams_type, BIDIRECTIONAL_TAG, UNIDIRECTIONAL_TAG};
use super::new_connection_id::{spec_decode_new_connection_id, NEW_CONNECTION_ID_TAG};
use super::new_token::NEW_TOKEN_TAG;
use super::padding::{spec_zero_run, PADDING_TAG};
use super::path_challenge::{spec_decode_path_data, PATH_CHALLENGE_TAG};
use super::path_response::PATH_RESPONSE_TAG;
use super::{
    Ack, ConnectionClose, DataBlocked, HandshakeDone, MaxData, MaxStreamData, MaxStreams,
    NewConnectionId, NewToken, Padding, PathChallenge, PathResponse,
};
use crate::codec::{is_rest_after, DecoderError};
use crate::varint::{spec_decode_len_prefixed, spec_decode_varint};
use vstd::prelude::*;

verus! {

/// A decoded frame, of one of the kinds this crate holds.
pub enum Frame<'a> {
    Padding(Padding),
    Ack(Ack<AckRangesDecoder<'a>>),
    Crypto(CryptoRef<'a>),
    NewToken(NewToken<'a>),
    MaxData(MaxData),
    MaxStreamData(MaxStreamData),
    MaxStreams(MaxStreams),
    DataBlocked(DataBlocked),
    NewConnectionId(NewConnectionId<'a>),
    PathChallenge(PathChallenge<'a>),
    PathResponse(PathResponse<'a>),
    ConnectionClose(ConnectionClose<'a>),
    HandshakeDone(HandshakeDone),
}

/// The frame types this crate decodes.
pub open spec fn spec_frame_tag_held(t: u8) -> bool {
    ||| t == PADDING_TAG
    ||| t == ACK_TAG
    ||| t == ACK_W_ECN_TAG
    ||| t == CRYPTO_TAG
    ||| t == NEW_TOKEN_TAG
    ||| t == MAX_DATA_TAG
    ||| t == MAX_STREAM_DATA_TAG
    ||| t == BIDIRECTIONAL_TAG
    ||| t == UNIDIRECTIONAL_TAG
    ||| t == DATA_BLOCKED_TAG
    ||| t == NEW_CONNECTION_ID_TAG
    ||| t == PATH_CHALLENGE_TAG
    ||| t == PATH_RESPONSE_TAG
    ||| t == QUIC_ERROR_TAG
    ||| t == APPLICATION_ERROR_TAG
    ||| t == HANDSHAKE_DONE_TAG
}

/// Whether what follows type `t` in `s` decodes as a frame of that type.
pub open spec fn spec_frame_body_decodes(t: u8, s: Seq<u8>) -> bool {
    if t == PADDING_TAG || t == HANDSHAKE_DONE_TAG {
        true
    } else if t == ACK_TAG || t == ACK_W_ECN_TAG {
        spec_decode_ack(t, s) is Some
    } else if t == CRYPTO_TAG {
        spec_decode_crypto(s) is Some
    } else if t == NEW_TOKEN_TAG {
        spec_decode_len_prefixed(s) is Some
    } else if t == MAX_STREAM_DATA_TAG {
        spec_decode_two_varints(s) is Some
    } else if t == MAX_DATA_TAG || t == BIDIRECTIONAL_TAG || t == UNIDIRECTIONAL_TAG || t
        == DATA_BLOCKED_TAG {
        spec_decode_varint(s) is Some
    } else if t == NEW_CONNECTION_ID_TAG {
        spec_decode_new_connection_id(s) is Some
    } else if t == PATH_CHALLENGE_TAG || t == PATH_RESPONSE_TAG {
        spec_decode_path_data(s) is Some
    } else if t == QUIC_ERROR_TAG || t == APPLICATION_ERROR_TAG {
        spec_decode_connection_close(t, s) is Some
    } else {
        false
    }
}

/// `f` is the frame at the front of `s` (its type byte included), and
/// `rest` what follows it.
pub open spec fn spec_frame_at(f: Frame, s: Seq<u8>, rest: Seq<u8>) -> bool {
    let t = s[0];
    let b = s.skip(1);
    &&& s.len() > 0
    &&& match f {
        Frame::Padding(p) => {
            &&& t == PADDING_TAG
            &&& p.length >= 1
            &&& spec_zero_run(b, (p.length - 1) as nat)
            &&& is_rest_after(b, (p.length - 1) as nat, rest)
        },
        Frame::Ack(a) => {
            &&& (t == ACK_TAG || t == ACK_W_ECN_TAG)
            &&& (spec_decode_ack(t, b) matches Some((v, n)) && v == a@ && is_rest_after(b, n, rest))
        },
        Frame::Crypto(c) => {
            &&& t == CRYPTO_TAG
            &&& (spec_decode_crypto(b) matches Some((v, n)) && v == c@ && is_rest_after(b, n, rest))
        },
        Frame::NewToken(x) => {
            &&& t == NEW_TOKEN_TAG
            &&& (spec_decode_len_prefixed(b) matches Some((v, n)) && v == x@ && is_rest_after(b, n, rest))
        },
        Frame::MaxData(x) => {
            &&& t == MAX_DATA_TAG
            &&& (spec_decode_varint(b) matches Some((v, n)) && v == x@ && is_rest_after(b, n, rest))
        },
        Frame::MaxStreamData(x) => {
            &&& t == MAX_STREAM_DATA_TAG
            &&& (spec_decode_two_varints(b) matches Some((v, n)) && v == x@ && is_rest_after(b, n, rest))
        },
        Frame::MaxStreams(x) => {
            &&& (t == BIDIRECTIONAL_TAG || t == UNIDIRECTIONAL_TAG)
            &&& (spec_decode_varint(b) matches Some((v, n)) && x@ == (spec_max_streams_type(t), v) && is_rest_after(b, n, rest))
        },
        Frame::DataBlocked(x) => {
            &&& t == DATA_BLOCKED_TAG
            &&& (spec_decode_varint(b) matches Some((v, n)) && v == x@ && is_rest_after(b, n, rest))
        },
        Frame::NewConnectionId(x) => {
            &&& t == NEW_CONNECTION_ID_TAG
            &&& (spec_decode_new_connection_id(b) matches Some((v, n)) && v == x@ && is_rest_after(b, n, rest))
        },
        Frame::PathChallenge(x) => {
            &&& t == PATH_CHALLENGE_TAG
            &&& (spec_decode_path_data(b) matches Some((v, n)) && v == x@ && is_rest_after(b, n, rest))
        },
        Frame::PathResponse(x) => {
            &&& t == PATH_RESPONSE_TAG
            &&& (spec_decode_path_data(b) matches Some((v, n)) && v == x@ && is_rest_after(b, n, rest))
        },
        Frame::ConnectionClose(x) => {
            &&& (t == QUIC_ERROR_TAG || t == APPLICATION_ERROR_TAG)
            &&& (spec_decode_connection_close(t, b) matches Some((v, n)) && v == x@ && is_rest_after(b, n, rest))
        },
        Frame::HandshakeDone(_) => t == HANDSHAKE_DONE_TAG && rest == b,
    }
}

/// The type of frame `f`.
pub open spec fn spec_frame_tag(f: Frame) -> u8 {
    match f {
        Frame::Padding(_) => PADDING_TAG,
        Frame::Ack(a) => spec_ack_tag(a.ecn_counts is Some),
        Frame::Crypto(_) => CRYPTO_TAG,
        Frame::NewToken(_) => NEW_TOKEN_TAG,
        Frame::MaxData(_) => MAX_DATA_TAG,
        Frame::MaxStreamData(_) => MAX_STREAM_DATA_TAG,
        Frame::MaxStreams(x) => spec_max_streams_tag(x.stream_type),
        Frame::DataBlocked(_) => DATA_BLOCKED_TAG,
        Frame::NewConnectionId(_) => NEW_CONNECTION_ID_TAG,
        Frame::PathChallenge(_) => PATH_CHALLENGE_TAG,
        Frame::PathResponse(_) => PATH_RESPONSE_TAG,
        Frame::ConnectionClose(x) => x.spec_tag(),
        Frame::HandshakeDone(_) => HANDSHAKE_DONE_TAG,
    }
}

impl<'a> Frame<'a> {
    /// The frame's type.
    pub fn tag(&self) -> (t: u8)
        ensures
            t == spec_frame_tag(*self),
    {
        match self {
            Frame::Padding(f) => f.tag(),
            Frame::Ack(f) => f.tag(),
            Frame::Crypto(f) => f.tag(),
            Frame::NewToken(f) => f.tag(),
            Frame::MaxData(f) => f.tag(),
            Frame::MaxStreamData(f) => f.tag(),
            Frame::MaxStreams(f) => f.tag(),
            Frame::DataBlocked(f) => f.tag(),
            Frame::NewConnectionId(f) => f.tag(),
            Frame::PathChallenge(f) => f.tag(),
            Frame::PathResponse(f) => f.tag(),
            Frame::ConnectionClose(f) => f.tag(),
            Frame::HandshakeDone(f) => f.tag(),
        }
    }
}

/// ACK, PADDING and CONNECTION_CLOSE frames do not elicit an
/// acknowledgment; every other frame does.
impl<'a> AckElicitable for Frame<'a> {
    fn ack_elicitation(&self) -> (r: AckElicitation)
        ensures
            r == (if self is Ack || self is Padding || self is ConnectionClose {
                AckElicitation::NonEliciting
            } else {
                AckElicitation::Eliciting
            }),
    {
        match self {
            Frame::Padding(f) => f.ack_elicitation(),
            Frame::Ack(f) => f.ack_elicitation(),
            Frame::Crypto(f) => f.ack_elicitation(),
            Frame::NewToken(f) => f.ack_elicitation(),
            Frame::MaxData(f) => f.ack_elicitation(),
            Frame::MaxStreamData(f) => f.ack_elicitation(),
            Frame::MaxStreams(f) => f.ack_elicitation(),
            Frame::DataBlocked(f) => f.ack_elicitation(),
            Frame::NewConnectionId(f) => f.ack_elicitation(),
            Frame::PathChallenge(f) => f.ack_elicitation(),
            Frame::PathResponse(f) => f.ack_elicitation(),
            Frame::ConnectionClose(f) => f.ack_elicitation(),
            Frame::HandshakeDone(f) => f.ack_elicitation(),
        }
    }
}

/// Decodes the frame at the front of `buffer`. Its first byte is the frame
/// type; a type of 0x40 or more is an extension, and it and every type of a
/// kind this crate does not hold are refused as an invalid frame.
pub fn decode_frame<'a>(buffer: &'a [u8]) -> (res: Result<(Frame<'a>, &'a [u8]), DecoderError>)
    ensures
        buffer@.len() == 0 ==> res == Err::<(Frame<'a>, &'a [u8]), DecoderError>(
            DecoderError::UnexpectedEof(1),
        ),
        buffer@.len() > 0 && !spec_frame_tag_held(buffer@[0]) ==> res == Err::<
            (Frame<'a>, &'a [u8]),
            DecoderError,
        >(DecoderError::InvariantViolation("invalid frame")),
        buffer@.len() > 0 && spec_frame_tag_held(buffer@[0]) ==> (res is Ok <==> spec_frame_body_decodes(
            buffer@[0],
            buffer@.skip(1),
        )),
        res matches Ok((f, rest)) ==> spec_frame_at(f, buffer@, rest@),
{
    if buffer.len() == 0 {
        return Err(DecoderError::UnexpectedEof(1));
    }
    let tag = buffer[0];
    let (_, body) = buffer.split_at(1);
    assert(body@ =~= buffer@.skip(1));
    if tag == PADDING_TAG {
        let (f, rest) = Padding::decode(tag, body)?;
        Ok((Frame::Padding(f), rest))
    } else if tag == ACK_TAG || tag == ACK_W_ECN_TAG {
        let (f, rest) = Ack::decode(tag, body)?;
        Ok((Frame::Ack(f), rest))
    } else if tag == CRYPTO_TAG {
        let (f, rest) = CryptoRef::decode(tag, body)?;
        Ok((Frame::Crypto(f), rest))
    } else if tag == NEW_TOKEN_TAG {
        let (f, rest) = NewToken::decode(tag, body)?;
        Ok((Frame::NewToken(f), rest))
    } else if tag == MAX_DATA_TAG {
        let (f, rest) = MaxData::decode(tag, body)?;
        Ok((Frame::MaxData(f), rest))
    } else if tag == MAX_STREAM_DATA_TAG {
        let (f, rest) = MaxStreamData::decode(tag, body)?;
        Ok((Frame::MaxStreamData(f), rest))
    } else if tag == BIDIRECTIONAL_TAG || tag == UNIDIRECTIONAL_TAG {
        let (f, rest) = MaxStreams::decode(tag, body)?;
        Ok((Frame::MaxStreams(f), rest))
    } else if tag == DATA_BLOCKED_TAG {
        let (f, rest) = DataBlocked::decode(tag, body)?;
        Ok((Frame::DataBlocked(f), rest))
    } else if tag == NEW_CONNECTION_ID_TAG {
        let (f, rest) = NewConnectionId::decode(tag, body)?;
        Ok((Frame::NewConnectionId(f), rest))
    } else if tag == PATH_CHALLENGE_TAG {
        let (f, rest) = PathChallenge::decode(tag, body)?;
        Ok((Frame::PathChallenge(f), rest))
    } else if tag == PATH_RESPONSE_TAG {
        let (f, rest) = PathResponse::decode(tag, body)?;
        Ok((Frame::PathResponse(f), rest))
    } else if tag == QUIC_ERROR_TAG || tag == APPLICATION_ERROR_TAG {
        let (f, rest) = ConnectionClose::decode(tag, body)?;
        Ok((Frame::ConnectionClose(f), rest))
    } else if tag == HANDSHAKE_DONE_TAG {
        let (f, rest) = HandshakeDone::decode(tag, body)?;
        Ok((Frame::HandshakeDone(f), rest))
    } else {
        Err(DecoderError::InvariantViolation("invalid frame"))
    }
}

} // verus!
