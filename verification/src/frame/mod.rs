//! The frames of the QUIC transport protocol (RFC 9000, section 19) and
//! their wire encoding.
//!
//! Every frame starts with its type. Frame types below 0x40 fit in a single
//! byte, the `Tag`; extension frames use a variable-length integer, the
//! `ExtensionTag`. The `decode` function of a frame reads the bytes that
//! follow its type.
use vstd::prelude::*;

pub mod ack;
pub mod ack_elicitation;
pub mod congestion_controlled;
pub mod connection_progress;
pub mod connection_close;
pub mod crypto;
pub mod data_blocked;
pub mod datagram;
pub mod dc_stateless_reset_tokens;
pub mod decoder;
pub mod event;
pub mod forward_progress;
pub mod handshake_done;
pub mod max_data;
pub mod max_stream_data;
pub mod max_streams;
pub mod mtu_probing_complete;
pub mod new_connection_id;
pub mod new_token;
pub mod padding;
pub mod path_challenge;
pub mod path_probing;
pub mod path_response;

pub use ack::Ack;
pub use connection_close::ConnectionClose;
pub use crypto::Crypto;
pub use data_blocked::DataBlocked;
pub use datagram::Datagram;
pub use dc_stateless_reset_tokens::DcStatelessResetTokens;
pub use handshake_done::HandshakeDone;
pub use max_data::MaxData;
pub use max_stream_data::MaxStreamData;
pub use max_streams::MaxStreams;
pub use mtu_probing_complete::MtuProbingComplete;
pub use new_connection_id::NewConnectionId;
pub use new_token::NewToken;
pub use padding::Padding;
pub use path_challenge::PathChallenge;
pub use path_response::PathResponse;

verus! {

/// The type of a frame whose type fits in one byte.
pub type Tag = u8;

/// The type of an extension frame.
pub type ExtensionTag = crate::varint::VarInt;

/// A frame cannot be made to fit the space left in a packet.
#[derive(Clone, Copy, Debug, PartialEq, Eq)]
pub struct FitError;

/// The maximum amount of data which can be stored in a given frame,
/// as indicated by `StreamType::max_payload_size` methods.
#[derive(Copy, Clone, Debug, Default, PartialEq)]
pub struct MaxPayloadSizeForFrame {
    /// The maximum amount of payload data which can be stored when the frame
    /// is stored as the last frame in a packet - without explicit length information.
    pub max_payload_as_last_frame: usize,
    /// The maximum amount of payload data which can be stored in a frame,
    /// even if the frame carries explicit length information.
    pub max_payload_in_all_frames: usize,
}

/// Splitting the front `a` off `a + b` leaves `b`.
pub proof fn lemma_skip_prefix(a: Seq<u8>, b: Seq<u8>)
    ensures
        (a + b).skip(a.len() as int) == b,
        (a + b).take(a.len() as int) == a,
{
    assert((a + b).skip(a.len() as int) =~= b);
    assert((a + b).take(a.len() as int) =~= a);
}

} // verus!
