//! HANDSHAKE_DONE frame (RFC 9000, section 19.20): the server tells the
//! client that the handshake is confirmed.
use crate::codec::{DecoderError, Encodable};
use crate::frame::Tag;
use vstd::prelude::*;

verus! {

pub const HANDSHAKE_DONE_TAG: u8 = 0x1eu8;

#[derive(Copy, Clone, Debug, PartialEq, Eq, Structural)]
pub struct HandshakeDone;

impl HandshakeDone {
    pub fn tag(&self) -> (t: u8)
        ensures
            t == HANDSHAKE_DONE_TAG,
    {
        HANDSHAKE_DONE_TAG
    }

    /// The frame has no fields: nothing is read.
    pub fn decode(tag: Tag, buffer: &[u8]) -> (res: Result<(HandshakeDone, &[u8]), DecoderError>)
        ensures
            res matches Ok((_, rest)) && rest@ == buffer@,
    {
        Ok((HandshakeDone, buffer))
    }
}

impl Encodable for HandshakeDone {
    open spec fn spec_encoding(&self) -> Seq<u8> {
        seq![HANDSHAKE_DONE_TAG]
    }

    open spec fn encodable(&self) -> bool {
        true
    }

    fn encoding_size(&self) -> (n: usize) {
        1
    }

    fn encode(&self, out: &mut Vec<u8>) {
        out.push(HANDSHAKE_DONE_TAG);
    }
}

} // verus!
