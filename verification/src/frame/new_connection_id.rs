//! NEW_CONNECTION_ID frame (RFC 9000, section 19.15): an alternative
//! connection ID the peer may use, with its stateless reset token.
use crate::codec::{decode_slice, decode_u8, encode_bytes, is_rest_after, slice_as_array, DecoderError, Encodable};
use crate::frame::{lemma_skip_prefix, Tag};
use crate::frame::max_stream_data::{lemma_two_varints_round_trip, spec_decode_two_varints};
use crate::varint::{spec_encode_varint, VarInt};
use vstd::prelude::*;

verus! {

pub const NEW_CONNECTION_ID_TAG: u8 = 0x18u8;

/// The length of a stateless reset token: 128 bits.
pub const STATELESS_RESET_TOKEN_LEN: usize = 16usize;

/// The shortest and the longest connection ID a frame may carry.
pub const MIN_CONNECTION_ID_LEN: u8 = 1u8;

pub const MAX_CONNECTION_ID_LEN: u8 = 20u8;

#[derive(Debug, PartialEq, Eq)]
pub struct NewConnectionId<'a> {
    /// The sequence number assigned to the connection ID by the sender
    pub sequence_number: VarInt,
    /// A variable-length integer indicating which connection IDs
    /// should be retired
    pub retire_prior_to: VarInt,
    /// The new connection ID
    pub connection_id: &'a [u8],
    /// A 128-bit value that will be used for a stateless reset when
    /// the associated connection ID is used
    pub stateless_reset_token: &'a [u8; STATELESS_RESET_TOKEN_LEN],
}

/// Sequence number, retire-prior-to, connection ID, stateless reset token.
pub type NewConnectionIdModel = (u64, u64, Seq<u8>, Seq<u8>);

impl<'a> View for NewConnectionId<'a> {
    type V = NewConnectionIdModel;

    open spec fn view(&self) -> NewConnectionIdModel {
        (
            self.sequence_number@,
            self.retire_prior_to@,
            self.connection_id@,
            self.stateless_reset_token@,
        )
    }
}

/// The connection ID and token that follow the two integers: a length
/// byte from 1 to 20, that many bytes, then the 16-byte token.
pub open spec fn spec_decode_cid_and_token(s: Seq<u8>) -> Option<((Seq<u8>, Seq<u8>), nat)> {
    if s.len() == 0 {
        None
    } else {
        let l = s[0] as nat;
        if l < MIN_CONNECTION_ID_LEN || l > MAX_CONNECTION_ID_LEN {
            None
        } else if s.len() < 1 + l + STATELESS_RESET_TOKEN_LEN {
            None
        } else {
            Some(
                (
                    (
                        s.subrange(1, 1 + l as int),
                        s.subrange(1 + l as int, 1 + l + STATELESS_RESET_TOKEN_LEN as int),
                    ),
                    (1 + l + STATELESS_RESET_TOKEN_LEN) as nat,
                ),
            )
        }
    }
}

/// The fields of a NEW_CONNECTION_ID frame at the front of `s`. A frame
/// whose retire-prior-to exceeds its sequence number is refused.
pub open spec fn spec_decode_new_connection_id(s: Seq<u8>) -> Option<
    (NewConnectionIdModel, nat),
> {
    match spec_decode_two_varints(s) {
        None => None,
        Some(((seq, rpt), n1)) => if rpt > seq {
            None
        } else {
            match spec_decode_cid_and_token(s.skip(n1 as int)) {
                None => None,
                Some(((cid, token), n2)) => Some(((seq, rpt, cid, token), n1 + n2)),
            }
        },
    }
}

impl<'a> NewConnectionId<'a> {
    pub fn tag(&self) -> (t: u8)
        ensures
            t == NEW_CONNECTION_ID_TAG,
    {
        NEW_CONNECTION_ID_TAG
    }

    /// Decodes the frame's fields, which follow its type.
    pub fn decode(tag: Tag, buffer: &'a [u8]) -> (res: Result<(NewConnectionId<'a>, &'a [u8]), DecoderError>)
        ensures
            spec_decode_new_connection_id(buffer@) is None <==> res is Err,
            res matches Ok((f, rest)) ==> spec_decode_new_connection_id(buffer@) matches Some(
                (v, n),
            ) && v == f@ && is_rest_after(buffer@, n, rest@),
    {
        let (sequence_number, b1) = VarInt::decode(buffer)?;
        let (retire_prior_to, b2) = VarInt::decode(b1)?;
        let ghost n1 = (buffer@.len() - b2@.len()) as nat;
        proof {
            assert(buffer@.skip(buffer@.len() - b1@.len()).skip(b1@.len() - b2@.len())
                =~= buffer@.skip(n1 as int));
        }
        if retire_prior_to.as_u64() > sequence_number.as_u64() {
            return Err(DecoderError::InvariantViolation("invalid retire prior to value"));
        }
        let (connection_id_len, b3) = decode_u8(b2)?;
        if connection_id_len < MIN_CONNECTION_ID_LEN || connection_id_len > MAX_CONNECTION_ID_LEN {
            return Err(DecoderError::InvariantViolation("invalid connection id length"));
        }
        let (connection_id, b4) = decode_slice(b3, connection_id_len as usize)?;
        let (token, b5) = decode_slice(b4, STATELESS_RESET_TOKEN_LEN)?;
        let stateless_reset_token = match slice_as_array::<STATELESS_RESET_TOKEN_LEN>(token) {
            Some(t) => t,
            None => return Err(DecoderError::UnexpectedEof(STATELESS_RESET_TOKEN_LEN)),
        };
        proof {
            let s2 = buffer@.skip(n1 as int);
            let l = connection_id_len as int;
            assert(b2@ == s2);
            assert(connection_id@ =~= s2.subrange(1, 1 + l));
            assert(token@ =~= s2.subrange(1 + l, 1 + l + 16));
            assert(b5@ =~= buffer@.skip(n1 + 1 + l + 16));
        }
        Ok((
            NewConnectionId {
                sequence_number,
                retire_prior_to,
                connection_id,
                stateless_reset_token,
            },
            b5,
        ))
    }
}

impl<'a> Encodable for NewConnectionId<'a> {
    open spec fn spec_encoding(&self) -> Seq<u8> {
        seq![NEW_CONNECTION_ID_TAG] + spec_encode_varint(self.sequence_number@)
            + spec_encode_varint(self.retire_prior_to@) + seq![self.connection_id@.len() as u8]
            + self.connection_id@ + self.stateless_reset_token@
    }

    /// The length of the connection ID is written as one byte.
    open spec fn encodable(&self) -> bool {
        self.connection_id@.len() <= 255
    }

    fn encoding_size(&self) -> (n: usize) {
        1 + self.sequence_number.encoding_size() + self.retire_prior_to.encoding_size() + 1
            + self.connection_id.len() + STATELESS_RESET_TOKEN_LEN
    }

    fn encode(&self, out: &mut Vec<u8>) {
        out.push(NEW_CONNECTION_ID_TAG);
        self.sequence_number.encode(out);
        self.retire_prior_to.encode(out);
        out.push(self.connection_id.len() as u8);
        encode_bytes(out, self.connection_id);
        encode_bytes(out, self.stateless_reset_token.as_slice());
        assert(out@ =~= old(out)@ + self.spec_encoding());
    }
}

/// Decoding what follows the type in the encoding of a NEW_CONNECTION_ID
/// frame gives the frame back and consumes exactly its encoding, for every
/// frame the decoder accepts: a connection ID of 1 to 20 bytes and a
/// retire-prior-to no greater than the sequence number.
pub proof fn lemma_new_connection_id_round_trip(f: NewConnectionId, rest: Seq<u8>)
    requires
        f.sequence_number.valid(),
        f.retire_prior_to.valid(),
        f.retire_prior_to@ <= f.sequence_number@,
        MIN_CONNECTION_ID_LEN <= f.connection_id@.len() <= MAX_CONNECTION_ID_LEN,
    ensures
        f.spec_encoding()[0] == NEW_CONNECTION_ID_TAG,
        spec_decode_new_connection_id(f.spec_encoding().skip(1) + rest) == Some(
            (f@, (f.spec_encoding().len() - 1) as nat),
        ),
{
    let a = spec_encode_varint(f.sequence_number@);
    let b = spec_encode_varint(f.retire_prior_to@);
    let tail = seq![f.connection_id@.len() as u8] + f.connection_id@ + f.stateless_reset_token@;
    assert(f.spec_encoding().skip(1) + rest =~= a + b + (tail + rest));
    lemma_two_varints_round_trip(f.sequence_number@, f.retire_prior_to@, tail + rest);
    lemma_skip_prefix(a + b, tail + rest);
    let s2 = tail + rest;
    let l = f.connection_id@.len();
    assert(s2[0] as nat == l);
    assert(s2.subrange(1, 1 + l as int) =~= f.connection_id@);
    assert(s2.subrange(1 + l as int, (1 + l + 16) as int) =~= f.stateless_reset_token@);
}

} // verus!
