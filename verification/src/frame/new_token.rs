//! NEW_TOKEN frame (RFC 9000, section 19.7): a token the client may use
//! in the Initial packet of a future connection.
use crate::codec::{is_rest_after, DecoderError, Encodable};
use crate::frame::Tag;
use crate::varint::{
    decode_slice_with_len_prefix, encode_with_len_prefix, len_prefixed_size,
    lemma_len_prefixed_round_trip, spec_decode_len_prefixed, spec_encode_len_prefixed,
    MAX_VARINT_VALUE,
};
use vstd::prelude::*;

verus! {

pub const NEW_TOKEN_TAG: u8 = 0x07u8;

#[derive(Debug, PartialEq, Eq)]
pub struct NewToken<'a> {
    /// An opaque blob that the client may use with a future Initial packet.
    pub token: &'a [u8],
}

impl<'a> View for NewToken<'a> {
    type V = Seq<u8>;

    open spec fn view(&self) -> Seq<u8> {
        self.token@
    }
}

impl<'a> NewToken<'a> {
    pub fn tag(&self) -> (t: u8)
        ensures
            t == NEW_TOKEN_TAG,
    {
        NEW_TOKEN_TAG
    }

    /// Decodes the frame's fields, which follow its type.
    pub fn decode(tag: Tag, buffer: &'a [u8]) -> (res: Result<(NewToken<'a>, &'a [u8]), DecoderError>)
        ensures
            spec_decode_len_prefixed(buffer@) is None <==> res is Err,
            res matches Ok((f, rest)) ==> spec_decode_len_prefixed(buffer@) matches Some((v, n))
                && v == f@ && is_rest_after(buffer@, n, rest@),
    {
        let (token, buffer) = decode_slice_with_len_prefix(buffer)?;
        Ok((NewToken { token }, buffer))
    }
}

impl<'a> Encodable for NewToken<'a> {
    open spec fn spec_encoding(&self) -> Seq<u8> {
        seq![NEW_TOKEN_TAG] + spec_encode_len_prefixed(self.token@)
    }

    open spec fn encodable(&self) -> bool {
        self.token@.len() <= MAX_VARINT_VALUE
    }

    fn encoding_size(&self) -> (n: usize) {
        proof {
            crate::varint::lemma_encoding_len(self.token@.len() as u64);
        }
        1 + len_prefixed_size(self.token.len())
    }

    fn encode(&self, out: &mut Vec<u8>) {
        out.push(NEW_TOKEN_TAG);
        encode_with_len_prefix(out, self.token);
        assert(out@ =~= old(out)@ + self.spec_encoding());
    }
}

/// Decoding what follows the type in the encoding of a NEW_TOKEN frame gives
/// the frame back and consumes exactly its encoding.
pub proof fn lemma_new_token_round_trip(f: NewToken, rest: Seq<u8>)
    requires
        f.encodable(),
    ensures
        f.spec_encoding()[0] == NEW_TOKEN_TAG,
        spec_decode_len_prefixed(f.spec_encoding().skip(1) + rest) == Some(
            (f@, (f.spec_encoding().len() - 1) as nat),
        ),
{
    assert(f.spec_encoding().skip(1) =~= spec_encode_len_prefixed(f.token@));
    lemma_len_prefixed_round_trip(f.token@, rest);
}

} // verus!
