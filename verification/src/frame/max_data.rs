//! MAX_DATA frame (RFC 9000, section 19.9): the peer's connection-wide
//! flow control limit.
use crate::codec::{is_rest_after, DecoderError, Encodable};
use crate::frame::Tag;
use crate::varint::{lemma_varint_round_trip, spec_decode_varint, spec_encode_varint, VarInt};
use vstd::prelude::*;

verus! {

pub const MAX_DATA_TAG: u8 = 0x10u8;

#[derive(Copy, Clone, Debug, PartialEq, Eq, Structural)]
pub struct MaxData {
    /// A variable-length integer indicating the maximum amount of data
    /// that can be sent on the entire connection, in units of bytes.
    pub maximum_data: VarInt,
}

impl View for MaxData {
    type V = u64;

    open spec fn view(&self) -> u64 {
        self.maximum_data@
    }
}

impl MaxData {
    pub fn tag(&self) -> (t: u8)
        ensures
            t == MAX_DATA_TAG,
    {
        MAX_DATA_TAG
    }

    /// Decodes the frame's fields, which follow its type.
    pub fn decode(tag: Tag, buffer: &[u8]) -> (res: Result<(MaxData, &[u8]), DecoderError>)
        ensures
            spec_decode_varint(buffer@) is None <==> res is Err,
            res matches Ok((f, rest)) ==> spec_decode_varint(buffer@) matches Some((v, n)) && v
                == f@ && is_rest_after(buffer@, n, rest@),
    {
        let (maximum_data, buffer) = VarInt::decode(buffer)?;
        Ok((MaxData { maximum_data }, buffer))
    }
}

impl Encodable for MaxData {
    open spec fn spec_encoding(&self) -> Seq<u8> {
        seq![MAX_DATA_TAG] + spec_encode_varint(self.maximum_data@)
    }

    open spec fn encodable(&self) -> bool {
        true
    }

    fn encoding_size(&self) -> (n: usize) {
        1 + self.maximum_data.encoding_size()
    }

    fn encode(&self, out: &mut Vec<u8>) {
        out.push(MAX_DATA_TAG);
        self.maximum_data.encode(out);
        assert(out@ =~= old(out)@ + self.spec_encoding());
    }
}

/// Decoding what follows the type in the encoding of a MAX_DATA frame gives
/// the frame back and consumes exactly its encoding.
pub proof fn lemma_max_data_round_trip(f: MaxData, rest: Seq<u8>)
    requires
        f.maximum_data.valid(),
    ensures
        f.spec_encoding()[0] == MAX_DATA_TAG,
        spec_decode_varint(f.spec_encoding().skip(1) + rest) == Some(
            (f@, (f.spec_encoding().len() - 1) as nat),
        ),
{
    assert(f.spec_encoding().skip(1) =~= spec_encode_varint(f.maximum_data@));
    lemma_varint_round_trip(f.maximum_data@, rest);
}

} // verus!
