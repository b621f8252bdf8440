//! DATA_BLOCKED frame (RFC 9000, section 19.12): the sender wants to send
//! more data than the connection-wide flow control limit allows.
use crate::codec::{is_rest_after, DecoderError, Encodable};
use crate::frame::Tag;
use crate::varint::{lemma_varint_round_trip, spec_decode_varint, spec_encode_varint, VarInt};
use vstd::prelude::*;

verus! {

pub const DATA_BLOCKED_TAG: u8 = 0x14u8;

#[derive(Copy, Clone, Debug, PartialEq, Eq, Structural)]
pub struct DataBlocked {
    /// A variable-length integer indicating the connection-level limit
    /// at which blocking occurred.
    pub data_limit: VarInt,
}

impl View for DataBlocked {
    type V = u64;

    open spec fn view(&self) -> u64 {
        self.data_limit@
    }
}

impl DataBlocked {
    pub fn tag(&self) -> (t: u8)
        ensures
            t == DATA_BLOCKED_TAG,
    {
        DATA_BLOCKED_TAG
    }

    /// Decodes the frame's fields, which follow its type.
    pub fn decode(tag: Tag, buffer: &[u8]) -> (res: Result<(DataBlocked, &[u8]), DecoderError>)
        ensures
            spec_decode_varint(buffer@) is None <==> res is Err,
            res matches Ok((f, rest)) ==> spec_decode_varint(buffer@) matches Some((v, n)) && v
                == f@ && is_rest_after(buffer@, n, rest@),
    {
        let (data_limit, buffer) = VarInt::decode(buffer)?;
        Ok((DataBlocked { data_limit }, buffer))
    }
}

impl Encodable for DataBlocked {
    open spec fn spec_encoding(&self) -> Seq<u8> {
        seq![DATA_BLOCKED_TAG] + spec_encode_varint(self.data_limit@)
    }

    open spec fn encodable(&self) -> bool {
        true
    }

    fn encoding_size(&self) -> (n: usize) {
        1 + self.data_limit.encoding_size()
    }

    fn encode(&self, out: &mut Vec<u8>) {
        out.push(DATA_BLOCKED_TAG);
        self.data_limit.encode(out);
        assert(out@ =~= old(out)@ + self.spec_encoding());
    }
}

/// Decoding what follows the type in the encoding of a DATA_BLOCKED frame gives
/// the frame back and consumes exactly its encoding.
pub proof fn lemma_data_blocked_round_trip(f: DataBlocked, rest: Seq<u8>)
    requires
        f.data_limit.valid(),
    ensures
        f.spec_encoding()[0] == DATA_BLOCKED_TAG,
        spec_decode_varint(f.spec_encoding().skip(1) + rest) == Some(
            (f@, (f.spec_encoding().len() - 1) as nat),
        ),
{
    assert(f.spec_encoding().skip(1) =~= spec_encode_varint(f.data_limit@));
    lemma_varint_round_trip(f.data_limit@, rest);
}

} // verus!
