//! MAX_STREAM_DATA frame (RFC 9000, section 19.10): the flow control limit
//! of one stream.
use crate::codec::{is_rest_after, DecoderError, Encodable};
use crate::frame::{lemma_skip_prefix, Tag};
use crate::varint::{lemma_varint_round_trip, spec_decode_varint, spec_encode_varint, VarInt};
use vstd::prelude::*;

verus! {

pub const MAX_STREAM_DATA_TAG: u8 = 0x11u8;

#[derive(Copy, Clone, Debug, PartialEq, Eq, Structural)]
pub struct MaxStreamData {
    /// The stream ID of the stream that is affected encoded as a
    /// variable-length integer.
    pub stream_id: VarInt,
    /// A variable-length integer indicating the maximum amount of data
    /// that can be sent on the identified stream, in units of bytes.
    pub maximum_stream_data: VarInt,
}

impl View for MaxStreamData {
    type V = (u64, u64);

    open spec fn view(&self) -> (u64, u64) {
        (self.stream_id@, self.maximum_stream_data@)
    }
}

/// Two variable-length integers, one after the other.
pub open spec fn spec_decode_two_varints(s: Seq<u8>) -> Option<((u64, u64), nat)> {
    match spec_decode_varint(s) {
        None => None,
        Some((a, n1)) => match spec_decode_varint(s.skip(n1 as int)) {
            None => None,
            Some((b, n2)) => Some(((a, b), n1 + n2)),
        },
    }
}

impl MaxStreamData {
    pub fn tag(&self) -> (t: u8)
        ensures
            t == MAX_STREAM_DATA_TAG,
    {
        MAX_STREAM_DATA_TAG
    }

    /// Decodes the frame's fields, which follow its type.
    pub fn decode(tag: Tag, buffer: &[u8]) -> (res: Result<(MaxStreamData, &[u8]), DecoderError>)
        ensures
            spec_decode_two_varints(buffer@) is None <==> res is Err,
            res matches Ok((f, rest)) ==> spec_decode_two_varints(buffer@) matches Some((v, n))
                && v == f@ && is_rest_after(buffer@, n, rest@),
    {
        let (stream_id, buffer2) = VarInt::decode(buffer)?;
        let (maximum_stream_data, buffer3) = VarInt::decode(buffer2)?;
        proof {
            assert(buffer@.skip(buffer@.len() - buffer2@.len()).skip(
                buffer2@.len() - buffer3@.len(),
            ) =~= buffer@.skip(buffer@.len() - buffer3@.len()));
        }
        Ok((MaxStreamData { stream_id, maximum_stream_data }, buffer3))
    }
}

impl Encodable for MaxStreamData {
    open spec fn spec_encoding(&self) -> Seq<u8> {
        seq![MAX_STREAM_DATA_TAG] + spec_encode_varint(self.stream_id@) + spec_encode_varint(
            self.maximum_stream_data@,
        )
    }

    open spec fn encodable(&self) -> bool {
        true
    }

    fn encoding_size(&self) -> (n: usize) {
        1 + self.stream_id.encoding_size() + self.maximum_stream_data.encoding_size()
    }

    fn encode(&self, out: &mut Vec<u8>) {
        out.push(MAX_STREAM_DATA_TAG);
        self.stream_id.encode(out);
        self.maximum_stream_data.encode(out);
        assert(out@ =~= old(out)@ + self.spec_encoding());
    }
}

/// Decoding two encoded variable-length integers, followed by anything,
/// gives both back.
pub proof fn lemma_two_varints_round_trip(a: u64, b: u64, rest: Seq<u8>)
    requires
        a <= crate::varint::MAX_VARINT_VALUE,
        b <= crate::varint::MAX_VARINT_VALUE,
    ensures
        spec_decode_two_varints(spec_encode_varint(a) + spec_encode_varint(b) + rest) == Some(
            ((a, b), spec_encode_varint(a).len() + spec_encode_varint(b).len()),
        ),
{
    let ea = spec_encode_varint(a);
    let eb = spec_encode_varint(b);
    assert(ea + eb + rest =~= ea + (eb + rest));
    lemma_varint_round_trip(a, eb + rest);
    lemma_skip_prefix(ea, eb + rest);
    lemma_varint_round_trip(b, rest);
}

/// Decoding what follows the type in the encoding of a MAX_STREAM_DATA frame
/// gives the frame back and consumes exactly its encoding.
pub proof fn lemma_max_stream_data_round_trip(f: MaxStreamData, rest: Seq<u8>)
    requires
        f.stream_id.valid(),
        f.maximum_stream_data.valid(),
    ensures
        f.spec_encoding()[0] == MAX_STREAM_DATA_TAG,
        spec_decode_two_varints(f.spec_encoding().skip(1) + rest) == Some(
            (f@, (f.spec_encoding().len() - 1) as nat),
        ),
{
    assert(f.spec_encoding().skip(1) =~= spec_encode_varint(f.stream_id@) + spec_encode_varint(
        f.maximum_stream_data@,
    ));
    lemma_two_varints_round_trip(f.stream_id@, f.maximum_stream_data@, rest);
}

} // verus!
