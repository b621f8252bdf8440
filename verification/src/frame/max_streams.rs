//! MAX_STREAMS frame (RFC 9000, section 19.11): the cumulative number of
//! streams of one type the peer may open.
use crate::codec::{is_rest_after, DecoderError, Encodable};
use crate::frame::Tag;
use crate::stream::StreamType;
use crate::varint::{lemma_varint_round_trip, spec_decode_varint, spec_encode_varint, VarInt};
use vstd::prelude::*;

verus! {

pub const BIDIRECTIONAL_TAG: u8 = 0x12u8;

pub const UNIDIRECTIONAL_TAG: u8 = 0x13u8;

#[derive(Copy, Clone, Debug, PartialEq, Eq, Structural)]
pub struct MaxStreams {
    pub stream_type: StreamType,
    /// A count of the cumulative number of streams of the corresponding
    /// type that can be opened over the lifetime of the connection.
    pub maximum_streams: VarInt,
}

impl View for MaxStreams {
    type V = (StreamType, u64);

    open spec fn view(&self) -> (StreamType, u64) {
        (self.stream_type, self.maximum_streams@)
    }
}

/// The frame type that carries a limit for streams of type `t`.
pub open spec fn spec_max_streams_tag(t: StreamType) -> u8 {
    match t {
        StreamType::Bidirectional => BIDIRECTIONAL_TAG,
        StreamType::Unidirectional => UNIDIRECTIONAL_TAG,
    }
}

/// The stream type a MAX_STREAMS frame of type `tag` is about: the type
/// 0x12 means bidirectional streams, every other type unidirectional ones.
pub open spec fn spec_max_streams_type(tag: u8) -> StreamType {
    if tag == BIDIRECTIONAL_TAG {
        StreamType::Bidirectional
    } else {
        StreamType::Unidirectional
    }
}

impl MaxStreams {
    pub fn tag(&self) -> (t: u8)
        ensures
            t == spec_max_streams_tag(self.stream_type),
    {
        match self.stream_type {
            StreamType::Bidirectional => BIDIRECTIONAL_TAG,
            StreamType::Unidirectional => UNIDIRECTIONAL_TAG,
        }
    }

    /// Decodes the frame's fields, which follow its type `tag`.
    pub fn decode(tag: Tag, buffer: &[u8]) -> (res: Result<(MaxStreams, &[u8]), DecoderError>)
        ensures
            spec_decode_varint(buffer@) is None <==> res is Err,
            res matches Ok((f, rest)) ==> spec_decode_varint(buffer@) matches Some((v, n)) && f@
                == (spec_max_streams_type(tag), v) && is_rest_after(buffer@, n, rest@),
    {
        let stream_type = if BIDIRECTIONAL_TAG == tag {
            StreamType::Bidirectional
        } else {
            StreamType::Unidirectional
        };
        let (maximum_streams, buffer) = VarInt::decode(buffer)?;
        Ok((MaxStreams { stream_type, maximum_streams }, buffer))
    }
}

impl Encodable for MaxStreams {
    open spec fn spec_encoding(&self) -> Seq<u8> {
        seq![spec_max_streams_tag(self.stream_type)] + spec_encode_varint(self.maximum_streams@)
    }

    open spec fn encodable(&self) -> bool {
        true
    }

    fn encoding_size(&self) -> (n: usize) {
        1 + self.maximum_streams.encoding_size()
    }

    fn encode(&self, out: &mut Vec<u8>) {
        out.push(self.tag());
        self.maximum_streams.encode(out);
        assert(out@ =~= old(out)@ + self.spec_encoding());
    }
}

/// Decoding what follows the type in the encoding of a MAX_STREAMS frame,
/// with that type, gives the frame back and consumes exactly its encoding.
pub proof fn lemma_max_streams_round_trip(f: MaxStreams, rest: Seq<u8>)
    requires
        f.maximum_streams.valid(),
    ensures
        f.spec_encoding()[0] == spec_max_streams_tag(f.stream_type),
        spec_max_streams_type(spec_max_streams_tag(f.stream_type)) == f.stream_type,
        spec_decode_varint(f.spec_encoding().skip(1) + rest) == Some(
            (f.maximum_streams@, (f.spec_encoding().len() - 1) as nat),
        ),
{
    assert(f.spec_encoding().skip(1) =~= spec_encode_varint(f.maximum_streams@));
    lemma_varint_round_trip(f.maximum_streams@, rest);
}

} // verus!
