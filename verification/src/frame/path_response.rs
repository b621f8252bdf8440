//! PATH_RESPONSE frame (RFC 9000, section 19.18): echoes the data of a
//! PATH_CHALLENGE.
use crate::codec::{encode_bytes, is_rest_after, DecoderError, Encodable};
use crate::frame::path_challenge::{decode_path_data, spec_decode_path_data, PathChallenge, DATA_LEN};
use crate::frame::Tag;
use vstd::prelude::*;

verus! {

pub const PATH_RESPONSE_TAG: u8 = 0x1bu8;

#[derive(Debug, PartialEq, Eq)]
pub struct PathResponse<'a> {
    /// This 8-byte field contains arbitrary data.
    pub data: &'a [u8; DATA_LEN],
}

impl<'a> View for PathResponse<'a> {
    type V = Seq<u8>;

    open spec fn view(&self) -> Seq<u8> {
        self.data@
    }
}

impl<'a> PathResponse<'a> {
    pub fn tag(&self) -> (t: u8)
        ensures
            t == PATH_RESPONSE_TAG,
    {
        PATH_RESPONSE_TAG
    }

    /// The response to a challenge: the same data.
    pub fn from_challenge(path_challenge: PathChallenge<'a>) -> (r: PathResponse<'a>)
        ensures
            r@ == path_challenge@,
    {
        PathResponse { data: path_challenge.data }
    }

    /// Decodes the frame's fields, which follow its type; they are those of
    /// a PATH_CHALLENGE.
    pub fn decode(tag: Tag, buffer: &'a [u8]) -> (res: Result<(PathResponse<'a>, &'a [u8]), DecoderError>)
        ensures
            spec_decode_path_data(buffer@) is None <==> res is Err,
            res matches Ok((f, rest)) ==> spec_decode_path_data(buffer@) matches Some((v, n)) && v
                == f@ && is_rest_after(buffer@, n, rest@),
    {
        let (path_challenge, buffer) = PathChallenge::decode(crate::frame::path_challenge::PATH_CHALLENGE_TAG, buffer)?;
        Ok((PathResponse::from_challenge(path_challenge), buffer))
    }
}

impl<'a> Encodable for PathResponse<'a> {
    open spec fn spec_encoding(&self) -> Seq<u8> {
        seq![PATH_RESPONSE_TAG] + self.data@
    }

    open spec fn encodable(&self) -> bool {
        true
    }

    fn encoding_size(&self) -> (n: usize) {
        1 + DATA_LEN
    }

    fn encode(&self, out: &mut Vec<u8>) {
        out.push(PATH_RESPONSE_TAG);
        encode_bytes(out, self.data.as_slice());
        assert(out@ =~= old(out)@ + self.spec_encoding());
    }
}

/// Decoding what follows the type in the encoding of a PATH_RESPONSE frame
/// gives the frame back and consumes exactly its encoding.
pub proof fn lemma_path_response_round_trip(f: PathResponse, rest: Seq<u8>)
    ensures
        f.spec_encoding()[0] == PATH_RESPONSE_TAG,
        spec_decode_path_data(f.spec_encoding().skip(1) + rest) == Some(
            (f@, (f.spec_encoding().len() - 1) as nat),
        ),
{
    assert(f.spec_encoding().skip(1) + rest =~= f.data@ + rest);
    assert((f.data@ + rest).take(DATA_LEN as int) =~= f.data@);
}

} // verus!
