//! PATH_CHALLENGE frame (RFC 9000, section 19.17): eight bytes the peer
//! must echo in a PATH_RESPONSE to prove it can be reached on a path.
use crate::codec::{decode_slice, encode_bytes, is_rest_after, slice_as_array, DecoderError, Encodable};
use crate::frame::Tag;
use vstd::prelude::*;

verus! {

pub const PATH_CHALLENGE_TAG: u8 = 0x1au8;

/// The number of bytes a PATH_CHALLENGE or PATH_RESPONSE carries.
pub const DATA_LEN: usize = 8usize;

#[derive(Debug, PartialEq, Eq)]
pub struct PathChallenge<'a> {
    /// This 8-byte field contains arbitrary data.
    pub data: &'a [u8; DATA_LEN],
}

impl<'a> View for PathChallenge<'a> {
    type V = Seq<u8>;

    open spec fn view(&self) -> Seq<u8> {
        self.data@
    }
}

/// The eight bytes at the front of `s`, or `None` when `s` is shorter.
pub open spec fn spec_decode_path_data(s: Seq<u8>) -> Option<(Seq<u8>, nat)> {
    if s.len() < DATA_LEN {
        None
    } else {
        Some((s.take(DATA_LEN as int), DATA_LEN as nat))
    }
}

/// Splits the eight bytes of a path challenge off the front of `buffer`.
pub fn decode_path_data<'a>(buffer: &'a [u8]) -> (res: Result<(&'a [u8; DATA_LEN], &'a [u8]), DecoderError>)
    ensures
        spec_decode_path_data(buffer@) is None <==> res is Err,
        res matches Ok((d, rest)) ==> spec_decode_path_data(buffer@) matches Some((v, n)) && v
            == d@ && is_rest_after(buffer@, n, rest@),
{
    let (data, buffer) = decode_slice(buffer, DATA_LEN)?;
    match slice_as_array::<DATA_LEN>(data) {
        Some(data) => Ok((data, buffer)),
        None => Err(DecoderError::UnexpectedEof(DATA_LEN)),
    }
}

impl<'a> PathChallenge<'a> {
    pub fn tag(&self) -> (t: u8)
        ensures
            t == PATH_CHALLENGE_TAG,
    {
        PATH_CHALLENGE_TAG
    }

    /// Decodes the frame's fields, which follow its type.
    pub fn decode(tag: Tag, buffer: &'a [u8]) -> (res: Result<(PathChallenge<'a>, &'a [u8]), DecoderError>)
        ensures
            spec_decode_path_data(buffer@) is None <==> res is Err,
            res matches Ok((f, rest)) ==> spec_decode_path_data(buffer@) matches Some((v, n)) && v
                == f@ && is_rest_after(buffer@, n, rest@),
    {
        let (data, buffer) = decode_path_data(buffer)?;
        Ok((PathChallenge { data }, buffer))
    }
}

impl<'a> Encodable for PathChallenge<'a> {
    open spec fn spec_encoding(&self) -> Seq<u8> {
        seq![PATH_CHALLENGE_TAG] + self.data@
    }

    open spec fn encodable(&self) -> bool {
        true
    }

    fn encoding_size(&self) -> (n: usize) {
        1 + DATA_LEN
    }

    fn encode(&self, out: &mut Vec<u8>) {
        out.push(PATH_CHALLENGE_TAG);
        encode_bytes(out, self.data.as_slice());
        assert(out@ =~= old(out)@ + self.spec_encoding());
    }
}

/// Decoding what follows the type in the encoding of a PATH_CHALLENGE frame
/// gives the frame back and consumes exactly its encoding.
pub proof fn lemma_path_challenge_round_trip(f: PathChallenge, rest: Seq<u8>)
    ensures
        f.spec_encoding()[0] == PATH_CHALLENGE_TAG,
        spec_decode_path_data(f.spec_encoding().skip(1) + rest) == Some(
            (f@, (f.spec_encoding().len() - 1) as nat),
        ),
{
    assert(f.spec_encoding().skip(1) + rest =~= f.data@ + rest);
    assert((f.data@ + rest).take(DATA_LEN as int) =~= f.data@);
}

} // verus!
