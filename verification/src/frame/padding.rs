//! PADDING frame (RFC 9000, section 19.1): zero bytes that only take up
//! space. A run of consecutive zero bytes decodes as a single frame.
use crate::codec::{encode_repeated, is_rest_after, DecoderError, Encodable};
use crate::frame::Tag;
use vstd::prelude::*;

verus! {

pub const PADDING_TAG: u8 = 0x00u8;

#[derive(Copy, Clone, Debug, PartialEq, Eq, Structural)]
pub struct Padding {
    /// The number of zero bytes, the frame's type included.
    pub length: usize,
}

/// The first `n` bytes of `s` are zero, and the byte after them, if any, is not.
pub open spec fn spec_zero_run(s: Seq<u8>, n: nat) -> bool {
    &&& n <= s.len()
    &&& forall|j: int| 0 <= j < n ==> s[j] == PADDING_TAG
    &&& (n == s.len() || s[n as int] != PADDING_TAG)
}

impl Padding {
    /// The maximum padding allowed. When placed at the end of the packet
    /// all of the remaining bytes will be consumed.
    pub fn max() -> (p: Padding)
        ensures
            p.length == usize::MAX,
    {
        Padding { length: usize::MAX }
    }

    pub fn tag(&self) -> (t: u8)
        ensures
            t == PADDING_TAG,
    {
        PADDING_TAG
    }

    /// Consumes the zero bytes that follow the frame's type; the frame's
    /// length counts them and the type.
    pub fn decode(tag: Tag, buffer: &[u8]) -> (res: Result<(Padding, &[u8]), DecoderError>)
        requires
            buffer@.len() < usize::MAX,
        ensures
            res matches Ok((f, rest)) && f.length >= 1 && spec_zero_run(
                buffer@,
                (f.length - 1) as nat,
            ) && is_rest_after(buffer@, (f.length - 1) as nat, rest@),
    {
        let mut length: usize = 0;
        while length < buffer.len() && buffer[length] == PADDING_TAG
            invariant
                length <= buffer@.len(),
                forall|j: int| 0 <= j < length ==> buffer@[j] == PADDING_TAG,
            decreases buffer@.len() - length,
        {
            length = length + 1;
        }
        let (_, rest) = buffer.split_at(length);
        assert(rest@ =~= buffer@.skip(length as int));
        Ok((Padding { length: length + 1 }, rest))
    }
}

impl Encodable for Padding {
    open spec fn spec_encoding(&self) -> Seq<u8> {
        Seq::new(self.length as nat, |_i: int| PADDING_TAG)
    }

    open spec fn encodable(&self) -> bool {
        true
    }

    fn encoding_size(&self) -> (n: usize) {
        self.length
    }

    fn encode(&self, out: &mut Vec<u8>) {
        encode_repeated(out, self.length, PADDING_TAG);
    }
}

/// Decoding what follows the type in the encoding of a PADDING frame gives
/// the frame back, when the bytes after it do not start with a zero byte
/// (which would belong to the same run).
pub proof fn lemma_padding_round_trip(f: Padding, rest: Seq<u8>)
    requires
        f.length >= 1,
        rest.len() == 0 || rest[0] != PADDING_TAG,
    ensures
        f.spec_encoding()[0] == PADDING_TAG,
        spec_zero_run(f.spec_encoding().skip(1) + rest, (f.length - 1) as nat),
        (f.spec_encoding().skip(1) + rest).skip(f.length - 1) == rest,
{
    let s = f.spec_encoding().skip(1) + rest;
    assert(s.skip(f.length - 1) =~= rest);
    if f.length - 1 < s.len() {
        assert(s[f.length - 1] == rest[0]);
    }
}

} // verus!
