//! MTU_PROBING_COMPLETE extension frame: the MTU a peer has confirmed.
use crate::codec::{decode_u16, encode_u16, is_rest_after, spec_u16_bytes, be_u16, DecoderError, Encodable};
use crate::frame::ExtensionTag;
use crate::varint::{lemma_encoding_len, spec_encode_varint, VarInt};
use vstd::prelude::*;

verus! {

/// The frame type, 0xdc0001, as a variable-length integer.
pub const MTU_PROBING_COMPLETE_TAG: u32 = 0xdc0001u32;

#[derive(Copy, Clone, Debug, PartialEq, Eq, Structural)]
pub struct MtuProbingComplete {
    /// A 16-bit value indicating the confirmed MTU
    pub mtu: u16,
}

/// The MTU at the front of `s`, in network byte order.
pub open spec fn spec_decode_mtu(s: Seq<u8>) -> Option<(u16, nat)> {
    if s.len() < 2 {
        None
    } else {
        Some((be_u16(s[0], s[1]), 2))
    }
}

impl MtuProbingComplete {
    pub fn tag(&self) -> (t: ExtensionTag)
        ensures
            t@ == MTU_PROBING_COMPLETE_TAG,
    {
        VarInt::from_u32(MTU_PROBING_COMPLETE_TAG)
    }

    pub fn new(mtu: u16) -> (f: MtuProbingComplete)
        ensures
            f.mtu == mtu,
    {
        MtuProbingComplete { mtu }
    }

    /// Decodes the frame's fields, which follow its type.
    pub fn decode(tag: ExtensionTag, buffer: &[u8]) -> (res: Result<(MtuProbingComplete, &[u8]), DecoderError>)
        ensures
            spec_decode_mtu(buffer@) is None <==> res is Err,
            res matches Ok((f, rest)) ==> spec_decode_mtu(buffer@) matches Some((v, n)) && v
                == f.mtu && is_rest_after(buffer@, n, rest@),
    {
        let (mtu, buffer) = decode_u16(buffer)?;
        Ok((MtuProbingComplete { mtu }, buffer))
    }
}

impl Encodable for MtuProbingComplete {
    open spec fn spec_encoding(&self) -> Seq<u8> {
        spec_encode_varint(MTU_PROBING_COMPLETE_TAG as u64) + spec_u16_bytes(self.mtu)
    }

    open spec fn encodable(&self) -> bool {
        true
    }

    fn encoding_size(&self) -> (n: usize) {
        let tag = self.tag();
        proof {
            lemma_encoding_len(tag@);
        }
        tag.encoding_size() + 2
    }

    fn encode(&self, out: &mut Vec<u8>) {
        self.tag().encode(out);
        encode_u16(out, self.mtu);
        assert(out@ =~= old(out)@ + self.spec_encoding());
    }
}

/// Decoding what follows the type in the encoding of an MTU_PROBING_COMPLETE
/// frame gives the MTU back and consumes exactly its encoding.
pub proof fn lemma_mtu_probing_complete_round_trip(f: MtuProbingComplete, rest: Seq<u8>)
    ensures
        f.spec_encoding() == spec_encode_varint(MTU_PROBING_COMPLETE_TAG as u64) + spec_u16_bytes(
            f.mtu,
        ),
        spec_decode_mtu(spec_u16_bytes(f.mtu) + rest) == Some((f.mtu, 2nat)),
{
    let s = spec_u16_bytes(f.mtu) + rest;
    assert(s[0] == (f.mtu / 256) as u8 && s[1] == (f.mtu % 256) as u8);
}

} // verus!
