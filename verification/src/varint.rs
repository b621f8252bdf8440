//! QUIC variable-length integers (RFC 9000, section 16).
//!
//! The two most significant bits of the first byte give the length of the
//! encoding (1, 2, 4 or 8 bytes); the remaining bits hold the value in
//! network byte order, so a value has at most 62 bits.
use crate::codec::{decode_slice, encode_bytes, is_rest_after, DecoderError, Encodable};
use vstd::prelude::*;

verus! {

/// The largest value a variable-length integer can hold: 2^62 - 1.
pub const MAX_VARINT_VALUE: u64 = 4611686018427387903u64;

/// A value that fits a QUIC variable-length integer.
#[derive(Clone, Copy, Debug, PartialEq, Eq, Structural, Hash)]
pub struct VarInt(u64);

/// Why a value could not become a `VarInt`.
#[derive(Clone, Copy, Debug, PartialEq, Eq)]
pub struct VarIntError;

impl View for VarInt {
    type V = u64;

    closed spec fn view(&self) -> u64 {
        self.0
    }
}

/// The number of bytes the shortest encoding of `v` takes.
pub open spec fn spec_varint_size(v: u64) -> nat {
    if v < 64 {
        1
    } else if v < 16384 {
        2
    } else if v < 1073741824 {
        4
    } else {
        8
    }
}

/// The shortest encoding of `v`, which must fit in 62 bits.
#[verifier::opaque]
pub open spec fn spec_encode_varint(v: u64) -> Seq<u8> {
    if v < 64 {
        seq![v as u8]
    } else if v < 16384 {
        seq![(0x40u64 | (v >> 8u64)) as u8, (v & 0xffu64) as u8]
    } else if v < 1073741824 {
        seq![
            (0x80u64 | (v >> 24u64)) as u8,
            ((v >> 16u64) & 0xffu64) as u8,
            ((v >> 8u64) & 0xffu64) as u8,
            (v & 0xffu64) as u8,
        ]
    } else {
        seq![
            (0xc0u64 | (v >> 56u64)) as u8,
            ((v >> 48u64) & 0xffu64) as u8,
            ((v >> 40u64) & 0xffu64) as u8,
            ((v >> 32u64) & 0xffu64) as u8,
            ((v >> 24u64) & 0xffu64) as u8,
            ((v >> 16u64) & 0xffu64) as u8,
            ((v >> 8u64) & 0xffu64) as u8,
            (v & 0xffu64) as u8,
        ]
    }
}

/// The length of the encoding that starts with byte `b0`.
pub open spec fn spec_varint_len(b0: u8) -> nat {
    if b0 >> 6u8 == 0 {
        1
    } else if b0 >> 6u8 == 1 {
        2
    } else if b0 >> 6u8 == 2 {
        4
    } else {
        8
    }
}

/// The value held by the encoding at the front of `s`, which is long enough.
pub open spec fn spec_varint_value(s: Seq<u8>) -> u64 {
    let b0 = (s[0] & 0x3fu8) as u64;
    if spec_varint_len(s[0]) == 1 {
        b0
    } else if spec_varint_len(s[0]) == 2 {
        (b0 << 8u64) | (s[1] as u64)
    } else if spec_varint_len(s[0]) == 4 {
        (b0 << 24u64) | ((s[1] as u64) << 16u64) | ((s[2] as u64) << 8u64) | (s[3] as u64)
    } else {
        (b0 << 56u64) | ((s[1] as u64) << 48u64) | ((s[2] as u64) << 40u64) | ((s[3] as u64)
            << 32u64) | ((s[4] as u64) << 24u64) | ((s[5] as u64) << 16u64) | ((s[6] as u64)
            << 8u64) | (s[7] as u64)
    }
}

/// Decoding a variable-length integer from the front of `s`: the value and
/// the number of bytes it took, or `None` when `s` ends too early.
#[verifier::opaque]
pub open spec fn spec_decode_varint(s: Seq<u8>) -> Option<(u64, nat)> {
    if s.len() == 0 || s.len() < spec_varint_len(s[0]) {
        None
    } else {
        Some((spec_varint_value(s), spec_varint_len(s[0])))
    }
}

proof fn lemma_value_bound_8(b0: u8, b1: u8, b2: u8, b3: u8, b4: u8, b5: u8, b6: u8, b7: u8)
    ensures
        (((b0 & 0x3fu8) as u64) << 56u64) | ((b1 as u64) << 48u64) | ((b2 as u64) << 40u64) | ((
        b3 as u64) << 32u64) | ((b4 as u64) << 24u64) | ((b5 as u64) << 16u64) | ((b6 as u64)
            << 8u64) | (b7 as u64) <= 4611686018427387903u64,
{
    assert((((b0 & 0x3fu8) as u64) << 56u64) | ((b1 as u64) << 48u64) | ((b2 as u64) << 40u64)
        | ((b3 as u64) << 32u64) | ((b4 as u64) << 24u64) | ((b5 as u64) << 16u64) | ((
    b6 as u64) << 8u64) | (b7 as u64) <= 4611686018427387903u64) by (bit_vector);
}

/// Every decoded value fits in 62 bits.
pub proof fn lemma_decoded_value_bound(s: Seq<u8>)
    requires
        spec_decode_varint(s) is Some,
    ensures
        spec_decode_varint(s).unwrap().0 <= MAX_VARINT_VALUE,
        1 <= spec_decode_varint(s).unwrap().1 <= 8,
        spec_decode_varint(s).unwrap().1 <= s.len(),
{
    reveal(spec_decode_varint);
    let b0 = s[0];
    let x = (b0 & 0x3fu8) as u64;
    assert(x <= 63) by (bit_vector)
        requires
            x == (b0 & 0x3fu8) as u64,
    ;
    if spec_varint_len(s[0]) == 2 {
        let b1 = s[1];
        assert(x <= 63 ==> (x << 8u64) | (b1 as u64) <= 16383) by (bit_vector);
    } else if spec_varint_len(s[0]) == 4 {
        let (b1, b2, b3) = (s[1], s[2], s[3]);
        assert(x <= 63 ==> (x << 24u64) | ((b1 as u64) << 16u64) | ((b2 as u64) << 8u64) | (
        b3 as u64) <= 1073741823) by (bit_vector);
    } else if spec_varint_len(s[0]) == 8 {
        lemma_value_bound_8(s[0], s[1], s[2], s[3], s[4], s[5], s[6], s[7]);
    }
}

/// Bytes after a complete encoding do not change what decodes.
pub proof fn lemma_varint_prefix(s: Seq<u8>, x: Seq<u8>)
    requires
        spec_decode_varint(s) is Some,
    ensures
        spec_decode_varint(s + x) == spec_decode_varint(s),
{
    reveal(spec_decode_varint);
    let t = s + x;
    assert(t[0] == s[0]);
    let l = spec_varint_len(s[0]);
    assert(forall|i: int| 0 <= i < l ==> t[i] == s[i]);
}

/// Decoding looks only at the bytes it consumes.
pub proof fn lemma_varint_depends_on_prefix(s: Seq<u8>, t: Seq<u8>)
    requires
        spec_decode_varint(s) matches Some((_, n)) && n <= t.len() && t.take(n as int) == s.take(
            n as int,
        ),
    ensures
        spec_decode_varint(t) == spec_decode_varint(s),
{
    reveal(spec_decode_varint);
    let n = spec_decode_varint(s).unwrap().1;
    assert(t[0] == t.take(n as int)[0]);
    assert(forall|i: int| 0 <= i < n ==> t[i] == t.take(n as int)[i] && s[i] == s.take(n as int)[i]);
}

/// The encoding of a value has the length `spec_varint_size` gives.
pub proof fn lemma_encoding_len(v: u64)
    ensures
        spec_encode_varint(v).len() == spec_varint_size(v),
{
    reveal(spec_encode_varint);
}

/// The value 0 is encoded as a single zero byte.
pub proof fn lemma_encode_zero()
    ensures
        spec_encode_varint(0) == seq![0u8],
{
    reveal(spec_encode_varint);
    assert(spec_encode_varint(0) =~= seq![0u8]);
}

/// Decoding the encoding of a value, followed by anything, gives the value
/// back and stops where the encoding ends.
pub proof fn lemma_varint_round_trip(v: u64, rest: Seq<u8>)
    requires
        v <= MAX_VARINT_VALUE,
    ensures
        spec_decode_varint(spec_encode_varint(v) + rest) == Some((v, spec_encode_varint(v).len())),
        spec_encode_varint(v).len() == spec_varint_size(v),
{
    reveal(spec_encode_varint);
    reveal(spec_decode_varint);
    let e = spec_encode_varint(v);
    let s = e + rest;
    assert(s[0] == e[0]);
    if v < 64 {
        assert(v < 64 ==> (v as u8) >> 6u8 == 0) by (bit_vector);
        assert(v < 64 ==> (((v as u8) & 0x3fu8) as u64) == v) by (bit_vector);
    } else if v < 16384 {
        assert(s[1] == e[1]);
        assert(64 <= v < 16384 ==> ((0x40u64 | (v >> 8u64)) as u8) >> 6u8 == 1) by (bit_vector);
        assert(64 <= v < 16384 ==> (((((0x40u64 | (v >> 8u64)) as u8) & 0x3fu8) as u64) << 8u64)
            | (((v & 0xffu64) as u8) as u64) == v) by (bit_vector);
    } else if v < 1073741824 {
        assert(s[1] == e[1] && s[2] == e[2] && s[3] == e[3]);
        assert(16384 <= v < 1073741824 ==> ((0x80u64 | (v >> 24u64)) as u8) >> 6u8 == 2)
            by (bit_vector);
        assert(16384 <= v < 1073741824 ==> (((((0x80u64 | (v >> 24u64)) as u8) & 0x3fu8) as u64)
            << 24u64) | (((((v >> 16u64) & 0xffu64) as u8) as u64) << 16u64) | (((((v >> 8u64)
            & 0xffu64) as u8) as u64) << 8u64) | (((v & 0xffu64) as u8) as u64) == v)
            by (bit_vector);
    } else {
        assert(s[1] == e[1] && s[2] == e[2] && s[3] == e[3] && s[4] == e[4]);
        assert(s[5] == e[5] && s[6] == e[6] && s[7] == e[7]);
        assert(1073741824 <= v <= 4611686018427387903u64 ==> ((0xc0u64 | (v >> 56u64)) as u8)
            >> 6u8 == 3) by (bit_vector);
        assert(1073741824 <= v <= 4611686018427387903u64 ==> (((((0xc0u64 | (v >> 56u64)) as u8)
            & 0x3fu8) as u64) << 56u64) | (((((v >> 48u64) & 0xffu64) as u8) as u64) << 48u64) | ((
        (((v >> 40u64) & 0xffu64) as u8) as u64) << 40u64) | (((((v >> 32u64) & 0xffu64) as u8)
            as u64) << 32u64) | (((((v >> 24u64) & 0xffu64) as u8) as u64) << 24u64) | (((((v
            >> 16u64) & 0xffu64) as u8) as u64) << 16u64) | (((((v >> 8u64) & 0xffu64) as u8)
            as u64) << 8u64) | (((v & 0xffu64) as u8) as u64) == v) by (bit_vector);
    }
}

/// A slice preceded by its length as a variable-length integer: the slice
/// and the number of bytes the two take, or `None` when `s` ends too early.
pub open spec fn spec_decode_len_prefixed(s: Seq<u8>) -> Option<(Seq<u8>, nat)> {
    match spec_decode_varint(s) {
        None => None,
        Some((len, n)) => if s.len() < n + len {
            None
        } else {
            Some((s.subrange(n as int, n + len), (n + len) as nat))
        },
    }
}

/// The encoding of `bytes` preceded by their length.
pub open spec fn spec_encode_len_prefixed(bytes: Seq<u8>) -> Seq<u8> {
    spec_encode_varint(bytes.len() as u64) + bytes
}

/// Decodes a slice preceded by its length as a variable-length integer.
pub fn decode_slice_with_len_prefix(buffer: &[u8]) -> (res: Result<(&[u8], &[u8]), DecoderError>)
    ensures
        spec_decode_len_prefixed(buffer@) is None <==> res is Err,
        res matches Ok((head, rest)) ==> spec_decode_len_prefixed(buffer@) matches Some((h, n))
            && h == head@ && is_rest_after(buffer@, n, rest@),
{
    let (len, rest) = VarInt::decode(buffer)?;
    let len = len.as_u64();
    if (rest.len() as u64) < len {
        return Err(DecoderError::UnexpectedEof(rest.len()));
    }
    let (head, rest2) = decode_slice(rest, len as usize)?;
    proof {
        let n = buffer@.len() - rest@.len();
        assert(head@ =~= buffer@.subrange(n, n + len));
        assert(rest2@ =~= buffer@.skip(n + len));
    }
    Ok((head, rest2))
}

/// Appends the length of `bytes`, as a variable-length integer, then `bytes`.
pub fn encode_with_len_prefix(out: &mut Vec<u8>, bytes: &[u8])
    requires
        bytes@.len() <= MAX_VARINT_VALUE,
    ensures
        final(out)@ == old(out)@ + spec_encode_len_prefixed(bytes@),
{
    let len = VarInt(bytes.len() as u64);
    len.encode(out);
    encode_bytes(out, bytes);
    assert(out@ =~= old(out)@ + spec_encode_len_prefixed(bytes@));
}

/// The number of bytes `spec_encode_len_prefixed` takes for `len` bytes.
pub fn len_prefixed_size(len: usize) -> (n: usize)
    requires
        len <= MAX_VARINT_VALUE,
        spec_varint_size(len as u64) + len <= usize::MAX,
    ensures
        n == spec_varint_size(len as u64) + len,
        n == spec_encode_varint(len as u64).len() + len,
{
    let prefix = VarInt(len as u64);
    proof {
        lemma_encoding_len(prefix@);
    }
    prefix.encoding_size() + len
}

/// Decoding a length-prefixed encoding, followed by anything, gives the
/// bytes back.
pub proof fn lemma_len_prefixed_round_trip(bytes: Seq<u8>, rest: Seq<u8>)
    requires
        bytes.len() <= MAX_VARINT_VALUE,
    ensures
        spec_decode_len_prefixed(spec_encode_len_prefixed(bytes) + rest) == Some(
            (bytes, spec_encode_len_prefixed(bytes).len()),
        ),
{
    let e = spec_encode_varint(bytes.len() as u64);
    let s = spec_encode_len_prefixed(bytes) + rest;
    assert(s =~= e + (bytes + rest));
    lemma_varint_round_trip(bytes.len() as u64, bytes + rest);
    assert(s.subrange(e.len() as int, (e.len() + bytes.len()) as int) =~= bytes);
}

impl VarInt {
    #[verifier::type_invariant]
    spec fn inv(self) -> bool {
        self.0 <= MAX_VARINT_VALUE
    }

    /// Whether this is a value a `VarInt` can hold; true of every `VarInt`.
    pub open spec fn valid(self) -> bool {
        self@ <= MAX_VARINT_VALUE
    }

    /// The value `0`.
    pub fn zero() -> (r: VarInt)
        ensures
            r@ == 0,
    {
        VarInt(0)
    }

    /// The largest value, 2^62 - 1.
    pub fn max_value() -> (r: VarInt)
        ensures
            r@ == MAX_VARINT_VALUE,
    {
        VarInt(MAX_VARINT_VALUE)
    }

    pub fn from_u8(v: u8) -> (r: VarInt)
        ensures
            r@ == v,
    {
        VarInt(v as u64)
    }

    pub fn from_u16(v: u16) -> (r: VarInt)
        ensures
            r@ == v,
    {
        VarInt(v as u64)
    }

    pub fn from_u32(v: u32) -> (r: VarInt)
        ensures
            r@ == v,
    {
        VarInt(v as u64)
    }

    /// `Ok` exactly when `v` fits in 62 bits.
    pub fn new(v: u64) -> (r: Result<VarInt, VarIntError>)
        ensures
            v <= MAX_VARINT_VALUE <==> r is Ok,
            r matches Ok(x) ==> x@ == v,
    {
        if v <= MAX_VARINT_VALUE {
            Ok(VarInt(v))
        } else {
            Err(VarIntError)
        }
    }

    /// `Ok` exactly when `v` fits in 62 bits.
    pub fn try_from_usize(v: usize) -> (r: Result<VarInt, VarIntError>)
        ensures
            v <= MAX_VARINT_VALUE <==> r is Ok,
            r matches Ok(x) ==> x@ == v,
    {
        if (v as u64) <= MAX_VARINT_VALUE {
            Ok(VarInt(v as u64))
        } else {
            Err(VarIntError)
        }
    }

    pub fn as_u64(&self) -> (r: u64)
        ensures
            r == self@,
            r <= MAX_VARINT_VALUE,
    {
        proof {
            use_type_invariant(self);
        }
        self.0
    }

    /// `None` when the sum does not fit in 62 bits.
    pub fn checked_add(self, rhs: VarInt) -> (r: Option<VarInt>)
        ensures
            self@ + rhs@ <= MAX_VARINT_VALUE <==> r is Some,
            r matches Some(x) ==> x@ == self@ + rhs@,
    {
        proof {
            use_type_invariant(&self);
            use_type_invariant(&rhs);
        }
        let sum = self.0 + rhs.0;
        if sum <= MAX_VARINT_VALUE {
            Some(VarInt(sum))
        } else {
            None
        }
    }

    /// `None` when `rhs` is larger than `self`.
    pub fn checked_sub(self, rhs: VarInt) -> (r: Option<VarInt>)
        ensures
            rhs@ <= self@ <==> r is Some,
            r matches Some(x) ==> x@ == self@ - rhs@,
    {
        proof {
            use_type_invariant(&self);
        }
        if rhs.0 <= self.0 {
            Some(VarInt(self.0 - rhs.0))
        } else {
            None
        }
    }

    /// Decodes a variable-length integer from the front of `buffer`.
    pub fn decode(buffer: &[u8]) -> (res: Result<(VarInt, &[u8]), DecoderError>)
        ensures
            spec_decode_varint(buffer@) is None <==> res is Err,
            res matches Ok((v, rest)) ==> spec_decode_varint(buffer@) matches Some((x, n)) && x
                == v@ && is_rest_after(buffer@, n, rest@),
            res matches Err(e) ==> e == DecoderError::UnexpectedEof(
                if buffer@.len() == 0 {
                    1
                } else {
                    spec_varint_len(buffer@[0]) as usize
                },
            ),
    {
        proof {
            reveal(spec_decode_varint);
        }
        if buffer.len() == 0 {
            return Err(DecoderError::UnexpectedEof(1));
        }
        let b0 = buffer[0];
        let len: usize = if b0 >> 6u8 == 0 {
            1
        } else if b0 >> 6u8 == 1 {
            2
        } else if b0 >> 6u8 == 2 {
            4
        } else {
            8
        };
        if buffer.len() < len {
            return Err(DecoderError::UnexpectedEof(len));
        }
        let x = (b0 & 0x3fu8) as u64;
        let v: u64 = if len == 1 {
            x
        } else if len == 2 {
            (x << 8u64) | (buffer[1] as u64)
        } else if len == 4 {
            (x << 24u64) | ((buffer[1] as u64) << 16u64) | ((buffer[2] as u64) << 8u64) | (
            buffer[3] as u64)
        } else {
            (x << 56u64) | ((buffer[1] as u64) << 48u64) | ((buffer[2] as u64) << 40u64) | ((
            buffer[3] as u64) << 32u64) | ((buffer[4] as u64) << 24u64) | ((buffer[5] as u64)
                << 16u64) | ((buffer[6] as u64) << 8u64) | (buffer[7] as u64)
        };
        proof {
            lemma_decoded_value_bound(buffer@);
        }
        let (_, rest) = buffer.split_at(len);
        assert(rest@ =~= buffer@.skip(len as int));
        Ok((VarInt(v), rest))
    }
}

impl Encodable for VarInt {
    open spec fn spec_encoding(&self) -> Seq<u8> {
        spec_encode_varint(self@)
    }

    open spec fn encodable(&self) -> bool {
        true
    }

    fn encoding_size(&self) -> (n: usize) {
        let v = self.as_u64();
        proof {
            lemma_encoding_len(v);
        }
        let n: usize = if v < 64 {
            1
        } else if v < 16384 {
            2
        } else if v < 1073741824 {
            4
        } else {
            8
        };
        assert(n == spec_varint_size(v));
        assert(self.spec_encoding() == spec_encode_varint(self@));
        n
    }

    fn encode(&self, out: &mut Vec<u8>) {
        proof {
            reveal(spec_encode_varint);
        }
        let v = self.as_u64();
        if v < 64 {
            out.push(v as u8);
        } else if v < 16384 {
            out.push((0x40u64 | (v >> 8u64)) as u8);
            out.push((v & 0xffu64) as u8);
        } else if v < 1073741824 {
            out.push((0x80u64 | (v >> 24u64)) as u8);
            out.push(((v >> 16u64) & 0xffu64) as u8);
            out.push(((v >> 8u64) & 0xffu64) as u8);
            out.push((v & 0xffu64) as u8);
        } else {
            out.push((0xc0u64 | (v >> 56u64)) as u8);
            out.push(((v >> 48u64) & 0xffu64) as u8);
            out.push(((v >> 40u64) & 0xffu64) as u8);
            out.push(((v >> 32u64) & 0xffu64) as u8);
            out.push(((v >> 24u64) & 0xffu64) as u8);
            out.push(((v >> 16u64) & 0xffu64) as u8);
            out.push(((v >> 8u64) & 0xffu64) as u8);
            out.push((v & 0xffu64) as u8);
        }
        assert(out@ =~= old(out)@ + spec_encode_varint(v));
    }
}

} // verus!
