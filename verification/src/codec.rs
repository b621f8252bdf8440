//! Reading values from the front of a byte buffer and appending encoded
//! values to an output buffer.
use vstd::prelude::*;

verus! {

/// Why a buffer could not be decoded.
#[derive(Clone, Copy, Debug, PartialEq, Eq)]
pub enum DecoderError {
    /// The buffer ended before the value did; holds how many bytes were needed.
    UnexpectedEof(usize),
    /// Bytes were left over where none were expected; holds how many.
    UnexpectedBytes(usize),
    /// A length field does not fit the platform.
    LengthCapacityExceeded,
    /// The bytes decode, but break a rule of the format.
    InvariantViolation(&'static str),
}

/// `rest` is what is left of `input` after its first `n` bytes.
pub open spec fn is_rest_after(input: Seq<u8>, n: nat, rest: Seq<u8>) -> bool {
    n <= input.len() && rest == input.skip(n as int)
}

/// Big-endian value of two bytes.
pub open spec fn be_u16(hi: u8, lo: u8) -> u16 {
    (hi as int * 256 + lo as int) as u16
}

/// The two big-endian bytes of `v`.
pub open spec fn spec_u16_bytes(v: u16) -> Seq<u8> {
    seq![(v / 256) as u8, (v % 256) as u8]
}

/// Splits the first byte off `buffer`.
pub fn decode_u8(buffer: &[u8]) -> (res: Result<(u8, &[u8]), DecoderError>)
    ensures
        buffer@.len() == 0 <==> res is Err,
        res matches Ok((b, rest)) ==> b == buffer@[0] && rest@ == buffer@.skip(1),
        res matches Err(e) ==> e == DecoderError::UnexpectedEof(1),
{
    if buffer.len() == 0 {
        return Err(DecoderError::UnexpectedEof(1));
    }
    let (head, rest) = buffer.split_at(1);
    assert(rest@ =~= buffer@.skip(1));
    Ok((head[0], rest))
}

/// Splits a big-endian `u16` off the front of `buffer`.
pub fn decode_u16(buffer: &[u8]) -> (res: Result<(u16, &[u8]), DecoderError>)
    ensures
        buffer@.len() < 2 <==> res is Err,
        res matches Ok((v, rest)) ==> v == be_u16(buffer@[0], buffer@[1]) && rest@ == buffer@.skip(2),
        res matches Err(e) ==> e == DecoderError::UnexpectedEof(2),
{
    if buffer.len() < 2 {
        return Err(DecoderError::UnexpectedEof(2));
    }
    let hi = buffer[0];
    let lo = buffer[1];
    let (_, rest) = buffer.split_at(2);
    assert(rest@ =~= buffer@.skip(2));
    Ok(((hi as u16) * 256 + lo as u16, rest))
}

/// Splits the first `len` bytes off `buffer`.
pub fn decode_slice(buffer: &[u8], len: usize) -> (res: Result<(&[u8], &[u8]), DecoderError>)
    ensures
        buffer@.len() < len <==> res is Err,
        res matches Ok((head, rest)) ==> head@ == buffer@.take(len as int) && rest@ == buffer@.skip(
            len as int,
        ),
        res matches Err(e) ==> e == DecoderError::UnexpectedEof(len),
{
    if buffer.len() < len {
        return Err(DecoderError::UnexpectedEof(len));
    }
    let (head, rest) = buffer.split_at(len);
    assert(head@ =~= buffer@.take(len as int));
    assert(rest@ =~= buffer@.skip(len as int));
    Ok((head, rest))
}

/// Appends one byte.
pub fn encode_u8(out: &mut Vec<u8>, b: u8)
    ensures
        final(out)@ == old(out)@.push(b),
{
    out.push(b);
}

/// Appends the two big-endian bytes of `v`.
pub fn encode_u16(out: &mut Vec<u8>, v: u16)
    ensures
        final(out)@ == old(out)@ + spec_u16_bytes(v),
{
    out.push((v / 256) as u8);
    out.push((v % 256) as u8);
    assert(out@ =~= old(out)@ + spec_u16_bytes(v));
}

/// Appends all of `bytes`.
pub fn encode_bytes(out: &mut Vec<u8>, bytes: &[u8])
    ensures
        final(out)@ == old(out)@ + bytes@,
{
    let ghost start = out@;
    let mut i: usize = 0;
    while i < bytes.len()
        invariant
            i <= bytes@.len(),
            out@ == start + bytes@.take(i as int),
        decreases bytes@.len() - i,
    {
        out.push(bytes[i]);
        i = i + 1;
        assert(out@ =~= start + bytes@.take(i as int));
    }
    assert(bytes@.take(i as int) =~= bytes@);
}

/// Appends `count` copies of `b`.
pub fn encode_repeated(out: &mut Vec<u8>, count: usize, b: u8)
    ensures
        final(out)@ == old(out)@ + Seq::new(count as nat, |_i: int| b),
{
    let ghost start = out@;
    let mut i: usize = 0;
    while i < count
        invariant
            i <= count,
            out@ == start + Seq::new(i as nat, |_i: int| b),
        decreases count - i,
    {
        out.push(b);
        i = i + 1;
        assert(out@ =~= start + Seq::new(i as nat, |_i: int| b));
    }
}

/// Views a slice of `N` bytes as an array of `N` bytes: `TryFrom<&[u8]>`
/// for `&[u8; N]` from the standard library, which succeeds exactly when
/// the slice holds `N` bytes and then refers to the same bytes.
#[verifier::external_body]
pub fn slice_as_array<const N: usize>(s: &[u8]) -> (r: Option<&[u8; N]>)
    ensures
        s@.len() == N <==> r is Some,
        r matches Some(a) ==> a@ == s@,
{
    s.try_into().ok()
}

/// A value with a wire encoding.
pub trait Encodable {
    /// The bytes that encode the value.
    spec fn spec_encoding(&self) -> Seq<u8>;

    /// Whether the value can be written: the length prefixes that its
    /// encoding carries fit a variable-length integer.
    spec fn encodable(&self) -> bool;

    /// The length of the encoding, without writing it.
    fn encoding_size(&self) -> (n: usize)
        requires
            self.encodable(),
            self.spec_encoding().len() <= usize::MAX,
        ensures
            n == self.spec_encoding().len(),
    ;

    /// Appends the encoding to `out`.
    fn encode(&self, out: &mut Vec<u8>)
        requires
            self.encodable(),
        ensures
            final(out)@ == old(out)@ + self.spec_encoding(),
    ;
}

} // verus!

verus! {

impl<'a> Encodable for &'a [u8] {
    open spec fn spec_encoding(&self) -> Seq<u8> {
        self@
    }

    open spec fn encodable(&self) -> bool {
        true
    }

    fn encoding_size(&self) -> (n: usize) {
        self.len()
    }

    fn encode(&self, out: &mut Vec<u8>) {
        encode_bytes(out, *self);
    }
}

} // verus!
