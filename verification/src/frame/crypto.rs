//! CRYPTO frame (RFC 9000, section 19.6): handshake data at an offset in
//! the crypto stream of a packet number space.
use crate::codec::{is_rest_after, DecoderError, Encodable};
use crate::frame::{lemma_skip_prefix, FitError, Tag};
use crate::varint::{
    decode_slice_with_len_prefix, lemma_encoding_len, lemma_len_prefixed_round_trip,
    lemma_varint_round_trip, spec_decode_len_prefixed, spec_decode_varint,
    spec_encode_len_prefixed, spec_encode_varint, spec_varint_size, VarInt, MAX_VARINT_VALUE,
};
use vstd::prelude::*;

verus! {

pub const CRYPTO_TAG: u8 = 0x06u8;

#[derive(Debug, PartialEq, Eq)]
pub struct Crypto<Data> {
    /// A variable-length integer specifying the byte offset in the stream
    /// for the data in this CRYPTO frame.
    pub offset: VarInt,
    /// The cryptographic message data.
    pub data: Data,
}

pub type CryptoRef<'a> = Crypto<&'a [u8]>;

impl<Data: View> View for Crypto<Data> {
    type V = (u64, Data::V);

    open spec fn view(&self) -> (u64, Data::V) {
        (self.offset@, self.data@)
    }
}

/// The fields of a CRYPTO frame at the front of `s`: offset, then the data
/// preceded by its length.
pub open spec fn spec_decode_crypto(s: Seq<u8>) -> Option<((u64, Seq<u8>), nat)> {
    match spec_decode_varint(s) {
        None => None,
        Some((offset, n1)) => match spec_decode_len_prefixed(s.skip(n1 as int)) {
            None => None,
            Some((data, n2)) => Some(((offset, data), n1 + n2)),
        },
    }
}

/// The size of a CRYPTO frame at `offset` that carries `len` bytes of data.
pub open spec fn spec_crypto_size(offset: u64, len: nat) -> nat {
    1 + spec_varint_size(offset) + spec_varint_size(len as u64) + len
}

/// The amount of data `try_fit` lets a CRYPTO frame at `offset`, holding
/// `data_len` bytes of data, carry within `capacity` bytes; `None` when the
/// frame cannot fit.
pub open spec fn spec_crypto_fit(offset: u64, data_len: nat, capacity: nat) -> Option<nat> {
    let fixed_len = 1 + spec_varint_size(offset);
    if capacity < fixed_len {
        None
    } else {
        let remaining = (capacity - fixed_len) as nat;
        let max_data_len = if remaining < data_len {
            remaining
        } else {
            data_len
        };
        if max_data_len > MAX_VARINT_VALUE {
            None
        } else {
            let len_prefix_size = spec_varint_size(max_data_len as u64);
            if remaining < len_prefix_size {
                None
            } else {
                let prefixed_data_len = (remaining - len_prefix_size) as nat;
                Some(
                    if prefixed_data_len < data_len {
                        prefixed_data_len
                    } else {
                        data_len
                    },
                )
            }
        }
    }
}

impl<Data> Crypto<Data> {
    pub fn tag(&self) -> (t: u8)
        ensures
            t == CRYPTO_TAG,
    {
        CRYPTO_TAG
    }

    /// Converts the crypto data from one type to another
    pub fn map_data<F: FnOnce(Data) -> Out, Out>(self, map: F) -> (r: Crypto<Out>)
        requires
            map.requires((self.data,)),
        ensures
            r.offset == self.offset,
            map.ensures((self.data,), r.data),
    {
        Crypto { offset: self.offset, data: map(self.data) }
    }
}

impl<Data: Encodable> Crypto<Data> {
    /// Tries to fit the frame into the provided capacity
    ///
    /// If ok, the new payload length is returned, otherwise the frame cannot
    /// fit.
    pub fn try_fit(&self, capacity: usize) -> (res: Result<usize, FitError>)
        requires
            self.data.encodable(),
            self.data.spec_encoding().len() <= usize::MAX,
        ensures
            match spec_crypto_fit(self.offset@, self.data.spec_encoding().len(), capacity as nat) {
                Some(n) => res == Ok::<usize, FitError>(n as usize),
                None => res is Err,
            },
    {
        let mut fixed_len: usize = 0;
        fixed_len = fixed_len + 1;
        proof {
            lemma_encoding_len(self.offset@);
        }
        fixed_len = fixed_len + self.offset.encoding_size();
        let remaining_capacity = match capacity.checked_sub(fixed_len) {
            Some(r) => r,
            None => return Err(FitError),
        };
        let data_len = self.data.encoding_size();
        let max_data_len = if remaining_capacity < data_len {
            remaining_capacity
        } else {
            data_len
        };
        let len_prefix = match VarInt::try_from_usize(max_data_len) {
            Ok(v) => v,
            Err(_) => return Err(FitError),
        };
        proof {
            lemma_encoding_len(len_prefix@);
        }
        let len_prefix_size = len_prefix.encoding_size();
        let prefixed_data_len = match remaining_capacity.checked_sub(len_prefix_size) {
            Some(r) => r,
            None => return Err(FitError),
        };
        let data_len = if prefixed_data_len < data_len {
            prefixed_data_len
        } else {
            data_len
        };
        Ok(data_len)
    }
}

impl<'a> Crypto<&'a [u8]> {
    /// Decodes the frame's fields, which follow its type.
    pub fn decode(tag: Tag, buffer: &'a [u8]) -> (res: Result<(CryptoRef<'a>, &'a [u8]), DecoderError>)
        ensures
            spec_decode_crypto(buffer@) is None <==> res is Err,
            res matches Ok((f, rest)) ==> spec_decode_crypto(buffer@) matches Some((v, n)) && v
                == f@ && is_rest_after(buffer@, n, rest@),
    {
        let (offset, b1) = VarInt::decode(buffer)?;
        let (data, b2) = decode_slice_with_len_prefix(b1)?;
        proof {
            assert(buffer@.skip(buffer@.len() - b1@.len()).skip(b1@.len() - b2@.len())
                =~= buffer@.skip(buffer@.len() - b2@.len()));
        }
        Ok((Crypto { offset, data }, b2))
    }
}

impl<Data: Encodable> Encodable for Crypto<Data> {
    open spec fn spec_encoding(&self) -> Seq<u8> {
        seq![CRYPTO_TAG] + spec_encode_varint(self.offset@) + spec_encode_len_prefixed(
            self.data.spec_encoding(),
        )
    }

    /// The data can be written, and its length fits a variable-length integer.
    open spec fn encodable(&self) -> bool {
        &&& self.data.encodable()
        &&& self.data.spec_encoding().len() <= MAX_VARINT_VALUE
        &&& self.data.spec_encoding().len() <= usize::MAX
    }

    fn encoding_size(&self) -> (n: usize) {
        proof {
            lemma_encoding_len(self.offset@);
            lemma_encoding_len(self.data.spec_encoding().len() as u64);
        }
        let data_len = self.data.encoding_size();
        let len_prefix = VarInt::try_from_usize(data_len).unwrap();
        proof {
            lemma_encoding_len(len_prefix@);
        }
        1 + self.offset.encoding_size() + len_prefix.encoding_size() + data_len
    }

    fn encode(&self, out: &mut Vec<u8>) {
        out.push(CRYPTO_TAG);
        self.offset.encode(out);
        let data_len = self.data.encoding_size();
        let len_prefix = VarInt::try_from_usize(data_len).unwrap();
        len_prefix.encode(out);
        self.data.encode(out);
        assert(out@ =~= old(out)@ + self.spec_encoding());
    }
}

/// Decoding what follows the type in the encoding of a CRYPTO frame gives
/// the frame back and consumes exactly its encoding.
pub proof fn lemma_crypto_round_trip(f: CryptoRef, rest: Seq<u8>)
    requires
        f.offset.valid(),
        f.encodable(),
    ensures
        f.spec_encoding()[0] == CRYPTO_TAG,
        spec_decode_crypto(f.spec_encoding().skip(1) + rest) == Some(
            (f@, (f.spec_encoding().len() - 1) as nat),
        ),
{
    let eo = spec_encode_varint(f.offset@);
    let ed = spec_encode_len_prefixed(f.data@);
    assert(f.spec_encoding().skip(1) + rest =~= eo + (ed + rest));
    lemma_varint_round_trip(f.offset@, ed + rest);
    lemma_skip_prefix(eo, ed + rest);
    lemma_len_prefixed_round_trip(f.data@, rest);
}

/// The encoding of a CRYPTO frame takes `spec_crypto_size` bytes.
pub proof fn lemma_crypto_size<Data: Encodable>(f: Crypto<Data>)
    ensures
        f.spec_encoding().len() == spec_crypto_size(f.offset@, f.data.spec_encoding().len()),
{
    lemma_encoding_len(f.offset@);
    lemma_encoding_len(f.data.spec_encoding().len() as u64);
}

/// The shortest encoding never gets longer as the value shrinks.
pub proof fn lemma_varint_size_monotonic(a: u64, b: u64)
    requires
        a <= b,
    ensures
        spec_varint_size(a) <= spec_varint_size(b),
{
}

/// What `try_fit` lets a CRYPTO frame carry fits: a frame at the same offset
/// carrying that much data takes at most `capacity` bytes, and no more data
/// than the frame holds. When it carries less than all of its data, it
/// leaves at most as many bytes unused as its length prefix takes. This
/// holds for any amount of data. When `try_fit` refuses data whose length
/// a variable-length integer can hold, not even the whole frame fits.
pub proof fn lemma_crypto_fit(offset: u64, data_len: nat, capacity: nat)
    requires
        offset <= MAX_VARINT_VALUE,
    ensures
        spec_crypto_fit(offset, data_len, capacity) matches Some(n) ==> {
            &&& n <= data_len
            &&& spec_crypto_size(offset, n) <= capacity
            &&& n < data_len ==> capacity - spec_crypto_size(offset, n) <= spec_varint_size(
                n as u64,
            )
        },
        spec_crypto_fit(offset, data_len, capacity) is None && data_len <= MAX_VARINT_VALUE ==> spec_crypto_size(offset, data_len)
            > capacity,
{
    let fixed_len = 1 + spec_varint_size(offset);
    if capacity >= fixed_len {
        let remaining = (capacity - fixed_len) as nat;
        let m = if remaining < data_len {
            remaining
        } else {
            data_len
        };
        if let Some(n) = spec_crypto_fit(offset, data_len, capacity) {
            lemma_varint_size_monotonic(n as u64, m as u64);
            if n < data_len {
                // n is what remains after the prefix of `m`; the prefix of `n`
                // is at least one byte and at most that of `m`
                assert(n == remaining - spec_varint_size(m as u64));
                if spec_varint_size(n as u64) < spec_varint_size(m as u64) {
                    // a shorter prefix leaves room the frame does not use
                    assert(spec_varint_size(m as u64) <= 8);
                }
            }
        }
    }
}

} // verus!
