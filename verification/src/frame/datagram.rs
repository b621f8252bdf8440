//! DATAGRAM frame (RFC 9221, section 4): unreliable application data. Type
//! 0x31 carries the length of its data; type 0x30 has no length field and
//! its data runs to the end of the packet.
use crate::codec::{is_rest_after, DecoderError, Encodable};
use crate::frame::{FitError, Tag};
use crate::varint::{
    decode_slice_with_len_prefix, lemma_encoding_len, lemma_len_prefixed_round_trip,
    spec_decode_len_prefixed, spec_encode_len_prefixed, spec_varint_size, VarInt,
    MAX_VARINT_VALUE,
};
use vstd::prelude::*;

verus! {

pub const DATAGRAM_TAG: u8 = 0x30u8;

/// The bit of the type that says a length field is present.
pub const LEN_BIT: u8 = 0x01u8;

pub type DatagramRef<'a> = Datagram<&'a [u8]>;

#[derive(Debug, PartialEq, Eq)]
pub struct Datagram<Data> {
    /// If true, the frame is the last frame in the payload
    pub is_last_frame: bool,
    /// The bytes to be delivered.
    pub data: Data,
}

impl<Data: View> View for Datagram<Data> {
    type V = (bool, Data::V);

    open spec fn view(&self) -> (bool, Data::V) {
        (self.is_last_frame, self.data@)
    }
}

/// The type of a DATAGRAM frame: the length bit is set unless the frame is
/// the last one in the packet.
pub open spec fn spec_datagram_tag(is_last_frame: bool) -> u8 {
    if is_last_frame {
        DATAGRAM_TAG
    } else {
        DATAGRAM_TAG | LEN_BIT
    }
}

/// The fields of a DATAGRAM frame of type `tag` at the front of `s`: with
/// the length bit, the data preceded by its length; without it, all of `s`.
pub open spec fn spec_decode_datagram(tag: u8, s: Seq<u8>) -> Option<((bool, Seq<u8>), nat)> {
    if tag & LEN_BIT == LEN_BIT {
        match spec_decode_len_prefixed(s) {
            None => None,
            Some((data, n)) => Some(((false, data), n)),
        }
    } else {
        Some(((true, s), s.len()))
    }
}

/// The size of a DATAGRAM frame carrying `len` bytes.
pub open spec fn spec_datagram_size(is_last_frame: bool, len: nat) -> nat {
    if is_last_frame {
        1 + len
    } else {
        1 + spec_varint_size(len as u64) + len
    }
}

/// What `try_fit` decides for a DATAGRAM frame holding `data_len` bytes of
/// data within `capacity` bytes: the amount of data to carry and whether
/// the frame becomes the last one; `None` when the frame cannot fit.
pub open spec fn spec_datagram_fit(data_len: nat, capacity: nat) -> Option<(nat, bool)> {
    if capacity < 1 {
        None
    } else {
        let remaining = (capacity - 1) as nat;
        let max_data_len = if remaining < data_len {
            remaining
        } else {
            data_len
        };
        if max_data_len == remaining {
            Some((max_data_len, true))
        } else if max_data_len > MAX_VARINT_VALUE {
            None
        } else {
            let len_prefix_size = spec_varint_size(max_data_len as u64);
            if remaining < len_prefix_size {
                None
            } else {
                let prefixed_data_len = (remaining - len_prefix_size) as nat;
                Some(
                    (
                        if prefixed_data_len < data_len {
                            prefixed_data_len
                        } else {
                            data_len
                        },
                        false,
                    ),
                )
            }
        }
    }
}

impl<Data> Datagram<Data> {
    pub fn tag(&self) -> (t: u8)
        ensures
            t == spec_datagram_tag(self.is_last_frame),
    {
        let mut tag: u8 = DATAGRAM_TAG;
        if !self.is_last_frame {
            tag = tag | LEN_BIT;
        }
        tag
    }

    /// Converts the datagram data from one type to another
    pub fn map_data<F: FnOnce(Data) -> Out, Out>(self, map: F) -> (r: Datagram<Out>)
        requires
            map.requires((self.data,)),
        ensures
            r.is_last_frame == self.is_last_frame,
            map.ensures((self.data,), r.data),
    {
        Datagram { is_last_frame: self.is_last_frame, data: map(self.data) }
    }
}

impl<Data: Encodable> Datagram<Data> {
    /// Tries to fit the frame into the provided capacity
    ///
    /// If ok, the new payload length is returned, otherwise the frame cannot
    /// fit. When the data fills the capacity exactly, the frame becomes the
    /// last frame; otherwise it carries a length.
    pub fn try_fit(&mut self, capacity: usize) -> (res: Result<usize, FitError>)
        requires
            old(self).data.encodable(),
            old(self).data.spec_encoding().len() <= usize::MAX,
        ensures
            final(self).data == old(self).data,
            match spec_datagram_fit(old(self).data.spec_encoding().len(), capacity as nat) {
                Some((n, last)) => res == Ok::<usize, FitError>(n as usize)
                    && final(self).is_last_frame == last,
                None => res is Err && final(self).is_last_frame == if capacity == 0 {
                    old(self).is_last_frame
                } else {
                    false
                },
            },
    {
        let remaining_capacity = match capacity.checked_sub(1) {
            Some(r) => r,
            None => return Err(FitError),
        };
        let data_len = self.data.encoding_size();
        let max_data_len = if remaining_capacity < data_len {
            remaining_capacity
        } else {
            data_len
        };
        // If data fits exactly into the capacity, mark it as the last frame
        if max_data_len == remaining_capacity {
            self.is_last_frame = true;
            return Ok(max_data_len);
        }
        self.is_last_frame = false;
        let len_prefix = match VarInt::try_from_usize(max_data_len) {
            Ok(v) => v,
            Err(_) => return Err(FitError),
        };
        proof {
            lemma_encoding_len(len_prefix@);
        }
        let len_prefix_size = len_prefix.encoding_size();
        let prefixed_data_len = match remaining_capacity.checked_sub(len_prefix_size) {
            Some(r) => r,
            None => return Err(FitError),
        };
        let data_len = if prefixed_data_len < data_len {
            prefixed_data_len
        } else {
            data_len
        };
        Ok(data_len)
    }
}

impl<'a> Datagram<&'a [u8]> {
    /// Decodes the frame's fields, which follow its type `tag`.
    pub fn decode(tag: Tag, buffer: &'a [u8]) -> (res: Result<(DatagramRef<'a>, &'a [u8]), DecoderError>)
        ensures
            spec_decode_datagram(tag, buffer@) is None <==> res is Err,
            res matches Ok((f, rest)) ==> spec_decode_datagram(tag, buffer@) matches Some((v, n))
                && v == f@ && is_rest_after(buffer@, n, rest@),
    {
        let is_last_frame = tag & LEN_BIT != LEN_BIT;
        if !is_last_frame {
            let (data, rest) = decode_slice_with_len_prefix(buffer)?;
            Ok((Datagram { is_last_frame, data }, rest))
        } else {
            let (data, rest) = buffer.split_at(buffer.len());
            assert(data@ =~= buffer@);
            assert(rest@ =~= buffer@.skip(buffer@.len() as int));
            Ok((Datagram { is_last_frame, data }, rest))
        }
    }
}

impl<Data: Encodable> Encodable for Datagram<Data> {
    open spec fn spec_encoding(&self) -> Seq<u8> {
        seq![spec_datagram_tag(self.is_last_frame)] + if self.is_last_frame {
            self.data.spec_encoding()
        } else {
            spec_encode_len_prefixed(self.data.spec_encoding())
        }
    }

    /// The data can be written, and its length fits a variable-length integer.
    open spec fn encodable(&self) -> bool {
        &&& self.data.encodable()
        &&& self.data.spec_encoding().len() <= MAX_VARINT_VALUE
        &&& self.data.spec_encoding().len() <= usize::MAX
    }

    fn encoding_size(&self) -> (n: usize) {
        proof {
            lemma_encoding_len(self.data.spec_encoding().len() as u64);
        }
        let data_len = self.data.encoding_size();
        if self.is_last_frame {
            1 + data_len
        } else {
            let len_prefix = VarInt::try_from_usize(data_len).unwrap();
            proof {
                lemma_encoding_len(len_prefix@);
            }
            1 + len_prefix.encoding_size() + data_len
        }
    }

    fn encode(&self, out: &mut Vec<u8>) {
        out.push(self.tag());
        if !self.is_last_frame {
            let data_len = self.data.encoding_size();
            let len_prefix = VarInt::try_from_usize(data_len).unwrap();
            len_prefix.encode(out);
        }
        self.data.encode(out);
        assert(out@ =~= old(out)@ + self.spec_encoding());
    }
}

/// The encoding of a DATAGRAM frame takes `spec_datagram_size` bytes.
pub proof fn lemma_datagram_size<Data: Encodable>(f: Datagram<Data>)
    requires
        f.data.spec_encoding().len() <= MAX_VARINT_VALUE,
    ensures
        f.spec_encoding().len() == spec_datagram_size(f.is_last_frame, f.data.spec_encoding().len()),
{
    lemma_encoding_len(f.data.spec_encoding().len() as u64);
}

/// Decoding what follows the type in the encoding of a DATAGRAM frame gives
/// the frame back. A frame with a length field consumes exactly its
/// encoding; a last frame takes everything after its type, so nothing may
/// follow it.
pub proof fn lemma_datagram_round_trip(f: DatagramRef, rest: Seq<u8>)
    requires
        f.encodable(),
        f.is_last_frame ==> rest.len() == 0,
    ensures
        f.spec_encoding()[0] == spec_datagram_tag(f.is_last_frame),
        spec_decode_datagram(spec_datagram_tag(f.is_last_frame), f.spec_encoding().skip(1) + rest)
            == Some((f@, (f.spec_encoding().len() - 1) as nat)),
{
    assert((DATAGRAM_TAG | LEN_BIT) & LEN_BIT == LEN_BIT) by (bit_vector);
    assert(DATAGRAM_TAG & LEN_BIT != LEN_BIT) by (bit_vector);
    if f.is_last_frame {
        assert(f.spec_encoding().skip(1) + rest =~= f.data@);
    } else {
        assert(f.spec_encoding().skip(1) + rest =~= spec_encode_len_prefixed(f.data@) + rest);
        lemma_len_prefixed_round_trip(f.data@, rest);
    }
}

/// What `try_fit` lets a DATAGRAM frame carry fits: no more data than the
/// frame holds, in at most `capacity` bytes, and the frame becomes the last
/// one only when it fills the capacity exactly, for any amount of data.
/// When `try_fit` refuses data whose length a variable-length integer can
/// hold, not even the whole frame with a length field fits.
pub proof fn lemma_datagram_fit(data_len: nat, capacity: nat)
    requires
    ensures
        spec_datagram_fit(data_len, capacity) matches Some((n, last)) ==> {
            &&& n <= data_len
            &&& spec_datagram_size(last, n) <= capacity
            &&& last ==> spec_datagram_size(last, n) == capacity
        },
        spec_datagram_fit(data_len, capacity) is None && data_len <= MAX_VARINT_VALUE ==> spec_datagram_size(false, data_len)
            > capacity,
{
    if capacity >= 1 {
        let remaining = (capacity - 1) as nat;
        let m = if remaining < data_len {
            remaining
        } else {
            data_len
        };
        if let Some((n, last)) = spec_datagram_fit(data_len, capacity) {
            if !last {
                crate::frame::crypto::lemma_varint_size_monotonic(n as u64, m as u64);
            }
        }
    }
}

} // verus!
