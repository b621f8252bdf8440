//! CONNECTION_CLOSE frame (RFC 9000, section 19.19): the connection is
//! being closed. Type 0x1c reports an error of the QUIC layer and names the
//! frame type that caused it; type 0x1d reports an application error.
use crate::application;
use crate::codec::{is_rest_after, DecoderError, Encodable};
use crate::frame::{lemma_skip_prefix, Tag};
use crate::varint::{
    decode_slice_with_len_prefix, encode_with_len_prefix, len_prefixed_size,
    lemma_len_prefixed_round_trip, lemma_varint_round_trip, spec_decode_len_prefixed,
    spec_decode_varint, spec_encode_len_prefixed, spec_encode_varint, VarInt, MAX_VARINT_VALUE,
};
use vstd::prelude::*;

verus! {

pub const QUIC_ERROR_TAG: u8 = 0x1cu8;

pub const APPLICATION_ERROR_TAG: u8 = 0x1du8;

#[derive(Clone, Copy, Debug, PartialEq, Eq)]
pub struct ConnectionClose<'a> {
    /// A variable length integer error code which indicates the reason
    /// for closing this connection.
    pub error_code: VarInt,
    /// A variable-length integer encoding the type of frame that
    /// triggered the error.
    pub frame_type: Option<VarInt>,
    /// A human-readable explanation for why the connection was closed.
    /// This SHOULD be a UTF-8 encoded string.
    pub reason: Option<&'a [u8]>,
}

/// The model of a CONNECTION_CLOSE frame: error code, frame type, reason.
pub type ConnectionCloseModel = (u64, Option<u64>, Option<Seq<u8>>);

impl<'a> View for ConnectionClose<'a> {
    type V = ConnectionCloseModel;

    open spec fn view(&self) -> ConnectionCloseModel {
        (
            self.error_code@,
            match self.frame_type {
                Some(t) => Some(t@),
                None => None,
            },
            match self.reason {
                Some(r) => Some(r@),
                None => None,
            },
        )
    }
}

/// An empty reason is no reason.
pub open spec fn spec_reason(r: Seq<u8>) -> Option<Seq<u8>> {
    if r.len() == 0 {
        None
    } else {
        Some(r)
    }
}

/// The fields of a CONNECTION_CLOSE frame of type `tag` at the front of `s`.
pub open spec fn spec_decode_connection_close(tag: u8, s: Seq<u8>) -> Option<
    (ConnectionCloseModel, nat),
> {
    match spec_decode_varint(s) {
        None => None,
        Some((code, n1)) => {
            let s1 = s.skip(n1 as int);
            if tag == QUIC_ERROR_TAG {
                match spec_decode_varint(s1) {
                    None => None,
                    Some((ft, n2)) => match spec_decode_len_prefixed(s1.skip(n2 as int)) {
                        None => None,
                        Some((r, n3)) => Some(((code, Some(ft), spec_reason(r)), n1 + n2 + n3)),
                    },
                }
            } else {
                match spec_decode_len_prefixed(s1) {
                    None => None,
                    Some((r, n3)) => Some(((code, None, spec_reason(r)), n1 + n3)),
                }
            }
        },
    }
}

impl<'a> ConnectionClose<'a> {
    pub open spec fn spec_tag(&self) -> u8 {
        if self.frame_type is Some {
            QUIC_ERROR_TAG
        } else {
            APPLICATION_ERROR_TAG
        }
    }

    pub fn tag(&self) -> (t: u8)
        ensures
            t == self.spec_tag(),
    {
        if self.frame_type.is_some() {
            QUIC_ERROR_TAG
        } else {
            APPLICATION_ERROR_TAG
        }
    }

    /// The application's error code: a frame without a frame type was sent
    /// by an application; one with a frame type reports an error of the
    /// QUIC layer.
    pub fn application_error(&self) -> (r: Option<application::Error>)
        ensures
            r == (if self.frame_type is None {
                Some(application::Error(self.error_code))
            } else {
                None::<application::Error>
            }),
    {
        if self.frame_type.is_none() {
            Some(application::Error(self.error_code))
        } else {
            None
        }
    }

    /// Decodes the frame's fields, which follow its type `tag`.
    pub fn decode(tag: Tag, buffer: &'a [u8]) -> (res: Result<(ConnectionClose<'a>, &'a [u8]), DecoderError>)
        ensures
            spec_decode_connection_close(tag, buffer@) is None <==> res is Err,
            res matches Ok((f, rest)) ==> spec_decode_connection_close(tag, buffer@) matches Some(
                (v, n),
            ) && v == f@ && is_rest_after(buffer@, n, rest@),
    {
        let (error_code, b1) = VarInt::decode(buffer)?;
        let ghost n1 = (buffer@.len() - b1@.len()) as nat;
        let (frame_type, b2) = if tag == QUIC_ERROR_TAG {
            let (frame_type, b2) = VarInt::decode(b1)?;
            (Some(frame_type), b2)
        } else {
            (None, b1)
        };
        let (reason, b3) = decode_slice_with_len_prefix(b2)?;
        proof {
            assert(buffer@.skip(n1 as int).skip(b1@.len() - b2@.len()) =~= buffer@.skip(
                buffer@.len() - b2@.len(),
            ));
            assert(buffer@.skip(buffer@.len() - b2@.len()).skip(b2@.len() - b3@.len())
                =~= buffer@.skip(buffer@.len() - b3@.len()));
        }
        let reason = if reason.len() == 0 {
            None
        } else {
            Some(reason)
        };
        Ok((ConnectionClose { error_code, frame_type, reason }, b3))
    }
}

impl<'a> Encodable for ConnectionClose<'a> {
    open spec fn spec_encoding(&self) -> Seq<u8> {
        seq![self.spec_tag()] + spec_encode_varint(self.error_code@) + match self.frame_type {
            Some(t) => spec_encode_varint(t@),
            None => Seq::empty(),
        } + match self.reason {
            Some(r) => spec_encode_len_prefixed(r@),
            None => seq![0u8],
        }
    }

    open spec fn encodable(&self) -> bool {
        self.reason matches Some(r) ==> r@.len() <= MAX_VARINT_VALUE
    }

    fn encoding_size(&self) -> (n: usize) {
        let mut n = 1 + self.error_code.encoding_size();
        if let Some(t) = &self.frame_type {
            n = n + t.encoding_size();
        }
        match &self.reason {
            Some(r) => {
                proof {
                    crate::varint::lemma_encoding_len(r@.len() as u64);
                }
                n + len_prefixed_size(r.len())
            },
            None => n + 1,
        }
    }

    fn encode(&self, out: &mut Vec<u8>) {
        out.push(self.tag());
        self.error_code.encode(out);
        if let Some(t) = &self.frame_type {
            t.encode(out);
        }
        match &self.reason {
            Some(r) => encode_with_len_prefix(out, r),
            None => out.push(0u8),
        }
        assert(out@ =~= old(out)@ + self.spec_encoding());
    }
}

proof fn lemma_quic_error_fields(code: u64, t: u64, r: Seq<u8>, rest: Seq<u8>)
    requires
        code <= MAX_VARINT_VALUE,
        t <= MAX_VARINT_VALUE,
        r.len() <= MAX_VARINT_VALUE,
    ensures
        spec_decode_connection_close(
            QUIC_ERROR_TAG,
            spec_encode_varint(code) + (spec_encode_varint(t) + (spec_encode_len_prefixed(r)
                + rest)),
        ) == Some(
            (
                (code, Some(t), spec_reason(r)),
                spec_encode_varint(code).len() + spec_encode_varint(t).len()
                    + spec_encode_len_prefixed(r).len(),
            ),
        ),
{
    let ec = spec_encode_varint(code);
    let ft = spec_encode_varint(t);
    let er = spec_encode_len_prefixed(r);
    let s = ec + (ft + (er + rest));
    lemma_varint_round_trip(code, ft + (er + rest));
    lemma_skip_prefix(ec, ft + (er + rest));
    let s1 = s.skip(ec.len() as int);
    assert(s1 == ft + (er + rest));
    lemma_varint_round_trip(t, er + rest);
    lemma_skip_prefix(ft, er + rest);
    assert(s1.skip(ft.len() as int) == er + rest);
    lemma_len_prefixed_round_trip(r, rest);
}

proof fn lemma_application_error_fields(code: u64, r: Seq<u8>, rest: Seq<u8>)
    requires
        code <= MAX_VARINT_VALUE,
        r.len() <= MAX_VARINT_VALUE,
    ensures
        spec_decode_connection_close(
            APPLICATION_ERROR_TAG,
            spec_encode_varint(code) + (spec_encode_len_prefixed(r) + rest),
        ) == Some(
            (
                (code, None::<u64>, spec_reason(r)),
                spec_encode_varint(code).len() + spec_encode_len_prefixed(r).len(),
            ),
        ),
{
    let ec = spec_encode_varint(code);
    let er = spec_encode_len_prefixed(r);
    lemma_varint_round_trip(code, er + rest);
    lemma_skip_prefix(ec, er + rest);
    lemma_len_prefixed_round_trip(r, rest);
}

/// Decoding what follows the type in the encoding of a CONNECTION_CLOSE
/// frame gives the frame back and consumes exactly its encoding, unless the
/// reason is present but empty: an empty reason decodes as no reason.
pub proof fn lemma_connection_close_round_trip(f: ConnectionClose, rest: Seq<u8>)
    requires
        f.error_code.valid(),
        f.frame_type matches Some(t) ==> t.valid(),
        f.encodable(),
        f.reason matches Some(r) ==> r@.len() > 0,
    ensures
        f.spec_encoding()[0] == f.spec_tag(),
        spec_decode_connection_close(f.spec_tag(), f.spec_encoding().skip(1) + rest) == Some(
            (f@, (f.spec_encoding().len() - 1) as nat),
        ),
{
    let ec = spec_encode_varint(f.error_code@);
    let r = match f.reason {
        Some(r) => r@,
        None => Seq::<u8>::empty(),
    };
    let er = spec_encode_len_prefixed(r);
    crate::varint::lemma_encode_zero();
    assert(spec_reason(r) == f@.2);
    match f.frame_type {
        Some(t) => {
            let ft = spec_encode_varint(t@);
            assert(f.spec_encoding().skip(1) =~= ec + ft + er);
            assert(f.spec_encoding().skip(1) + rest =~= ec + (ft + (er + rest)));
            lemma_quic_error_fields(f.error_code@, t@, r, rest);
        },
        None => {
            assert(f.spec_encoding().skip(1) =~= ec + er);
            assert(f.spec_encoding().skip(1) + rest =~= ec + (er + rest));
            lemma_application_error_fields(f.error_code@, r, rest);
        },
    }
}

} // verus!
