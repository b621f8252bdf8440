//! DC_STATELESS_RESET_TOKENS extension frame: one or more stateless reset
//! tokens, preceded by their count.
use crate::codec::{decode_slice, encode_bytes, is_rest_after, slice_as_array, DecoderError, Encodable};
use crate::frame::{lemma_skip_prefix, ExtensionTag};
use crate::stateless_reset::{Token, TOKEN_LEN};
use crate::varint::{lemma_encoding_len, lemma_varint_round_trip, spec_decode_varint, spec_encode_varint, VarInt};
use vstd::prelude::*;

verus! {

/// The frame type, 0xdc0000, as a variable-length integer.
pub const DC_STATELESS_RESET_TOKENS_TAG: u32 = 0xdc0000u32;

/// The maximum number of stateless reset tokens that could fit in a maximum
/// sized QUIC packet, based on the maximum permitted UDP payload of 65527 and
/// the long packet header size.
pub const MAX_STATELESS_RESET_TOKEN_COUNT: usize = 4092usize;

#[derive(Debug, PartialEq, Eq)]
pub struct DcStatelessResetTokens {
    /// 1 or more 128-bit values
    stateless_reset_tokens: Vec<Token>,
}

/// The bytes of each token, in order.
pub open spec fn spec_token_model(tokens: Seq<Token>) -> Seq<Seq<u8>> {
    tokens.map_values(|t: Token| t@)
}

impl View for DcStatelessResetTokens {
    type V = Seq<Seq<u8>>;

    closed spec fn view(&self) -> Seq<Seq<u8>> {
        spec_token_model(self.stateless_reset_tokens@)
    }
}

/// The tokens written one after the other.
pub open spec fn spec_token_bytes(tokens: Seq<Seq<u8>>) -> Seq<u8>
    decreases tokens.len(),
{
    if tokens.len() == 0 {
        Seq::empty()
    } else {
        spec_token_bytes(tokens.drop_last()) + tokens.last()
    }
}

/// The tokens at the front of `s`: their count as a variable-length
/// integer, from 1 to 4092, then 16 bytes for each.
pub open spec fn spec_decode_dc_tokens(s: Seq<u8>) -> Option<(Seq<Seq<u8>>, nat)> {
    match spec_decode_varint(s) {
        None => None,
        Some((count, n)) => if count == 0 || count > MAX_STATELESS_RESET_TOKEN_COUNT {
            None
        } else if s.len() < n + TOKEN_LEN * count {
            None
        } else {
            Some(
                (
                    Seq::new(
                        count as nat,
                        |i: int| s.subrange(n + TOKEN_LEN * i, n + TOKEN_LEN * i + TOKEN_LEN),
                    ),
                    (n + TOKEN_LEN * count) as nat,
                ),
            )
        },
    }
}

/// The bytes of tokens of 16 bytes each: token `k` takes bytes `16k` up to
/// `16k + 16`.
pub proof fn lemma_token_bytes(tokens: Seq<Seq<u8>>)
    requires
        forall|k: int| 0 <= k < tokens.len() ==> (#[trigger] tokens[k]).len() == TOKEN_LEN,
    ensures
        spec_token_bytes(tokens).len() == TOKEN_LEN * tokens.len(),
        forall|k: int|
            0 <= k < tokens.len() ==> spec_token_bytes(tokens).subrange(
                TOKEN_LEN * k,
                TOKEN_LEN * k + TOKEN_LEN,
            ) == #[trigger] tokens[k],
    decreases tokens.len(),
{
    if tokens.len() > 0 {
        let init = tokens.drop_last();
        lemma_token_bytes(init);
        let b = spec_token_bytes(tokens);
        let bi = spec_token_bytes(init);
        assert forall|k: int| 0 <= k < tokens.len() implies b.subrange(
            TOKEN_LEN * k,
            TOKEN_LEN * k + TOKEN_LEN,
        ) == #[trigger] tokens[k] by {
            if k < tokens.len() - 1 {
                assert(init[k] == tokens[k]);
                assert(b.subrange(TOKEN_LEN * k, TOKEN_LEN * k + TOKEN_LEN) =~= bi.subrange(
                    TOKEN_LEN * k,
                    TOKEN_LEN * k + TOKEN_LEN,
                ));
            } else {
                assert(b.subrange(TOKEN_LEN * k, TOKEN_LEN * k + TOKEN_LEN) =~= tokens.last());
            }
        }
    }
}

impl DcStatelessResetTokens {
    pub fn tag(&self) -> (t: ExtensionTag)
        ensures
            t@ == DC_STATELESS_RESET_TOKENS_TAG,
    {
        VarInt::from_u32(DC_STATELESS_RESET_TOKENS_TAG)
    }

    /// Constructs a new `DcStatelessResetTokens` frame with the given `stateless_reset_tokens`
    ///
    /// `Err` if the given `stateless_reset_tokens` is empty or holds more than
    /// 4092 tokens.
    pub fn new(stateless_reset_tokens: &[Token]) -> (res: Result<Self, &'static str>)
        ensures
            res is Ok <==> 1 <= stateless_reset_tokens@.len() <= MAX_STATELESS_RESET_TOKEN_COUNT,
            res matches Ok(f) ==> f@ == spec_token_model(stateless_reset_tokens@),
            stateless_reset_tokens@.len() == 0 ==> (res matches Err(e) && e@
                == "at least one stateless reset token is required"@),
            stateless_reset_tokens@.len() > MAX_STATELESS_RESET_TOKEN_COUNT ==> (res matches Err(e)
                && e@ == "too many stateless reset tokens"@),
    {
        if stateless_reset_tokens.len() == 0 {
            return Err("at least one stateless reset token is required");
        }
        if stateless_reset_tokens.len() > MAX_STATELESS_RESET_TOKEN_COUNT {
            return Err("too many stateless reset tokens");
        }
        let mut tokens: Vec<Token> = Vec::new();
        let mut i: usize = 0;
        while i < stateless_reset_tokens.len()
            invariant
                i <= stateless_reset_tokens@.len(),
                tokens@ == stateless_reset_tokens@.take(i as int),
            decreases stateless_reset_tokens@.len() - i,
        {
            tokens.push(stateless_reset_tokens[i]);
            i = i + 1;
            assert(tokens@ =~= stateless_reset_tokens@.take(i as int));
        }
        assert(stateless_reset_tokens@.take(i as int) =~= stateless_reset_tokens@);
        Ok(DcStatelessResetTokens { stateless_reset_tokens: tokens })
    }

    /// The tokens the frame carries.
    pub fn stateless_reset_tokens(&self) -> (r: &[Token])
        ensures
            spec_token_model(r@) == self@,
    {
        self.stateless_reset_tokens.as_slice()
    }

    /// Decodes the frame's fields, which follow its type.
    pub fn decode(tag: ExtensionTag, buffer: &[u8]) -> (res: Result<(DcStatelessResetTokens, &[u8]), DecoderError>)
        ensures
            spec_decode_dc_tokens(buffer@) is None <==> res is Err,
            res matches Ok((f, rest)) ==> spec_decode_dc_tokens(buffer@) matches Some((v, n)) && v
                == f@ && is_rest_after(buffer@, n, rest@),
    {
        let (count, b1) = VarInt::decode(buffer)?;
        let ghost n = (buffer@.len() - b1@.len()) as nat;
        let count = count.as_u64();
        if count == 0 {
            return Err(DecoderError::InvariantViolation("at least one stateless token must be supplied"));
        }
        if count > MAX_STATELESS_RESET_TOKEN_COUNT as u64 {
            return Err(DecoderError::InvariantViolation("too many stateless reset tokens"));
        }
        let count = count as usize;
        if b1.len() < TOKEN_LEN * count {
            return Err(DecoderError::InvariantViolation("invalid encoding"));
        }
        let ghost s = buffer@;
        let mut tokens: Vec<Token> = Vec::new();
        let mut rest = b1;
        let mut i: usize = 0;
        while i < count
            invariant
                i <= count <= MAX_STATELESS_RESET_TOKEN_COUNT,
                n + TOKEN_LEN * count <= s.len(),
                rest@ == s.skip(n + TOKEN_LEN * i),
                tokens@.len() == i,
                forall|k: int|
                    0 <= k < i ==> (#[trigger] tokens@[k])@ == s.subrange(
                        n + TOKEN_LEN * k,
                        n + TOKEN_LEN * k + TOKEN_LEN,
                    ),
            decreases count - i,
        {
            let (bytes, r) = decode_slice(rest, TOKEN_LEN).unwrap();
            let array = slice_as_array::<TOKEN_LEN>(bytes).unwrap();
            let token = Token::new(*array);
            tokens.push(token);
            proof {
                assert(bytes@ =~= s.subrange(n + TOKEN_LEN * i, n + TOKEN_LEN * i + TOKEN_LEN));
                assert(r@ =~= s.skip(n + TOKEN_LEN * (i + 1)));
            }
            rest = r;
            i = i + 1;
        }
        let frame = DcStatelessResetTokens { stateless_reset_tokens: tokens };
        assert(frame@ =~= Seq::new(
            count as nat,
            |i: int| s.subrange(n + TOKEN_LEN * i, n + TOKEN_LEN * i + TOKEN_LEN),
        ));
        Ok((frame, rest))
    }
}

impl Encodable for DcStatelessResetTokens {
    open spec fn spec_encoding(&self) -> Seq<u8> {
        spec_encode_varint(DC_STATELESS_RESET_TOKENS_TAG as u64) + spec_encode_varint(
            self@.len() as u64,
        ) + spec_token_bytes(self@)
    }

    /// The count is written as a variable-length integer.
    open spec fn encodable(&self) -> bool {
        self@.len() <= crate::varint::MAX_VARINT_VALUE
    }

    fn encoding_size(&self) -> (n: usize) {
        let tag = self.tag();
        let count = VarInt::try_from_usize(self.stateless_reset_tokens.len()).unwrap();
        proof {
            lemma_encoding_len(tag@);
            lemma_encoding_len(count@);
            assert forall|k: int| 0 <= k < self@.len() implies (#[trigger] self@[k]).len()
                == TOKEN_LEN by {
                self.stateless_reset_tokens@[k].lemma_len();
            }
            lemma_token_bytes(self@);
        }
        tag.encoding_size() + count.encoding_size() + TOKEN_LEN * self.stateless_reset_tokens.len()
    }

    fn encode(&self, out: &mut Vec<u8>) {
        self.tag().encode(out);
        let count = VarInt::try_from_usize(self.stateless_reset_tokens.len()).unwrap();
        count.encode(out);
        let ghost start = out@;
        let ghost model = self@;
        let mut i: usize = 0;
        while i < self.stateless_reset_tokens.len()
            invariant
                i <= model.len(),
                model == spec_token_model(self.stateless_reset_tokens@),
                out@ == start + spec_token_bytes(model.take(i as int)),
            decreases model.len() - i,
        {
            let token = &self.stateless_reset_tokens[i];
            encode_bytes(out, token.as_bytes());
            proof {
                assert(model.take(i + 1).drop_last() =~= model.take(i as int));
                assert(model.take(i + 1).last() == token@);
            }
            i = i + 1;
            assert(out@ =~= start + spec_token_bytes(model.take(i as int)));
        }
        assert(model.take(i as int) =~= model);
    }
}

/// Decoding what follows the type in the encoding of a
/// DC_STATELESS_RESET_TOKENS frame gives the tokens back and consumes exactly
/// the encoding, for every frame `new` accepts: 1 to 4092 tokens.
pub proof fn lemma_dc_stateless_reset_tokens_round_trip(tokens: Seq<Seq<u8>>, rest: Seq<u8>)
    requires
        1 <= tokens.len() <= MAX_STATELESS_RESET_TOKEN_COUNT,
        forall|k: int| 0 <= k < tokens.len() ==> (#[trigger] tokens[k]).len() == TOKEN_LEN,
    ensures
        spec_decode_dc_tokens(spec_encode_varint(tokens.len() as u64) + spec_token_bytes(tokens)
            + rest) == Some(
            (
                tokens,
                spec_encode_varint(tokens.len() as u64).len() + spec_token_bytes(tokens).len(),
            ),
        ),
{
    let ec = spec_encode_varint(tokens.len() as u64);
    let tb = spec_token_bytes(tokens);
    let s = ec + tb + rest;
    assert(s =~= ec + (tb + rest));
    lemma_varint_round_trip(tokens.len() as u64, tb + rest);
    lemma_token_bytes(tokens);
    let n = ec.len();
    let decoded = Seq::new(
        tokens.len(),
        |i: int| s.subrange(n + TOKEN_LEN * i, n + TOKEN_LEN * i + TOKEN_LEN),
    );
    assert forall|i: int| 0 <= i < tokens.len() implies decoded[i] == tokens[i] by {
        assert(s.subrange(n + TOKEN_LEN * i, n + TOKEN_LEN * i + TOKEN_LEN) =~= tb.subrange(
            TOKEN_LEN * i,
            TOKEN_LEN * i + TOKEN_LEN,
        ));
    }
    assert(decoded =~= tokens);
}

} // verus!
