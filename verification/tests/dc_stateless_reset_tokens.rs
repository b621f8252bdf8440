use s2n_quic_core::codec::Encodable;
use s2n_quic_core::frame::dc_stateless_reset_tokens::{
    DC_STATELESS_RESET_TOKENS_TAG as TAG, MAX_STATELESS_RESET_TOKEN_COUNT,
};
use s2n_quic_core::frame::DcStatelessResetTokens;
use s2n_quic_core::stateless_reset::Token;
use s2n_quic_core::varint::VarInt;

const TEST_TOKEN_1: [u8; 16] = [1, 2, 3, 4, 5, 6, 7, 8, 9, 10, 11, 12, 13, 14, 15, 16];

fn encode_to_vec<E: Encodable>(value: &E) -> Vec<u8> {
    let mut out = Vec::new();
    value.encode(&mut out);
    out
}

/// The bytes of a frame with the given tokens, written without the checks
/// that `DcStatelessResetTokens::new` makes.
fn encode_unchecked(tokens: &[[u8; 16]]) -> Vec<u8> {
    let mut out = encode_to_vec(&VarInt::from_u32(TAG));
    VarInt::try_from_usize(tokens.len()).unwrap().encode(&mut out);
    for token in tokens {
        out.extend_from_slice(token);
    }
    out
}

#[test]
fn dc_stateless_reset_tokens_round_trip() {
    let tokens: Vec<Token> = vec![
        Token::new([0, 1, 2, 3, 4, 5, 6, 7, 8, 9, 10, 11, 12, 13, 14, 15]),
        Token::new([7, 7, 7, 3, 3, 3, 4, 4, 4, 8, 8, 8, 9, 9, 9, 9]),
    ];
    let frame = DcStatelessResetTokens::new(tokens.as_slice()).unwrap();
    let encoded = encode_to_vec(&frame);

    let (tag, buffer) = VarInt::decode(encoded.as_slice()).expect("decoding succeeds");
    assert_eq!(TAG as u64, tag.as_u64());
    let (frame, remaining) = DcStatelessResetTokens::decode(tag, buffer).expect("decoding succeeds");
    assert!(remaining.is_empty());
    assert_eq!(tokens.len(), frame.stateless_reset_tokens().len());
    for (index, &token) in frame.stateless_reset_tokens().iter().enumerate() {
        assert_eq!(tokens[index], token);
    }
}

#[test]
fn invalid_token_size() {
    let mut encoded = encode_unchecked(&[[0, 1, 2, 3, 4, 5, 6, 7, 8, 9, 10, 11, 12, 13, 14, 15]]);
    encoded.truncate(encoded.len() - 1);

    let (tag, buffer) = VarInt::decode(encoded.as_slice()).expect("decoding succeeds");
    assert_eq!(TAG as u64, tag.as_u64());

    assert!(DcStatelessResetTokens::decode(tag, buffer).is_err());
}

#[test]
fn zero_tokens() {
    let encoded = encode_unchecked(&[]);

    let (tag, buffer) = VarInt::decode(encoded.as_slice()).expect("decoding succeeds");
    assert_eq!(TAG as u64, tag.as_u64());

    assert!(DcStatelessResetTokens::decode(tag, buffer).is_err());

    assert!(DcStatelessResetTokens::new(&[]).is_err());
}

#[test]
fn maximum_sized_frame() {
    let tokens: Vec<Token> = vec![Token::new(TEST_TOKEN_1); MAX_STATELESS_RESET_TOKEN_COUNT];
    let frame = DcStatelessResetTokens::new(tokens.as_slice()).unwrap();
    let encoded = encode_to_vec(&frame);

    let (tag, buffer) = VarInt::decode(encoded.as_slice()).expect("decoding succeeds");
    assert_eq!(TAG as u64, tag.as_u64());
    let (frame, remaining) = DcStatelessResetTokens::decode(tag, buffer).expect("decoding succeeds");
    assert!(remaining.is_empty());
    assert_eq!(tokens.len(), frame.stateless_reset_tokens().len());
}

#[test]
fn too_many_tokens() {
    let encoded = encode_unchecked(&[TEST_TOKEN_1; MAX_STATELESS_RESET_TOKEN_COUNT + 1]);

    let (tag, buffer) = VarInt::decode(encoded.as_slice()).expect("decoding succeeds");
    assert_eq!(TAG as u64, tag.as_u64());

    assert!(DcStatelessResetTokens::decode(tag, buffer).is_err());

    assert!(DcStatelessResetTokens::new(&[Token::new(TEST_TOKEN_1); MAX_STATELESS_RESET_TOKEN_COUNT + 1]).is_err());
}

#[test]
fn encoding_is_tag_count_and_tokens() {
    let frame = DcStatelessResetTokens::new(&[Token::new(TEST_TOKEN_1)]).unwrap();
    let encoded = encode_to_vec(&frame);
    // 0xdc0000 needs a four-byte variable-length integer
    let mut expected = vec![0x80, 0xdc, 0x00, 0x00, 0x01];
    expected.extend_from_slice(&TEST_TOKEN_1);
    assert_eq!(encoded, expected);
    assert_eq!(frame.encoding_size(), expected.len());
    assert_eq!(frame.tag().as_u64(), 0xdc0000);
}

#[test]
fn decode_leaves_the_rest() {
    let mut bytes = vec![0x01];
    bytes.extend_from_slice(&TEST_TOKEN_1);
    bytes.extend_from_slice(&[9, 9]);
    let (frame, rest) = DcStatelessResetTokens::decode(VarInt::from_u32(TAG), &bytes).unwrap();
    assert_eq!(frame.stateless_reset_tokens(), &[Token::new(TEST_TOKEN_1)]);
    assert_eq!(rest, &[9, 9]);
}

#[test]
fn new_names_what_is_wrong() {
    assert_eq!(
        DcStatelessResetTokens::new(&[]),
        Err("at least one stateless reset token is required")
    );
    assert_eq!(
        DcStatelessResetTokens::new(&[Token::new(TEST_TOKEN_1); MAX_STATELESS_RESET_TOKEN_COUNT + 1]),
        Err("too many stateless reset tokens")
    );
}
