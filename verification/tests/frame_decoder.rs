use s2n_quic_core::codec::{DecoderError, Encodable};
use s2n_quic_core::frame::ack_elicitation::{AckElicitable, AckElicitation};
use s2n_quic_core::frame::decoder::{decode_frame, Frame};
use s2n_quic_core::frame::{
    ConnectionClose, Crypto, HandshakeDone, MaxData, MaxStreams, NewToken, PathChallenge,
};
use s2n_quic_core::stream::StreamType;
use s2n_quic_core::varint::VarInt;

fn encode_to_vec<E: Encodable>(value: &E) -> Vec<u8> {
    let mut out = Vec::new();
    value.encode(&mut out);
    out
}

#[test]
fn decode_frame_dispatches_on_the_type_byte() {
    let mut bytes = encode_to_vec(&MaxData { maximum_data: VarInt::new(1_000_000).unwrap() });
    bytes.push(0xaa);
    let (frame, rest) = decode_frame(&bytes).ok().unwrap();
    assert!(matches!(frame, Frame::MaxData(MaxData { maximum_data }) if maximum_data.as_u64() == 1_000_000));
    assert_eq!(frame.tag(), 0x10);
    assert_eq!(rest, &[0xaa]);
    assert_eq!(frame.ack_elicitation(), AckElicitation::Eliciting);
}

#[test]
fn decode_frame_reads_each_held_kind() {
    let data = [7u8; 8];
    let token = [1u8, 2, 3];
    let crypto_data = [9u8; 4];
    let cases: Vec<(Vec<u8>, u8)> = vec![
        (vec![0x00, 0x00, 0x00], 0x00),
        (encode_to_vec(&Crypto { offset: VarInt::new(3).unwrap(), data: &crypto_data[..] }), 0x06),
        (encode_to_vec(&NewToken { token: &token }), 0x07),
        (encode_to_vec(&MaxStreams { stream_type: StreamType::Unidirectional, maximum_streams: VarInt::new(4).unwrap() }), 0x13),
        (encode_to_vec(&PathChallenge { data: &data }), 0x1a),
        (encode_to_vec(&ConnectionClose { error_code: VarInt::new(2).unwrap(), frame_type: None, reason: None }), 0x1d),
        (encode_to_vec(&HandshakeDone), 0x1e),
    ];
    for (bytes, tag) in cases {
        let (frame, rest) = decode_frame(&bytes).ok().unwrap();
        assert_eq!(frame.tag(), tag);
        assert!(rest.is_empty());
    }
}

#[test]
fn decode_frame_ack_and_padding_do_not_elicit() {
    // ACK: largest 5, delay 0, no further ranges, first range 2
    let (frame, rest) = decode_frame(&[0x02, 5, 0, 0, 2]).ok().unwrap();
    assert!(matches!(frame, Frame::Ack(_)));
    assert!(rest.is_empty());
    assert_eq!(frame.ack_elicitation(), AckElicitation::NonEliciting);

    let (frame, rest) = decode_frame(&[0x00, 0x00, 0x01]).ok().unwrap();
    assert!(matches!(frame, Frame::Padding(p) if p.length == 2));
    assert_eq!(rest, &[0x01]);
    assert_eq!(frame.ack_elicitation(), AckElicitation::NonEliciting);

    let bytes = encode_to_vec(&ConnectionClose { error_code: VarInt::new(1).unwrap(), frame_type: Some(VarInt::new(0).unwrap()), reason: None });
    let (frame, _) = decode_frame(&bytes).ok().unwrap();
    assert!(matches!(frame, Frame::ConnectionClose(_)));
    assert_eq!(frame.ack_elicitation(), AckElicitation::NonEliciting);
}

#[test]
fn decode_frame_refuses_unheld_and_extension_types() {
    // PING is not a kind this crate holds
    assert_eq!(decode_frame(&[0x01]).err(), Some(DecoderError::InvariantViolation("invalid frame")));
    // an extension frame type
    assert_eq!(decode_frame(&[0x40, 0]).err(), Some(DecoderError::InvariantViolation("invalid frame")));
}

#[test]
fn decode_frame_on_empty_or_short_input() {
    assert_eq!(decode_frame(&[]).err(), Some(DecoderError::UnexpectedEof(1)));
    // PATH_CHALLENGE announces eight bytes of data; three are there
    assert!(decode_frame(&[0x1a, 1, 2, 3]).is_err());
}
