use s2n_quic_core::codec::Encodable;
use s2n_quic_core::frame::mtu_probing_complete::MTU_PROBING_COMPLETE_TAG as TAG;
use s2n_quic_core::frame::MtuProbingComplete;
use s2n_quic_core::varint::VarInt;

fn encode_to_vec<E: Encodable>(value: &E) -> Vec<u8> {
    let mut out = Vec::new();
    value.encode(&mut out);
    out
}

#[test]
fn mtu_probing_complete_round_trip() {
    let frame = MtuProbingComplete::new(1500);
    let encoded = encode_to_vec(&frame);

    let (tag, buffer) = VarInt::decode(encoded.as_slice()).expect("decoding succeeds");
    assert_eq!(TAG as u64, tag.as_u64());
    let (decoded_frame, remaining) = MtuProbingComplete::decode(tag, buffer).expect("decoding succeeds");
    assert!(remaining.is_empty());
    assert_eq!(frame.mtu, decoded_frame.mtu);
}

#[test]
fn min_mtu() {
    let frame = MtuProbingComplete::new(0);
    let encoded = encode_to_vec(&frame);

    let (tag, buffer) = VarInt::decode(encoded.as_slice()).expect("decoding succeeds");
    assert_eq!(TAG as u64, tag.as_u64());
    let (decoded_frame, _) = MtuProbingComplete::decode(tag, buffer).expect("decoding succeeds");
    assert_eq!(0, decoded_frame.mtu);
}

#[test]
fn max_mtu() {
    let frame = MtuProbingComplete::new(u16::MAX);
    let encoded = encode_to_vec(&frame);

    let (tag, buffer) = VarInt::decode(encoded.as_slice()).expect("decoding succeeds");
    assert_eq!(TAG as u64, tag.as_u64());
    let (decoded_frame, _) = MtuProbingComplete::decode(tag, buffer).expect("decoding succeeds");
    assert_eq!(u16::MAX, decoded_frame.mtu);
}

#[test]
fn incomplete_frame() {
    let frame = MtuProbingComplete::new(1500);
    let mut encoded = encode_to_vec(&frame);
    encoded.truncate(encoded.len() - 1);

    let (tag, buffer) = VarInt::decode(encoded.as_slice()).expect("decoding succeeds");
    assert_eq!(TAG as u64, tag.as_u64());

    assert!(MtuProbingComplete::decode(tag, buffer).is_err());
}

#[test]
fn mtu_encoding_is_tag_then_big_endian_mtu() {
    let frame = MtuProbingComplete::new(1500);
    assert_eq!(encode_to_vec(&frame), vec![0x80, 0xdc, 0x00, 0x01, 0x05, 0xdc]);
    assert_eq!(frame.encoding_size(), 6);
    assert_eq!(frame.tag().as_u64(), 0xdc0001);
}
