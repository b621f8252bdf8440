use s2n_quic_core::codec::{
    decode_slice, decode_u16, decode_u8, encode_bytes, encode_repeated, encode_u16, encode_u8,
    DecoderError, Encodable,
};
use s2n_quic_core::varint::{
    decode_slice_with_len_prefix, encode_with_len_prefix, len_prefixed_size, VarInt,
    MAX_VARINT_VALUE,
};

fn encode_to_vec<E: Encodable>(value: &E) -> Vec<u8> {
    let mut out = Vec::new();
    value.encode(&mut out);
    out
}

#[test]
fn varint_encodings_of_each_size() {
    assert_eq!(encode_to_vec(&VarInt::from_u8(37)), vec![0x25]);
    assert_eq!(encode_to_vec(&VarInt::from_u16(15293)), vec![0x7b, 0xbd]);
    assert_eq!(encode_to_vec(&VarInt::from_u32(494878333)), vec![0x9d, 0x7f, 0x3e, 0x7d]);
    assert_eq!(
        encode_to_vec(&VarInt::new(151288809941952652).unwrap()),
        vec![0xc2, 0x19, 0x7c, 0x5e, 0xff, 0x14, 0xe8, 0x8c]
    );
    assert_eq!(VarInt::from_u8(63).encoding_size(), 1);
    assert_eq!(VarInt::from_u8(64).encoding_size(), 2);
    assert_eq!(VarInt::from_u16(16383).encoding_size(), 2);
    assert_eq!(VarInt::from_u16(16384).encoding_size(), 4);
    assert_eq!(VarInt::from_u32(1 << 30).encoding_size(), 8);
}

#[test]
fn varint_decodes_what_it_encodes() {
    for x in [0u64, 1, 63, 64, 16383, 16384, (1 << 30) - 1, 1 << 30, MAX_VARINT_VALUE] {
        let v = VarInt::new(x).unwrap();
        let mut bytes = encode_to_vec(&v);
        bytes.push(0xaa);
        let (decoded, rest) = VarInt::decode(&bytes).unwrap();
        assert_eq!(decoded.as_u64(), x);
        assert_eq!(rest, &[0xaa]);
    }
}

#[test]
fn varint_decode_reads_non_minimal_encodings() {
    // 37 written on two bytes
    let (v, rest) = VarInt::decode(&[0x40, 0x25]).unwrap();
    assert_eq!(v.as_u64(), 37);
    assert!(rest.is_empty());
}

#[test]
fn varint_decode_errors() {
    assert_eq!(VarInt::decode(&[]), Err(DecoderError::UnexpectedEof(1)));
    assert!(matches!(VarInt::decode(&[0x7b]), Err(DecoderError::UnexpectedEof(_))));
    assert!(matches!(VarInt::decode(&[0xc2, 0, 0]), Err(DecoderError::UnexpectedEof(_))));
}

#[test]
fn varint_bounds_and_arithmetic() {
    assert_eq!(VarInt::max_value().as_u64(), (1u64 << 62) - 1);
    assert!(VarInt::new(1u64 << 62).is_err());
    assert!(VarInt::try_from_usize(usize::MAX).is_err());
    assert_eq!(VarInt::try_from_usize(5).unwrap().as_u64(), 5);
    assert_eq!(VarInt::zero().as_u64(), 0);
    assert_eq!(VarInt::from_u8(2).checked_add(VarInt::from_u8(3)).unwrap().as_u64(), 5);
    assert!(VarInt::max_value().checked_add(VarInt::from_u8(1)).is_none());
    assert_eq!(VarInt::from_u8(5).checked_sub(VarInt::from_u8(3)).unwrap().as_u64(), 2);
    assert!(VarInt::from_u8(3).checked_sub(VarInt::from_u8(5)).is_none());
}

#[test]
fn length_prefixed_bytes() {
    let mut out = vec![9];
    encode_with_len_prefix(&mut out, &[1, 2, 3]);
    assert_eq!(out, vec![9, 3, 1, 2, 3]);
    assert_eq!(len_prefixed_size(3), 4);
    assert_eq!(len_prefixed_size(64), 66);
    let (head, rest) = decode_slice_with_len_prefix(&out[1..]).unwrap();
    assert_eq!(head, &[1, 2, 3]);
    assert!(rest.is_empty());
    assert!(decode_slice_with_len_prefix(&[4, 1, 2, 3]).is_err());
}

#[test]
fn fixed_size_codec() {
    let mut out = Vec::new();
    encode_u8(&mut out, 7);
    encode_u16(&mut out, 0x1234);
    encode_bytes(&mut out, &[1, 2]);
    encode_repeated(&mut out, 3, 0);
    assert_eq!(out, vec![7, 0x12, 0x34, 1, 2, 0, 0, 0]);

    let (a, rest) = decode_u8(&out).unwrap();
    assert_eq!(a, 7);
    let (b, rest) = decode_u16(rest).unwrap();
    assert_eq!(b, 0x1234);
    let (c, rest) = decode_slice(rest, 2).unwrap();
    assert_eq!(c, &[1, 2]);
    assert_eq!(rest, &[0, 0, 0]);
    assert!(decode_slice(rest, 4).is_err());
    assert!(decode_u16(&[1]).is_err());
    assert!(decode_u8(&[]).is_err());
}
