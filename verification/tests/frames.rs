use s2n_quic_core::codec::{DecoderError, Encodable};
use s2n_quic_core::frame::ack::{AckRanges, AckRangesDecoder};
use s2n_quic_core::frame::{
    Ack, ConnectionClose, Crypto, DataBlocked, Datagram, HandshakeDone, MaxData, MaxStreamData,
    MaxStreams, NewConnectionId, NewToken, Padding, PathChallenge, PathResponse,
};
use s2n_quic_core::stream::StreamType;
use s2n_quic_core::varint::VarInt;

fn encode_to_vec<E: Encodable>(value: &E) -> Vec<u8> {
    let mut out = Vec::new();
    value.encode(&mut out);
    out
}

fn v(x: u64) -> VarInt {
    VarInt::new(x).unwrap()
}

#[test]
fn max_data_round_trip() {
    let frame = MaxData { maximum_data: v(1_000_000) };
    let bytes = encode_to_vec(&frame);
    assert_eq!(bytes, vec![0x10, 0x80, 0x0f, 0x42, 0x40]);
    assert_eq!(frame.encoding_size(), bytes.len());
    let (decoded, rest) = MaxData::decode(bytes[0], &bytes[1..]).unwrap();
    assert_eq!(decoded, frame);
    assert!(rest.is_empty());
}

#[test]
fn max_stream_data_round_trip() {
    let frame = MaxStreamData { stream_id: v(4), maximum_stream_data: v(70_000) };
    let bytes = encode_to_vec(&frame);
    assert_eq!(bytes[0], 0x11);
    let (decoded, rest) = MaxStreamData::decode(bytes[0], &bytes[1..]).unwrap();
    assert_eq!(decoded, frame);
    assert!(rest.is_empty());
}

#[test]
fn max_streams_tag_depends_on_type() {
    let bidi = MaxStreams { stream_type: StreamType::Bidirectional, maximum_streams: v(100) };
    let uni = MaxStreams { stream_type: StreamType::Unidirectional, maximum_streams: v(100) };
    assert_eq!(bidi.tag(), 0x12);
    assert_eq!(uni.tag(), 0x13);
    for frame in [bidi, uni] {
        let bytes = encode_to_vec(&frame);
        let (decoded, rest) = MaxStreams::decode(bytes[0], &bytes[1..]).unwrap();
        assert_eq!(decoded, frame);
        assert!(rest.is_empty());
    }
}

#[test]
fn data_blocked_round_trip() {
    let frame = DataBlocked { data_limit: v(63) };
    let bytes = encode_to_vec(&frame);
    assert_eq!(bytes, vec![0x14, 63]);
    let (decoded, _) = DataBlocked::decode(bytes[0], &bytes[1..]).unwrap();
    assert_eq!(decoded, frame);
}

#[test]
fn handshake_done_is_its_type_alone() {
    let bytes = encode_to_vec(&HandshakeDone);
    assert_eq!(bytes, vec![0x1e]);
    let (_, rest) = HandshakeDone::decode(0x1e, &[1, 2]).unwrap();
    assert_eq!(rest, &[1, 2]);
}

#[test]
fn padding_counts_the_zero_bytes() {
    let (frame, rest) = Padding::decode(0, &[0, 0, 0, 1, 0]).unwrap();
    // the type byte and the three zero bytes that follow it
    assert_eq!(frame.length, 4);
    assert_eq!(rest, &[1, 0]);
    assert_eq!(encode_to_vec(&frame), vec![0, 0, 0, 0]);
    assert_eq!(frame.tag(), 0);
}

#[test]
fn new_token_round_trip() {
    let token = [1u8, 2, 3, 4, 5];
    let frame = NewToken { token: &token };
    let bytes = encode_to_vec(&frame);
    assert_eq!(bytes, vec![0x07, 5, 1, 2, 3, 4, 5]);
    let (decoded, rest) = NewToken::decode(bytes[0], &bytes[1..]).unwrap();
    assert_eq!(decoded.token, &token);
    assert!(rest.is_empty());
}

#[test]
fn new_token_empty_and_truncated() {
    let (frame, rest) = NewToken::decode(0x07, &[0, 9]).unwrap();
    assert!(frame.token.is_empty());
    assert_eq!(rest, &[9]);
    // the length announces more bytes than there are
    assert!(NewToken::decode(0x07, &[3, 1, 2]).is_err());
}

#[test]
fn path_challenge_and_response_round_trip() {
    let data = [1u8, 2, 3, 4, 5, 6, 7, 8];
    let challenge = PathChallenge { data: &data };
    let bytes = encode_to_vec(&challenge);
    assert_eq!(bytes[0], 0x1a);
    let (decoded, rest) = PathChallenge::decode(bytes[0], &bytes[1..]).unwrap();
    assert_eq!(decoded.data, &data);
    assert!(rest.is_empty());

    let response = PathResponse::from_challenge(challenge);
    assert_eq!(response.data, &data);
    let bytes = encode_to_vec(&response);
    assert_eq!(bytes[0], 0x1b);
    let (decoded, _) = PathResponse::decode(bytes[0], &bytes[1..]).unwrap();
    assert_eq!(decoded.data, &data);

    assert!(PathChallenge::decode(0x1a, &data[..7]).is_err());
}

#[test]
fn new_connection_id_round_trip() {
    let cid = [9u8, 8, 7, 6];
    let token = [3u8; 16];
    let frame = NewConnectionId {
        sequence_number: v(5),
        retire_prior_to: v(2),
        connection_id: &cid,
        stateless_reset_token: &token,
    };
    let bytes = encode_to_vec(&frame);
    assert_eq!(bytes.len(), 1 + 1 + 1 + 1 + 4 + 16);
    let (decoded, rest) = NewConnectionId::decode(bytes[0], &bytes[1..]).unwrap();
    assert_eq!(decoded, frame);
    assert!(rest.is_empty());
}

#[test]
fn new_connection_id_refusals() {
    let token = [3u8; 16];
    // retire prior to beyond the sequence number
    let mut bytes = vec![1, 2, 1, 0xaa];
    bytes.extend_from_slice(&token);
    assert_eq!(
        NewConnectionId::decode(0x18, &bytes),
        Err(DecoderError::InvariantViolation("invalid retire prior to value"))
    );
    // an empty connection id
    let mut bytes = vec![1, 0, 0];
    bytes.extend_from_slice(&token);
    assert_eq!(
        NewConnectionId::decode(0x18, &bytes),
        Err(DecoderError::InvariantViolation("invalid connection id length"))
    );
    // a connection id of 21 bytes
    let mut bytes = vec![1, 0, 21];
    bytes.extend_from_slice(&[0u8; 21]);
    bytes.extend_from_slice(&token);
    assert!(NewConnectionId::decode(0x18, &bytes).is_err());
}

#[test]
fn connection_close_quic_error_round_trip() {
    let reason = b"bad frame";
    let frame = ConnectionClose { error_code: v(7), frame_type: Some(v(0x08)), reason: Some(reason) };
    assert_eq!(frame.tag(), 0x1c);
    assert_eq!(frame.application_error(), None);
    let bytes = encode_to_vec(&frame);
    let (decoded, rest) = ConnectionClose::decode(bytes[0], &bytes[1..]).unwrap();
    assert_eq!(decoded, frame);
    assert!(rest.is_empty());
}

#[test]
fn connection_close_application_error() {
    let frame = ConnectionClose { error_code: v(42), frame_type: None, reason: None };
    assert_eq!(frame.tag(), 0x1d);
    let error = frame.application_error().unwrap();
    assert_eq!(error.0.as_u64(), 42);
    let bytes = encode_to_vec(&frame);
    assert_eq!(bytes, vec![0x1d, 42, 0]);
    let (decoded, _) = ConnectionClose::decode(bytes[0], &bytes[1..]).unwrap();
    assert_eq!(decoded, frame);
}

#[test]
fn connection_close_empty_reason_decodes_as_none() {
    let frame = ConnectionClose { error_code: v(1), frame_type: None, reason: Some(&[]) };
    let bytes = encode_to_vec(&frame);
    let (decoded, _) = ConnectionClose::decode(bytes[0], &bytes[1..]).unwrap();
    assert_eq!(decoded.reason, None);
}

#[test]
fn crypto_round_trip() {
    let data = [5u8; 70];
    let frame = Crypto { offset: v(300), data: &data[..] };
    let bytes = encode_to_vec(&frame);
    // type, two-byte offset, two-byte length, data
    assert_eq!(bytes.len(), 1 + 2 + 2 + 70);
    let (decoded, rest) = Crypto::decode(bytes[0], &bytes[1..]).unwrap();
    assert_eq!(decoded.offset, v(300));
    assert_eq!(decoded.data, &data[..]);
    assert!(rest.is_empty());

    let mapped = decoded.map_data(|d| d.len());
    assert_eq!(mapped.data, 70);
    assert_eq!(mapped.offset, v(300));
}

#[test]
fn datagram_round_trip() {
    let data = [1u8, 2, 3];
    let with_len = Datagram { is_last_frame: false, data: &data[..] };
    let bytes = encode_to_vec(&with_len);
    assert_eq!(bytes, vec![0x31, 3, 1, 2, 3]);
    let (decoded, rest) = Datagram::decode(bytes[0], &bytes[1..]).unwrap();
    assert!(!decoded.is_last_frame);
    assert_eq!(decoded.data, &data[..]);
    assert!(rest.is_empty());

    let last = Datagram { is_last_frame: true, data: &data[..] };
    let bytes = encode_to_vec(&last);
    assert_eq!(bytes, vec![0x30, 1, 2, 3]);
    let (decoded, rest) = Datagram::decode(bytes[0], &bytes[1..]).unwrap();
    assert!(decoded.is_last_frame);
    assert_eq!(decoded.data, &data[..]);
    assert!(rest.is_empty());
}

#[test]
fn ack_decode_and_ranges() {
    // largest 10, delay 3, one more range; first range 10..=8 (ack range 2),
    // gap 1 so the next range ends at 8 - 1 - 2 = 5, ack range 1 so it is 4..=5
    let bytes = [10u8, 3, 1, 2, 1, 1, 0xff];
    let (frame, rest) = Ack::decode(0x02, &bytes).unwrap();
    assert_eq!(rest, &[0xff]);
    assert_eq!(frame.ack_delay.as_u64(), 3);
    assert_eq!(frame.ack_delay(), core::time::Duration::from_micros(3));
    assert_eq!(frame.largest_acknowledged().as_u64(), 10);
    let ranges: Vec<(u64, u64)> = frame
        .ack_ranges()
        .iter()
        .map(|r| (r.start().as_u64(), r.end().as_u64()))
        .collect();
    assert_eq!(ranges, vec![(8, 10), (4, 5)]);
    assert!(frame.ecn_counts.is_none());
    assert_eq!(frame.tag(), 0x02);

    // encoding gives back the bytes that were read
    let encoded = encode_to_vec(&frame);
    assert_eq!(encoded[0], 0x02);
    assert_eq!(&encoded[1..], &bytes[..6]);
    assert_eq!(frame.encoding_size(), 7);
}

#[test]
fn ack_with_ecn_counts() {
    let bytes = [5u8, 0, 0, 0, 1, 2, 3];
    let (frame, rest) = Ack::decode(0x03, &bytes).unwrap();
    assert!(rest.is_empty());
    let ecn = frame.ecn_counts.unwrap();
    assert_eq!(ecn.ect_0_count.as_u64(), 1);
    assert_eq!(ecn.ect_1_count.as_u64(), 2);
    assert_eq!(ecn.ce_count.as_u64(), 3);
    assert_eq!(frame.tag(), 0x03);
    let mut expected = vec![0x03];
    expected.extend_from_slice(&bytes);
    assert_eq!(encode_to_vec(&frame), expected);
}

#[test]
fn ack_refuses_ranges_below_zero() {
    // first range of 11 packets below largest 10
    assert!(Ack::decode(0x02, &[10, 0, 0, 11]).is_err());
    // a gap that goes below zero
    assert!(Ack::decode(0x02, &[10, 0, 1, 2, 7, 0]).is_err());
    // a missing range
    assert!(Ack::decode(0x02, &[10, 0, 1, 2, 1]).is_err());
}

#[test]
fn ack_ranges_iter_walks_the_ranges() {
    let (decoder, rest) = AckRangesDecoder::decode(v(20), &[2, 0, 0, 0, 3, 1]).unwrap();
    assert!(rest.is_empty());
    assert_eq!(decoder.largest_acknowledged().as_u64(), 20);
    let mut iter = decoder.iter();
    assert_eq!(iter.len(), 3);
    let first = iter.next().unwrap();
    assert_eq!((first.start().as_u64(), first.end().as_u64()), (20, 20));
    let second = iter.next().unwrap();
    // gap 0: next largest is 20 - 0 - 2 = 18, range 0
    assert_eq!((second.start().as_u64(), second.end().as_u64()), (18, 18));
    let third = iter.next().unwrap();
    // gap 3: next largest is 18 - 3 - 2 = 13, range 1
    assert_eq!((third.start().as_u64(), third.end().as_u64()), (12, 13));
    assert!(iter.next().is_none());
    assert_eq!(iter.len(), 0);
}

#[test]
fn ack_ranges_compare_by_the_ranges_they_hold() {
    // the same single range 2..=2, its length written on one and on two bytes
    let (a, _) = AckRangesDecoder::decode(v(2), &[0, 0]).unwrap();
    let (b, _) = AckRangesDecoder::decode(v(2), &[0, 0x40, 0x00]).unwrap();
    assert!(a == b);
    let (c, _) = AckRangesDecoder::decode(v(2), &[0, 1]).unwrap();
    assert!(a != c);

    let (x, _) = Ack::decode(0x02, &[2, 5, 0, 0]).unwrap();
    let (y, _) = Ack::decode(0x02, &[2, 5, 0, 0x40, 0x00]).unwrap();
    assert!(x == y);
}

#[test]
fn datagram_refusal_keeps_or_clears_the_last_frame_flag() {
    let data = [1u8; 100];
    // no room even for the type: nothing changes
    let mut frame = Datagram { is_last_frame: true, data: &data[..] };
    assert!(frame.try_fit(0).is_err());
    assert!(frame.is_last_frame);
}
