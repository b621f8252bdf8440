use s2n_quic_core::codec::Encodable;
use s2n_quic_core::frame::{Crypto, Datagram, Padding};
use s2n_quic_core::varint::VarInt;

/// Values around the boundaries of the variable-length integer encodings.
fn interesting_values() -> Vec<u64> {
    let mut values = vec![0, 1, 2, 3, 5, 8, 13, 100, 1000, 10_000, 100_000];
    for boundary in [1u64 << 6, 1 << 14, 1 << 30] {
        for delta in 0..4 {
            values.push(boundary + delta);
            values.push(boundary - 1 - delta);
        }
    }
    values
}

fn crypto_model(offset: VarInt, length: VarInt, capacity: usize) {
    let length = length.as_u64() as usize;

    let mut frame = Crypto {
        offset,
        data: Padding { length },
    };

    if let Ok(new_length) = frame.try_fit(capacity) {
        frame.data = Padding { length: new_length };

        assert!(
            frame.encoding_size() <= capacity,
            "the encoding_size should not exceed capacity {frame:#?}"
        );

        if new_length < length {
            let tolerance = VarInt::try_from_usize(new_length).unwrap().encoding_size();

            assert!(
                capacity - frame.encoding_size() <= tolerance,
                "should fit capacity tolerance: expected {}, got {}; {:#?}",
                tolerance,
                capacity - frame.encoding_size(),
                frame,
            );
        }
    } else {
        assert!(
            frame.encoding_size() > capacity,
            "rejection should only occur when encoding size > capacity {frame:#?}"
        );
    }
}

#[test]
fn crypto_try_fit_test() {
    let values = interesting_values();
    for &offset in &values {
        for &length in &values {
            for &capacity in &values {
                crypto_model(
                    VarInt::new(offset).unwrap(),
                    VarInt::new(length).unwrap(),
                    capacity as usize,
                );
            }
        }
    }
}

fn datagram_model(length: VarInt, capacity: usize) {
    let length = length.as_u64() as usize;

    let mut frame = Datagram {
        is_last_frame: false,
        data: Padding { length },
    };

    if let Ok(max_data_len) = frame.try_fit(capacity) {
        // We should never return a length larger than the data to send
        assert!(length >= max_data_len);

        // We should never exceed the capacity
        frame.data = Padding {
            length: max_data_len,
        };
        assert!(
            frame.encoding_size() <= capacity,
            "the encoding_size should not exceed capacity {:#?}",
            frame
        );

        if frame.is_last_frame {
            // The `is_last_frame` should _only_ be set when the encoding size == capacity
            assert_eq!(
                frame.encoding_size(),
                capacity,
                "should only be the last frame if == capacity {:#?}",
                frame
            );
        }
    } else {
        assert!(
            frame.encoding_size() > capacity,
            "rejection should only occur when encoding size > capacity {:#?}",
            frame
        );
    }
}

#[test]
fn datagram_try_fit_test() {
    let values = interesting_values();
    for &length in &values {
        for &capacity in &values {
            datagram_model(VarInt::new(length).unwrap(), capacity as usize);
        }
    }
}

#[test]
fn crypto_fit_exact_values() {
    // type, offset 0, length 3, then three bytes: 6 bytes in all
    let frame = Crypto { offset: VarInt::from_u8(0), data: Padding { length: 3 } };
    assert_eq!(frame.encoding_size(), 6);
    assert_eq!(frame.try_fit(6), Ok(3));
    assert_eq!(frame.try_fit(100), Ok(3));
    assert_eq!(frame.try_fit(5), Ok(2));
    // room for the type, offset and length but for no data
    assert_eq!(frame.try_fit(3), Ok(0));
    // no room for the length
    assert!(frame.try_fit(2).is_err());
}

#[test]
fn datagram_fit_exact_values() {
    // With exactly the room for type and data, the frame becomes the last
    // one and drops its length.
    let mut frame = Datagram { is_last_frame: false, data: Padding { length: 10 } };
    assert_eq!(frame.try_fit(11), Ok(10));
    assert!(frame.is_last_frame);
    assert_eq!(frame.encoding_size(), 11);

    // With room to spare, it keeps its length.
    let mut frame = Datagram { is_last_frame: false, data: Padding { length: 10 } };
    assert_eq!(frame.try_fit(20), Ok(10));
    assert!(!frame.is_last_frame);
    assert_eq!(frame.encoding_size(), 12);
}
