# s2n_quic_core

Core QUIC types with their wire encoding, verified with Verus.

- `src/varint.rs`, `src/codec.rs`: variable-length integers (RFC 9000,
  section 16) and the byte-buffer primitives the frames are written with.
  Decoding is specified by spec functions over `Seq<u8>`, encoding by the
  bytes it appends, and each encoding is proved to decode back.
- `src/frame/`: the QUIC frames (ACK, CRYPTO, DATAGRAM, CONNECTION_CLOSE,
  NEW_CONNECTION_ID, ...), each with `decode`, `Encodable` and a round-trip
  law; `decoder::decode_frame`, which reads the type byte and hands the
  rest to that kind's decoder; the frame classifications (ack-eliciting,
  congestion controlled, path probing, progress); `try_fit` for CRYPTO and DATAGRAM frames with
  the laws that bound what it returns.
- `src/event/`: the event data model (`api`, `builder` and the conversion
  between them), the `Subscriber` interface and how two subscribers combine
  (supervision timeouts and outcomes), the publishers that hand events to a
  subscriber, the counting subscriber that keeps per-connection event
  counts around the subscriber it wraps, and the aggregating metrics
  subscriber: the table of metrics, the registration of a recorder for each
  and, for each event, the values it records.
- `app/`: metric recording interfaces whose values may be floating-point
  numbers, fitted to the library's recorders, and the report of a
  connection's event counts when its context is dropped.
- `tests/`: tests on concrete values.
