use s2n_quic_core::application;
use s2n_quic_core::endpoint;
use s2n_quic_core::event::supervisor::{combine_outcomes, combine_timeouts, Context, Outcome};
use s2n_quic_core::event::{api, builder, IntoEvent, Meta};
use s2n_quic_core::frame::event::AsEvent;
use s2n_quic_core::frame::{Ack, Crypto, MaxData, MaxStreams, Padding};
use s2n_quic_core::packet::{PacketNumber, PacketNumberSpace};
use s2n_quic_core::stream::StreamType;
use s2n_quic_core::time::Timestamp;
use s2n_quic_core::varint::VarInt;
use std::time::Duration;

#[test]
fn socket_address_parts() {
    let v4 = [127u8, 0, 0, 1];
    let addr: api::SocketAddress = builder::SocketAddress::IpV4 { ip: &v4, port: 443 }.into_event();
    assert_eq!(addr.ip(), &v4);
    assert_eq!(addr.port(), 443);

    let v6 = [0u8, 0, 0, 0, 0, 0, 0, 0, 0, 0, 0, 0, 0, 0, 0, 1];
    let addr: api::SocketAddress = builder::SocketAddress::IpV6 { ip: &v6, port: 8443 }.into_event();
    assert_eq!(addr.ip(), &v6);
    assert_eq!(addr.ip().len(), 16);
    assert_eq!(addr.port(), 8443);
}

#[test]
fn packet_header_by_space() {
    let header = builder::PacketHeader::new(
        PacketNumber { space: PacketNumberSpace::Initial, value: 3 },
        1,
    );
    assert!(matches!(header, builder::PacketHeader::Initial { number: 3, version: 1 }));
    let header = builder::PacketHeader::new(
        PacketNumber { space: PacketNumberSpace::Handshake, value: 4 },
        1,
    );
    assert!(matches!(header, builder::PacketHeader::Handshake { number: 4, version: 1 }));
    let header = builder::PacketHeader::new(
        PacketNumber { space: PacketNumberSpace::ApplicationData, value: 5 },
        1,
    );
    assert!(matches!(header, builder::PacketHeader::OneRtt { number: 5 }));
}

#[test]
fn cipher_suite_names() {
    let suite: api::CipherSuite = builder::CipherSuite::TLS_AES_128_GCM_SHA256.into_event();
    assert_eq!(suite.as_str(), "TLS_AES_128_GCM_SHA256");
    let suite: api::CipherSuite = builder::CipherSuite::TLS_AES_256_GCM_SHA384.into_event();
    assert_eq!(suite.as_str(), "TLS_AES_256_GCM_SHA384");
    let suite: api::CipherSuite = builder::CipherSuite::TLS_CHACHA20_POLY1305_SHA256.into_event();
    assert_eq!(suite.as_str(), "TLS_CHACHA20_POLY1305_SHA256");
    let suite: api::CipherSuite = builder::CipherSuite::Unknown.into_event();
    assert_eq!(suite.as_str(), "UNKNOWN");
}

#[test]
fn connection_meta_reports_its_connection() {
    let meta: api::ConnectionMeta = builder::ConnectionMeta {
        endpoint_type: endpoint::Type::Server,
        id: 12,
        timestamp: Timestamp { micros: 99 },
    }
    .into_event();
    assert!(matches!(meta.subject(), api::Subject::Connection { id: 12, .. }));
    assert!(matches!(meta.endpoint_type(), api::EndpointType::Server { .. }));
    assert_eq!(meta.timestamp(), &Timestamp { micros: 99 });
    assert_eq!(meta.id, 12);
}

#[test]
fn endpoint_meta_reports_the_endpoint() {
    let meta: api::EndpointMeta = builder::EndpointMeta {
        endpoint_type: endpoint::Type::Client,
        timestamp: Timestamp { micros: 5 },
    }
    .into_event();
    assert!(matches!(meta.subject(), api::Subject::Endpoint { .. }));
    assert!(matches!(meta.endpoint_type(), api::EndpointType::Client { .. }));
    assert_eq!(meta.timestamp().micros, 5);
}

#[test]
fn supervisor_defaults_to_continue() {
    assert_eq!(Outcome::default(), Outcome::Continue);
    let close = Outcome::Close { error_code: application::Error(VarInt::from_u8(1)) };
    assert_ne!(close, Outcome::default());

    let ip = [10u8, 0, 0, 2];
    let context = Context::new(3, 40, builder::SocketAddress::IpV4 { ip: &ip, port: 4433 }, true);
    assert_eq!(context.inflight_handshakes, 3);
    assert_eq!(context.connection_count, 40);
    assert!(context.is_handshaking);
    assert!(matches!(context.remote_address, builder::SocketAddress::IpV4 { port: 4433, .. }));
}

#[test]
fn frames_as_events() {
    assert!(matches!(Padding { length: 3 }.as_event(), builder::Frame::Padding));
    assert!(matches!(MaxData { maximum_data: VarInt::from_u8(1) }.as_event(), builder::Frame::MaxData));

    let data = [0u8; 70_000];
    let crypto = Crypto { offset: VarInt::from_u32(100_000), data: &data[..] };
    // the length is reported modulo 2^16
    let event: builder::Frame = (&crypto).into_event();
    assert!(matches!(event, builder::Frame::Crypto { offset: 100_000, len: 4464 }));

    let max_streams = MaxStreams { stream_type: StreamType::Unidirectional, maximum_streams: VarInt::from_u8(9) };
    let event: builder::Frame = (&max_streams).into_event();
    assert!(matches!(
        event,
        builder::Frame::MaxStreams { stream_type: builder::StreamType::Unidirectional }
    ));
    assert!(matches!(
        max_streams.as_event(),
        builder::Frame::MaxStreams { stream_type: builder::StreamType::Unidirectional }
    ));

    let (ack, _) = Ack::decode(0x02, &[1, 0, 0, 0]).unwrap();
    assert!(matches!(ack.as_event(), builder::Frame::Ack));
}

#[test]
fn builder_values_become_events() {
    let frame: api::Frame = builder::Frame::Crypto { offset: 8, len: 16 }.into_event();
    assert!(matches!(frame, api::Frame::Crypto { offset: 8, len: 16, .. }));
    let location: api::Location = endpoint::Location::Remote.into_event();
    assert!(matches!(location, api::Location::Remote { .. }));
    let endpoint_type: api::EndpointType = endpoint::Type::Client.into_event();
    assert!(matches!(endpoint_type, api::EndpointType::Client { .. }));
}

#[test]
fn supervisor_outcomes_combine() {
    let close = Outcome::Close { error_code: application::Error(VarInt::from_u8(1)) };
    let immediate = Outcome::ImmediateClose { reason: "idle" };
    assert_eq!(combine_outcomes(Outcome::Continue, Outcome::Continue), Outcome::Continue);
    assert_eq!(combine_outcomes(Outcome::Continue, close.clone()), close);
    assert_eq!(combine_outcomes(close.clone(), immediate.clone()), immediate);
    assert_eq!(combine_outcomes(immediate.clone(), close.clone()), immediate);

    let a = Duration::from_secs(3);
    let b = Duration::from_secs(1);
    assert_eq!(combine_timeouts(None, None), None);
    assert_eq!(combine_timeouts(Some(a), None), Some(a));
    assert_eq!(combine_timeouts(None, Some(b)), Some(b));
    assert_eq!(combine_timeouts(Some(a), Some(b)), Some(b));
}
