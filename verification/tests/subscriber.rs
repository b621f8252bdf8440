use s2n_quic_core::application;
use s2n_quic_core::endpoint;
use s2n_quic_core::event::publisher::{ConnectionPublisherSubscriber, EndpointPublisherSubscriber};
use s2n_quic_core::event::supervisor::{Context, Outcome};
use s2n_quic_core::event::{api, builder, ConnectionPublisher, EndpointPublisher, Subscriber};
use s2n_quic_core::time::Timestamp;
use s2n_quic_core::varint::VarInt;
use std::time::Duration;

/// Counts the packets it is told of, and asks for a fixed supervision.
struct Counting {
    timeout: Option<Duration>,
    outcome: Outcome,
    platform_tx: usize,
}

impl Subscriber for Counting {
    type ConnectionContext = u64;

    fn create_connection_context(
        &mut self,
        _meta: &api::ConnectionMeta,
        _info: &api::ConnectionInfo,
    ) -> u64 {
        0
    }

    fn supervisor_timeout(
        &mut self,
        _conn_context: &mut u64,
        _meta: &api::ConnectionMeta,
        _context: &Context,
    ) -> Option<Duration> {
        self.timeout
    }

    fn on_supervisor_timeout(
        &mut self,
        _conn_context: &mut u64,
        _meta: &api::ConnectionMeta,
        _context: &Context,
    ) -> Outcome {
        self.outcome.clone()
    }

    fn on_packet_sent(&mut self, context: &mut u64, _meta: &api::ConnectionMeta, _event: &api::PacketSent) {
        *context += 1;
    }

    fn on_platform_tx(&mut self, _meta: &api::EndpointMeta, event: &api::PlatformTx) {
        self.platform_tx += event.count;
    }
}

fn counting(timeout: Option<u64>, outcome: Outcome) -> Counting {
    Counting { timeout: timeout.map(Duration::from_millis), outcome, platform_tx: 0 }
}

fn connection_meta() -> builder::ConnectionMeta {
    builder::ConnectionMeta {
        endpoint_type: endpoint::Type::Server,
        id: 4,
        timestamp: Timestamp { micros: 0 },
    }
}

#[test]
fn two_subscribers_both_receive_events() {
    let mut both = (counting(Some(300), Outcome::Continue), counting(Some(100), Outcome::Continue));
    let meta: api::ConnectionMeta = s2n_quic_core::event::IntoEvent::into_event(connection_meta());
    let info: api::ConnectionInfo = s2n_quic_core::event::IntoEvent::into_event(builder::ConnectionInfo {});
    let mut context = both.create_connection_context(&meta, &info);
    {
        let mut publisher = ConnectionPublisherSubscriber::new(connection_meta(), 1, &mut both, &mut context);
        publisher.on_packet_sent(builder::PacketSent {
            packet_header: builder::PacketHeader::OneRtt { number: 1 },
        });
        publisher.on_packet_sent(builder::PacketSent {
            packet_header: builder::PacketHeader::OneRtt { number: 2 },
        });
        assert_eq!(publisher.quic_version(), 1);
    }
    assert_eq!(context, (2, 2));

    let ip = [127u8, 0, 0, 1];
    let supervisor = Context::new(0, 1, builder::SocketAddress::IpV4 { ip: &ip, port: 1 }, false);
    assert_eq!(
        both.supervisor_timeout(&mut context, &meta, &supervisor),
        Some(Duration::from_millis(100))
    );
    assert_eq!(both.on_supervisor_timeout(&mut context, &meta, &supervisor), Outcome::Continue);
}

#[test]
fn composed_supervision_takes_the_stronger_outcome() {
    let close = Outcome::Close { error_code: application::Error(VarInt::from_u8(3)) };
    let mut both = (counting(None, Outcome::Continue), counting(None, close.clone()));
    let meta: api::ConnectionMeta = s2n_quic_core::event::IntoEvent::into_event(connection_meta());
    let ip = [127u8, 0, 0, 1];
    let supervisor = Context::new(0, 1, builder::SocketAddress::IpV4 { ip: &ip, port: 1 }, false);
    let mut context = (0, 0);
    assert_eq!(both.supervisor_timeout(&mut context, &meta, &supervisor), None);
    assert_eq!(both.on_supervisor_timeout(&mut context, &meta, &supervisor), close);
}

#[test]
fn endpoint_publisher_hands_events_over() {
    let mut sub = counting(None, Outcome::Continue);
    {
        let meta = builder::EndpointMeta {
            endpoint_type: endpoint::Type::Client,
            timestamp: Timestamp { micros: 0 },
        };
        let mut publisher = EndpointPublisherSubscriber::new(meta, Some(1), &mut sub);
        publisher.on_platform_tx(builder::PlatformTx { count: 5 });
        publisher.on_platform_tx(builder::PlatformTx { count: 2 });
        // events the subscriber does not handle are ignored
        publisher.on_platform_event_loop_wakeup(builder::PlatformEventLoopWakeup {
            timeout_expired: false,
            rx_ready: true,
            tx_ready: false,
        });
        assert_eq!(publisher.quic_version(), Some(1));
    }
    assert_eq!(sub.platform_tx, 7);
}
