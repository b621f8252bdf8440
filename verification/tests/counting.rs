use s2n_quic_core::endpoint;
use s2n_quic_core::event::metrics::context::ConnectionEvent;
use s2n_quic_core::event::metrics::Subscriber as CountingSubscriber;
use s2n_quic_core::event::{api, builder, IntoEvent, Subscriber};
use s2n_quic_core::time::Timestamp;

/// Adds up the packet numbers of the packets it is told were sent.
struct PacketNumbers;

impl Subscriber for PacketNumbers {
    type ConnectionContext = u64;

    fn create_connection_context(
        &mut self,
        _meta: &api::ConnectionMeta,
        _info: &api::ConnectionInfo,
    ) -> u64 {
        100
    }

    fn on_packet_sent(&mut self, context: &mut u64, _meta: &api::ConnectionMeta, event: &api::PacketSent) {
        if let api::PacketHeader::OneRtt { number, .. } = &event.packet_header {
            *context += *number;
        }
    }
}

fn meta() -> api::ConnectionMeta {
    builder::ConnectionMeta {
        endpoint_type: endpoint::Type::Client,
        id: 1,
        timestamp: Timestamp { micros: 0 },
    }
    .into_event()
}

fn packet_sent(number: u64) -> api::PacketSent {
    builder::PacketSent { packet_header: builder::PacketHeader::OneRtt { number } }.into_event()
}

#[test]
fn counting_subscriber_counts_and_forwards() {
    let mut subscriber = CountingSubscriber::new(PacketNumbers);
    let meta = meta();
    let info: api::ConnectionInfo = builder::ConnectionInfo {}.into_event();
    let mut context = subscriber.create_connection_context(&meta, &info);
    assert!(context.counts().iter().all(|(_, c)| *c == 0));
    assert_eq!(*context.inner(), 100);

    subscriber.on_packet_sent(&mut context, &meta, &packet_sent(3));
    subscriber.on_packet_sent(&mut context, &meta, &packet_sent(4));

    assert_eq!(context.count(ConnectionEvent::PacketSent), 2);
    assert_eq!(*context.inner(), 107);
    let counts = context.counts();
    assert!(counts.contains(&("packet_sent", 2)));
    assert_eq!(counts.iter().map(|(_, c)| c).sum::<u64>(), 2);
}

#[test]
fn counting_context_inner_mut_keeps_counts() {
    let mut subscriber = CountingSubscriber::new(PacketNumbers);
    let meta = meta();
    let info: api::ConnectionInfo = builder::ConnectionInfo {}.into_event();
    let mut context = subscriber.create_connection_context(&meta, &info);
    subscriber.on_packet_sent(&mut context, &meta, &packet_sent(1));
    *context.inner_mut() = 0;
    assert_eq!(*context.inner(), 0);
    assert_eq!(context.count(ConnectionEvent::PacketSent), 1);
}
