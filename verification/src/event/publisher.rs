//! Publishers that hand the events an endpoint builds to a subscriber, as
//! event values with the metadata of their endpoint or connection.
use super::subscriber::Subscriber;
use super::{api, builder, ConnectionPublisher, EndpointPublisher, IntoEvent};
use vstd::prelude::*;

verus! {

/// Publishes the events of an endpoint to a subscriber.
pub struct EndpointPublisherSubscriber<'a, Sub: Subscriber> {
    meta: api::EndpointMeta,
    quic_version: Option<u32>,
    subscriber: &'a mut Sub,
}

impl<'a, Sub: Subscriber> EndpointPublisherSubscriber<'a, Sub> {
    pub fn new(
        meta: builder::EndpointMeta,
        quic_version: Option<u32>,
        subscriber: &'a mut Sub,
    ) -> (r: Self)
        ensures
            r.spec_meta() == meta@,
            r.spec_quic_version() == quic_version,
            r.spec_subscriber() == *old(subscriber),
    {
        EndpointPublisherSubscriber { meta: meta.into_event(), quic_version, subscriber }
    }

    /// The metadata every published event carries.
    pub closed spec fn spec_meta(&self) -> api::EndpointMeta {
        self.meta
    }

    /// The QUIC version, if any.
    pub closed spec fn spec_quic_version(&self) -> Option<u32> {
        self.quic_version
    }

    /// The subscriber the events go to.
    pub closed spec fn spec_subscriber(&self) -> Sub {
        *self.subscriber
    }
}

impl<'a, Sub: Subscriber> EndpointPublisher for EndpointPublisherSubscriber<'a, Sub> {
    fn on_version_information(&mut self, event: builder::VersionInformation)
        ensures
            final(self).spec_meta() == old(self).spec_meta(),
            exists|s: &mut Sub|
                mut_ref_current(s) == old(self).spec_subscriber()
                && mut_ref_future(s) == final(self).spec_subscriber()
                && #[trigger] call_ensures(Sub::on_version_information, (s, &old(self).spec_meta(), &event@), ()),
    {
        let event = event.into_event();
        self.subscriber.on_version_information(&self.meta, &event);
    }

    fn on_endpoint_packet_sent(&mut self, event: builder::EndpointPacketSent)
        ensures
            final(self).spec_meta() == old(self).spec_meta(),
            exists|s: &mut Sub|
                mut_ref_current(s) == old(self).spec_subscriber()
                && mut_ref_future(s) == final(self).spec_subscriber()
                && #[trigger] call_ensures(Sub::on_endpoint_packet_sent, (s, &old(self).spec_meta(), &event@), ()),
    {
        let event = event.into_event();
        self.subscriber.on_endpoint_packet_sent(&self.meta, &event);
    }

    fn on_endpoint_packet_received(&mut self, event: builder::EndpointPacketReceived)
        ensures
            final(self).spec_meta() == old(self).spec_meta(),
            exists|s: &mut Sub|
                mut_ref_current(s) == old(self).spec_subscriber()
                && mut_ref_future(s) == final(self).spec_subscriber()
                && #[trigger] call_ensures(Sub::on_endpoint_packet_received, (s, &old(self).spec_meta(), &event@), ()),
    {
        let event = event.into_event();
        self.subscriber.on_endpoint_packet_received(&self.meta, &event);
    }

    fn on_endpoint_datagram_sent(&mut self, event: builder::EndpointDatagramSent)
        ensures
            final(self).spec_meta() == old(self).spec_meta(),
            exists|s: &mut Sub|
                mut_ref_current(s) == old(self).spec_subscriber()
                && mut_ref_future(s) == final(self).spec_subscriber()
                && #[trigger] call_ensures(Sub::on_endpoint_datagram_sent, (s, &old(self).spec_meta(), &event@), ()),
    {
        let event = event.into_event();
        self.subscriber.on_endpoint_datagram_sent(&self.meta, &event);
    }

    fn on_endpoint_datagram_received(&mut self, event: builder::EndpointDatagramReceived)
        ensures
            final(self).spec_meta() == old(self).spec_meta(),
            exists|s: &mut Sub|
                mut_ref_current(s) == old(self).spec_subscriber()
                && mut_ref_future(s) == final(self).spec_subscriber()
                && #[trigger] call_ensures(Sub::on_endpoint_datagram_received, (s, &old(self).spec_meta(), &event@), ()),
    {
        let event = event.into_event();
        self.subscriber.on_endpoint_datagram_received(&self.meta, &event);
    }

    fn on_endpoint_datagram_dropped(&mut self, event: builder::EndpointDatagramDropped)
        ensures
            final(self).spec_meta() == old(self).spec_meta(),
            exists|s: &mut Sub|
                mut_ref_current(s) == old(self).spec_subscriber()
                && mut_ref_future(s) == final(self).spec_subscriber()
                && #[trigger] call_ensures(Sub::on_endpoint_datagram_dropped, (s, &old(self).spec_meta(), &event@), ()),
    {
        let event = event.into_event();
        self.subscriber.on_endpoint_datagram_dropped(&self.meta, &event);
    }

    fn on_endpoint_connection_attempt_failed(&mut self, event: builder::EndpointConnectionAttemptFailed)
        ensures
            final(self).spec_meta() == old(self).spec_meta(),
            exists|s: &mut Sub|
                mut_ref_current(s) == old(self).spec_subscriber()
                && mut_ref_future(s) == final(self).spec_subscriber()
                && #[trigger] call_ensures(Sub::on_endpoint_connection_attempt_failed, (s, &old(self).spec_meta(), &event@), ()),
    {
        let event = event.into_event();
        self.subscriber.on_endpoint_connection_attempt_failed(&self.meta, &event);
    }

    fn on_platform_tx(&mut self, event: builder::PlatformTx)
        ensures
            final(self).spec_meta() == old(self).spec_meta(),
            exists|s: &mut Sub|
                mut_ref_current(s) == old(self).spec_subscriber()
                && mut_ref_future(s) == final(self).spec_subscriber()
                && #[trigger] call_ensures(Sub::on_platform_tx, (s, &old(self).spec_meta(), &event@), ()),
    {
        let event = event.into_event();
        self.subscriber.on_platform_tx(&self.meta, &event);
    }

    fn on_platform_tx_error(&mut self, event: builder::PlatformTxError)
        ensures
            final(self).spec_meta() == old(self).spec_meta(),
            exists|s: &mut Sub|
                mut_ref_current(s) == old(self).spec_subscriber()
                && mut_ref_future(s) == final(self).spec_subscriber()
                && #[trigger] call_ensures(Sub::on_platform_tx_error, (s, &old(self).spec_meta(), &event@), ()),
    {
        let event = event.into_event();
        self.subscriber.on_platform_tx_error(&self.meta, &event);
    }

    fn on_platform_rx(&mut self, event: builder::PlatformRx)
        ensures
            final(self).spec_meta() == old(self).spec_meta(),
            exists|s: &mut Sub|
                mut_ref_current(s) == old(self).spec_subscriber()
                && mut_ref_future(s) == final(self).spec_subscriber()
                && #[trigger] call_ensures(Sub::on_platform_rx, (s, &old(self).spec_meta(), &event@), ()),
    {
        let event = event.into_event();
        self.subscriber.on_platform_rx(&self.meta, &event);
    }

    fn on_platform_rx_error(&mut self, event: builder::PlatformRxError)
        ensures
            final(self).spec_meta() == old(self).spec_meta(),
            exists|s: &mut Sub|
                mut_ref_current(s) == old(self).spec_subscriber()
                && mut_ref_future(s) == final(self).spec_subscriber()
                && #[trigger] call_ensures(Sub::on_platform_rx_error, (s, &old(self).spec_meta(), &event@), ()),
    {
        let event = event.into_event();
        self.subscriber.on_platform_rx_error(&self.meta, &event);
    }

    fn on_platform_feature_configured(&mut self, event: builder::PlatformFeatureConfigured)
        ensures
            final(self).spec_meta() == old(self).spec_meta(),
            exists|s: &mut Sub|
                mut_ref_current(s) == old(self).spec_subscriber()
                && mut_ref_future(s) == final(self).spec_subscriber()
                && #[trigger] call_ensures(Sub::on_platform_feature_configured, (s, &old(self).spec_meta(), &event@), ()),
    {
        let event = event.into_event();
        self.subscriber.on_platform_feature_configured(&self.meta, &event);
    }

    fn on_platform_event_loop_wakeup(&mut self, event: builder::PlatformEventLoopWakeup)
        ensures
            final(self).spec_meta() == old(self).spec_meta(),
            exists|s: &mut Sub|
                mut_ref_current(s) == old(self).spec_subscriber()
                && mut_ref_future(s) == final(self).spec_subscriber()
                && #[trigger] call_ensures(Sub::on_platform_event_loop_wakeup, (s, &old(self).spec_meta(), &event@), ()),
    {
        let event = event.into_event();
        self.subscriber.on_platform_event_loop_wakeup(&self.meta, &event);
    }

    fn quic_version(&self) -> (r: Option<u32>)
        ensures
            r == self.spec_quic_version(),
    {
        self.quic_version
    }
}

/// Publishes the events of a connection to a subscriber, with the
/// subscriber's context for that connection.
pub struct ConnectionPublisherSubscriber<'a, Sub: Subscriber> {
    meta: api::ConnectionMeta,
    quic_version: u32,
    subscriber: &'a mut Sub,
    context: &'a mut Sub::ConnectionContext,
}

impl<'a, Sub: Subscriber> ConnectionPublisherSubscriber<'a, Sub> {
    pub fn new(
        meta: builder::ConnectionMeta,
        quic_version: u32,
        subscriber: &'a mut Sub,
        context: &'a mut Sub::ConnectionContext,
    ) -> (r: Self)
        ensures
            r.spec_meta() == meta@,
            r.spec_quic_version() == quic_version,
            r.spec_subscriber() == *old(subscriber),
            r.spec_context() == *old(context),
    {
        ConnectionPublisherSubscriber { meta: meta.into_event(), quic_version, subscriber, context }
    }

    /// The metadata every published event carries.
    pub closed spec fn spec_meta(&self) -> api::ConnectionMeta {
        self.meta
    }

    /// The QUIC version negotiated for the connection.
    pub closed spec fn spec_quic_version(&self) -> u32 {
        self.quic_version
    }

    /// The subscriber the events go to.
    pub closed spec fn spec_subscriber(&self) -> Sub {
        *self.subscriber
    }

    /// The subscriber's context for the connection.
    pub closed spec fn spec_context(&self) -> Sub::ConnectionContext {
        *self.context
    }
}

impl<'a, Sub: Subscriber> ConnectionPublisher for ConnectionPublisherSubscriber<'a, Sub> {
    fn on_alpn_information(&mut self, event: builder::AlpnInformation)
        ensures
            final(self).spec_meta() == old(self).spec_meta(),
            exists|s: &mut Sub, c: &mut Sub::ConnectionContext|
                mut_ref_current(s) == old(self).spec_subscriber()
                && mut_ref_future(s) == final(self).spec_subscriber()
                && mut_ref_current(c) == old(self).spec_context()
                && mut_ref_future(c) == final(self).spec_context()
                && #[trigger] call_ensures(Sub::on_alpn_information, (s, c, &old(self).spec_meta(), &event@), ()),
    {
        let event = event.into_event();
        self.subscriber.on_alpn_information(self.context, &self.meta, &event);
    }

    fn on_sni_information(&mut self, event: builder::SniInformation)
        ensures
            final(self).spec_meta() == old(self).spec_meta(),
            exists|s: &mut Sub, c: &mut Sub::ConnectionContext|
                mut_ref_current(s) == old(self).spec_subscriber()
                && mut_ref_future(s) == final(self).spec_subscriber()
                && mut_ref_current(c) == old(self).spec_context()
                && mut_ref_future(c) == final(self).spec_context()
                && #[trigger] call_ensures(Sub::on_sni_information, (s, c, &old(self).spec_meta(), &event@), ()),
    {
        let event = event.into_event();
        self.subscriber.on_sni_information(self.context, &self.meta, &event);
    }

    fn on_packet_sent(&mut self, event: builder::PacketSent)
        ensures
            final(self).spec_meta() == old(self).spec_meta(),
            exists|s: &mut Sub, c: &mut Sub::ConnectionContext|
                mut_ref_current(s) == old(self).spec_subscriber()
                && mut_ref_future(s) == final(self).spec_subscriber()
                && mut_ref_current(c) == old(self).spec_context()
                && mut_ref_future(c) == final(self).spec_context()
                && #[trigger] call_ensures(Sub::on_packet_sent, (s, c, &old(self).spec_meta(), &event@), ()),
    {
        let event = event.into_event();
        self.subscriber.on_packet_sent(self.context, &self.meta, &event);
    }

    fn on_packet_received(&mut self, event: builder::PacketReceived)
        ensures
            final(self).spec_meta() == old(self).spec_meta(),
            exists|s: &mut Sub, c: &mut Sub::ConnectionContext|
                mut_ref_current(s) == old(self).spec_subscriber()
                && mut_ref_future(s) == final(self).spec_subscriber()
                && mut_ref_current(c) == old(self).spec_context()
                && mut_ref_future(c) == final(self).spec_context()
                && #[trigger] call_ensures(Sub::on_packet_received, (s, c, &old(self).spec_meta(), &event@), ()),
    {
        let event = event.into_event();
        self.subscriber.on_packet_received(self.context, &self.meta, &event);
    }

    fn on_active_path_updated(&mut self, event: builder::ActivePathUpdated)
        ensures
            final(self).spec_meta() == old(self).spec_meta(),
            exists|s: &mut Sub, c: &mut Sub::ConnectionContext|
                mut_ref_current(s) == old(self).spec_subscriber()
                && mut_ref_future(s) == final(self).spec_subscriber()
                && mut_ref_current(c) == old(self).spec_context()
                && mut_ref_future(c) == final(self).spec_context()
                && #[trigger] call_ensures(Sub::on_active_path_updated, (s, c, &old(self).spec_meta(), &event@), ()),
    {
        let event = event.into_event();
        self.subscriber.on_active_path_updated(self.context, &self.meta, &event);
    }

    fn on_path_created(&mut self, event: builder::PathCreated)
        ensures
            final(self).spec_meta() == old(self).spec_meta(),
            exists|s: &mut Sub, c: &mut Sub::ConnectionContext|
                mut_ref_current(s) == old(self).spec_subscriber()
                && mut_ref_future(s) == final(self).spec_subscriber()
                && mut_ref_current(c) == old(self).spec_context()
                && mut_ref_future(c) == final(self).spec_context()
                && #[trigger] call_ensures(Sub::on_path_created, (s, c, &old(self).spec_meta(), &event@), ()),
    {
        let event = event.into_event();
        self.subscriber.on_path_created(self.context, &self.meta, &event);
    }

    fn on_frame_sent(&mut self, event: builder::FrameSent)
        ensures
            final(self).spec_meta() == old(self).spec_meta(),
            exists|s: &mut Sub, c: &mut Sub::ConnectionContext|
                mut_ref_current(s) == old(self).spec_subscriber()
                && mut_ref_future(s) == final(self).spec_subscriber()
                && mut_ref_current(c) == old(self).spec_context()
                && mut_ref_future(c) == final(self).spec_context()
                && #[trigger] call_ensures(Sub::on_frame_sent, (s, c, &old(self).spec_meta(), &event@), ()),
    {
        let event = event.into_event();
        self.subscriber.on_frame_sent(self.context, &self.meta, &event);
    }

    fn on_frame_received(&mut self, event: builder::FrameReceived)
        ensures
            final(self).spec_meta() == old(self).spec_meta(),
            exists|s: &mut Sub, c: &mut Sub::ConnectionContext|
                mut_ref_current(s) == old(self).spec_subscriber()
                && mut_ref_future(s) == final(self).spec_subscriber()
                && mut_ref_current(c) == old(self).spec_context()
                && mut_ref_future(c) == final(self).spec_context()
                && #[trigger] call_ensures(Sub::on_frame_received, (s, c, &old(self).spec_meta(), &event@), ()),
    {
        let event = event.into_event();
        self.subscriber.on_frame_received(self.context, &self.meta, &event);
    }

    fn on_packet_lost(&mut self, event: builder::PacketLost)
        ensures
            final(self).spec_meta() == old(self).spec_meta(),
            exists|s: &mut Sub, c: &mut Sub::ConnectionContext|
                mut_ref_current(s) == old(self).spec_subscriber()
                && mut_ref_future(s) == final(self).spec_subscriber()
                && mut_ref_current(c) == old(self).spec_context()
                && mut_ref_future(c) == final(self).spec_context()
                && #[trigger] call_ensures(Sub::on_packet_lost, (s, c, &old(self).spec_meta(), &event@), ()),
    {
        let event = event.into_event();
        self.subscriber.on_packet_lost(self.context, &self.meta, &event);
    }

    fn on_recovery_metrics(&mut self, event: builder::RecoveryMetrics)
        ensures
            final(self).spec_meta() == old(self).spec_meta(),
            exists|s: &mut Sub, c: &mut Sub::ConnectionContext|
                mut_ref_current(s) == old(self).spec_subscriber()
                && mut_ref_future(s) == final(self).spec_subscriber()
                && mut_ref_current(c) == old(self).spec_context()
                && mut_ref_future(c) == final(self).spec_context()
                && #[trigger] call_ensures(Sub::on_recovery_metrics, (s, c, &old(self).spec_meta(), &event@), ()),
    {
        let event = event.into_event();
        self.subscriber.on_recovery_metrics(self.context, &self.meta, &event);
    }

    fn on_congestion(&mut self, event: builder::Congestion)
        ensures
            final(self).spec_meta() == old(self).spec_meta(),
            exists|s: &mut Sub, c: &mut Sub::ConnectionContext|
                mut_ref_current(s) == old(self).spec_subscriber()
                && mut_ref_future(s) == final(self).spec_subscriber()
                && mut_ref_current(c) == old(self).spec_context()
                && mut_ref_future(c) == final(self).spec_context()
                && #[trigger] call_ensures(Sub::on_congestion, (s, c, &old(self).spec_meta(), &event@), ()),
    {
        let event = event.into_event();
        self.subscriber.on_congestion(self.context, &self.meta, &event);
    }

    fn on_packet_dropped(&mut self, event: builder::PacketDropped)
        ensures
            final(self).spec_meta() == old(self).spec_meta(),
            exists|s: &mut Sub, c: &mut Sub::ConnectionContext|
                mut_ref_current(s) == old(self).spec_subscriber()
                && mut_ref_future(s) == final(self).spec_subscriber()
                && mut_ref_current(c) == old(self).spec_context()
                && mut_ref_future(c) == final(self).spec_context()
                && #[trigger] call_ensures(Sub::on_packet_dropped, (s, c, &old(self).spec_meta(), &event@), ()),
    {
        let event = event.into_event();
        self.subscriber.on_packet_dropped(self.context, &self.meta, &event);
    }

    fn on_key_update(&mut self, event: builder::KeyUpdate)
        ensures
            final(self).spec_meta() == old(self).spec_meta(),
            exists|s: &mut Sub, c: &mut Sub::ConnectionContext|
                mut_ref_current(s) == old(self).spec_subscriber()
                && mut_ref_future(s) == final(self).spec_subscriber()
                && mut_ref_current(c) == old(self).spec_context()
                && mut_ref_future(c) == final(self).spec_context()
                && #[trigger] call_ensures(Sub::on_key_update, (s, c, &old(self).spec_meta(), &event@), ()),
    {
        let event = event.into_event();
        self.subscriber.on_key_update(self.context, &self.meta, &event);
    }

    fn on_key_space_discarded(&mut self, event: builder::KeySpaceDiscarded)
        ensures
            final(self).spec_meta() == old(self).spec_meta(),
            exists|s: &mut Sub, c: &mut Sub::ConnectionContext|
                mut_ref_current(s) == old(self).spec_subscriber()
                && mut_ref_future(s) == final(self).spec_subscriber()
                && mut_ref_current(c) == old(self).spec_context()
                && mut_ref_future(c) == final(self).spec_context()
                && #[trigger] call_ensures(Sub::on_key_space_discarded, (s, c, &old(self).spec_meta(), &event@), ()),
    {
        let event = event.into_event();
        self.subscriber.on_key_space_discarded(self.context, &self.meta, &event);
    }

    fn on_connection_started(&mut self, event: builder::ConnectionStarted)
        ensures
            final(self).spec_meta() == old(self).spec_meta(),
            exists|s: &mut Sub, c: &mut Sub::ConnectionContext|
                mut_ref_current(s) == old(self).spec_subscriber()
                && mut_ref_future(s) == final(self).spec_subscriber()
                && mut_ref_current(c) == old(self).spec_context()
                && mut_ref_future(c) == final(self).spec_context()
                && #[trigger] call_ensures(Sub::on_connection_started, (s, c, &old(self).spec_meta(), &event@), ()),
    {
        let event = event.into_event();
        self.subscriber.on_connection_started(self.context, &self.meta, &event);
    }

    fn on_connection_closed(&mut self, event: builder::ConnectionClosed)
        ensures
            final(self).spec_meta() == old(self).spec_meta(),
            exists|s: &mut Sub, c: &mut Sub::ConnectionContext|
                mut_ref_current(s) == old(self).spec_subscriber()
                && mut_ref_future(s) == final(self).spec_subscriber()
                && mut_ref_current(c) == old(self).spec_context()
                && mut_ref_future(c) == final(self).spec_context()
                && #[trigger] call_ensures(Sub::on_connection_closed, (s, c, &old(self).spec_meta(), &event@), ()),
    {
        let event = event.into_event();
        self.subscriber.on_connection_closed(self.context, &self.meta, &event);
    }

    fn on_duplicate_packet(&mut self, event: builder::DuplicatePacket)
        ensures
            final(self).spec_meta() == old(self).spec_meta(),
            exists|s: &mut Sub, c: &mut Sub::ConnectionContext|
                mut_ref_current(s) == old(self).spec_subscriber()
                && mut_ref_future(s) == final(self).spec_subscriber()
                && mut_ref_current(c) == old(self).spec_context()
                && mut_ref_future(c) == final(self).spec_context()
                && #[trigger] call_ensures(Sub::on_duplicate_packet, (s, c, &old(self).spec_meta(), &event@), ()),
    {
        let event = event.into_event();
        self.subscriber.on_duplicate_packet(self.context, &self.meta, &event);
    }

    fn on_transport_parameters_received(&mut self, event: builder::TransportParametersReceived)
        ensures
            final(self).spec_meta() == old(self).spec_meta(),
            exists|s: &mut Sub, c: &mut Sub::ConnectionContext|
                mut_ref_current(s) == old(self).spec_subscriber()
                && mut_ref_future(s) == final(self).spec_subscriber()
                && mut_ref_current(c) == old(self).spec_context()
                && mut_ref_future(c) == final(self).spec_context()
                && #[trigger] call_ensures(Sub::on_transport_parameters_received, (s, c, &old(self).spec_meta(), &event@), ()),
    {
        let event = event.into_event();
        self.subscriber.on_transport_parameters_received(self.context, &self.meta, &event);
    }

    fn on_datagram_sent(&mut self, event: builder::DatagramSent)
        ensures
            final(self).spec_meta() == old(self).spec_meta(),
            exists|s: &mut Sub, c: &mut Sub::ConnectionContext|
                mut_ref_current(s) == old(self).spec_subscriber()
                && mut_ref_future(s) == final(self).spec_subscriber()
                && mut_ref_current(c) == old(self).spec_context()
                && mut_ref_future(c) == final(self).spec_context()
                && #[trigger] call_ensures(Sub::on_datagram_sent, (s, c, &old(self).spec_meta(), &event@), ()),
    {
        let event = event.into_event();
        self.subscriber.on_datagram_sent(self.context, &self.meta, &event);
    }

    fn on_datagram_received(&mut self, event: builder::DatagramReceived)
        ensures
            final(self).spec_meta() == old(self).spec_meta(),
            exists|s: &mut Sub, c: &mut Sub::ConnectionContext|
                mut_ref_current(s) == old(self).spec_subscriber()
                && mut_ref_future(s) == final(self).spec_subscriber()
                && mut_ref_current(c) == old(self).spec_context()
                && mut_ref_future(c) == final(self).spec_context()
                && #[trigger] call_ensures(Sub::on_datagram_received, (s, c, &old(self).spec_meta(), &event@), ()),
    {
        let event = event.into_event();
        self.subscriber.on_datagram_received(self.context, &self.meta, &event);
    }

    fn on_datagram_dropped(&mut self, event: builder::DatagramDropped)
        ensures
            final(self).spec_meta() == old(self).spec_meta(),
            exists|s: &mut Sub, c: &mut Sub::ConnectionContext|
                mut_ref_current(s) == old(self).spec_subscriber()
                && mut_ref_future(s) == final(self).spec_subscriber()
                && mut_ref_current(c) == old(self).spec_context()
                && mut_ref_future(c) == final(self).spec_context()
                && #[trigger] call_ensures(Sub::on_datagram_dropped, (s, c, &old(self).spec_meta(), &event@), ()),
    {
        let event = event.into_event();
        self.subscriber.on_datagram_dropped(self.context, &self.meta, &event);
    }

    fn on_connection_id_updated(&mut self, event: builder::ConnectionIdUpdated)
        ensures
            final(self).spec_meta() == old(self).spec_meta(),
            exists|s: &mut Sub, c: &mut Sub::ConnectionContext|
                mut_ref_current(s) == old(self).spec_subscriber()
                && mut_ref_future(s) == final(self).spec_subscriber()
                && mut_ref_current(c) == old(self).spec_context()
                && mut_ref_future(c) == final(self).spec_context()
                && #[trigger] call_ensures(Sub::on_connection_id_updated, (s, c, &old(self).spec_meta(), &event@), ()),
    {
        let event = event.into_event();
        self.subscriber.on_connection_id_updated(self.context, &self.meta, &event);
    }

    fn on_ecn_state_changed(&mut self, event: builder::EcnStateChanged)
        ensures
            final(self).spec_meta() == old(self).spec_meta(),
            exists|s: &mut Sub, c: &mut Sub::ConnectionContext|
                mut_ref_current(s) == old(self).spec_subscriber()
                && mut_ref_future(s) == final(self).spec_subscriber()
                && mut_ref_current(c) == old(self).spec_context()
                && mut_ref_future(c) == final(self).spec_context()
                && #[trigger] call_ensures(Sub::on_ecn_state_changed, (s, c, &old(self).spec_meta(), &event@), ()),
    {
        let event = event.into_event();
        self.subscriber.on_ecn_state_changed(self.context, &self.meta, &event);
    }

    fn on_connection_migration_denied(&mut self, event: builder::ConnectionMigrationDenied)
        ensures
            final(self).spec_meta() == old(self).spec_meta(),
            exists|s: &mut Sub, c: &mut Sub::ConnectionContext|
                mut_ref_current(s) == old(self).spec_subscriber()
                && mut_ref_future(s) == final(self).spec_subscriber()
                && mut_ref_current(c) == old(self).spec_context()
                && mut_ref_future(c) == final(self).spec_context()
                && #[trigger] call_ensures(Sub::on_connection_migration_denied, (s, c, &old(self).spec_meta(), &event@), ()),
    {
        let event = event.into_event();
        self.subscriber.on_connection_migration_denied(self.context, &self.meta, &event);
    }

    fn on_handshake_status_updated(&mut self, event: builder::HandshakeStatusUpdated)
        ensures
            final(self).spec_meta() == old(self).spec_meta(),
            exists|s: &mut Sub, c: &mut Sub::ConnectionContext|
                mut_ref_current(s) == old(self).spec_subscriber()
                && mut_ref_future(s) == final(self).spec_subscriber()
                && mut_ref_current(c) == old(self).spec_context()
                && mut_ref_future(c) == final(self).spec_context()
                && #[trigger] call_ensures(Sub::on_handshake_status_updated, (s, c, &old(self).spec_meta(), &event@), ()),
    {
        let event = event.into_event();
        self.subscriber.on_handshake_status_updated(self.context, &self.meta, &event);
    }

    fn on_tls_client_hello(&mut self, event: builder::TlsClientHello)
        ensures
            final(self).spec_meta() == old(self).spec_meta(),
            exists|s: &mut Sub, c: &mut Sub::ConnectionContext|
                mut_ref_current(s) == old(self).spec_subscriber()
                && mut_ref_future(s) == final(self).spec_subscriber()
                && mut_ref_current(c) == old(self).spec_context()
                && mut_ref_future(c) == final(self).spec_context()
                && #[trigger] call_ensures(Sub::on_tls_client_hello, (s, c, &old(self).spec_meta(), &event@), ()),
    {
        let event = event.into_event();
        self.subscriber.on_tls_client_hello(self.context, &self.meta, &event);
    }

    fn on_tls_server_hello(&mut self, event: builder::TlsServerHello)
        ensures
            final(self).spec_meta() == old(self).spec_meta(),
            exists|s: &mut Sub, c: &mut Sub::ConnectionContext|
                mut_ref_current(s) == old(self).spec_subscriber()
                && mut_ref_future(s) == final(self).spec_subscriber()
                && mut_ref_current(c) == old(self).spec_context()
                && mut_ref_future(c) == final(self).spec_context()
                && #[trigger] call_ensures(Sub::on_tls_server_hello, (s, c, &old(self).spec_meta(), &event@), ()),
    {
        let event = event.into_event();
        self.subscriber.on_tls_server_hello(self.context, &self.meta, &event);
    }

    fn quic_version(&self) -> (r: u32)
        ensures
            r == self.spec_quic_version(),
    {
        self.quic_version
    }
}

} // verus!
