//! The interface through which an application receives the events of its
//! endpoint, and the composition of two such subscribers.
use super::{api, supervisor};
use super::supervisor::{combine_outcomes, combine_timeouts, spec_combine_outcomes, spec_combine_timeouts};
use core::time::Duration;
use vstd::prelude::*;

verus! {

/// Receives the events of an endpoint and of its connections. Every event
/// method does nothing unless an implementation gives it a body.
pub trait Subscriber {
    /// An application provided type associated with each connection, which
    /// each connection event may update.
    type ConnectionContext;

    /// Creates a context to be passed to each connection-related event
    fn create_connection_context(
        &mut self,
        meta: &api::ConnectionMeta,
        info: &api::ConnectionInfo,
    ) -> Self::ConnectionContext;

    /// The period at which `on_supervisor_timeout` is called; `None` ends
    /// the supervision of the connection.
    fn supervisor_timeout(
        &mut self,
        conn_context: &mut Self::ConnectionContext,
        meta: &api::ConnectionMeta,
        context: &supervisor::Context,
    ) -> Option<Duration> {
        None
    }

    /// Called for each `supervisor_timeout` to determine any action to take
    /// on the connection.
    fn on_supervisor_timeout(
        &mut self,
        conn_context: &mut Self::ConnectionContext,
        meta: &api::ConnectionMeta,
        context: &supervisor::Context,
    ) -> supervisor::Outcome {
        supervisor::Outcome::Continue
    }

    /// Called when the `AlpnInformation` event is triggered
    fn on_alpn_information(
        &mut self,
        context: &mut Self::ConnectionContext,
        meta: &api::ConnectionMeta,
        event: &api::AlpnInformation,
    ) {
    }

    /// Called when the `SniInformation` event is triggered
    fn on_sni_information(
        &mut self,
        context: &mut Self::ConnectionContext,
        meta: &api::ConnectionMeta,
        event: &api::SniInformation,
    ) {
    }

    /// Called when the `PacketSent` event is triggered
    fn on_packet_sent(
        &mut self,
        context: &mut Self::ConnectionContext,
        meta: &api::ConnectionMeta,
        event: &api::PacketSent,
    ) {
    }

    /// Called when the `PacketReceived` event is triggered
    fn on_packet_received(
        &mut self,
        context: &mut Self::ConnectionContext,
        meta: &api::ConnectionMeta,
        event: &api::PacketReceived,
    ) {
    }

    /// Called when the `ActivePathUpdated` event is triggered
    fn on_active_path_updated(
        &mut self,
        context: &mut Self::ConnectionContext,
        meta: &api::ConnectionMeta,
        event: &api::ActivePathUpdated,
    ) {
    }

    /// Called when the `PathCreated` event is triggered
    fn on_path_created(
        &mut self,
        context: &mut Self::ConnectionContext,
        meta: &api::ConnectionMeta,
        event: &api::PathCreated,
    ) {
    }

    /// Called when the `FrameSent` event is triggered
    fn on_frame_sent(
        &mut self,
        context: &mut Self::ConnectionContext,
        meta: &api::ConnectionMeta,
        event: &api::FrameSent,
    ) {
    }

    /// Called when the `FrameReceived` event is triggered
    fn on_frame_received(
        &mut self,
        context: &mut Self::ConnectionContext,
        meta: &api::ConnectionMeta,
        event: &api::FrameReceived,
    ) {
    }

    /// Called when the `PacketLost` event is triggered
    fn on_packet_lost(
        &mut self,
        context: &mut Self::ConnectionContext,
        meta: &api::ConnectionMeta,
        event: &api::PacketLost,
    ) {
    }

    /// Called when the `RecoveryMetrics` event is triggered
    fn on_recovery_metrics(
        &mut self,
        context: &mut Self::ConnectionContext,
        meta: &api::ConnectionMeta,
        event: &api::RecoveryMetrics,
    ) {
    }

    /// Called when the `Congestion` event is triggered
    fn on_congestion(
        &mut self,
        context: &mut Self::ConnectionContext,
        meta: &api::ConnectionMeta,
        event: &api::Congestion,
    ) {
    }

    /// Called when the `PacketDropped` event is triggered
    fn on_packet_dropped(
        &mut self,
        context: &mut Self::ConnectionContext,
        meta: &api::ConnectionMeta,
        event: &api::PacketDropped,
    ) {
    }

    /// Called when the `KeyUpdate` event is triggered
    fn on_key_update(
        &mut self,
        context: &mut Self::ConnectionContext,
        meta: &api::ConnectionMeta,
        event: &api::KeyUpdate,
    ) {
    }

    /// Called when the `KeySpaceDiscarded` event is triggered
    fn on_key_space_discarded(
        &mut self,
        context: &mut Self::ConnectionContext,
        meta: &api::ConnectionMeta,
        event: &api::KeySpaceDiscarded,
    ) {
    }

    /// Called when the `ConnectionStarted` event is triggered
    fn on_connection_started(
        &mut self,
        context: &mut Self::ConnectionContext,
        meta: &api::ConnectionMeta,
        event: &api::ConnectionStarted,
    ) {
    }

    /// Called when the `ConnectionClosed` event is triggered
    fn on_connection_closed(
        &mut self,
        context: &mut Self::ConnectionContext,
        meta: &api::ConnectionMeta,
        event: &api::ConnectionClosed,
    ) {
    }

    /// Called when the `DuplicatePacket` event is triggered
    fn on_duplicate_packet(
        &mut self,
        context: &mut Self::ConnectionContext,
        meta: &api::ConnectionMeta,
        event: &api::DuplicatePacket,
    ) {
    }

    /// Called when the `TransportParametersReceived` event is triggered
    fn on_transport_parameters_received(
        &mut self,
        context: &mut Self::ConnectionContext,
        meta: &api::ConnectionMeta,
        event: &api::TransportParametersReceived,
    ) {
    }

    /// Called when the `DatagramSent` event is triggered
    fn on_datagram_sent(
        &mut self,
        context: &mut Self::ConnectionContext,
        meta: &api::ConnectionMeta,
        event: &api::DatagramSent,
    ) {
    }

    /// Called when the `DatagramReceived` event is triggered
    fn on_datagram_received(
        &mut self,
        context: &mut Self::ConnectionContext,
        meta: &api::ConnectionMeta,
        event: &api::DatagramReceived,
    ) {
    }

    /// Called when the `DatagramDropped` event is triggered
    fn on_datagram_dropped(
        &mut self,
        context: &mut Self::ConnectionContext,
        meta: &api::ConnectionMeta,
        event: &api::DatagramDropped,
    ) {
    }

    /// Called when the `ConnectionIdUpdated` event is triggered
    fn on_connection_id_updated(
        &mut self,
        context: &mut Self::ConnectionContext,
        meta: &api::ConnectionMeta,
        event: &api::ConnectionIdUpdated,
    ) {
    }

    /// Called when the `EcnStateChanged` event is triggered
    fn on_ecn_state_changed(
        &mut self,
        context: &mut Self::ConnectionContext,
        meta: &api::ConnectionMeta,
        event: &api::EcnStateChanged,
    ) {
    }

    /// Called when the `ConnectionMigrationDenied` event is triggered
    fn on_connection_migration_denied(
        &mut self,
        context: &mut Self::ConnectionContext,
        meta: &api::ConnectionMeta,
        event: &api::ConnectionMigrationDenied,
    ) {
    }

    /// Called when the `HandshakeStatusUpdated` event is triggered
    fn on_handshake_status_updated(
        &mut self,
        context: &mut Self::ConnectionContext,
        meta: &api::ConnectionMeta,
        event: &api::HandshakeStatusUpdated,
    ) {
    }

    /// Called when the `TlsClientHello` event is triggered
    fn on_tls_client_hello(
        &mut self,
        context: &mut Self::ConnectionContext,
        meta: &api::ConnectionMeta,
        event: &api::TlsClientHello,
    ) {
    }

    /// Called when the `TlsServerHello` event is triggered
    fn on_tls_server_hello(
        &mut self,
        context: &mut Self::ConnectionContext,
        meta: &api::ConnectionMeta,
        event: &api::TlsServerHello,
    ) {
    }

    /// Called when the `VersionInformation` event is triggered
    fn on_version_information(
        &mut self,
        meta: &api::EndpointMeta,
        event: &api::VersionInformation,
    ) {
    }

    /// Called when the `EndpointPacketSent` event is triggered
    fn on_endpoint_packet_sent(
        &mut self,
        meta: &api::EndpointMeta,
        event: &api::EndpointPacketSent,
    ) {
    }

    /// Called when the `EndpointPacketReceived` event is triggered
    fn on_endpoint_packet_received(
        &mut self,
        meta: &api::EndpointMeta,
        event: &api::EndpointPacketReceived,
    ) {
    }

    /// Called when the `EndpointDatagramSent` event is triggered
    fn on_endpoint_datagram_sent(
        &mut self,
        meta: &api::EndpointMeta,
        event: &api::EndpointDatagramSent,
    ) {
    }

    /// Called when the `EndpointDatagramReceived` event is triggered
    fn on_endpoint_datagram_received(
        &mut self,
        meta: &api::EndpointMeta,
        event: &api::EndpointDatagramReceived,
    ) {
    }

    /// Called when the `EndpointDatagramDropped` event is triggered
    fn on_endpoint_datagram_dropped(
        &mut self,
        meta: &api::EndpointMeta,
        event: &api::EndpointDatagramDropped,
    ) {
    }

    /// Called when the `EndpointConnectionAttemptFailed` event is triggered
    fn on_endpoint_connection_attempt_failed(
        &mut self,
        meta: &api::EndpointMeta,
        event: &api::EndpointConnectionAttemptFailed,
    ) {
    }

    /// Called when the `PlatformTx` event is triggered
    fn on_platform_tx(
        &mut self,
        meta: &api::EndpointMeta,
        event: &api::PlatformTx,
    ) {
    }

    /// Called when the `PlatformTxError` event is triggered
    fn on_platform_tx_error(
        &mut self,
        meta: &api::EndpointMeta,
        event: &api::PlatformTxError,
    ) {
    }

    /// Called when the `PlatformRx` event is triggered
    fn on_platform_rx(
        &mut self,
        meta: &api::EndpointMeta,
        event: &api::PlatformRx,
    ) {
    }

    /// Called when the `PlatformRxError` event is triggered
    fn on_platform_rx_error(
        &mut self,
        meta: &api::EndpointMeta,
        event: &api::PlatformRxError,
    ) {
    }

    /// Called when the `PlatformFeatureConfigured` event is triggered
    fn on_platform_feature_configured(
        &mut self,
        meta: &api::EndpointMeta,
        event: &api::PlatformFeatureConfigured,
    ) {
    }

    /// Called when the `PlatformEventLoopWakeup` event is triggered
    fn on_platform_event_loop_wakeup(
        &mut self,
        meta: &api::EndpointMeta,
        event: &api::PlatformEventLoopWakeup,
    ) {
    }
}

/// Two subscribers receive every event, the first one first. The
/// supervision timeout is the earlier of the two, and the supervision
/// outcome the stronger of the two.
impl<A: Subscriber, B: Subscriber> Subscriber for (A, B) {
    type ConnectionContext = (A::ConnectionContext, B::ConnectionContext);

    fn create_connection_context(
        &mut self,
        meta: &api::ConnectionMeta,
        info: &api::ConnectionInfo,
    ) -> (c: Self::ConnectionContext)
        ensures
            exists|sa: &mut A, sb: &mut B|
                mut_ref_current(sa) == old(self).0 && mut_ref_future(sa) == final(self).0
                && mut_ref_current(sb) == old(self).1 && mut_ref_future(sb) == final(self).1
                && call_ensures(A::create_connection_context, (sa, meta, info), c.0)
                && call_ensures(B::create_connection_context, (sb, meta, info), c.1),
    {
        let a = self.0.create_connection_context(meta, info);
        let b = self.1.create_connection_context(meta, info);
        (a, b)
    }

    fn supervisor_timeout(
        &mut self,
        conn_context: &mut Self::ConnectionContext,
        meta: &api::ConnectionMeta,
        context: &supervisor::Context,
    ) -> (timeout: Option<Duration>)
        ensures
            exists|sa: &mut A, ca: &mut A::ConnectionContext, ta: Option<Duration>, sb: &mut B, cb: &mut B::ConnectionContext, tb: Option<Duration>|
                mut_ref_current(sa) == old(self).0 && mut_ref_future(sa) == final(self).0
                && mut_ref_current(ca) == old(conn_context).0 && mut_ref_future(ca) == final(conn_context).0
                && mut_ref_current(sb) == old(self).1 && mut_ref_future(sb) == final(self).1
                && mut_ref_current(cb) == old(conn_context).1 && mut_ref_future(cb) == final(conn_context).1
                && call_ensures(A::supervisor_timeout, (sa, ca, meta, context), ta)
                && call_ensures(B::supervisor_timeout, (sb, cb, meta, context), tb)
                && timeout == spec_combine_timeouts(ta, tb),
    {
        let timeout_a = self.0.supervisor_timeout(&mut conn_context.0, meta, context);
        let timeout_b = self.1.supervisor_timeout(&mut conn_context.1, meta, context);
        combine_timeouts(timeout_a, timeout_b)
    }

    fn on_supervisor_timeout(
        &mut self,
        conn_context: &mut Self::ConnectionContext,
        meta: &api::ConnectionMeta,
        context: &supervisor::Context,
    ) -> (outcome: supervisor::Outcome)
        ensures
            exists|sa: &mut A, ca: &mut A::ConnectionContext, oa: supervisor::Outcome, sb: &mut B, cb: &mut B::ConnectionContext, ob: supervisor::Outcome|
                mut_ref_current(sa) == old(self).0 && mut_ref_future(sa) == final(self).0
                && mut_ref_current(ca) == old(conn_context).0 && mut_ref_future(ca) == final(conn_context).0
                && mut_ref_current(sb) == old(self).1 && mut_ref_future(sb) == final(self).1
                && mut_ref_current(cb) == old(conn_context).1 && mut_ref_future(cb) == final(conn_context).1
                && call_ensures(A::on_supervisor_timeout, (sa, ca, meta, context), oa)
                && call_ensures(B::on_supervisor_timeout, (sb, cb, meta, context), ob)
                && outcome == spec_combine_outcomes(oa, ob),
    {
        let outcome_a = self.0.on_supervisor_timeout(&mut conn_context.0, meta, context);
        let outcome_b = self.1.on_supervisor_timeout(&mut conn_context.1, meta, context);
        combine_outcomes(outcome_a, outcome_b)
    }

    fn on_alpn_information(
        &mut self,
        context: &mut Self::ConnectionContext,
        meta: &api::ConnectionMeta,
        event: &api::AlpnInformation,
    )
        ensures
            exists|sa: &mut A, ca: &mut A::ConnectionContext, sb: &mut B, cb: &mut B::ConnectionContext|
                mut_ref_current(sa) == old(self).0 && mut_ref_future(sa) == final(self).0
                && mut_ref_current(sb) == old(self).1 && mut_ref_future(sb) == final(self).1
                && mut_ref_current(ca) == old(context).0 && mut_ref_future(ca) == final(context).0
                && mut_ref_current(cb) == old(context).1 && mut_ref_future(cb) == final(context).1
                && #[trigger] call_ensures(A::on_alpn_information, (sa, ca, meta, event), ())
                && #[trigger] call_ensures(B::on_alpn_information, (sb, cb, meta, event), ()),
    {
        self.0.on_alpn_information(&mut context.0, meta, event);
        self.1.on_alpn_information(&mut context.1, meta, event);
    }

    fn on_sni_information(
        &mut self,
        context: &mut Self::ConnectionContext,
        meta: &api::ConnectionMeta,
        event: &api::SniInformation,
    )
        ensures
            exists|sa: &mut A, ca: &mut A::ConnectionContext, sb: &mut B, cb: &mut B::ConnectionContext|
                mut_ref_current(sa) == old(self).0 && mut_ref_future(sa) == final(self).0
                && mut_ref_current(sb) == old(self).1 && mut_ref_future(sb) == final(self).1
                && mut_ref_current(ca) == old(context).0 && mut_ref_future(ca) == final(context).0
                && mut_ref_current(cb) == old(context).1 && mut_ref_future(cb) == final(context).1
                && #[trigger] call_ensures(A::on_sni_information, (sa, ca, meta, event), ())
                && #[trigger] call_ensures(B::on_sni_information, (sb, cb, meta, event), ()),
    {
        self.0.on_sni_information(&mut context.0, meta, event);
        self.1.on_sni_information(&mut context.1, meta, event);
    }

    fn on_packet_sent(
        &mut self,
        context: &mut Self::ConnectionContext,
        meta: &api::ConnectionMeta,
        event: &api::PacketSent,
    )
        ensures
            exists|sa: &mut A, ca: &mut A::ConnectionContext, sb: &mut B, cb: &mut B::ConnectionContext|
                mut_ref_current(sa) == old(self).0 && mut_ref_future(sa) == final(self).0
                && mut_ref_current(sb) == old(self).1 && mut_ref_future(sb) == final(self).1
                && mut_ref_current(ca) == old(context).0 && mut_ref_future(ca) == final(context).0
                && mut_ref_current(cb) == old(context).1 && mut_ref_future(cb) == final(context).1
                && #[trigger] call_ensures(A::on_packet_sent, (sa, ca, meta, event), ())
                && #[trigger] call_ensures(B::on_packet_sent, (sb, cb, meta, event), ()),
    {
        self.0.on_packet_sent(&mut context.0, meta, event);
        self.1.on_packet_sent(&mut context.1, meta, event);
    }

    fn on_packet_received(
        &mut self,
        context: &mut Self::ConnectionContext,
        meta: &api::ConnectionMeta,
        event: &api::PacketReceived,
    )
        ensures
            exists|sa: &mut A, ca: &mut A::ConnectionContext, sb: &mut B, cb: &mut B::ConnectionContext|
                mut_ref_current(sa) == old(self).0 && mut_ref_future(sa) == final(self).0
                && mut_ref_current(sb) == old(self).1 && mut_ref_future(sb) == final(self).1
                && mut_ref_current(ca) == old(context).0 && mut_ref_future(ca) == final(context).0
                && mut_ref_current(cb) == old(context).1 && mut_ref_future(cb) == final(context).1
                && #[trigger] call_ensures(A::on_packet_received, (sa, ca, meta, event), ())
                && #[trigger] call_ensures(B::on_packet_received, (sb, cb, meta, event), ()),
    {
        self.0.on_packet_received(&mut context.0, meta, event);
        self.1.on_packet_received(&mut context.1, meta, event);
    }

    fn on_active_path_updated(
        &mut self,
        context: &mut Self::ConnectionContext,
        meta: &api::ConnectionMeta,
        event: &api::ActivePathUpdated,
    )
        ensures
            exists|sa: &mut A, ca: &mut A::ConnectionContext, sb: &mut B, cb: &mut B::ConnectionContext|
                mut_ref_current(sa) == old(self).0 && mut_ref_future(sa) == final(self).0
                && mut_ref_current(sb) == old(self).1 && mut_ref_future(sb) == final(self).1
                && mut_ref_current(ca) == old(context).0 && mut_ref_future(ca) == final(context).0
                && mut_ref_current(cb) == old(context).1 && mut_ref_future(cb) == final(context).1
                && #[trigger] call_ensures(A::on_active_path_updated, (sa, ca, meta, event), ())
                && #[trigger] call_ensures(B::on_active_path_updated, (sb, cb, meta, event), ()),
    {
        self.0.on_active_path_updated(&mut context.0, meta, event);
        self.1.on_active_path_updated(&mut context.1, meta, event);
    }

    fn on_path_created(
        &mut self,
        context: &mut Self::ConnectionContext,
        meta: &api::ConnectionMeta,
        event: &api::PathCreated,
    )
        ensures
            exists|sa: &mut A, ca: &mut A::ConnectionContext, sb: &mut B, cb: &mut B::ConnectionContext|
                mut_ref_current(sa) == old(self).0 && mut_ref_future(sa) == final(self).0
                && mut_ref_current(sb) == old(self).1 && mut_ref_future(sb) == final(self).1
                && mut_ref_current(ca) == old(context).0 && mut_ref_future(ca) == final(context).0
                && mut_ref_current(cb) == old(context).1 && mut_ref_future(cb) == final(context).1
                && #[trigger] call_ensures(A::on_path_created, (sa, ca, meta, event), ())
                && #[trigger] call_ensures(B::on_path_created, (sb, cb, meta, event), ()),
    {
        self.0.on_path_created(&mut context.0, meta, event);
        self.1.on_path_created(&mut context.1, meta, event);
    }

    fn on_frame_sent(
        &mut self,
        context: &mut Self::ConnectionContext,
        meta: &api::ConnectionMeta,
        event: &api::FrameSent,
    )
        ensures
            exists|sa: &mut A, ca: &mut A::ConnectionContext, sb: &mut B, cb: &mut B::ConnectionContext|
                mut_ref_current(sa) == old(self).0 && mut_ref_future(sa) == final(self).0
                && mut_ref_current(sb) == old(self).1 && mut_ref_future(sb) == final(self).1
                && mut_ref_current(ca) == old(context).0 && mut_ref_future(ca) == final(context).0
                && mut_ref_current(cb) == old(context).1 && mut_ref_future(cb) == final(context).1
                && #[trigger] call_ensures(A::on_frame_sent, (sa, ca, meta, event), ())
                && #[trigger] call_ensures(B::on_frame_sent, (sb, cb, meta, event), ()),
    {
        self.0.on_frame_sent(&mut context.0, meta, event);
        self.1.on_frame_sent(&mut context.1, meta, event);
    }

    fn on_frame_received(
        &mut self,
        context: &mut Self::ConnectionContext,
        meta: &api::ConnectionMeta,
        event: &api::FrameReceived,
    )
        ensures
            exists|sa: &mut A, ca: &mut A::ConnectionContext, sb: &mut B, cb: &mut B::ConnectionContext|
                mut_ref_current(sa) == old(self).0 && mut_ref_future(sa) == final(self).0
                && mut_ref_current(sb) == old(self).1 && mut_ref_future(sb) == final(self).1
                && mut_ref_current(ca) == old(context).0 && mut_ref_future(ca) == final(context).0
                && mut_ref_current(cb) == old(context).1 && mut_ref_future(cb) == final(context).1
                && #[trigger] call_ensures(A::on_frame_received, (sa, ca, meta, event), ())
                && #[trigger] call_ensures(B::on_frame_received, (sb, cb, meta, event), ()),
    {
        self.0.on_frame_received(&mut context.0, meta, event);
        self.1.on_frame_received(&mut context.1, meta, event);
    }

    fn on_packet_lost(
        &mut self,
        context: &mut Self::ConnectionContext,
        meta: &api::ConnectionMeta,
        event: &api::PacketLost,
    )
        ensures
            exists|sa: &mut A, ca: &mut A::ConnectionContext, sb: &mut B, cb: &mut B::ConnectionContext|
                mut_ref_current(sa) == old(self).0 && mut_ref_future(sa) == final(self).0
                && mut_ref_current(sb) == old(self).1 && mut_ref_future(sb) == final(self).1
                && mut_ref_current(ca) == old(context).0 && mut_ref_future(ca) == final(context).0
                && mut_ref_current(cb) == old(context).1 && mut_ref_future(cb) == final(context).1
                && #[trigger] call_ensures(A::on_packet_lost, (sa, ca, meta, event), ())
                && #[trigger] call_ensures(B::on_packet_lost, (sb, cb, meta, event), ()),
    {
        self.0.on_packet_lost(&mut context.0, meta, event);
        self.1.on_packet_lost(&mut context.1, meta, event);
    }

    fn on_recovery_metrics(
        &mut self,
        context: &mut Self::ConnectionContext,
        meta: &api::ConnectionMeta,
        event: &api::RecoveryMetrics,
    )
        ensures
            exists|sa: &mut A, ca: &mut A::ConnectionContext, sb: &mut B, cb: &mut B::ConnectionContext|
                mut_ref_current(sa) == old(self).0 && mut_ref_future(sa) == final(self).0
                && mut_ref_current(sb) == old(self).1 && mut_ref_future(sb) == final(self).1
                && mut_ref_current(ca) == old(context).0 && mut_ref_future(ca) == final(context).0
                && mut_ref_current(cb) == old(context).1 && mut_ref_future(cb) == final(context).1
                && #[trigger] call_ensures(A::on_recovery_metrics, (sa, ca, meta, event), ())
                && #[trigger] call_ensures(B::on_recovery_metrics, (sb, cb, meta, event), ()),
    {
        self.0.on_recovery_metrics(&mut context.0, meta, event);
        self.1.on_recovery_metrics(&mut context.1, meta, event);
    }

    fn on_congestion(
        &mut self,
        context: &mut Self::ConnectionContext,
        meta: &api::ConnectionMeta,
        event: &api::Congestion,
    )
        ensures
            exists|sa: &mut A, ca: &mut A::ConnectionContext, sb: &mut B, cb: &mut B::ConnectionContext|
                mut_ref_current(sa) == old(self).0 && mut_ref_future(sa) == final(self).0
                && mut_ref_current(sb) == old(self).1 && mut_ref_future(sb) == final(self).1
                && mut_ref_current(ca) == old(context).0 && mut_ref_future(ca) == final(context).0
                && mut_ref_current(cb) == old(context).1 && mut_ref_future(cb) == final(context).1
                && #[trigger] call_ensures(A::on_congestion, (sa, ca, meta, event), ())
                && #[trigger] call_ensures(B::on_congestion, (sb, cb, meta, event), ()),
    {
        self.0.on_congestion(&mut context.0, meta, event);
        self.1.on_congestion(&mut context.1, meta, event);
    }

    fn on_packet_dropped(
        &mut self,
        context: &mut Self::ConnectionContext,
        meta: &api::ConnectionMeta,
        event: &api::PacketDropped,
    )
        ensures
            exists|sa: &mut A, ca: &mut A::ConnectionContext, sb: &mut B, cb: &mut B::ConnectionContext|
                mut_ref_current(sa) == old(self).0 && mut_ref_future(sa) == final(self).0
                && mut_ref_current(sb) == old(self).1 && mut_ref_future(sb) == final(self).1
                && mut_ref_current(ca) == old(context).0 && mut_ref_future(ca) == final(context).0
                && mut_ref_current(cb) == old(context).1 && mut_ref_future(cb) == final(context).1
                && #[trigger] call_ensures(A::on_packet_dropped, (sa, ca, meta, event), ())
                && #[trigger] call_ensures(B::on_packet_dropped, (sb, cb, meta, event), ()),
    {
        self.0.on_packet_dropped(&mut context.0, meta, event);
        self.1.on_packet_dropped(&mut context.1, meta, event);
    }

    fn on_key_update(
        &mut self,
        context: &mut Self::ConnectionContext,
        meta: &api::ConnectionMeta,
        event: &api::KeyUpdate,
    )
        ensures
            exists|sa: &mut A, ca: &mut A::ConnectionContext, sb: &mut B, cb: &mut B::ConnectionContext|
                mut_ref_current(sa) == old(self).0 && mut_ref_future(sa) == final(self).0
                && mut_ref_current(sb) == old(self).1 && mut_ref_future(sb) == final(self).1
                && mut_ref_current(ca) == old(context).0 && mut_ref_future(ca) == final(context).0
                && mut_ref_current(cb) == old(context).1 && mut_ref_future(cb) == final(context).1
                && #[trigger] call_ensures(A::on_key_update, (sa, ca, meta, event), ())
                && #[trigger] call_ensures(B::on_key_update, (sb, cb, meta, event), ()),
    {
        self.0.on_key_update(&mut context.0, meta, event);
        self.1.on_key_update(&mut context.1, meta, event);
    }

    fn on_key_space_discarded(
        &mut self,
        context: &mut Self::ConnectionContext,
        meta: &api::ConnectionMeta,
        event: &api::KeySpaceDiscarded,
    )
        ensures
            exists|sa: &mut A, ca: &mut A::ConnectionContext, sb: &mut B, cb: &mut B::ConnectionContext|
                mut_ref_current(sa) == old(self).0 && mut_ref_future(sa) == final(self).0
                && mut_ref_current(sb) == old(self).1 && mut_ref_future(sb) == final(self).1
                && mut_ref_current(ca) == old(context).0 && mut_ref_future(ca) == final(context).0
                && mut_ref_current(cb) == old(context).1 && mut_ref_future(cb) == final(context).1
                && #[trigger] call_ensures(A::on_key_space_discarded, (sa, ca, meta, event), ())
                && #[trigger] call_ensures(B::on_key_space_discarded, (sb, cb, meta, event), ()),
    {
        self.0.on_key_space_discarded(&mut context.0, meta, event);
        self.1.on_key_space_discarded(&mut context.1, meta, event);
    }

    fn on_connection_started(
        &mut self,
        context: &mut Self::ConnectionContext,
        meta: &api::ConnectionMeta,
        event: &api::ConnectionStarted,
    )
        ensures
            exists|sa: &mut A, ca: &mut A::ConnectionContext, sb: &mut B, cb: &mut B::ConnectionContext|
                mut_ref_current(sa) == old(self).0 && mut_ref_future(sa) == final(self).0
                && mut_ref_current(sb) == old(self).1 && mut_ref_future(sb) == final(self).1
                && mut_ref_current(ca) == old(context).0 && mut_ref_future(ca) == final(context).0
                && mut_ref_current(cb) == old(context).1 && mut_ref_future(cb) == final(context).1
                && #[trigger] call_ensures(A::on_connection_started, (sa, ca, meta, event), ())
                && #[trigger] call_ensures(B::on_connection_started, (sb, cb, meta, event), ()),
    {
        self.0.on_connection_started(&mut context.0, meta, event);
        self.1.on_connection_started(&mut context.1, meta, event);
    }

    fn on_connection_closed(
        &mut self,
        context: &mut Self::ConnectionContext,
        meta: &api::ConnectionMeta,
        event: &api::ConnectionClosed,
    )
        ensures
            exists|sa: &mut A, ca: &mut A::ConnectionContext, sb: &mut B, cb: &mut B::ConnectionContext|
                mut_ref_current(sa) == old(self).0 && mut_ref_future(sa) == final(self).0
                && mut_ref_current(sb) == old(self).1 && mut_ref_future(sb) == final(self).1
                && mut_ref_current(ca) == old(context).0 && mut_ref_future(ca) == final(context).0
                && mut_ref_current(cb) == old(context).1 && mut_ref_future(cb) == final(context).1
                && #[trigger] call_ensures(A::on_connection_closed, (sa, ca, meta, event), ())
                && #[trigger] call_ensures(B::on_connection_closed, (sb, cb, meta, event), ()),
    {
        self.0.on_connection_closed(&mut context.0, meta, event);
        self.1.on_connection_closed(&mut context.1, meta, event);
    }

    fn on_duplicate_packet(
        &mut self,
        context: &mut Self::ConnectionContext,
        meta: &api::ConnectionMeta,
        event: &api::DuplicatePacket,
    )
        ensures
            exists|sa: &mut A, ca: &mut A::ConnectionContext, sb: &mut B, cb: &mut B::ConnectionContext|
                mut_ref_current(sa) == old(self).0 && mut_ref_future(sa) == final(self).0
                && mut_ref_current(sb) == old(self).1 && mut_ref_future(sb) == final(self).1
                && mut_ref_current(ca) == old(context).0 && mut_ref_future(ca) == final(context).0
                && mut_ref_current(cb) == old(context).1 && mut_ref_future(cb) == final(context).1
                && #[trigger] call_ensures(A::on_duplicate_packet, (sa, ca, meta, event), ())
                && #[trigger] call_ensures(B::on_duplicate_packet, (sb, cb, meta, event), ()),
    {
        self.0.on_duplicate_packet(&mut context.0, meta, event);
        self.1.on_duplicate_packet(&mut context.1, meta, event);
    }

    fn on_transport_parameters_received(
        &mut self,
        context: &mut Self::ConnectionContext,
        meta: &api::ConnectionMeta,
        event: &api::TransportParametersReceived,
    )
        ensures
            exists|sa: &mut A, ca: &mut A::ConnectionContext, sb: &mut B, cb: &mut B::ConnectionContext|
                mut_ref_current(sa) == old(self).0 && mut_ref_future(sa) == final(self).0
                && mut_ref_current(sb) == old(self).1 && mut_ref_future(sb) == final(self).1
                && mut_ref_current(ca) == old(context).0 && mut_ref_future(ca) == final(context).0
                && mut_ref_current(cb) == old(context).1 && mut_ref_future(cb) == final(context).1
                && #[trigger] call_ensures(A::on_transport_parameters_received, (sa, ca, meta, event), ())
                && #[trigger] call_ensures(B::on_transport_parameters_received, (sb, cb, meta, event), ()),
    {
        self.0.on_transport_parameters_received(&mut context.0, meta, event);
        self.1.on_transport_parameters_received(&mut context.1, meta, event);
    }

    fn on_datagram_sent(
        &mut self,
        context: &mut Self::ConnectionContext,
        meta: &api::ConnectionMeta,
        event: &api::DatagramSent,
    )
        ensures
            exists|sa: &mut A, ca: &mut A::ConnectionContext, sb: &mut B, cb: &mut B::ConnectionContext|
                mut_ref_current(sa) == old(self).0 && mut_ref_future(sa) == final(self).0
                && mut_ref_current(sb) == old(self).1 && mut_ref_future(sb) == final(self).1
                && mut_ref_current(ca) == old(context).0 && mut_ref_future(ca) == final(context).0
                && mut_ref_current(cb) == old(context).1 && mut_ref_future(cb) == final(context).1
                && #[trigger] call_ensures(A::on_datagram_sent, (sa, ca, meta, event), ())
                && #[trigger] call_ensures(B::on_datagram_sent, (sb, cb, meta, event), ()),
    {
        self.0.on_datagram_sent(&mut context.0, meta, event);
        self.1.on_datagram_sent(&mut context.1, meta, event);
    }

    fn on_datagram_received(
        &mut self,
        context: &mut Self::ConnectionContext,
        meta: &api::ConnectionMeta,
        event: &api::DatagramReceived,
    )
        ensures
            exists|sa: &mut A, ca: &mut A::ConnectionContext, sb: &mut B, cb: &mut B::ConnectionContext|
                mut_ref_current(sa) == old(self).0 && mut_ref_future(sa) == final(self).0
                && mut_ref_current(sb) == old(self).1 && mut_ref_future(sb) == final(self).1
                && mut_ref_current(ca) == old(context).0 && mut_ref_future(ca) == final(context).0
                && mut_ref_current(cb) == old(context).1 && mut_ref_future(cb) == final(context).1
                && #[trigger] call_ensures(A::on_datagram_received, (sa, ca, meta, event), ())
                && #[trigger] call_ensures(B::on_datagram_received, (sb, cb, meta, event), ()),
    {
        self.0.on_datagram_received(&mut context.0, meta, event);
        self.1.on_datagram_received(&mut context.1, meta, event);
    }

    fn on_datagram_dropped(
        &mut self,
        context: &mut Self::ConnectionContext,
        meta: &api::ConnectionMeta,
        event: &api::DatagramDropped,
    )
        ensures
            exists|sa: &mut A, ca: &mut A::ConnectionContext, sb: &mut B, cb: &mut B::ConnectionContext|
                mut_ref_current(sa) == old(self).0 && mut_ref_future(sa) == final(self).0
                && mut_ref_current(sb) == old(self).1 && mut_ref_future(sb) == final(self).1
                && mut_ref_current(ca) == old(context).0 && mut_ref_future(ca) == final(context).0
                && mut_ref_current(cb) == old(context).1 && mut_ref_future(cb) == final(context).1
                && #[trigger] call_ensures(A::on_datagram_dropped, (sa, ca, meta, event), ())
                && #[trigger] call_ensures(B::on_datagram_dropped, (sb, cb, meta, event), ()),
    {
        self.0.on_datagram_dropped(&mut context.0, meta, event);
        self.1.on_datagram_dropped(&mut context.1, meta, event);
    }

    fn on_connection_id_updated(
        &mut self,
        context: &mut Self::ConnectionContext,
        meta: &api::ConnectionMeta,
        event: &api::ConnectionIdUpdated,
    )
        ensures
            exists|sa: &mut A, ca: &mut A::ConnectionContext, sb: &mut B, cb: &mut B::ConnectionContext|
                mut_ref_current(sa) == old(self).0 && mut_ref_future(sa) == final(self).0
                && mut_ref_current(sb) == old(self).1 && mut_ref_future(sb) == final(self).1
                && mut_ref_current(ca) == old(context).0 && mut_ref_future(ca) == final(context).0
                && mut_ref_current(cb) == old(context).1 && mut_ref_future(cb) == final(context).1
                && #[trigger] call_ensures(A::on_connection_id_updated, (sa, ca, meta, event), ())
                && #[trigger] call_ensures(B::on_connection_id_updated, (sb, cb, meta, event), ()),
    {
        self.0.on_connection_id_updated(&mut context.0, meta, event);
        self.1.on_connection_id_updated(&mut context.1, meta, event);
    }

    fn on_ecn_state_changed(
        &mut self,
        context: &mut Self::ConnectionContext,
        meta: &api::ConnectionMeta,
        event: &api::EcnStateChanged,
    )
        ensures
            exists|sa: &mut A, ca: &mut A::ConnectionContext, sb: &mut B, cb: &mut B::ConnectionContext|
                mut_ref_current(sa) == old(self).0 && mut_ref_future(sa) == final(self).0
                && mut_ref_current(sb) == old(self).1 && mut_ref_future(sb) == final(self).1
                && mut_ref_current(ca) == old(context).0 && mut_ref_future(ca) == final(context).0
                && mut_ref_current(cb) == old(context).1 && mut_ref_future(cb) == final(context).1
                && #[trigger] call_ensures(A::on_ecn_state_changed, (sa, ca, meta, event), ())
                && #[trigger] call_ensures(B::on_ecn_state_changed, (sb, cb, meta, event), ()),
    {
        self.0.on_ecn_state_changed(&mut context.0, meta, event);
        self.1.on_ecn_state_changed(&mut context.1, meta, event);
    }

    fn on_connection_migration_denied(
        &mut self,
        context: &mut Self::ConnectionContext,
        meta: &api::ConnectionMeta,
        event: &api::ConnectionMigrationDenied,
    )
        ensures
            exists|sa: &mut A, ca: &mut A::ConnectionContext, sb: &mut B, cb: &mut B::ConnectionContext|
                mut_ref_current(sa) == old(self).0 && mut_ref_future(sa) == final(self).0
                && mut_ref_current(sb) == old(self).1 && mut_ref_future(sb) == final(self).1
                && mut_ref_current(ca) == old(context).0 && mut_ref_future(ca) == final(context).0
                && mut_ref_current(cb) == old(context).1 && mut_ref_future(cb) == final(context).1
                && #[trigger] call_ensures(A::on_connection_migration_denied, (sa, ca, meta, event), ())
                && #[trigger] call_ensures(B::on_connection_migration_denied, (sb, cb, meta, event), ()),
    {
        self.0.on_connection_migration_denied(&mut context.0, meta, event);
        self.1.on_connection_migration_denied(&mut context.1, meta, event);
    }

    fn on_handshake_status_updated(
        &mut self,
        context: &mut Self::ConnectionContext,
        meta: &api::ConnectionMeta,
        event: &api::HandshakeStatusUpdated,
    )
        ensures
            exists|sa: &mut A, ca: &mut A::ConnectionContext, sb: &mut B, cb: &mut B::ConnectionContext|
                mut_ref_current(sa) == old(self).0 && mut_ref_future(sa) == final(self).0
                && mut_ref_current(sb) == old(self).1 && mut_ref_future(sb) == final(self).1
                && mut_ref_current(ca) == old(context).0 && mut_ref_future(ca) == final(context).0
                && mut_ref_current(cb) == old(context).1 && mut_ref_future(cb) == final(context).1
                && #[trigger] call_ensures(A::on_handshake_status_updated, (sa, ca, meta, event), ())
                && #[trigger] call_ensures(B::on_handshake_status_updated, (sb, cb, meta, event), ()),
    {
        self.0.on_handshake_status_updated(&mut context.0, meta, event);
        self.1.on_handshake_status_updated(&mut context.1, meta, event);
    }

    fn on_tls_client_hello(
        &mut self,
        context: &mut Self::ConnectionContext,
        meta: &api::ConnectionMeta,
        event: &api::TlsClientHello,
    )
        ensures
            exists|sa: &mut A, ca: &mut A::ConnectionContext, sb: &mut B, cb: &mut B::ConnectionContext|
                mut_ref_current(sa) == old(self).0 && mut_ref_future(sa) == final(self).0
                && mut_ref_current(sb) == old(self).1 && mut_ref_future(sb) == final(self).1
                && mut_ref_current(ca) == old(context).0 && mut_ref_future(ca) == final(context).0
                && mut_ref_current(cb) == old(context).1 && mut_ref_future(cb) == final(context).1
                && #[trigger] call_ensures(A::on_tls_client_hello, (sa, ca, meta, event), ())
                && #[trigger] call_ensures(B::on_tls_client_hello, (sb, cb, meta, event), ()),
    {
        self.0.on_tls_client_hello(&mut context.0, meta, event);
        self.1.on_tls_client_hello(&mut context.1, meta, event);
    }

    fn on_tls_server_hello(
        &mut self,
        context: &mut Self::ConnectionContext,
        meta: &api::ConnectionMeta,
        event: &api::TlsServerHello,
    )
        ensures
            exists|sa: &mut A, ca: &mut A::ConnectionContext, sb: &mut B, cb: &mut B::ConnectionContext|
                mut_ref_current(sa) == old(self).0 && mut_ref_future(sa) == final(self).0
                && mut_ref_current(sb) == old(self).1 && mut_ref_future(sb) == final(self).1
                && mut_ref_current(ca) == old(context).0 && mut_ref_future(ca) == final(context).0
                && mut_ref_current(cb) == old(context).1 && mut_ref_future(cb) == final(context).1
                && #[trigger] call_ensures(A::on_tls_server_hello, (sa, ca, meta, event), ())
                && #[trigger] call_ensures(B::on_tls_server_hello, (sb, cb, meta, event), ()),
    {
        self.0.on_tls_server_hello(&mut context.0, meta, event);
        self.1.on_tls_server_hello(&mut context.1, meta, event);
    }

    fn on_version_information(
        &mut self,
        meta: &api::EndpointMeta,
        event: &api::VersionInformation,
    )
        ensures
            exists|sa: &mut A, sb: &mut B|
                mut_ref_current(sa) == old(self).0 && mut_ref_future(sa) == final(self).0
                && mut_ref_current(sb) == old(self).1 && mut_ref_future(sb) == final(self).1
                && #[trigger] call_ensures(A::on_version_information, (sa, meta, event), ())
                && #[trigger] call_ensures(B::on_version_information, (sb, meta, event), ()),
    {
        self.0.on_version_information(meta, event);
        self.1.on_version_information(meta, event);
    }

    fn on_endpoint_packet_sent(
        &mut self,
        meta: &api::EndpointMeta,
        event: &api::EndpointPacketSent,
    )
        ensures
            exists|sa: &mut A, sb: &mut B|
                mut_ref_current(sa) == old(self).0 && mut_ref_future(sa) == final(self).0
                && mut_ref_current(sb) == old(self).1 && mut_ref_future(sb) == final(self).1
                && #[trigger] call_ensures(A::on_endpoint_packet_sent, (sa, meta, event), ())
                && #[trigger] call_ensures(B::on_endpoint_packet_sent, (sb, meta, event), ()),
    {
        self.0.on_endpoint_packet_sent(meta, event);
        self.1.on_endpoint_packet_sent(meta, event);
    }

    fn on_endpoint_packet_received(
        &mut self,
        meta: &api::EndpointMeta,
        event: &api::EndpointPacketReceived,
    )
        ensures
            exists|sa: &mut A, sb: &mut B|
                mut_ref_current(sa) == old(self).0 && mut_ref_future(sa) == final(self).0
                && mut_ref_current(sb) == old(self).1 && mut_ref_future(sb) == final(self).1
                && #[trigger] call_ensures(A::on_endpoint_packet_received, (sa, meta, event), ())
                && #[trigger] call_ensures(B::on_endpoint_packet_received, (sb, meta, event), ()),
    {
        self.0.on_endpoint_packet_received(meta, event);
        self.1.on_endpoint_packet_received(meta, event);
    }

    fn on_endpoint_datagram_sent(
        &mut self,
        meta: &api::EndpointMeta,
        event: &api::EndpointDatagramSent,
    )
        ensures
            exists|sa: &mut A, sb: &mut B|
                mut_ref_current(sa) == old(self).0 && mut_ref_future(sa) == final(self).0
                && mut_ref_current(sb) == old(self).1 && mut_ref_future(sb) == final(self).1
                && #[trigger] call_ensures(A::on_endpoint_datagram_sent, (sa, meta, event), ())
                && #[trigger] call_ensures(B::on_endpoint_datagram_sent, (sb, meta, event), ()),
    {
        self.0.on_endpoint_datagram_sent(meta, event);
        self.1.on_endpoint_datagram_sent(meta, event);
    }

    fn on_endpoint_datagram_received(
        &mut self,
        meta: &api::EndpointMeta,
        event: &api::EndpointDatagramReceived,
    )
        ensures
            exists|sa: &mut A, sb: &mut B|
                mut_ref_current(sa) == old(self).0 && mut_ref_future(sa) == final(self).0
                && mut_ref_current(sb) == old(self).1 && mut_ref_future(sb) == final(self).1
                && #[trigger] call_ensures(A::on_endpoint_datagram_received, (sa, meta, event), ())
                && #[trigger] call_ensures(B::on_endpoint_datagram_received, (sb, meta, event), ()),
    {
        self.0.on_endpoint_datagram_received(meta, event);
        self.1.on_endpoint_datagram_received(meta, event);
    }

    fn on_endpoint_datagram_dropped(
        &mut self,
        meta: &api::EndpointMeta,
        event: &api::EndpointDatagramDropped,
    )
        ensures
            exists|sa: &mut A, sb: &mut B|
                mut_ref_current(sa) == old(self).0 && mut_ref_future(sa) == final(self).0
                && mut_ref_current(sb) == old(self).1 && mut_ref_future(sb) == final(self).1
                && #[trigger] call_ensures(A::on_endpoint_datagram_dropped, (sa, meta, event), ())
                && #[trigger] call_ensures(B::on_endpoint_datagram_dropped, (sb, meta, event), ()),
    {
        self.0.on_endpoint_datagram_dropped(meta, event);
        self.1.on_endpoint_datagram_dropped(meta, event);
    }

    fn on_endpoint_connection_attempt_failed(
        &mut self,
        meta: &api::EndpointMeta,
        event: &api::EndpointConnectionAttemptFailed,
    )
        ensures
            exists|sa: &mut A, sb: &mut B|
                mut_ref_current(sa) == old(self).0 && mut_ref_future(sa) == final(self).0
                && mut_ref_current(sb) == old(self).1 && mut_ref_future(sb) == final(self).1
                && #[trigger] call_ensures(A::on_endpoint_connection_attempt_failed, (sa, meta, event), ())
                && #[trigger] call_ensures(B::on_endpoint_connection_attempt_failed, (sb, meta, event), ()),
    {
        self.0.on_endpoint_connection_attempt_failed(meta, event);
        self.1.on_endpoint_connection_attempt_failed(meta, event);
    }

    fn on_platform_tx(
        &mut self,
        meta: &api::EndpointMeta,
        event: &api::PlatformTx,
    )
        ensures
            exists|sa: &mut A, sb: &mut B|
                mut_ref_current(sa) == old(self).0 && mut_ref_future(sa) == final(self).0
                && mut_ref_current(sb) == old(self).1 && mut_ref_future(sb) == final(self).1
                && #[trigger] call_ensures(A::on_platform_tx, (sa, meta, event), ())
                && #[trigger] call_ensures(B::on_platform_tx, (sb, meta, event), ()),
    {
        self.0.on_platform_tx(meta, event);
        self.1.on_platform_tx(meta, event);
    }

    fn on_platform_tx_error(
        &mut self,
        meta: &api::EndpointMeta,
        event: &api::PlatformTxError,
    )
        ensures
            exists|sa: &mut A, sb: &mut B|
                mut_ref_current(sa) == old(self).0 && mut_ref_future(sa) == final(self).0
                && mut_ref_current(sb) == old(self).1 && mut_ref_future(sb) == final(self).1
                && #[trigger] call_ensures(A::on_platform_tx_error, (sa, meta, event), ())
                && #[trigger] call_ensures(B::on_platform_tx_error, (sb, meta, event), ()),
    {
        self.0.on_platform_tx_error(meta, event);
        self.1.on_platform_tx_error(meta, event);
    }

    fn on_platform_rx(
        &mut self,
        meta: &api::EndpointMeta,
        event: &api::PlatformRx,
    )
        ensures
            exists|sa: &mut A, sb: &mut B|
                mut_ref_current(sa) == old(self).0 && mut_ref_future(sa) == final(self).0
                && mut_ref_current(sb) == old(self).1 && mut_ref_future(sb) == final(self).1
                && #[trigger] call_ensures(A::on_platform_rx, (sa, meta, event), ())
                && #[trigger] call_ensures(B::on_platform_rx, (sb, meta, event), ()),
    {
        self.0.on_platform_rx(meta, event);
        self.1.on_platform_rx(meta, event);
    }

    fn on_platform_rx_error(
        &mut self,
        meta: &api::EndpointMeta,
        event: &api::PlatformRxError,
    )
        ensures
            exists|sa: &mut A, sb: &mut B|
                mut_ref_current(sa) == old(self).0 && mut_ref_future(sa) == final(self).0
                && mut_ref_current(sb) == old(self).1 && mut_ref_future(sb) == final(self).1
                && #[trigger] call_ensures(A::on_platform_rx_error, (sa, meta, event), ())
                && #[trigger] call_ensures(B::on_platform_rx_error, (sb, meta, event), ()),
    {
        self.0.on_platform_rx_error(meta, event);
        self.1.on_platform_rx_error(meta, event);
    }

    fn on_platform_feature_configured(
        &mut self,
        meta: &api::EndpointMeta,
        event: &api::PlatformFeatureConfigured,
    )
        ensures
            exists|sa: &mut A, sb: &mut B|
                mut_ref_current(sa) == old(self).0 && mut_ref_future(sa) == final(self).0
                && mut_ref_current(sb) == old(self).1 && mut_ref_future(sb) == final(self).1
                && #[trigger] call_ensures(A::on_platform_feature_configured, (sa, meta, event), ())
                && #[trigger] call_ensures(B::on_platform_feature_configured, (sb, meta, event), ()),
    {
        self.0.on_platform_feature_configured(meta, event);
        self.1.on_platform_feature_configured(meta, event);
    }

    fn on_platform_event_loop_wakeup(
        &mut self,
        meta: &api::EndpointMeta,
        event: &api::PlatformEventLoopWakeup,
    )
        ensures
            exists|sa: &mut A, sb: &mut B|
                mut_ref_current(sa) == old(self).0 && mut_ref_future(sa) == final(self).0
                && mut_ref_current(sb) == old(self).1 && mut_ref_future(sb) == final(self).1
                && #[trigger] call_ensures(A::on_platform_event_loop_wakeup, (sa, meta, event), ())
                && #[trigger] call_ensures(B::on_platform_event_loop_wakeup, (sb, meta, event), ()),
    {
        self.0.on_platform_event_loop_wakeup(meta, event);
        self.1.on_platform_event_loop_wakeup(meta, event);
    }
}

} // verus!
