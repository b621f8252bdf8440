//! What every event carries about its origin, and the interfaces through
//! which an endpoint publishes its events.
use super::{api, builder};
use vstd::prelude::*;

verus! {

/// The facts that every event's metadata carries.
pub trait Meta {
    fn endpoint_type(&self) -> &api::EndpointType;

    fn subject(&self) -> api::Subject;

    fn timestamp(&self) -> &crate::time::Timestamp;
}

impl Meta for api::ConnectionMeta {
    fn endpoint_type(&self) -> (r: &api::EndpointType)
        ensures
            *r == self.endpoint_type,
    {
        &self.endpoint_type
    }

    /// The connection that the event is about.
    fn subject(&self) -> (r: api::Subject)
        ensures
            r == (api::Subject::Connection { id: self.id }),
    {
        api::Subject::Connection { id: self.id }
    }

    fn timestamp(&self) -> (r: &crate::time::Timestamp)
        ensures
            *r == self.timestamp,
    {
        &self.timestamp
    }
}

impl Meta for api::EndpointMeta {
    fn endpoint_type(&self) -> (r: &api::EndpointType)
        ensures
            *r == self.endpoint_type,
    {
        &self.endpoint_type
    }

    /// The endpoint as a whole.
    fn subject(&self) -> (r: api::Subject)
        ensures
            r == (api::Subject::Endpoint {}),
    {
        api::Subject::Endpoint {}
    }

    fn timestamp(&self) -> (r: &crate::time::Timestamp)
        ensures
            *r == self.timestamp,
    {
        &self.timestamp
    }
}

pub trait EndpointPublisher {
    /// Publishes a `VersionInformation` event to the publisher's subscriber
    fn on_version_information(&mut self, event: builder::VersionInformation);

    /// Publishes a `EndpointPacketSent` event to the publisher's subscriber
    fn on_endpoint_packet_sent(&mut self, event: builder::EndpointPacketSent);

    /// Publishes a `EndpointPacketReceived` event to the publisher's subscriber
    fn on_endpoint_packet_received(&mut self, event: builder::EndpointPacketReceived);

    /// Publishes a `EndpointDatagramSent` event to the publisher's subscriber
    fn on_endpoint_datagram_sent(&mut self, event: builder::EndpointDatagramSent);

    /// Publishes a `EndpointDatagramReceived` event to the publisher's subscriber
    fn on_endpoint_datagram_received(&mut self, event: builder::EndpointDatagramReceived);

    /// Publishes a `EndpointDatagramDropped` event to the publisher's subscriber
    fn on_endpoint_datagram_dropped(&mut self, event: builder::EndpointDatagramDropped);

    /// Publishes a `EndpointConnectionAttemptFailed` event to the publisher's subscriber
    fn on_endpoint_connection_attempt_failed(&mut self, event: builder::EndpointConnectionAttemptFailed);

    /// Publishes a `PlatformTx` event to the publisher's subscriber
    fn on_platform_tx(&mut self, event: builder::PlatformTx);

    /// Publishes a `PlatformTxError` event to the publisher's subscriber
    fn on_platform_tx_error(&mut self, event: builder::PlatformTxError);

    /// Publishes a `PlatformRx` event to the publisher's subscriber
    fn on_platform_rx(&mut self, event: builder::PlatformRx);

    /// Publishes a `PlatformRxError` event to the publisher's subscriber
    fn on_platform_rx_error(&mut self, event: builder::PlatformRxError);

    /// Publishes a `PlatformFeatureConfigured` event to the publisher's subscriber
    fn on_platform_feature_configured(&mut self, event: builder::PlatformFeatureConfigured);

    /// Publishes a `PlatformEventLoopWakeup` event to the publisher's subscriber
    fn on_platform_event_loop_wakeup(&mut self, event: builder::PlatformEventLoopWakeup);

    /// Returns the QUIC version, if any
    fn quic_version(&self) -> Option<u32>;
}

pub trait ConnectionPublisher {
    /// Publishes a `AlpnInformation` event to the publisher's subscriber
    fn on_alpn_information(&mut self, event: builder::AlpnInformation);

    /// Publishes a `SniInformation` event to the publisher's subscriber
    fn on_sni_information(&mut self, event: builder::SniInformation);

    /// Publishes a `PacketSent` event to the publisher's subscriber
    fn on_packet_sent(&mut self, event: builder::PacketSent);

    /// Publishes a `PacketReceived` event to the publisher's subscriber
    fn on_packet_received(&mut self, event: builder::PacketReceived);

    /// Publishes a `ActivePathUpdated` event to the publisher's subscriber
    fn on_active_path_updated(&mut self, event: builder::ActivePathUpdated);

    /// Publishes a `PathCreated` event to the publisher's subscriber
    fn on_path_created(&mut self, event: builder::PathCreated);

    /// Publishes a `FrameSent` event to the publisher's subscriber
    fn on_frame_sent(&mut self, event: builder::FrameSent);

    /// Publishes a `FrameReceived` event to the publisher's subscriber
    fn on_frame_received(&mut self, event: builder::FrameReceived);

    /// Publishes a `PacketLost` event to the publisher's subscriber
    fn on_packet_lost(&mut self, event: builder::PacketLost);

    /// Publishes a `RecoveryMetrics` event to the publisher's subscriber
    fn on_recovery_metrics(&mut self, event: builder::RecoveryMetrics);

    /// Publishes a `Congestion` event to the publisher's subscriber
    fn on_congestion(&mut self, event: builder::Congestion);

    /// Publishes a `PacketDropped` event to the publisher's subscriber
    fn on_packet_dropped(&mut self, event: builder::PacketDropped);

    /// Publishes a `KeyUpdate` event to the publisher's subscriber
    fn on_key_update(&mut self, event: builder::KeyUpdate);

    /// Publishes a `KeySpaceDiscarded` event to the publisher's subscriber
    fn on_key_space_discarded(&mut self, event: builder::KeySpaceDiscarded);

    /// Publishes a `ConnectionStarted` event to the publisher's subscriber
    fn on_connection_started(&mut self, event: builder::ConnectionStarted);

    /// Publishes a `ConnectionClosed` event to the publisher's subscriber
    fn on_connection_closed(&mut self, event: builder::ConnectionClosed);

    /// Publishes a `DuplicatePacket` event to the publisher's subscriber
    fn on_duplicate_packet(&mut self, event: builder::DuplicatePacket);

    /// Publishes a `TransportParametersReceived` event to the publisher's subscriber
    fn on_transport_parameters_received(&mut self, event: builder::TransportParametersReceived);

    /// Publishes a `DatagramSent` event to the publisher's subscriber
    fn on_datagram_sent(&mut self, event: builder::DatagramSent);

    /// Publishes a `DatagramReceived` event to the publisher's subscriber
    fn on_datagram_received(&mut self, event: builder::DatagramReceived);

    /// Publishes a `DatagramDropped` event to the publisher's subscriber
    fn on_datagram_dropped(&mut self, event: builder::DatagramDropped);

    /// Publishes a `ConnectionIdUpdated` event to the publisher's subscriber
    fn on_connection_id_updated(&mut self, event: builder::ConnectionIdUpdated);

    /// Publishes a `EcnStateChanged` event to the publisher's subscriber
    fn on_ecn_state_changed(&mut self, event: builder::EcnStateChanged);

    /// Publishes a `ConnectionMigrationDenied` event to the publisher's subscriber
    fn on_connection_migration_denied(&mut self, event: builder::ConnectionMigrationDenied);

    /// Publishes a `HandshakeStatusUpdated` event to the publisher's subscriber
    fn on_handshake_status_updated(&mut self, event: builder::HandshakeStatusUpdated);

    /// Publishes a `TlsClientHello` event to the publisher's subscriber
    fn on_tls_client_hello(&mut self, event: builder::TlsClientHello);

    /// Publishes a `TlsServerHello` event to the publisher's subscriber
    fn on_tls_server_hello(&mut self, event: builder::TlsServerHello);

    /// Returns the QUIC version negotiated for the current connection, if any
    fn quic_version(&self) -> u32;
}

} // verus!
