//! The events and their parts, as subscribers receive them.
use vstd::prelude::*;

verus! {

#[derive(Clone, Debug)]
#[non_exhaustive]
pub struct ConnectionMeta {
    pub endpoint_type: EndpointType,
    pub id: u64,
    pub timestamp: crate::time::Timestamp,
}

#[derive(Clone, Debug)]
#[non_exhaustive]
pub struct EndpointMeta {
    pub endpoint_type: EndpointType,
    pub timestamp: crate::time::Timestamp,
}

#[derive(Clone, Debug)]
#[non_exhaustive]
pub struct ConnectionInfo {}

#[derive(Debug)]
#[non_exhaustive]
pub struct TransportParameters<'a> {
    pub original_destination_connection_id: Option<ConnectionId<'a>>,
    pub initial_source_connection_id: Option<ConnectionId<'a>>,
    pub retry_source_connection_id: Option<ConnectionId<'a>>,
    pub stateless_reset_token: Option<&'a [u8]>,
    pub preferred_address: Option<PreferredAddress<'a>>,
    pub migration_support: bool,
    pub max_idle_timeout: core::time::Duration,
    pub ack_delay_exponent: u8,
    pub max_ack_delay: core::time::Duration,
    pub max_udp_payload_size: u64,
    pub active_connection_id_limit: u64,
    pub initial_max_stream_data_bidi_local: u64,
    pub initial_max_stream_data_bidi_remote: u64,
    pub initial_max_stream_data_uni: u64,
    pub initial_max_streams_bidi: u64,
    pub initial_max_streams_uni: u64,
}

#[derive(Clone, Debug)]
#[non_exhaustive]
pub struct PreferredAddress<'a> {
    pub ipv4_address: Option<SocketAddress<'a>>,
    pub ipv6_address: Option<SocketAddress<'a>>,
    pub connection_id: ConnectionId<'a>,
    pub stateless_reset_token: &'a [u8],
}

#[derive(Clone, Debug)]
#[non_exhaustive]
pub struct Path<'a> {
    pub local_addr: SocketAddress<'a>,
    pub local_cid: ConnectionId<'a>,
    pub remote_addr: SocketAddress<'a>,
    pub remote_cid: ConnectionId<'a>,
    pub id: u64,
    pub is_active: bool,
}

#[derive(Clone, Debug)]
#[non_exhaustive]
pub struct ConnectionId<'a> {
    pub bytes: &'a [u8],
}

#[derive(Clone, Debug)]
#[non_exhaustive]
pub enum SocketAddress<'a> {
    #[non_exhaustive]
    IpV4 {
        ip: &'a [u8; 4],
        port: u16,
    },
    #[non_exhaustive]
    IpV6 {
        ip: &'a [u8; 16],
        port: u16,
    },
}

#[derive(Clone, Debug)]
#[non_exhaustive]
pub enum DuplicatePacketError {
    #[non_exhaustive]
    Duplicate {},
    #[non_exhaustive]
    TooOld {},
}

#[derive(Clone, Debug)]
#[non_exhaustive]
pub enum Frame {
    #[non_exhaustive]
    Padding {},
    #[non_exhaustive]
    Ping {},
    #[non_exhaustive]
    Ack {},
    #[non_exhaustive]
    ResetStream {},
    #[non_exhaustive]
    StopSending {},
    #[non_exhaustive]
    Crypto {
        offset: u64,
        len: u16,
    },
    #[non_exhaustive]
    NewToken {},
    #[non_exhaustive]
    Stream {
        id: u64,
        offset: u64,
        len: u16,
        is_fin: bool,
    },
    #[non_exhaustive]
    MaxData {},
    #[non_exhaustive]
    MaxStreamData {},
    #[non_exhaustive]
    MaxStreams {
        stream_type: StreamType,
    },
    #[non_exhaustive]
    DataBlocked {},
    #[non_exhaustive]
    StreamDataBlocked {},
    #[non_exhaustive]
    StreamsBlocked {
        stream_type: StreamType,
    },
    #[non_exhaustive]
    NewConnectionId {},
    #[non_exhaustive]
    RetireConnectionId {},
    #[non_exhaustive]
    PathChallenge {},
    #[non_exhaustive]
    PathResponse {},
    #[non_exhaustive]
    ConnectionClose {},
    #[non_exhaustive]
    HandshakeDone {},
}

#[derive(Clone, Debug)]
#[non_exhaustive]
pub enum StreamType {
    #[non_exhaustive]
    Bidirectional {},
    #[non_exhaustive]
    Unidirectional {},
}

#[derive(Clone, Debug)]
#[non_exhaustive]
pub enum PacketHeader {
    #[non_exhaustive]
    Initial {
        number: u64,
        version: u32,
    },
    #[non_exhaustive]
    Handshake {
        number: u64,
        version: u32,
    },
    #[non_exhaustive]
    ZeroRtt {
        number: u64,
        version: u32,
    },
    #[non_exhaustive]
    OneRtt {
        number: u64,
    },
    #[non_exhaustive]
    Retry {
        version: u32,
    },
    #[non_exhaustive]
    VersionNegotiation {},
    #[non_exhaustive]
    StatelessReset {},
}

#[derive(Clone, Debug)]
#[non_exhaustive]
pub enum KeyType {
    #[non_exhaustive]
    Initial {},
    #[non_exhaustive]
    Handshake {},
    #[non_exhaustive]
    ZeroRtt {},
    #[non_exhaustive]
    OneRtt {
        generation: u16,
    },
}

/// A context from which the event is being emitted
///
/// An event can occur in the context of an Endpoint or Connection
#[derive(Clone, Debug)]
#[non_exhaustive]
pub enum Subject {
    #[non_exhaustive]
    Endpoint {},
    #[non_exhaustive]
    Connection {
        id: u64,
    },
}

/// Used to disambiguate events that can occur for the local or the remote endpoint.
#[derive(Clone, Debug)]
#[non_exhaustive]
pub enum Location {
    #[non_exhaustive]
    Local {},
    #[non_exhaustive]
    Remote {},
}

#[derive(Clone, Debug)]
pub enum EndpointType {
    #[non_exhaustive]
    Server {},
    #[non_exhaustive]
    Client {},
}

#[derive(Clone, Debug)]
#[non_exhaustive]
pub enum DatagramDropReason {
    #[non_exhaustive]
    DecodingFailed {},
    #[non_exhaustive]
    InvalidRetryToken {},
    #[non_exhaustive]
    UnsupportedVersion {},
    #[non_exhaustive]
    InvalidDestinationConnectionId {},
    #[non_exhaustive]
    InvalidSourceConnectionId {},
    #[non_exhaustive]
    UnknownDestinationConnectionId {},
    #[non_exhaustive]
    RejectedConnectionAttempt {},
}

#[derive(Clone, Debug)]
#[non_exhaustive]
pub enum KeySpace {
    #[non_exhaustive]
    Initial {},
    #[non_exhaustive]
    Handshake {},
    #[non_exhaustive]
    ZeroRtt {},
    #[non_exhaustive]
    OneRtt {},
}

#[derive(Clone, Debug)]
#[non_exhaustive]
pub enum PacketDropReason<'a> {
    #[non_exhaustive]
    ConnectionError {
        path: Path<'a>,
    },
    #[non_exhaustive]
    HandshakeNotComplete {
        path: Path<'a>,
    },
    #[non_exhaustive]
    VersionMismatch {
        version: u32,
        path: Path<'a>,
    },
    #[non_exhaustive]
    ConnectionIdMismatch {
        packet_cid: &'a [u8],
        path: Path<'a>,
    },
    #[non_exhaustive]
    UnprotectFailed {
        space: KeySpace,
        path: Path<'a>,
    },
    #[non_exhaustive]
    DecryptionFailed {
        path: Path<'a>,
        packet_header: PacketHeader,
    },
    #[non_exhaustive]
    DecodingFailed {
        path: Path<'a>,
    },
    #[non_exhaustive]
    NonEmptyRetryToken {
        path: Path<'a>,
    },
    #[non_exhaustive]
    RetryDiscarded {
        reason: RetryDiscardReason<'a>,
        path: Path<'a>,
    },
}

#[derive(Clone, Debug)]
#[non_exhaustive]
pub enum RetryDiscardReason<'a> {
    #[non_exhaustive]
    ScidEqualsDcid {
        cid: &'a [u8],
    },
    #[non_exhaustive]
    RetryAlreadyProcessed {},
    #[non_exhaustive]
    InitialAlreadyProcessed {},
    #[non_exhaustive]
    InvalidIntegrityTag {},
}

#[derive(Clone, Debug)]
#[non_exhaustive]
pub enum MigrationDenyReason {
    #[non_exhaustive]
    PortScopeChanged {},
    #[non_exhaustive]
    IpScopeChange {},
    #[non_exhaustive]
    ConnectionMigrationDisabled {},
}

/// The current state of the ECN controller for the path
#[derive(Clone, Debug)]
#[non_exhaustive]
pub enum EcnState {
    #[non_exhaustive]
    Testing {},
    #[non_exhaustive]
    Unknown {},
    #[non_exhaustive]
    Failed {},
    #[non_exhaustive]
    Capable {},
}

/// Events tracking the progress of handshake status
#[derive(Clone, Debug)]
#[non_exhaustive]
pub enum HandshakeStatus {
    #[non_exhaustive]
    Complete {},
    #[non_exhaustive]
    Confirmed {},
    #[non_exhaustive]
    HandshakeDoneAcked {},
    #[non_exhaustive]
    HandshakeDoneLost {},
}

/// The source that caused a congestion event
#[derive(Clone, Debug)]
#[non_exhaustive]
pub enum CongestionSource {
    #[non_exhaustive]
    Ecn {},
    #[non_exhaustive]
    PacketLoss {},
}

#[derive(Clone, Debug)]
#[non_exhaustive]
#[allow(non_camel_case_types)]
pub enum CipherSuite {
    #[non_exhaustive]
    TLS_AES_128_GCM_SHA256 {},
    #[non_exhaustive]
    TLS_AES_256_GCM_SHA384 {},
    #[non_exhaustive]
    TLS_CHACHA20_POLY1305_SHA256 {},
    #[non_exhaustive]
    Unknown {},
}

/// Application level protocol
#[derive(Clone, Debug)]
#[non_exhaustive]
pub struct AlpnInformation<'a> {
    pub chosen_alpn: &'a [u8],
}

/// Server Name Indication
#[derive(Clone, Debug)]
#[non_exhaustive]
pub struct SniInformation<'a> {
    pub chosen_sni: &'a str,
}

/// Packet was sent by a connection
#[derive(Clone, Debug)]
#[non_exhaustive]
pub struct PacketSent {
    pub packet_header: PacketHeader,
}

/// Packet was received by a connection
#[derive(Clone, Debug)]
#[non_exhaustive]
pub struct PacketReceived {
    pub packet_header: PacketHeader,
}

/// Active path was updated
#[derive(Clone, Debug)]
#[non_exhaustive]
pub struct ActivePathUpdated<'a> {
    pub previous: Path<'a>,
    pub active: Path<'a>,
}

/// A new path was created
#[derive(Clone, Debug)]
#[non_exhaustive]
pub struct PathCreated<'a> {
    pub active: Path<'a>,
    pub new: Path<'a>,
}

/// Frame was sent
#[derive(Clone, Debug)]
#[non_exhaustive]
pub struct FrameSent {
    pub packet_header: PacketHeader,
    pub path_id: u64,
    pub frame: Frame,
}

/// Frame was received
#[derive(Clone, Debug)]
#[non_exhaustive]
pub struct FrameReceived<'a> {
    pub packet_header: PacketHeader,
    pub path: Path<'a>,
    pub frame: Frame,
}

/// Packet was lost
#[derive(Clone, Debug)]
#[non_exhaustive]
pub struct PacketLost<'a> {
    pub packet_header: PacketHeader,
    pub path: Path<'a>,
    pub bytes_lost: u16,
    pub is_mtu_probe: bool,
}

/// Recovery metrics updated
#[derive(Debug)]
#[non_exhaustive]
pub struct RecoveryMetrics<'a> {
    pub path: Path<'a>,
    pub min_rtt: core::time::Duration,
    pub smoothed_rtt: core::time::Duration,
    pub latest_rtt: core::time::Duration,
    pub rtt_variance: core::time::Duration,
    pub max_ack_delay: core::time::Duration,
    pub pto_count: u32,
    pub congestion_window: u32,
    pub bytes_in_flight: u32,
}

/// Congestion (ECN or packet loss) has occurred
#[derive(Clone, Debug)]
#[non_exhaustive]
pub struct Congestion<'a> {
    pub path: Path<'a>,
    pub source: CongestionSource,
}

/// Packet was dropped with the given reason
#[derive(Clone, Debug)]
#[non_exhaustive]
pub struct PacketDropped<'a> {
    pub reason: PacketDropReason<'a>,
}

/// Crypto key updated
#[derive(Clone, Debug)]
#[non_exhaustive]
pub struct KeyUpdate {
    pub key_type: KeyType,
    pub cipher_suite: CipherSuite,
}

#[derive(Clone, Debug)]
#[non_exhaustive]
pub struct KeySpaceDiscarded {
    pub space: KeySpace,
}

/// Connection started
#[derive(Clone, Debug)]
#[non_exhaustive]
pub struct ConnectionStarted<'a> {
    pub path: Path<'a>,
}

/// Connection closed
#[derive(Clone, Debug)]
#[non_exhaustive]
pub struct ConnectionClosed {
    pub error: crate::connection::Error,
}

/// Duplicate packet received
#[derive(Clone, Debug)]
#[non_exhaustive]
pub struct DuplicatePacket<'a> {
    pub packet_header: PacketHeader,
    pub path: Path<'a>,
    pub error: DuplicatePacketError,
}

/// Transport parameters received by connection
#[derive(Debug)]
#[non_exhaustive]
pub struct TransportParametersReceived<'a> {
    pub transport_parameters: TransportParameters<'a>,
}

/// Datagram sent by a connection
#[derive(Clone, Debug)]
#[non_exhaustive]
pub struct DatagramSent {
    pub len: u16,
    /// The GSO offset at which this datagram was written
    ///
    /// If this value is greater than 0, it indicates that this datagram has been sent with other
    /// segments in a single buffer.
    ///
    /// See the [Linux kernel documentation](https://www.kernel.org/doc/html/latest/networking/segmentation-offloads.html#generic-segmentation-offload) for more details.
    pub gso_offset: usize,
}

/// Datagram received by a connection
#[derive(Clone, Debug)]
#[non_exhaustive]
pub struct DatagramReceived {
    pub len: u16,
}

/// Datagram dropped by a connection
#[derive(Clone, Debug)]
#[non_exhaustive]
pub struct DatagramDropped {
    pub len: u16,
    pub reason: DatagramDropReason,
}

/// ConnectionId updated
#[derive(Clone, Debug)]
#[non_exhaustive]
pub struct ConnectionIdUpdated<'a> {
    pub path_id: u64,
    /// The endpoint that updated its connection id
    pub cid_consumer: Location,
    pub previous: ConnectionId<'a>,
    pub current: ConnectionId<'a>,
}

#[derive(Clone, Debug)]
#[non_exhaustive]
pub struct EcnStateChanged<'a> {
    pub path: Path<'a>,
    pub state: EcnState,
}

#[derive(Clone, Debug)]
#[non_exhaustive]
pub struct ConnectionMigrationDenied {
    pub reason: MigrationDenyReason,
}

#[derive(Clone, Debug)]
#[non_exhaustive]
pub struct HandshakeStatusUpdated {
    pub status: HandshakeStatus,
}

#[derive(Clone, Debug)]
#[non_exhaustive]
pub struct TlsClientHello<'a> {
    pub payload: &'a [&'a [u8]],
}

#[derive(Clone, Debug)]
#[non_exhaustive]
pub struct TlsServerHello<'a> {
    pub payload: &'a [&'a [u8]],
}

/// QUIC version
#[derive(Clone, Debug)]
#[non_exhaustive]
pub struct VersionInformation<'a> {
    pub server_versions: &'a [u32],
    pub client_versions: &'a [u32],
    pub chosen_version: Option<u32>,
}

/// Packet was sent by the endpoint
#[derive(Clone, Debug)]
#[non_exhaustive]
pub struct EndpointPacketSent {
    pub packet_header: PacketHeader,
}

/// Packet was received by the endpoint
#[derive(Clone, Debug)]
#[non_exhaustive]
pub struct EndpointPacketReceived {
    pub packet_header: PacketHeader,
}

/// Datagram sent by the endpoint
#[derive(Clone, Debug)]
#[non_exhaustive]
pub struct EndpointDatagramSent {
    pub len: u16,
    /// The GSO offset at which this datagram was written
    ///
    /// If this value is greater than 0, it indicates that this datagram has been sent with other
    /// segments in a single buffer.
    ///
    /// See the [Linux kernel documentation](https://www.kernel.org/doc/html/latest/networking/segmentation-offloads.html#generic-segmentation-offload) for more details.
    pub gso_offset: usize,
}

/// Datagram received by the endpoint
#[derive(Clone, Debug)]
#[non_exhaustive]
pub struct EndpointDatagramReceived {
    pub len: u16,
}

/// Datagram dropped by the endpoint
#[derive(Clone, Debug)]
#[non_exhaustive]
pub struct EndpointDatagramDropped {
    pub len: u16,
    pub reason: DatagramDropReason,
}

#[derive(Clone, Debug)]
#[non_exhaustive]
pub struct EndpointConnectionAttemptFailed {
    pub error: crate::connection::Error,
}

/// Emitted when the platform sends at least one packet
#[derive(Clone, Debug)]
#[non_exhaustive]
pub struct PlatformTx {
    /// The number of packets sent
    pub count: usize,
}

/// Emitted when the platform returns an error while sending datagrams
#[derive(Clone, Debug)]
#[non_exhaustive]
pub struct PlatformTxError {
    /// The error code returned by the platform
    pub errno: i32,
}

/// Emitted when the platform receives at least one packet
#[derive(Clone, Debug)]
#[non_exhaustive]
pub struct PlatformRx {
    /// The number of packets received
    pub count: usize,
}

/// Emitted when the platform returns an error while receiving datagrams
#[derive(Clone, Debug)]
#[non_exhaustive]
pub struct PlatformRxError {
    /// The error code returned by the platform
    pub errno: i32,
}

/// Emitted when a platform feature is configured
#[derive(Clone, Debug)]
#[non_exhaustive]
pub struct PlatformFeatureConfigured {
    pub configuration: PlatformFeatureConfiguration,
}

#[derive(Clone, Debug)]
#[non_exhaustive]
pub struct PlatformEventLoopWakeup {
    pub timeout_expired: bool,
    pub rx_ready: bool,
    pub tx_ready: bool,
}

#[derive(Clone, Debug)]
#[non_exhaustive]
pub enum PlatformFeatureConfiguration {
    #[non_exhaustive]
    Gso {
        /// The maximum number of segments that can be sent in a single GSO packet
        ///
        /// If this value not greater than 1, GSO is disabled.
        max_segments: usize,
    },
    #[non_exhaustive]
    Ecn {
        enabled: bool,
    },
    #[non_exhaustive]
    MaxMtu {
        mtu: u16,
    },
}

} // verus!

verus! {

/// The address bytes of a socket address.
pub open spec fn spec_socket_ip(a: SocketAddress) -> Seq<u8> {
    match a {
        SocketAddress::IpV4 { ip, .. } => ip@,
        SocketAddress::IpV6 { ip, .. } => ip@,
    }
}

/// The port of a socket address.
pub open spec fn spec_socket_port(a: SocketAddress) -> u16 {
    match a {
        SocketAddress::IpV4 { port, .. } => port,
        SocketAddress::IpV6 { port, .. } => port,
    }
}

impl<'a> SocketAddress<'a> {
    /// The address bytes: four for IPv4, sixteen for IPv6.
    pub fn ip(&self) -> (r: &'a [u8])
        ensures
            r@ == spec_socket_ip(*self),
    {
        match self {
            Self::IpV4 { ip, .. } => ip.as_slice(),
            Self::IpV6 { ip, .. } => ip.as_slice(),
        }
    }

    pub fn port(&self) -> (r: u16)
        ensures
            r == spec_socket_port(*self),
    {
        match self {
            Self::IpV4 { port, .. } => *port,
            Self::IpV6 { port, .. } => *port,
        }
    }
}

/// The name of an endpoint type: "client" or "server".
pub open spec fn spec_endpoint_type_name(t: EndpointType) -> Seq<char> {
    match t {
        EndpointType::Client {} => "client"@,
        EndpointType::Server {} => "server"@,
    }
}

impl EndpointType {
    /// The endpoint type as text, as it is displayed.
    pub fn to_string(&self) -> (r: String)
        ensures
            r@ == spec_endpoint_type_name(*self),
    {
        match self {
            Self::Client {} => "client".to_owned(),
            Self::Server {} => "server".to_owned(),
        }
    }
}

/// The name of a cipher suite, as the TLS registry writes it.
pub open spec fn spec_cipher_suite_name(c: CipherSuite) -> Seq<char> {
    match c {
        CipherSuite::TLS_AES_128_GCM_SHA256 {} => "TLS_AES_128_GCM_SHA256"@,
        CipherSuite::TLS_AES_256_GCM_SHA384 {} => "TLS_AES_256_GCM_SHA384"@,
        CipherSuite::TLS_CHACHA20_POLY1305_SHA256 {} => "TLS_CHACHA20_POLY1305_SHA256"@,
        CipherSuite::Unknown {} => "UNKNOWN"@,
    }
}

impl CipherSuite {
    pub fn as_str(&self) -> (r: &'static str)
        ensures
            r@ == spec_cipher_suite_name(*self),
    {
        match self {
            Self::TLS_AES_128_GCM_SHA256 {} => "TLS_AES_128_GCM_SHA256",
            Self::TLS_AES_256_GCM_SHA384 {} => "TLS_AES_256_GCM_SHA384",
            Self::TLS_CHACHA20_POLY1305_SHA256 {} => "TLS_CHACHA20_POLY1305_SHA256",
            Self::Unknown {} => "UNKNOWN",
        }
    }
}

} // verus!
