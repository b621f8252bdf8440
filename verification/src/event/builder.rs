//! The events and their parts, as the endpoint builds them before they are
//! published. Each builder value converts into the event value it
//! describes, its view.
use super::{api, IntoEvent};
use vstd::prelude::*;

verus! {
#[derive(Clone, Debug)]
pub struct ConnectionMeta {
    pub endpoint_type: crate::endpoint::Type,
    pub id: u64,
    pub timestamp: crate::time::Timestamp,
}

impl View for ConnectionMeta {
    type V = api::ConnectionMeta;

    open spec fn view(&self) -> api::ConnectionMeta {
        api::ConnectionMeta {
            endpoint_type: crate::endpoint::spec_endpoint_type(self.endpoint_type),
            id: self.id,
            timestamp: self.timestamp,
        }
    }
}

impl IntoEvent<api::ConnectionMeta> for ConnectionMeta {
    fn into_event(self) -> (r: api::ConnectionMeta)
        ensures
            r == self@,
    {
        api::ConnectionMeta {
            endpoint_type: self.endpoint_type.into_event(),
            id: self.id,
            timestamp: self.timestamp,
        }
    }
}

#[derive(Clone, Debug)]
pub struct EndpointMeta {
    pub endpoint_type: crate::endpoint::Type,
    pub timestamp: crate::time::Timestamp,
}

impl View for EndpointMeta {
    type V = api::EndpointMeta;

    open spec fn view(&self) -> api::EndpointMeta {
        api::EndpointMeta {
            endpoint_type: crate::endpoint::spec_endpoint_type(self.endpoint_type),
            timestamp: self.timestamp,
        }
    }
}

impl IntoEvent<api::EndpointMeta> for EndpointMeta {
    fn into_event(self) -> (r: api::EndpointMeta)
        ensures
            r == self@,
    {
        api::EndpointMeta {
            endpoint_type: self.endpoint_type.into_event(),
            timestamp: self.timestamp,
        }
    }
}

#[derive(Clone, Debug)]
pub struct ConnectionInfo {}

impl View for ConnectionInfo {
    type V = api::ConnectionInfo;

    open spec fn view(&self) -> api::ConnectionInfo {
        api::ConnectionInfo {}
    }
}

impl IntoEvent<api::ConnectionInfo> for ConnectionInfo {
    fn into_event(self) -> (r: api::ConnectionInfo)
        ensures
            r == self@,
    {
        api::ConnectionInfo {}
    }
}

#[derive(Debug)]
pub struct TransportParameters<'a> {
    pub original_destination_connection_id: Option<ConnectionId<'a>>,
    pub initial_source_connection_id: Option<ConnectionId<'a>>,
    pub retry_source_connection_id: Option<ConnectionId<'a>>,
    pub stateless_reset_token: Option<&'a [u8]>,
    pub preferred_address: Option<PreferredAddress<'a>>,
    pub migration_support: bool,
    pub max_idle_timeout: core::time::Duration,
    pub ack_delay_exponent: u8,
    pub max_ack_delay: core::time::Duration,
    pub max_udp_payload_size: u64,
    pub active_connection_id_limit: u64,
    pub initial_max_stream_data_bidi_local: u64,
    pub initial_max_stream_data_bidi_remote: u64,
    pub initial_max_stream_data_uni: u64,
    pub initial_max_streams_bidi: u64,
    pub initial_max_streams_uni: u64,
}

impl<'a> View for TransportParameters<'a> {
    type V = api::TransportParameters<'a>;

    open spec fn view(&self) -> api::TransportParameters<'a> {
        api::TransportParameters {
            original_destination_connection_id: match self.original_destination_connection_id { Some(v) => Some(v@), None => None },
            initial_source_connection_id: match self.initial_source_connection_id { Some(v) => Some(v@), None => None },
            retry_source_connection_id: match self.retry_source_connection_id { Some(v) => Some(v@), None => None },
            stateless_reset_token: self.stateless_reset_token,
            preferred_address: match self.preferred_address { Some(v) => Some(v@), None => None },
            migration_support: self.migration_support,
            max_idle_timeout: self.max_idle_timeout,
            ack_delay_exponent: self.ack_delay_exponent,
            max_ack_delay: self.max_ack_delay,
            max_udp_payload_size: self.max_udp_payload_size,
            active_connection_id_limit: self.active_connection_id_limit,
            initial_max_stream_data_bidi_local: self.initial_max_stream_data_bidi_local,
            initial_max_stream_data_bidi_remote: self.initial_max_stream_data_bidi_remote,
            initial_max_stream_data_uni: self.initial_max_stream_data_uni,
            initial_max_streams_bidi: self.initial_max_streams_bidi,
            initial_max_streams_uni: self.initial_max_streams_uni,
        }
    }
}

impl<'a> IntoEvent<api::TransportParameters<'a>> for TransportParameters<'a> {
    fn into_event(self) -> (r: api::TransportParameters<'a>)
        ensures
            r == self@,
    {
        api::TransportParameters {
            original_destination_connection_id: match self.original_destination_connection_id { Some(v) => Some(v.into_event()), None => None },
            initial_source_connection_id: match self.initial_source_connection_id { Some(v) => Some(v.into_event()), None => None },
            retry_source_connection_id: match self.retry_source_connection_id { Some(v) => Some(v.into_event()), None => None },
            stateless_reset_token: self.stateless_reset_token,
            preferred_address: match self.preferred_address { Some(v) => Some(v.into_event()), None => None },
            migration_support: self.migration_support,
            max_idle_timeout: self.max_idle_timeout,
            ack_delay_exponent: self.ack_delay_exponent,
            max_ack_delay: self.max_ack_delay,
            max_udp_payload_size: self.max_udp_payload_size,
            active_connection_id_limit: self.active_connection_id_limit,
            initial_max_stream_data_bidi_local: self.initial_max_stream_data_bidi_local,
            initial_max_stream_data_bidi_remote: self.initial_max_stream_data_bidi_remote,
            initial_max_stream_data_uni: self.initial_max_stream_data_uni,
            initial_max_streams_bidi: self.initial_max_streams_bidi,
            initial_max_streams_uni: self.initial_max_streams_uni,
        }
    }
}

#[derive(Clone, Debug)]
pub struct PreferredAddress<'a> {
    pub ipv4_address: Option<SocketAddress<'a>>,
    pub ipv6_address: Option<SocketAddress<'a>>,
    pub connection_id: ConnectionId<'a>,
    pub stateless_reset_token: &'a [u8],
}

impl<'a> View for PreferredAddress<'a> {
    type V = api::PreferredAddress<'a>;

    open spec fn view(&self) -> api::PreferredAddress<'a> {
        api::PreferredAddress {
            ipv4_address: match self.ipv4_address { Some(v) => Some(v@), None => None },
            ipv6_address: match self.ipv6_address { Some(v) => Some(v@), None => None },
            connection_id: self.connection_id@,
            stateless_reset_token: self.stateless_reset_token,
        }
    }
}

impl<'a> IntoEvent<api::PreferredAddress<'a>> for PreferredAddress<'a> {
    fn into_event(self) -> (r: api::PreferredAddress<'a>)
        ensures
            r == self@,
    {
        api::PreferredAddress {
            ipv4_address: match self.ipv4_address { Some(v) => Some(v.into_event()), None => None },
            ipv6_address: match self.ipv6_address { Some(v) => Some(v.into_event()), None => None },
            connection_id: self.connection_id.into_event(),
            stateless_reset_token: self.stateless_reset_token,
        }
    }
}

#[derive(Clone, Debug)]
pub struct Path<'a> {
    pub local_addr: SocketAddress<'a>,
    pub local_cid: ConnectionId<'a>,
    pub remote_addr: SocketAddress<'a>,
    pub remote_cid: ConnectionId<'a>,
    pub id: u64,
    pub is_active: bool,
}

impl<'a> View for Path<'a> {
    type V = api::Path<'a>;

    open spec fn view(&self) -> api::Path<'a> {
        api::Path {
            local_addr: self.local_addr@,
            local_cid: self.local_cid@,
            remote_addr: self.remote_addr@,
            remote_cid: self.remote_cid@,
            id: self.id,
            is_active: self.is_active,
        }
    }
}

impl<'a> IntoEvent<api::Path<'a>> for Path<'a> {
    fn into_event(self) -> (r: api::Path<'a>)
        ensures
            r == self@,
    {
        api::Path {
            local_addr: self.local_addr.into_event(),
            local_cid: self.local_cid.into_event(),
            remote_addr: self.remote_addr.into_event(),
            remote_cid: self.remote_cid.into_event(),
            id: self.id,
            is_active: self.is_active,
        }
    }
}

#[derive(Clone, Debug)]
pub struct ConnectionId<'a> {
    pub bytes: &'a [u8],
}

impl<'a> View for ConnectionId<'a> {
    type V = api::ConnectionId<'a>;

    open spec fn view(&self) -> api::ConnectionId<'a> {
        api::ConnectionId {
            bytes: self.bytes,
        }
    }
}

impl<'a> IntoEvent<api::ConnectionId<'a>> for ConnectionId<'a> {
    fn into_event(self) -> (r: api::ConnectionId<'a>)
        ensures
            r == self@,
    {
        api::ConnectionId {
            bytes: self.bytes,
        }
    }
}

#[derive(Clone, Debug)]
pub enum SocketAddress<'a> {
    IpV4 {
        ip: &'a [u8; 4],
        port: u16,
    },
    IpV6 {
        ip: &'a [u8; 16],
        port: u16,
    },
}

impl<'a> View for SocketAddress<'a> {
    type V = api::SocketAddress<'a>;

    open spec fn view(&self) -> api::SocketAddress<'a> {
        match *self {
            SocketAddress::IpV4 { ip, port } => api::SocketAddress::IpV4 {
                    ip: ip,
                    port: port,
                },
            SocketAddress::IpV6 { ip, port } => api::SocketAddress::IpV6 {
                    ip: ip,
                    port: port,
                },
        }
    }
}

impl<'a> IntoEvent<api::SocketAddress<'a>> for SocketAddress<'a> {
    fn into_event(self) -> (r: api::SocketAddress<'a>)
        ensures
            r == self@,
    {
        match self {
            SocketAddress::IpV4 { ip, port } => api::SocketAddress::IpV4 {
                    ip: ip,
                    port: port,
                },
            SocketAddress::IpV6 { ip, port } => api::SocketAddress::IpV6 {
                    ip: ip,
                    port: port,
                },
        }
    }
}

#[derive(Clone, Debug)]
pub enum DuplicatePacketError {
    Duplicate,
    TooOld,
}

impl View for DuplicatePacketError {
    type V = api::DuplicatePacketError;

    open spec fn view(&self) -> api::DuplicatePacketError {
        match *self {
            DuplicatePacketError::Duplicate => api::DuplicatePacketError::Duplicate {},
            DuplicatePacketError::TooOld => api::DuplicatePacketError::TooOld {},
        }
    }
}

impl IntoEvent<api::DuplicatePacketError> for DuplicatePacketError {
    fn into_event(self) -> (r: api::DuplicatePacketError)
        ensures
            r == self@,
    {
        match self {
            DuplicatePacketError::Duplicate => api::DuplicatePacketError::Duplicate {},
            DuplicatePacketError::TooOld => api::DuplicatePacketError::TooOld {},
        }
    }
}

#[derive(Clone, Debug)]
pub enum Frame {
    Padding,
    Ping,
    Ack,
    ResetStream,
    StopSending,
    Crypto {
        offset: u64,
        len: u16,
    },
    NewToken,
    Stream {
        id: u64,
        offset: u64,
        len: u16,
        is_fin: bool,
    },
    MaxData,
    MaxStreamData,
    MaxStreams {
        stream_type: StreamType,
    },
    DataBlocked,
    StreamDataBlocked,
    StreamsBlocked {
        stream_type: StreamType,
    },
    NewConnectionId,
    RetireConnectionId,
    PathChallenge,
    PathResponse,
    ConnectionClose,
    HandshakeDone,
}

impl View for Frame {
    type V = api::Frame;

    open spec fn view(&self) -> api::Frame {
        match *self {
            Frame::Padding => api::Frame::Padding {},
            Frame::Ping => api::Frame::Ping {},
            Frame::Ack => api::Frame::Ack {},
            Frame::ResetStream => api::Frame::ResetStream {},
            Frame::StopSending => api::Frame::StopSending {},
            Frame::Crypto { offset, len } => api::Frame::Crypto {
                    offset: offset,
                    len: len,
                },
            Frame::NewToken => api::Frame::NewToken {},
            Frame::Stream { id, offset, len, is_fin } => api::Frame::Stream {
                    id: id,
                    offset: offset,
                    len: len,
                    is_fin: is_fin,
                },
            Frame::MaxData => api::Frame::MaxData {},
            Frame::MaxStreamData => api::Frame::MaxStreamData {},
            Frame::MaxStreams { stream_type } => api::Frame::MaxStreams {
                    stream_type: stream_type@,
                },
            Frame::DataBlocked => api::Frame::DataBlocked {},
            Frame::StreamDataBlocked => api::Frame::StreamDataBlocked {},
            Frame::StreamsBlocked { stream_type } => api::Frame::StreamsBlocked {
                    stream_type: stream_type@,
                },
            Frame::NewConnectionId => api::Frame::NewConnectionId {},
            Frame::RetireConnectionId => api::Frame::RetireConnectionId {},
            Frame::PathChallenge => api::Frame::PathChallenge {},
            Frame::PathResponse => api::Frame::PathResponse {},
            Frame::ConnectionClose => api::Frame::ConnectionClose {},
            Frame::HandshakeDone => api::Frame::HandshakeDone {},
        }
    }
}

impl IntoEvent<api::Frame> for Frame {
    fn into_event(self) -> (r: api::Frame)
        ensures
            r == self@,
    {
        match self {
            Frame::Padding => api::Frame::Padding {},
            Frame::Ping => api::Frame::Ping {},
            Frame::Ack => api::Frame::Ack {},
            Frame::ResetStream => api::Frame::ResetStream {},
            Frame::StopSending => api::Frame::StopSending {},
            Frame::Crypto { offset, len } => api::Frame::Crypto {
                    offset: offset,
                    len: len,
                },
            Frame::NewToken => api::Frame::NewToken {},
            Frame::Stream { id, offset, len, is_fin } => api::Frame::Stream {
                    id: id,
                    offset: offset,
                    len: len,
                    is_fin: is_fin,
                },
            Frame::MaxData => api::Frame::MaxData {},
            Frame::MaxStreamData => api::Frame::MaxStreamData {},
            Frame::MaxStreams { stream_type } => api::Frame::MaxStreams {
                    stream_type: stream_type.into_event(),
                },
            Frame::DataBlocked => api::Frame::DataBlocked {},
            Frame::StreamDataBlocked => api::Frame::StreamDataBlocked {},
            Frame::StreamsBlocked { stream_type } => api::Frame::StreamsBlocked {
                    stream_type: stream_type.into_event(),
                },
            Frame::NewConnectionId => api::Frame::NewConnectionId {},
            Frame::RetireConnectionId => api::Frame::RetireConnectionId {},
            Frame::PathChallenge => api::Frame::PathChallenge {},
            Frame::PathResponse => api::Frame::PathResponse {},
            Frame::ConnectionClose => api::Frame::ConnectionClose {},
            Frame::HandshakeDone => api::Frame::HandshakeDone {},
        }
    }
}

#[derive(Clone, Debug)]
pub enum StreamType {
    Bidirectional,
    Unidirectional,
}

impl View for StreamType {
    type V = api::StreamType;

    open spec fn view(&self) -> api::StreamType {
        match *self {
            StreamType::Bidirectional => api::StreamType::Bidirectional {},
            StreamType::Unidirectional => api::StreamType::Unidirectional {},
        }
    }
}

impl IntoEvent<api::StreamType> for StreamType {
    fn into_event(self) -> (r: api::StreamType)
        ensures
            r == self@,
    {
        match self {
            StreamType::Bidirectional => api::StreamType::Bidirectional {},
            StreamType::Unidirectional => api::StreamType::Unidirectional {},
        }
    }
}

#[derive(Clone, Debug)]
pub enum PacketHeader {
    Initial {
        number: u64,
        version: u32,
    },
    Handshake {
        number: u64,
        version: u32,
    },
    ZeroRtt {
        number: u64,
        version: u32,
    },
    OneRtt {
        number: u64,
    },
    Retry {
        version: u32,
    },
    VersionNegotiation,
    StatelessReset,
}

impl View for PacketHeader {
    type V = api::PacketHeader;

    open spec fn view(&self) -> api::PacketHeader {
        match *self {
            PacketHeader::Initial { number, version } => api::PacketHeader::Initial {
                    number: number,
                    version: version,
                },
            PacketHeader::Handshake { number, version } => api::PacketHeader::Handshake {
                    number: number,
                    version: version,
                },
            PacketHeader::ZeroRtt { number, version } => api::PacketHeader::ZeroRtt {
                    number: number,
                    version: version,
                },
            PacketHeader::OneRtt { number } => api::PacketHeader::OneRtt {
                    number: number,
                },
            PacketHeader::Retry { version } => api::PacketHeader::Retry {
                    version: version,
                },
            PacketHeader::VersionNegotiation => api::PacketHeader::VersionNegotiation {},
            PacketHeader::StatelessReset => api::PacketHeader::StatelessReset {},
        }
    }
}

impl IntoEvent<api::PacketHeader> for PacketHeader {
    fn into_event(self) -> (r: api::PacketHeader)
        ensures
            r == self@,
    {
        match self {
            PacketHeader::Initial { number, version } => api::PacketHeader::Initial {
                    number: number,
                    version: version,
                },
            PacketHeader::Handshake { number, version } => api::PacketHeader::Handshake {
                    number: number,
                    version: version,
                },
            PacketHeader::ZeroRtt { number, version } => api::PacketHeader::ZeroRtt {
                    number: number,
                    version: version,
                },
            PacketHeader::OneRtt { number } => api::PacketHeader::OneRtt {
                    number: number,
                },
            PacketHeader::Retry { version } => api::PacketHeader::Retry {
                    version: version,
                },
            PacketHeader::VersionNegotiation => api::PacketHeader::VersionNegotiation {},
            PacketHeader::StatelessReset => api::PacketHeader::StatelessReset {},
        }
    }
}

#[derive(Clone, Debug)]
pub enum KeyType {
    Initial,
    Handshake,
    ZeroRtt,
    OneRtt {
        generation: u16,
    },
}

impl View for KeyType {
    type V = api::KeyType;

    open spec fn view(&self) -> api::KeyType {
        match *self {
            KeyType::Initial => api::KeyType::Initial {},
            KeyType::Handshake => api::KeyType::Handshake {},
            KeyType::ZeroRtt => api::KeyType::ZeroRtt {},
            KeyType::OneRtt { generation } => api::KeyType::OneRtt {
                    generation: generation,
                },
        }
    }
}

impl IntoEvent<api::KeyType> for KeyType {
    fn into_event(self) -> (r: api::KeyType)
        ensures
            r == self@,
    {
        match self {
            KeyType::Initial => api::KeyType::Initial {},
            KeyType::Handshake => api::KeyType::Handshake {},
            KeyType::ZeroRtt => api::KeyType::ZeroRtt {},
            KeyType::OneRtt { generation } => api::KeyType::OneRtt {
                    generation: generation,
                },
        }
    }
}

/// A context from which the event is being emitted
///
/// An event can occur in the context of an Endpoint or Connection
#[derive(Clone, Debug)]
pub enum Subject {
    Endpoint,
    Connection {
        id: u64,
    },
}

impl View for Subject {
    type V = api::Subject;

    open spec fn view(&self) -> api::Subject {
        match *self {
            Subject::Endpoint => api::Subject::Endpoint {},
            Subject::Connection { id } => api::Subject::Connection {
                    id: id,
                },
        }
    }
}

impl IntoEvent<api::Subject> for Subject {
    fn into_event(self) -> (r: api::Subject)
        ensures
            r == self@,
    {
        match self {
            Subject::Endpoint => api::Subject::Endpoint {},
            Subject::Connection { id } => api::Subject::Connection {
                    id: id,
                },
        }
    }
}

/// Used to disambiguate events that can occur for the local or the remote endpoint.
#[derive(Clone, Debug)]
pub enum Location {
    Local,
    Remote,
}

impl View for Location {
    type V = api::Location;

    open spec fn view(&self) -> api::Location {
        match *self {
            Location::Local => api::Location::Local {},
            Location::Remote => api::Location::Remote {},
        }
    }
}

impl IntoEvent<api::Location> for Location {
    fn into_event(self) -> (r: api::Location)
        ensures
            r == self@,
    {
        match self {
            Location::Local => api::Location::Local {},
            Location::Remote => api::Location::Remote {},
        }
    }
}

#[derive(Clone, Debug)]
pub enum EndpointType {
    Server,
    Client,
}

impl View for EndpointType {
    type V = api::EndpointType;

    open spec fn view(&self) -> api::EndpointType {
        match *self {
            EndpointType::Server => api::EndpointType::Server {},
            EndpointType::Client => api::EndpointType::Client {},
        }
    }
}

impl IntoEvent<api::EndpointType> for EndpointType {
    fn into_event(self) -> (r: api::EndpointType)
        ensures
            r == self@,
    {
        match self {
            EndpointType::Server => api::EndpointType::Server {},
            EndpointType::Client => api::EndpointType::Client {},
        }
    }
}

#[derive(Clone, Debug)]
pub enum DatagramDropReason {
    DecodingFailed,
    InvalidRetryToken,
    UnsupportedVersion,
    InvalidDestinationConnectionId,
    InvalidSourceConnectionId,
    UnknownDestinationConnectionId,
    RejectedConnectionAttempt,
}

impl View for DatagramDropReason {
    type V = api::DatagramDropReason;

    open spec fn view(&self) -> api::DatagramDropReason {
        match *self {
            DatagramDropReason::DecodingFailed => api::DatagramDropReason::DecodingFailed {},
            DatagramDropReason::InvalidRetryToken => api::DatagramDropReason::InvalidRetryToken {},
            DatagramDropReason::UnsupportedVersion => api::DatagramDropReason::UnsupportedVersion {},
            DatagramDropReason::InvalidDestinationConnectionId => api::DatagramDropReason::InvalidDestinationConnectionId {},
            DatagramDropReason::InvalidSourceConnectionId => api::DatagramDropReason::InvalidSourceConnectionId {},
            DatagramDropReason::UnknownDestinationConnectionId => api::DatagramDropReason::UnknownDestinationConnectionId {},
            DatagramDropReason::RejectedConnectionAttempt => api::DatagramDropReason::RejectedConnectionAttempt {},
        }
    }
}

impl IntoEvent<api::DatagramDropReason> for DatagramDropReason {
    fn into_event(self) -> (r: api::DatagramDropReason)
        ensures
            r == self@,
    {
        match self {
            DatagramDropReason::DecodingFailed => api::DatagramDropReason::DecodingFailed {},
            DatagramDropReason::InvalidRetryToken => api::DatagramDropReason::InvalidRetryToken {},
            DatagramDropReason::UnsupportedVersion => api::DatagramDropReason::UnsupportedVersion {},
            DatagramDropReason::InvalidDestinationConnectionId => api::DatagramDropReason::InvalidDestinationConnectionId {},
            DatagramDropReason::InvalidSourceConnectionId => api::DatagramDropReason::InvalidSourceConnectionId {},
            DatagramDropReason::UnknownDestinationConnectionId => api::DatagramDropReason::UnknownDestinationConnectionId {},
            DatagramDropReason::RejectedConnectionAttempt => api::DatagramDropReason::RejectedConnectionAttempt {},
        }
    }
}

#[derive(Clone, Debug)]
pub enum KeySpace {
    Initial,
    Handshake,
    ZeroRtt,
    OneRtt,
}

impl View for KeySpace {
    type V = api::KeySpace;

    open spec fn view(&self) -> api::KeySpace {
        match *self {
            KeySpace::Initial => api::KeySpace::Initial {},
            KeySpace::Handshake => api::KeySpace::Handshake {},
            KeySpace::ZeroRtt => api::KeySpace::ZeroRtt {},
            KeySpace::OneRtt => api::KeySpace::OneRtt {},
        }
    }
}

impl IntoEvent<api::KeySpace> for KeySpace {
    fn into_event(self) -> (r: api::KeySpace)
        ensures
            r == self@,
    {
        match self {
            KeySpace::Initial => api::KeySpace::Initial {},
            KeySpace::Handshake => api::KeySpace::Handshake {},
            KeySpace::ZeroRtt => api::KeySpace::ZeroRtt {},
            KeySpace::OneRtt => api::KeySpace::OneRtt {},
        }
    }
}

#[derive(Clone, Debug)]
pub enum PacketDropReason<'a> {
    ConnectionError {
        path: Path<'a>,
    },
    HandshakeNotComplete {
        path: Path<'a>,
    },
    VersionMismatch {
        version: u32,
        path: Path<'a>,
    },
    ConnectionIdMismatch {
        packet_cid: &'a [u8],
        path: Path<'a>,
    },
    UnprotectFailed {
        space: KeySpace,
        path: Path<'a>,
    },
    DecryptionFailed {
        path: Path<'a>,
        packet_header: PacketHeader,
    },
    DecodingFailed {
        path: Path<'a>,
    },
    NonEmptyRetryToken {
        path: Path<'a>,
    },
    RetryDiscarded {
        reason: RetryDiscardReason<'a>,
        path: Path<'a>,
    },
}

impl<'a> View for PacketDropReason<'a> {
    type V = api::PacketDropReason<'a>;

    open spec fn view(&self) -> api::PacketDropReason<'a> {
        match *self {
            PacketDropReason::ConnectionError { path } => api::PacketDropReason::ConnectionError {
                    path: path@,
                },
            PacketDropReason::HandshakeNotComplete { path } => api::PacketDropReason::HandshakeNotComplete {
                    path: path@,
                },
            PacketDropReason::VersionMismatch { version, path } => api::PacketDropReason::VersionMismatch {
                    version: version,
                    path: path@,
                },
            PacketDropReason::ConnectionIdMismatch { packet_cid, path } => api::PacketDropReason::ConnectionIdMismatch {
                    packet_cid: packet_cid,
                    path: path@,
                },
            PacketDropReason::UnprotectFailed { space, path } => api::PacketDropReason::UnprotectFailed {
                    space: space@,
                    path: path@,
                },
            PacketDropReason::DecryptionFailed { path, packet_header } => api::PacketDropReason::DecryptionFailed {
                    path: path@,
                    packet_header: packet_header@,
                },
            PacketDropReason::DecodingFailed { path } => api::PacketDropReason::DecodingFailed {
                    path: path@,
                },
            PacketDropReason::NonEmptyRetryToken { path } => api::PacketDropReason::NonEmptyRetryToken {
                    path: path@,
                },
            PacketDropReason::RetryDiscarded { reason, path } => api::PacketDropReason::RetryDiscarded {
                    reason: reason@,
                    path: path@,
                },
        }
    }
}

impl<'a> IntoEvent<api::PacketDropReason<'a>> for PacketDropReason<'a> {
    fn into_event(self) -> (r: api::PacketDropReason<'a>)
        ensures
            r == self@,
    {
        match self {
            PacketDropReason::ConnectionError { path } => api::PacketDropReason::ConnectionError {
                    path: path.into_event(),
                },
            PacketDropReason::HandshakeNotComplete { path } => api::PacketDropReason::HandshakeNotComplete {
                    path: path.into_event(),
                },
            PacketDropReason::VersionMismatch { version, path } => api::PacketDropReason::VersionMismatch {
                    version: version,
                    path: path.into_event(),
                },
            PacketDropReason::ConnectionIdMismatch { packet_cid, path } => api::PacketDropReason::ConnectionIdMismatch {
                    packet_cid: packet_cid,
                    path: path.into_event(),
                },
            PacketDropReason::UnprotectFailed { space, path } => api::PacketDropReason::UnprotectFailed {
                    space: space.into_event(),
                    path: path.into_event(),
                },
            PacketDropReason::DecryptionFailed { path, packet_header } => api::PacketDropReason::DecryptionFailed {
                    path: path.into_event(),
                    packet_header: packet_header.into_event(),
                },
            PacketDropReason::DecodingFailed { path } => api::PacketDropReason::DecodingFailed {
                    path: path.into_event(),
                },
            PacketDropReason::NonEmptyRetryToken { path } => api::PacketDropReason::NonEmptyRetryToken {
                    path: path.into_event(),
                },
            PacketDropReason::RetryDiscarded { reason, path } => api::PacketDropReason::RetryDiscarded {
                    reason: reason.into_event(),
                    path: path.into_event(),
                },
        }
    }
}

#[derive(Clone, Debug)]
pub enum RetryDiscardReason<'a> {
    ScidEqualsDcid {
        cid: &'a [u8],
    },
    RetryAlreadyProcessed,
    InitialAlreadyProcessed,
    InvalidIntegrityTag,
}

impl<'a> View for RetryDiscardReason<'a> {
    type V = api::RetryDiscardReason<'a>;

    open spec fn view(&self) -> api::RetryDiscardReason<'a> {
        match *self {
            RetryDiscardReason::ScidEqualsDcid { cid } => api::RetryDiscardReason::ScidEqualsDcid {
                    cid: cid,
                },
            RetryDiscardReason::RetryAlreadyProcessed => api::RetryDiscardReason::RetryAlreadyProcessed {},
            RetryDiscardReason::InitialAlreadyProcessed => api::RetryDiscardReason::InitialAlreadyProcessed {},
            RetryDiscardReason::InvalidIntegrityTag => api::RetryDiscardReason::InvalidIntegrityTag {},
        }
    }
}

impl<'a> IntoEvent<api::RetryDiscardReason<'a>> for RetryDiscardReason<'a> {
    fn into_event(self) -> (r: api::RetryDiscardReason<'a>)
        ensures
            r == self@,
    {
        match self {
            RetryDiscardReason::ScidEqualsDcid { cid } => api::RetryDiscardReason::ScidEqualsDcid {
                    cid: cid,
                },
            RetryDiscardReason::RetryAlreadyProcessed => api::RetryDiscardReason::RetryAlreadyProcessed {},
            RetryDiscardReason::InitialAlreadyProcessed => api::RetryDiscardReason::InitialAlreadyProcessed {},
            RetryDiscardReason::InvalidIntegrityTag => api::RetryDiscardReason::InvalidIntegrityTag {},
        }
    }
}

#[derive(Clone, Debug)]
pub enum MigrationDenyReason {
    PortScopeChanged,
    IpScopeChange,
    ConnectionMigrationDisabled,
}

impl View for MigrationDenyReason {
    type V = api::MigrationDenyReason;

    open spec fn view(&self) -> api::MigrationDenyReason {
        match *self {
            MigrationDenyReason::PortScopeChanged => api::MigrationDenyReason::PortScopeChanged {},
            MigrationDenyReason::IpScopeChange => api::MigrationDenyReason::IpScopeChange {},
            MigrationDenyReason::ConnectionMigrationDisabled => api::MigrationDenyReason::ConnectionMigrationDisabled {},
        }
    }
}

impl IntoEvent<api::MigrationDenyReason> for MigrationDenyReason {
    fn into_event(self) -> (r: api::MigrationDenyReason)
        ensures
            r == self@,
    {
        match self {
            MigrationDenyReason::PortScopeChanged => api::MigrationDenyReason::PortScopeChanged {},
            MigrationDenyReason::IpScopeChange => api::MigrationDenyReason::IpScopeChange {},
            MigrationDenyReason::ConnectionMigrationDisabled => api::MigrationDenyReason::ConnectionMigrationDisabled {},
        }
    }
}

/// The current state of the ECN controller for the path
#[derive(Clone, Debug)]
pub enum EcnState {
    Testing,
    Unknown,
    Failed,
    Capable,
}

impl View for EcnState {
    type V = api::EcnState;

    open spec fn view(&self) -> api::EcnState {
        match *self {
            EcnState::Testing => api::EcnState::Testing {},
            EcnState::Unknown => api::EcnState::Unknown {},
            EcnState::Failed => api::EcnState::Failed {},
            EcnState::Capable => api::EcnState::Capable {},
        }
    }
}

impl IntoEvent<api::EcnState> for EcnState {
    fn into_event(self) -> (r: api::EcnState)
        ensures
            r == self@,
    {
        match self {
            EcnState::Testing => api::EcnState::Testing {},
            EcnState::Unknown => api::EcnState::Unknown {},
            EcnState::Failed => api::EcnState::Failed {},
            EcnState::Capable => api::EcnState::Capable {},
        }
    }
}

/// Events tracking the progress of handshake status
#[derive(Clone, Debug)]
pub enum HandshakeStatus {
    Complete,
    Confirmed,
    HandshakeDoneAcked,
    HandshakeDoneLost,
}

impl View for HandshakeStatus {
    type V = api::HandshakeStatus;

    open spec fn view(&self) -> api::HandshakeStatus {
        match *self {
            HandshakeStatus::Complete => api::HandshakeStatus::Complete {},
            HandshakeStatus::Confirmed => api::HandshakeStatus::Confirmed {},
            HandshakeStatus::HandshakeDoneAcked => api::HandshakeStatus::HandshakeDoneAcked {},
            HandshakeStatus::HandshakeDoneLost => api::HandshakeStatus::HandshakeDoneLost {},
        }
    }
}

impl IntoEvent<api::HandshakeStatus> for HandshakeStatus {
    fn into_event(self) -> (r: api::HandshakeStatus)
        ensures
            r == self@,
    {
        match self {
            HandshakeStatus::Complete => api::HandshakeStatus::Complete {},
            HandshakeStatus::Confirmed => api::HandshakeStatus::Confirmed {},
            HandshakeStatus::HandshakeDoneAcked => api::HandshakeStatus::HandshakeDoneAcked {},
            HandshakeStatus::HandshakeDoneLost => api::HandshakeStatus::HandshakeDoneLost {},
        }
    }
}

/// The source that caused a congestion event
#[derive(Clone, Debug)]
pub enum CongestionSource {
    Ecn,
    PacketLoss,
}

impl View for CongestionSource {
    type V = api::CongestionSource;

    open spec fn view(&self) -> api::CongestionSource {
        match *self {
            CongestionSource::Ecn => api::CongestionSource::Ecn {},
            CongestionSource::PacketLoss => api::CongestionSource::PacketLoss {},
        }
    }
}

impl IntoEvent<api::CongestionSource> for CongestionSource {
    fn into_event(self) -> (r: api::CongestionSource)
        ensures
            r == self@,
    {
        match self {
            CongestionSource::Ecn => api::CongestionSource::Ecn {},
            CongestionSource::PacketLoss => api::CongestionSource::PacketLoss {},
        }
    }
}

#[derive(Clone, Debug)]
#[allow(non_camel_case_types)]
pub enum CipherSuite {
    TLS_AES_128_GCM_SHA256,
    TLS_AES_256_GCM_SHA384,
    TLS_CHACHA20_POLY1305_SHA256,
    Unknown,
}

impl View for CipherSuite {
    type V = api::CipherSuite;

    open spec fn view(&self) -> api::CipherSuite {
        match *self {
            CipherSuite::TLS_AES_128_GCM_SHA256 => api::CipherSuite::TLS_AES_128_GCM_SHA256 {},
            CipherSuite::TLS_AES_256_GCM_SHA384 => api::CipherSuite::TLS_AES_256_GCM_SHA384 {},
            CipherSuite::TLS_CHACHA20_POLY1305_SHA256 => api::CipherSuite::TLS_CHACHA20_POLY1305_SHA256 {},
            CipherSuite::Unknown => api::CipherSuite::Unknown {},
        }
    }
}

impl IntoEvent<api::CipherSuite> for CipherSuite {
    fn into_event(self) -> (r: api::CipherSuite)
        ensures
            r == self@,
    {
        match self {
            CipherSuite::TLS_AES_128_GCM_SHA256 => api::CipherSuite::TLS_AES_128_GCM_SHA256 {},
            CipherSuite::TLS_AES_256_GCM_SHA384 => api::CipherSuite::TLS_AES_256_GCM_SHA384 {},
            CipherSuite::TLS_CHACHA20_POLY1305_SHA256 => api::CipherSuite::TLS_CHACHA20_POLY1305_SHA256 {},
            CipherSuite::Unknown => api::CipherSuite::Unknown {},
        }
    }
}

/// Application level protocol
#[derive(Clone, Debug)]
pub struct AlpnInformation<'a> {
    pub chosen_alpn: &'a [u8],
}

impl<'a> View for AlpnInformation<'a> {
    type V = api::AlpnInformation<'a>;

    open spec fn view(&self) -> api::AlpnInformation<'a> {
        api::AlpnInformation {
            chosen_alpn: self.chosen_alpn,
        }
    }
}

impl<'a> IntoEvent<api::AlpnInformation<'a>> for AlpnInformation<'a> {
    fn into_event(self) -> (r: api::AlpnInformation<'a>)
        ensures
            r == self@,
    {
        api::AlpnInformation {
            chosen_alpn: self.chosen_alpn,
        }
    }
}

/// Server Name Indication
#[derive(Clone, Debug)]
pub struct SniInformation<'a> {
    pub chosen_sni: &'a str,
}

impl<'a> View for SniInformation<'a> {
    type V = api::SniInformation<'a>;

    open spec fn view(&self) -> api::SniInformation<'a> {
        api::SniInformation {
            chosen_sni: self.chosen_sni,
        }
    }
}

impl<'a> IntoEvent<api::SniInformation<'a>> for SniInformation<'a> {
    fn into_event(self) -> (r: api::SniInformation<'a>)
        ensures
            r == self@,
    {
        api::SniInformation {
            chosen_sni: self.chosen_sni,
        }
    }
}

/// Packet was sent by a connection
#[derive(Clone, Debug)]
pub struct PacketSent {
    pub packet_header: PacketHeader,
}

impl View for PacketSent {
    type V = api::PacketSent;

    open spec fn view(&self) -> api::PacketSent {
        api::PacketSent {
            packet_header: self.packet_header@,
        }
    }
}

impl IntoEvent<api::PacketSent> for PacketSent {
    fn into_event(self) -> (r: api::PacketSent)
        ensures
            r == self@,
    {
        api::PacketSent {
            packet_header: self.packet_header.into_event(),
        }
    }
}

/// Packet was received by a connection
#[derive(Clone, Debug)]
pub struct PacketReceived {
    pub packet_header: PacketHeader,
}

impl View for PacketReceived {
    type V = api::PacketReceived;

    open spec fn view(&self) -> api::PacketReceived {
        api::PacketReceived {
            packet_header: self.packet_header@,
        }
    }
}

impl IntoEvent<api::PacketReceived> for PacketReceived {
    fn into_event(self) -> (r: api::PacketReceived)
        ensures
            r == self@,
    {
        api::PacketReceived {
            packet_header: self.packet_header.into_event(),
        }
    }
}

/// Active path was updated
#[derive(Clone, Debug)]
pub struct ActivePathUpdated<'a> {
    pub previous: Path<'a>,
    pub active: Path<'a>,
}

impl<'a> View for ActivePathUpdated<'a> {
    type V = api::ActivePathUpdated<'a>;

    open spec fn view(&self) -> api::ActivePathUpdated<'a> {
        api::ActivePathUpdated {
            previous: self.previous@,
            active: self.active@,
        }
    }
}

impl<'a> IntoEvent<api::ActivePathUpdated<'a>> for ActivePathUpdated<'a> {
    fn into_event(self) -> (r: api::ActivePathUpdated<'a>)
        ensures
            r == self@,
    {
        api::ActivePathUpdated {
            previous: self.previous.into_event(),
            active: self.active.into_event(),
        }
    }
}

/// A new path was created
#[derive(Clone, Debug)]
pub struct PathCreated<'a> {
    pub active: Path<'a>,
    pub new: Path<'a>,
}

impl<'a> View for PathCreated<'a> {
    type V = api::PathCreated<'a>;

    open spec fn view(&self) -> api::PathCreated<'a> {
        api::PathCreated {
            active: self.active@,
            new: self.new@,
        }
    }
}

impl<'a> IntoEvent<api::PathCreated<'a>> for PathCreated<'a> {
    fn into_event(self) -> (r: api::PathCreated<'a>)
        ensures
            r == self@,
    {
        api::PathCreated {
            active: self.active.into_event(),
            new: self.new.into_event(),
        }
    }
}

/// Frame was sent
#[derive(Clone, Debug)]
pub struct FrameSent {
    pub packet_header: PacketHeader,
    pub path_id: u64,
    pub frame: Frame,
}

impl View for FrameSent {
    type V = api::FrameSent;

    open spec fn view(&self) -> api::FrameSent {
        api::FrameSent {
            packet_header: self.packet_header@,
            path_id: self.path_id,
            frame: self.frame@,
        }
    }
}

impl IntoEvent<api::FrameSent> for FrameSent {
    fn into_event(self) -> (r: api::FrameSent)
        ensures
            r == self@,
    {
        api::FrameSent {
            packet_header: self.packet_header.into_event(),
            path_id: self.path_id,
            frame: self.frame.into_event(),
        }
    }
}

/// Frame was received
#[derive(Clone, Debug)]
pub struct FrameReceived<'a> {
    pub packet_header: PacketHeader,
    pub path: Path<'a>,
    pub frame: Frame,
}

impl<'a> View for FrameReceived<'a> {
    type V = api::FrameReceived<'a>;

    open spec fn view(&self) -> api::FrameReceived<'a> {
        api::FrameReceived {
            packet_header: self.packet_header@,
            path: self.path@,
            frame: self.frame@,
        }
    }
}

impl<'a> IntoEvent<api::FrameReceived<'a>> for FrameReceived<'a> {
    fn into_event(self) -> (r: api::FrameReceived<'a>)
        ensures
            r == self@,
    {
        api::FrameReceived {
            packet_header: self.packet_header.into_event(),
            path: self.path.into_event(),
            frame: self.frame.into_event(),
        }
    }
}

/// Packet was lost
#[derive(Clone, Debug)]
pub struct PacketLost<'a> {
    pub packet_header: PacketHeader,
    pub path: Path<'a>,
    pub bytes_lost: u16,
    pub is_mtu_probe: bool,
}

impl<'a> View for PacketLost<'a> {
    type V = api::PacketLost<'a>;

    open spec fn view(&self) -> api::PacketLost<'a> {
        api::PacketLost {
            packet_header: self.packet_header@,
            path: self.path@,
            bytes_lost: self.bytes_lost,
            is_mtu_probe: self.is_mtu_probe,
        }
    }
}

impl<'a> IntoEvent<api::PacketLost<'a>> for PacketLost<'a> {
    fn into_event(self) -> (r: api::PacketLost<'a>)
        ensures
            r == self@,
    {
        api::PacketLost {
            packet_header: self.packet_header.into_event(),
            path: self.path.into_event(),
            bytes_lost: self.bytes_lost,
            is_mtu_probe: self.is_mtu_probe,
        }
    }
}

/// Recovery metrics updated
#[derive(Debug)]
pub struct RecoveryMetrics<'a> {
    pub path: Path<'a>,
    pub min_rtt: core::time::Duration,
    pub smoothed_rtt: core::time::Duration,
    pub latest_rtt: core::time::Duration,
    pub rtt_variance: core::time::Duration,
    pub max_ack_delay: core::time::Duration,
    pub pto_count: u32,
    pub congestion_window: u32,
    pub bytes_in_flight: u32,
}

impl<'a> View for RecoveryMetrics<'a> {
    type V = api::RecoveryMetrics<'a>;

    open spec fn view(&self) -> api::RecoveryMetrics<'a> {
        api::RecoveryMetrics {
            path: self.path@,
            min_rtt: self.min_rtt,
            smoothed_rtt: self.smoothed_rtt,
            latest_rtt: self.latest_rtt,
            rtt_variance: self.rtt_variance,
            max_ack_delay: self.max_ack_delay,
            pto_count: self.pto_count,
            congestion_window: self.congestion_window,
            bytes_in_flight: self.bytes_in_flight,
        }
    }
}

impl<'a> IntoEvent<api::RecoveryMetrics<'a>> for RecoveryMetrics<'a> {
    fn into_event(self) -> (r: api::RecoveryMetrics<'a>)
        ensures
            r == self@,
    {
        api::RecoveryMetrics {
            path: self.path.into_event(),
            min_rtt: self.min_rtt,
            smoothed_rtt: self.smoothed_rtt,
            latest_rtt: self.latest_rtt,
            rtt_variance: self.rtt_variance,
            max_ack_delay: self.max_ack_delay,
            pto_count: self.pto_count,
            congestion_window: self.congestion_window,
            bytes_in_flight: self.bytes_in_flight,
        }
    }
}

/// Congestion (ECN or packet loss) has occurred
#[derive(Clone, Debug)]
pub struct Congestion<'a> {
    pub path: Path<'a>,
    pub source: CongestionSource,
}

impl<'a> View for Congestion<'a> {
    type V = api::Congestion<'a>;

    open spec fn view(&self) -> api::Congestion<'a> {
        api::Congestion {
            path: self.path@,
            source: self.source@,
        }
    }
}

impl<'a> IntoEvent<api::Congestion<'a>> for Congestion<'a> {
    fn into_event(self) -> (r: api::Congestion<'a>)
        ensures
            r == self@,
    {
        api::Congestion {
            path: self.path.into_event(),
            source: self.source.into_event(),
        }
    }
}

/// Packet was dropped with the given reason
#[derive(Clone, Debug)]
pub struct PacketDropped<'a> {
    pub reason: PacketDropReason<'a>,
}

impl<'a> View for PacketDropped<'a> {
    type V = api::PacketDropped<'a>;

    open spec fn view(&self) -> api::PacketDropped<'a> {
        api::PacketDropped {
            reason: self.reason@,
        }
    }
}

impl<'a> IntoEvent<api::PacketDropped<'a>> for PacketDropped<'a> {
    fn into_event(self) -> (r: api::PacketDropped<'a>)
        ensures
            r == self@,
    {
        api::PacketDropped {
            reason: self.reason.into_event(),
        }
    }
}

/// Crypto key updated
#[derive(Clone, Debug)]
pub struct KeyUpdate {
    pub key_type: KeyType,
    pub cipher_suite: CipherSuite,
}

impl View for KeyUpdate {
    type V = api::KeyUpdate;

    open spec fn view(&self) -> api::KeyUpdate {
        api::KeyUpdate {
            key_type: self.key_type@,
            cipher_suite: self.cipher_suite@,
        }
    }
}

impl IntoEvent<api::KeyUpdate> for KeyUpdate {
    fn into_event(self) -> (r: api::KeyUpdate)
        ensures
            r == self@,
    {
        api::KeyUpdate {
            key_type: self.key_type.into_event(),
            cipher_suite: self.cipher_suite.into_event(),
        }
    }
}

#[derive(Clone, Debug)]
pub struct KeySpaceDiscarded {
    pub space: KeySpace,
}

impl View for KeySpaceDiscarded {
    type V = api::KeySpaceDiscarded;

    open spec fn view(&self) -> api::KeySpaceDiscarded {
        api::KeySpaceDiscarded {
            space: self.space@,
        }
    }
}

impl IntoEvent<api::KeySpaceDiscarded> for KeySpaceDiscarded {
    fn into_event(self) -> (r: api::KeySpaceDiscarded)
        ensures
            r == self@,
    {
        api::KeySpaceDiscarded {
            space: self.space.into_event(),
        }
    }
}

/// Connection started
#[derive(Clone, Debug)]
pub struct ConnectionStarted<'a> {
    pub path: Path<'a>,
}

impl<'a> View for ConnectionStarted<'a> {
    type V = api::ConnectionStarted<'a>;

    open spec fn view(&self) -> api::ConnectionStarted<'a> {
        api::ConnectionStarted {
            path: self.path@,
        }
    }
}

impl<'a> IntoEvent<api::ConnectionStarted<'a>> for ConnectionStarted<'a> {
    fn into_event(self) -> (r: api::ConnectionStarted<'a>)
        ensures
            r == self@,
    {
        api::ConnectionStarted {
            path: self.path.into_event(),
        }
    }
}

/// Connection closed
#[derive(Clone, Debug)]
pub struct ConnectionClosed {
    pub error: crate::connection::Error,
}

impl View for ConnectionClosed {
    type V = api::ConnectionClosed;

    open spec fn view(&self) -> api::ConnectionClosed {
        api::ConnectionClosed {
            error: self.error,
        }
    }
}

impl IntoEvent<api::ConnectionClosed> for ConnectionClosed {
    fn into_event(self) -> (r: api::ConnectionClosed)
        ensures
            r == self@,
    {
        api::ConnectionClosed {
            error: self.error,
        }
    }
}

/// Duplicate packet received
#[derive(Clone, Debug)]
pub struct DuplicatePacket<'a> {
    pub packet_header: PacketHeader,
    pub path: Path<'a>,
    pub error: DuplicatePacketError,
}

impl<'a> View for DuplicatePacket<'a> {
    type V = api::DuplicatePacket<'a>;

    open spec fn view(&self) -> api::DuplicatePacket<'a> {
        api::DuplicatePacket {
            packet_header: self.packet_header@,
            path: self.path@,
            error: self.error@,
        }
    }
}

impl<'a> IntoEvent<api::DuplicatePacket<'a>> for DuplicatePacket<'a> {
    fn into_event(self) -> (r: api::DuplicatePacket<'a>)
        ensures
            r == self@,
    {
        api::DuplicatePacket {
            packet_header: self.packet_header.into_event(),
            path: self.path.into_event(),
            error: self.error.into_event(),
        }
    }
}

/// Transport parameters received by connection
#[derive(Debug)]
pub struct TransportParametersReceived<'a> {
    pub transport_parameters: TransportParameters<'a>,
}

impl<'a> View for TransportParametersReceived<'a> {
    type V = api::TransportParametersReceived<'a>;

    open spec fn view(&self) -> api::TransportParametersReceived<'a> {
        api::TransportParametersReceived {
            transport_parameters: self.transport_parameters@,
        }
    }
}

impl<'a> IntoEvent<api::TransportParametersReceived<'a>> for TransportParametersReceived<'a> {
    fn into_event(self) -> (r: api::TransportParametersReceived<'a>)
        ensures
            r == self@,
    {
        api::TransportParametersReceived {
            transport_parameters: self.transport_parameters.into_event(),
        }
    }
}

/// Datagram sent by a connection
#[derive(Clone, Debug)]
pub struct DatagramSent {
    pub len: u16,
    /// The GSO offset at which this datagram was written
    ///
    /// If this value is greater than 0, it indicates that this datagram has been sent with other
    /// segments in a single buffer.
    ///
    /// See the [Linux kernel documentation](https://www.kernel.org/doc/html/latest/networking/segmentation-offloads.html#generic-segmentation-offload) for more details.
    pub gso_offset: usize,
}

impl View for DatagramSent {
    type V = api::DatagramSent;

    open spec fn view(&self) -> api::DatagramSent {
        api::DatagramSent {
            len: self.len,
            gso_offset: self.gso_offset,
        }
    }
}

impl IntoEvent<api::DatagramSent> for DatagramSent {
    fn into_event(self) -> (r: api::DatagramSent)
        ensures
            r == self@,
    {
        api::DatagramSent {
            len: self.len,
            gso_offset: self.gso_offset,
        }
    }
}

/// Datagram received by a connection
#[derive(Clone, Debug)]
pub struct DatagramReceived {
    pub len: u16,
}

impl View for DatagramReceived {
    type V = api::DatagramReceived;

    open spec fn view(&self) -> api::DatagramReceived {
        api::DatagramReceived {
            len: self.len,
        }
    }
}

impl IntoEvent<api::DatagramReceived> for DatagramReceived {
    fn into_event(self) -> (r: api::DatagramReceived)
        ensures
            r == self@,
    {
        api::DatagramReceived {
            len: self.len,
        }
    }
}

/// Datagram dropped by a connection
#[derive(Clone, Debug)]
pub struct DatagramDropped {
    pub len: u16,
    pub reason: DatagramDropReason,
}

impl View for DatagramDropped {
    type V = api::DatagramDropped;

    open spec fn view(&self) -> api::DatagramDropped {
        api::DatagramDropped {
            len: self.len,
            reason: self.reason@,
        }
    }
}

impl IntoEvent<api::DatagramDropped> for DatagramDropped {
    fn into_event(self) -> (r: api::DatagramDropped)
        ensures
            r == self@,
    {
        api::DatagramDropped {
            len: self.len,
            reason: self.reason.into_event(),
        }
    }
}

/// ConnectionId updated
#[derive(Clone, Debug)]
pub struct ConnectionIdUpdated<'a> {
    pub path_id: u64,
    /// The endpoint that updated its connection id
    pub cid_consumer: crate::endpoint::Location,
    pub previous: ConnectionId<'a>,
    pub current: ConnectionId<'a>,
}

impl<'a> View for ConnectionIdUpdated<'a> {
    type V = api::ConnectionIdUpdated<'a>;

    open spec fn view(&self) -> api::ConnectionIdUpdated<'a> {
        api::ConnectionIdUpdated {
            path_id: self.path_id,
            cid_consumer: crate::endpoint::spec_location(self.cid_consumer),
            previous: self.previous@,
            current: self.current@,
        }
    }
}

impl<'a> IntoEvent<api::ConnectionIdUpdated<'a>> for ConnectionIdUpdated<'a> {
    fn into_event(self) -> (r: api::ConnectionIdUpdated<'a>)
        ensures
            r == self@,
    {
        api::ConnectionIdUpdated {
            path_id: self.path_id,
            cid_consumer: self.cid_consumer.into_event(),
            previous: self.previous.into_event(),
            current: self.current.into_event(),
        }
    }
}

#[derive(Clone, Debug)]
pub struct EcnStateChanged<'a> {
    pub path: Path<'a>,
    pub state: EcnState,
}

impl<'a> View for EcnStateChanged<'a> {
    type V = api::EcnStateChanged<'a>;

    open spec fn view(&self) -> api::EcnStateChanged<'a> {
        api::EcnStateChanged {
            path: self.path@,
            state: self.state@,
        }
    }
}

impl<'a> IntoEvent<api::EcnStateChanged<'a>> for EcnStateChanged<'a> {
    fn into_event(self) -> (r: api::EcnStateChanged<'a>)
        ensures
            r == self@,
    {
        api::EcnStateChanged {
            path: self.path.into_event(),
            state: self.state.into_event(),
        }
    }
}

#[derive(Clone, Debug)]
pub struct ConnectionMigrationDenied {
    pub reason: MigrationDenyReason,
}

impl View for ConnectionMigrationDenied {
    type V = api::ConnectionMigrationDenied;

    open spec fn view(&self) -> api::ConnectionMigrationDenied {
        api::ConnectionMigrationDenied {
            reason: self.reason@,
        }
    }
}

impl IntoEvent<api::ConnectionMigrationDenied> for ConnectionMigrationDenied {
    fn into_event(self) -> (r: api::ConnectionMigrationDenied)
        ensures
            r == self@,
    {
        api::ConnectionMigrationDenied {
            reason: self.reason.into_event(),
        }
    }
}

#[derive(Clone, Debug)]
pub struct HandshakeStatusUpdated {
    pub status: HandshakeStatus,
}

impl View for HandshakeStatusUpdated {
    type V = api::HandshakeStatusUpdated;

    open spec fn view(&self) -> api::HandshakeStatusUpdated {
        api::HandshakeStatusUpdated {
            status: self.status@,
        }
    }
}

impl IntoEvent<api::HandshakeStatusUpdated> for HandshakeStatusUpdated {
    fn into_event(self) -> (r: api::HandshakeStatusUpdated)
        ensures
            r == self@,
    {
        api::HandshakeStatusUpdated {
            status: self.status.into_event(),
        }
    }
}

#[derive(Clone, Debug)]
pub struct TlsClientHello<'a> {
    pub payload: &'a [&'a [u8]],
}

impl<'a> View for TlsClientHello<'a> {
    type V = api::TlsClientHello<'a>;

    open spec fn view(&self) -> api::TlsClientHello<'a> {
        api::TlsClientHello {
            payload: self.payload,
        }
    }
}

impl<'a> IntoEvent<api::TlsClientHello<'a>> for TlsClientHello<'a> {
    fn into_event(self) -> (r: api::TlsClientHello<'a>)
        ensures
            r == self@,
    {
        api::TlsClientHello {
            payload: self.payload,
        }
    }
}

#[derive(Clone, Debug)]
pub struct TlsServerHello<'a> {
    pub payload: &'a [&'a [u8]],
}

impl<'a> View for TlsServerHello<'a> {
    type V = api::TlsServerHello<'a>;

    open spec fn view(&self) -> api::TlsServerHello<'a> {
        api::TlsServerHello {
            payload: self.payload,
        }
    }
}

impl<'a> IntoEvent<api::TlsServerHello<'a>> for TlsServerHello<'a> {
    fn into_event(self) -> (r: api::TlsServerHello<'a>)
        ensures
            r == self@,
    {
        api::TlsServerHello {
            payload: self.payload,
        }
    }
}

/// QUIC version
#[derive(Clone, Debug)]
pub struct VersionInformation<'a> {
    pub server_versions: &'a [u32],
    pub client_versions: &'a [u32],
    pub chosen_version: Option<u32>,
}

impl<'a> View for VersionInformation<'a> {
    type V = api::VersionInformation<'a>;

    open spec fn view(&self) -> api::VersionInformation<'a> {
        api::VersionInformation {
            server_versions: self.server_versions,
            client_versions: self.client_versions,
            chosen_version: self.chosen_version,
        }
    }
}

impl<'a> IntoEvent<api::VersionInformation<'a>> for VersionInformation<'a> {
    fn into_event(self) -> (r: api::VersionInformation<'a>)
        ensures
            r == self@,
    {
        api::VersionInformation {
            server_versions: self.server_versions,
            client_versions: self.client_versions,
            chosen_version: self.chosen_version,
        }
    }
}

/// Packet was sent by the endpoint
#[derive(Clone, Debug)]
pub struct EndpointPacketSent {
    pub packet_header: PacketHeader,
}

impl View for EndpointPacketSent {
    type V = api::EndpointPacketSent;

    open spec fn view(&self) -> api::EndpointPacketSent {
        api::EndpointPacketSent {
            packet_header: self.packet_header@,
        }
    }
}

impl IntoEvent<api::EndpointPacketSent> for EndpointPacketSent {
    fn into_event(self) -> (r: api::EndpointPacketSent)
        ensures
            r == self@,
    {
        api::EndpointPacketSent {
            packet_header: self.packet_header.into_event(),
        }
    }
}

/// Packet was received by the endpoint
#[derive(Clone, Debug)]
pub struct EndpointPacketReceived {
    pub packet_header: PacketHeader,
}

impl View for EndpointPacketReceived {
    type V = api::EndpointPacketReceived;

    open spec fn view(&self) -> api::EndpointPacketReceived {
        api::EndpointPacketReceived {
            packet_header: self.packet_header@,
        }
    }
}

impl IntoEvent<api::EndpointPacketReceived> for EndpointPacketReceived {
    fn into_event(self) -> (r: api::EndpointPacketReceived)
        ensures
            r == self@,
    {
        api::EndpointPacketReceived {
            packet_header: self.packet_header.into_event(),
        }
    }
}

/// Datagram sent by the endpoint
#[derive(Clone, Debug)]
pub struct EndpointDatagramSent {
    pub len: u16,
    /// The GSO offset at which this datagram was written
    ///
    /// If this value is greater than 0, it indicates that this datagram has been sent with other
    /// segments in a single buffer.
    ///
    /// See the [Linux kernel documentation](https://www.kernel.org/doc/html/latest/networking/segmentation-offloads.html#generic-segmentation-offload) for more details.
    pub gso_offset: usize,
}

impl View for EndpointDatagramSent {
    type V = api::EndpointDatagramSent;

    open spec fn view(&self) -> api::EndpointDatagramSent {
        api::EndpointDatagramSent {
            len: self.len,
            gso_offset: self.gso_offset,
        }
    }
}

impl IntoEvent<api::EndpointDatagramSent> for EndpointDatagramSent {
    fn into_event(self) -> (r: api::EndpointDatagramSent)
        ensures
            r == self@,
    {
        api::EndpointDatagramSent {
            len: self.len,
            gso_offset: self.gso_offset,
        }
    }
}

/// Datagram received by the endpoint
#[derive(Clone, Debug)]
pub struct EndpointDatagramReceived {
    pub len: u16,
}

impl View for EndpointDatagramReceived {
    type V = api::EndpointDatagramReceived;

    open spec fn view(&self) -> api::EndpointDatagramReceived {
        api::EndpointDatagramReceived {
            len: self.len,
        }
    }
}

impl IntoEvent<api::EndpointDatagramReceived> for EndpointDatagramReceived {
    fn into_event(self) -> (r: api::EndpointDatagramReceived)
        ensures
            r == self@,
    {
        api::EndpointDatagramReceived {
            len: self.len,
        }
    }
}

/// Datagram dropped by the endpoint
#[derive(Clone, Debug)]
pub struct EndpointDatagramDropped {
    pub len: u16,
    pub reason: DatagramDropReason,
}

impl View for EndpointDatagramDropped {
    type V = api::EndpointDatagramDropped;

    open spec fn view(&self) -> api::EndpointDatagramDropped {
        api::EndpointDatagramDropped {
            len: self.len,
            reason: self.reason@,
        }
    }
}

impl IntoEvent<api::EndpointDatagramDropped> for EndpointDatagramDropped {
    fn into_event(self) -> (r: api::EndpointDatagramDropped)
        ensures
            r == self@,
    {
        api::EndpointDatagramDropped {
            len: self.len,
            reason: self.reason.into_event(),
        }
    }
}

#[derive(Clone, Debug)]
pub struct EndpointConnectionAttemptFailed {
    pub error: crate::connection::Error,
}

impl View for EndpointConnectionAttemptFailed {
    type V = api::EndpointConnectionAttemptFailed;

    open spec fn view(&self) -> api::EndpointConnectionAttemptFailed {
        api::EndpointConnectionAttemptFailed {
            error: self.error,
        }
    }
}

impl IntoEvent<api::EndpointConnectionAttemptFailed> for EndpointConnectionAttemptFailed {
    fn into_event(self) -> (r: api::EndpointConnectionAttemptFailed)
        ensures
            r == self@,
    {
        api::EndpointConnectionAttemptFailed {
            error: self.error,
        }
    }
}

/// Emitted when the platform sends at least one packet
#[derive(Clone, Debug)]
pub struct PlatformTx {
    /// The number of packets sent
    pub count: usize,
}

impl View for PlatformTx {
    type V = api::PlatformTx;

    open spec fn view(&self) -> api::PlatformTx {
        api::PlatformTx {
            count: self.count,
        }
    }
}

impl IntoEvent<api::PlatformTx> for PlatformTx {
    fn into_event(self) -> (r: api::PlatformTx)
        ensures
            r == self@,
    {
        api::PlatformTx {
            count: self.count,
        }
    }
}

/// Emitted when the platform returns an error while sending datagrams
#[derive(Clone, Debug)]
pub struct PlatformTxError {
    /// The error code returned by the platform
    pub errno: i32,
}

impl View for PlatformTxError {
    type V = api::PlatformTxError;

    open spec fn view(&self) -> api::PlatformTxError {
        api::PlatformTxError {
            errno: self.errno,
        }
    }
}

impl IntoEvent<api::PlatformTxError> for PlatformTxError {
    fn into_event(self) -> (r: api::PlatformTxError)
        ensures
            r == self@,
    {
        api::PlatformTxError {
            errno: self.errno,
        }
    }
}

/// Emitted when the platform receives at least one packet
#[derive(Clone, Debug)]
pub struct PlatformRx {
    /// The number of packets received
    pub count: usize,
}

impl View for PlatformRx {
    type V = api::PlatformRx;

    open spec fn view(&self) -> api::PlatformRx {
        api::PlatformRx {
            count: self.count,
        }
    }
}

impl IntoEvent<api::PlatformRx> for PlatformRx {
    fn into_event(self) -> (r: api::PlatformRx)
        ensures
            r == self@,
    {
        api::PlatformRx {
            count: self.count,
        }
    }
}

/// Emitted when the platform returns an error while receiving datagrams
#[derive(Clone, Debug)]
pub struct PlatformRxError {
    /// The error code returned by the platform
    pub errno: i32,
}

impl View for PlatformRxError {
    type V = api::PlatformRxError;

    open spec fn view(&self) -> api::PlatformRxError {
        api::PlatformRxError {
            errno: self.errno,
        }
    }
}

impl IntoEvent<api::PlatformRxError> for PlatformRxError {
    fn into_event(self) -> (r: api::PlatformRxError)
        ensures
            r == self@,
    {
        api::PlatformRxError {
            errno: self.errno,
        }
    }
}

/// Emitted when a platform feature is configured
#[derive(Clone, Debug)]
pub struct PlatformFeatureConfigured {
    pub configuration: PlatformFeatureConfiguration,
}

impl View for PlatformFeatureConfigured {
    type V = api::PlatformFeatureConfigured;

    open spec fn view(&self) -> api::PlatformFeatureConfigured {
        api::PlatformFeatureConfigured {
            configuration: self.configuration@,
        }
    }
}

impl IntoEvent<api::PlatformFeatureConfigured> for PlatformFeatureConfigured {
    fn into_event(self) -> (r: api::PlatformFeatureConfigured)
        ensures
            r == self@,
    {
        api::PlatformFeatureConfigured {
            configuration: self.configuration.into_event(),
        }
    }
}

#[derive(Clone, Debug)]
pub struct PlatformEventLoopWakeup {
    pub timeout_expired: bool,
    pub rx_ready: bool,
    pub tx_ready: bool,
}

impl View for PlatformEventLoopWakeup {
    type V = api::PlatformEventLoopWakeup;

    open spec fn view(&self) -> api::PlatformEventLoopWakeup {
        api::PlatformEventLoopWakeup {
            timeout_expired: self.timeout_expired,
            rx_ready: self.rx_ready,
            tx_ready: self.tx_ready,
        }
    }
}

impl IntoEvent<api::PlatformEventLoopWakeup> for PlatformEventLoopWakeup {
    fn into_event(self) -> (r: api::PlatformEventLoopWakeup)
        ensures
            r == self@,
    {
        api::PlatformEventLoopWakeup {
            timeout_expired: self.timeout_expired,
            rx_ready: self.rx_ready,
            tx_ready: self.tx_ready,
        }
    }
}

#[derive(Clone, Debug)]
pub enum PlatformFeatureConfiguration {
    Gso {
        /// The maximum number of segments that can be sent in a single GSO packet
        ///
        /// If this value not greater than 1, GSO is disabled.
        max_segments: usize,
    },
    Ecn {
        enabled: bool,
    },
    MaxMtu {
        mtu: u16,
    },
}

impl View for PlatformFeatureConfiguration {
    type V = api::PlatformFeatureConfiguration;

    open spec fn view(&self) -> api::PlatformFeatureConfiguration {
        match *self {
            PlatformFeatureConfiguration::Gso { max_segments } => api::PlatformFeatureConfiguration::Gso {
                    max_segments: max_segments,
                },
            PlatformFeatureConfiguration::Ecn { enabled } => api::PlatformFeatureConfiguration::Ecn {
                    enabled: enabled,
                },
            PlatformFeatureConfiguration::MaxMtu { mtu } => api::PlatformFeatureConfiguration::MaxMtu {
                    mtu: mtu,
                },
        }
    }
}

impl IntoEvent<api::PlatformFeatureConfiguration> for PlatformFeatureConfiguration {
    fn into_event(self) -> (r: api::PlatformFeatureConfiguration)
        ensures
            r == self@,
    {
        match self {
            PlatformFeatureConfiguration::Gso { max_segments } => api::PlatformFeatureConfiguration::Gso {
                    max_segments: max_segments,
                },
            PlatformFeatureConfiguration::Ecn { enabled } => api::PlatformFeatureConfiguration::Ecn {
                    enabled: enabled,
                },
            PlatformFeatureConfiguration::MaxMtu { mtu } => api::PlatformFeatureConfiguration::MaxMtu {
                    mtu: mtu,
                },
        }
    }
}


} // verus!

verus! {

/// The header that describes a packet with number `n` of QUIC `version`:
/// the packet number space decides the packet type.
pub open spec fn spec_packet_header(n: crate::packet::PacketNumber, version: u32) -> PacketHeader {
    match n.space {
        crate::packet::PacketNumberSpace::Initial => PacketHeader::Initial { number: n.value, version },
        crate::packet::PacketNumberSpace::Handshake => PacketHeader::Handshake { number: n.value, version },
        crate::packet::PacketNumberSpace::ApplicationData => PacketHeader::OneRtt { number: n.value },
    }
}

impl PacketHeader {
    pub fn new(packet_number: crate::packet::PacketNumber, version: u32) -> (r: PacketHeader)
        ensures
            r == spec_packet_header(packet_number, version),
    {
        match packet_number.space() {
            crate::packet::PacketNumberSpace::Initial => PacketHeader::Initial {
                number: packet_number.as_u64(),
                version,
            },
            crate::packet::PacketNumberSpace::Handshake => PacketHeader::Handshake {
                number: packet_number.as_u64(),
                version,
            },
            crate::packet::PacketNumberSpace::ApplicationData => PacketHeader::OneRtt {
                number: packet_number.as_u64(),
            },
        }
    }
}

} // verus!
