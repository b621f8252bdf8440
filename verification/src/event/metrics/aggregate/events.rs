//! What the aggregating subscriber records for each event: the decisions,
//! as lists of records, and the methods that hand them to the recorders.
//! Where the event type is at hand, the values are read from the event;
//! otherwise they are given as the metrics read them: counts and sizes as
//! numbers, durations of measures in microseconds, and for a nominal
//! metric the position of the event's variant. A nominal variant's position
//! is its place in the declaration of its type, the order in which the
//! variant lists given to `Subscriber::new` must name them.
use super::subscriber::{spec_record_valid, Record, Registry, Subscriber};
use super::table::{
    BOOL_COUNTERS_MTU_UPDATED__SEARCH_COMPLETE, BOOL_COUNTERS_PACKET_LOST__IS_MTU_PROBE, BOOL_COUNTERS_RECOVERY_METRICS__CONGESTION_LIMITED, COUNTERS_ACK_RANGE_RECEIVED, COUNTERS_ACK_RANGE_SENT, COUNTERS_ACTIVE_PATH_UPDATED, COUNTERS_APPLICATION_PROTOCOL_INFORMATION, COUNTERS_BBR_STATE_CHANGED, COUNTERS_CONGESTION, COUNTERS_CONNECTION_CLOSED, COUNTERS_CONNECTION_CLOSE_FRAME_RECEIVED, COUNTERS_CONNECTION_ID_UPDATED, COUNTERS_CONNECTION_MIGRATION_DENIED, COUNTERS_CONNECTION_STARTED, COUNTERS_DATAGRAM_DROPPED, COUNTERS_DATAGRAM_DROPPED__BYTES__TOTAL, COUNTERS_DATAGRAM_RECEIVED, COUNTERS_DATAGRAM_RECEIVED__BYTES__TOTAL, COUNTERS_DATAGRAM_SENT, COUNTERS_DATAGRAM_SENT__BYTES__TOTAL, COUNTERS_DC_PATH_CREATED, COUNTERS_DC_STATE_CHANGED, COUNTERS_DELIVERY_RATE_SAMPLED, COUNTERS_DUPLICATE_PACKET, COUNTERS_ECN_STATE_CHANGED, COUNTERS_ENDPOINT_CONNECTION_ATTEMPT_DEDUPLICATED, COUNTERS_ENDPOINT_CONNECTION_ATTEMPT_FAILED, COUNTERS_ENDPOINT_DATAGRAM_DROPPED, COUNTERS_ENDPOINT_DATAGRAM_RECEIVED, COUNTERS_ENDPOINT_DATAGRAM_SENT, COUNTERS_ENDPOINT_PACKET_RECEIVED, COUNTERS_ENDPOINT_PACKET_SENT, COUNTERS_FRAME_RECEIVED, COUNTERS_FRAME_SENT, COUNTERS_HANDSHAKE_REMOTE_ADDRESS_CHANGE_OBSERVED, COUNTERS_HANDSHAKE_STATUS_UPDATED, COUNTERS_KEEP_ALIVE_TIMER_EXPIRED, COUNTERS_KEY_EXCHANGE_GROUP, COUNTERS_KEY_SPACE_DISCARDED, COUNTERS_KEY_UPDATE, COUNTERS_MTU_PROBING_COMPLETE_RECEIVED, COUNTERS_MTU_UPDATED, COUNTERS_PACKET_DROPPED, COUNTERS_PACKET_LOST, COUNTERS_PACKET_LOST__BYTES__TOTAL, COUNTERS_PACKET_RECEIVED, COUNTERS_PACKET_SENT, COUNTERS_PACKET_SENT__BYTES__TOTAL, COUNTERS_PACKET_SKIPPED, COUNTERS_PATH_CHALLENGE_UPDATED, COUNTERS_PATH_CREATED, COUNTERS_PLATFORM_EVENT_LOOP_SLEEP, COUNTERS_PLATFORM_EVENT_LOOP_STARTED, COUNTERS_PLATFORM_EVENT_LOOP_WAKEUP, COUNTERS_PLATFORM_FEATURE_CONFIGURED, COUNTERS_PLATFORM_RX, COUNTERS_PLATFORM_RX_ERROR, COUNTERS_PLATFORM_RX__ERRORS__DROPPED__TOTAL, COUNTERS_PLATFORM_RX__ERRORS__TOTAL, COUNTERS_PLATFORM_RX__PACKETS__TOTAL, COUNTERS_PLATFORM_RX__SYSCALLS__BLOCKED__TOTAL, COUNTERS_PLATFORM_RX__SYSCALLS__TOTAL, COUNTERS_PLATFORM_TX, COUNTERS_PLATFORM_TX_ERROR, COUNTERS_PLATFORM_TX__ERRORS__DROPPED__TOTAL, COUNTERS_PLATFORM_TX__ERRORS__TOTAL, COUNTERS_PLATFORM_TX__PACKETS__TOTAL, COUNTERS_PLATFORM_TX__SYSCALLS__BLOCKED__TOTAL, COUNTERS_PLATFORM_TX__SYSCALLS__TOTAL, COUNTERS_RECOVERY_METRICS, COUNTERS_RX_ACK_RANGE_DROPPED, COUNTERS_RX_STREAM_PROGRESS, COUNTERS_RX_STREAM_PROGRESS__BYTES__TOTAL, COUNTERS_SERVER_NAME_INFORMATION, COUNTERS_SLOW_START_EXITED, COUNTERS_TLS_CLIENT_HELLO, COUNTERS_TLS_EXPORTER_READY, COUNTERS_TLS_HANDSHAKE_FAILED, COUNTERS_TLS_SERVER_HELLO, COUNTERS_TRANSPORT_PARAMETERS_RECEIVED, COUNTERS_TX_STREAM_PROGRESS, COUNTERS_TX_STREAM_PROGRESS__BYTES__TOTAL, COUNTERS_VERSION_INFORMATION, MEASURES_DATAGRAM_DROPPED__BYTES, MEASURES_DATAGRAM_RECEIVED__BYTES, MEASURES_DATAGRAM_SENT__BYTES, MEASURES_DATAGRAM_SENT__GSO_OFFSET, MEASURES_ENDPOINT_DATAGRAM_DROPPED__BYTES, MEASURES_ENDPOINT_DATAGRAM_DROPPED__BYTES__TOTAL, MEASURES_ENDPOINT_DATAGRAM_RECEIVED__BYTES, MEASURES_ENDPOINT_DATAGRAM_RECEIVED__BYTES__TOTAL, MEASURES_ENDPOINT_DATAGRAM_SENT__BYTES, MEASURES_ENDPOINT_DATAGRAM_SENT__BYTES__TOTAL, MEASURES_ENDPOINT_DATAGRAM_SENT__GSO_OFFSET, MEASURES_MTU_PROBING_COMPLETE_RECEIVED__MTU, MEASURES_MTU_UPDATED__MTU, MEASURES_PACKET_LOST__BYTES, MEASURES_PACKET_SENT__BYTES, MEASURES_PLATFORM_RX__ERRORS, MEASURES_PLATFORM_RX__ERRORS__DROPPED, MEASURES_PLATFORM_RX__PACKETS, MEASURES_PLATFORM_RX__SYSCALLS, MEASURES_PLATFORM_RX__SYSCALLS__BLOCKED, MEASURES_PLATFORM_TX__ERRORS, MEASURES_PLATFORM_TX__ERRORS__DROPPED, MEASURES_PLATFORM_TX__PACKETS, MEASURES_PLATFORM_TX__SYSCALLS, MEASURES_PLATFORM_TX__SYSCALLS__BLOCKED, MEASURES_RECOVERY_METRICS__BYTES_IN_FLIGHT, MEASURES_RECOVERY_METRICS__CONGESTION_WINDOW, MEASURES_RECOVERY_METRICS__LATEST_RTT, MEASURES_RECOVERY_METRICS__MAX_ACK_DELAY, MEASURES_RECOVERY_METRICS__MIN_RTT, MEASURES_RECOVERY_METRICS__PTO_COUNT, MEASURES_RECOVERY_METRICS__RTT_VARIANCE, MEASURES_RECOVERY_METRICS__SMOOTHED_RTT, MEASURES_RX_STREAM_PROGRESS__BYTES, MEASURES_SLOW_START_EXITED__CONGESTION_WINDOW, MEASURES_TX_STREAM_PROGRESS__BYTES, NOMINAL_COUNTERS_ACK_RANGE_RECEIVED__PACKET, NOMINAL_COUNTERS_ACK_RANGE_SENT__PACKET, NOMINAL_COUNTERS_BBR_STATE_CHANGED__STATE, NOMINAL_COUNTERS_CONGESTION__SOURCE, NOMINAL_COUNTERS_CONNECTION_CLOSED__ERROR, NOMINAL_COUNTERS_CONNECTION_CLOSE_FRAME_RECEIVED__PACKET, NOMINAL_COUNTERS_CONNECTION_MIGRATION_DENIED__REASON, NOMINAL_COUNTERS_DATAGRAM_DROPPED__REASON, NOMINAL_COUNTERS_DC_STATE_CHANGED__STATE, NOMINAL_COUNTERS_DUPLICATE_PACKET__ERROR, NOMINAL_COUNTERS_DUPLICATE_PACKET__KIND, NOMINAL_COUNTERS_ECN_STATE_CHANGED__STATE, NOMINAL_COUNTERS_ENDPOINT_CONNECTION_ATTEMPT_FAILED__ERROR, NOMINAL_COUNTERS_ENDPOINT_DATAGRAM_DROPPED__REASON, NOMINAL_COUNTERS_FRAME_RECEIVED__FRAME, NOMINAL_COUNTERS_FRAME_RECEIVED__PACKET, NOMINAL_COUNTERS_FRAME_SENT__FRAME, NOMINAL_COUNTERS_FRAME_SENT__PACKET, NOMINAL_COUNTERS_HANDSHAKE_STATUS_UPDATED__STATUS, NOMINAL_COUNTERS_KEY_SPACE_DISCARDED__SPACE, NOMINAL_COUNTERS_KEY_UPDATE__CIPHER_SUITE, NOMINAL_COUNTERS_KEY_UPDATE__KEY_TYPE, NOMINAL_COUNTERS_MTU_PROBING_COMPLETE_RECEIVED__PACKET, NOMINAL_COUNTERS_MTU_UPDATED__CAUSE, NOMINAL_COUNTERS_PACKET_DROPPED__REASON, NOMINAL_COUNTERS_PACKET_LOST__KIND, NOMINAL_COUNTERS_PACKET_RECEIVED__KIND, NOMINAL_COUNTERS_PACKET_SENT__KIND, NOMINAL_COUNTERS_PATH_CHALLENGE_UPDATED__STATUS, NOMINAL_COUNTERS_SLOW_START_EXITED__CAUSE, NOMINAL_TIMERS_SLOW_START_EXITED__LATENCY, TIMERS_CONNECTION_CLOSED__LATENCY, TIMERS_DC_STATE_CHANGED__COMPLETE__LATENCY, TIMERS_DC_STATE_CHANGED__NO_VERSION_NEGOTIATED__LATENCY, TIMERS_DC_STATE_CHANGED__PATH_SECRETS__LATENCY, TIMERS_DC_STATE_CHANGED__VERSION_NEGOTIATED__LATENCY, TIMERS_HANDSHAKE_STATUS_UPDATED__COMPLETE__LATENCY, TIMERS_HANDSHAKE_STATUS_UPDATED__CONFIRMED__LATENCY, TIMERS_HANDSHAKE_STATUS_UPDATED__HANDSHAKE_DONE_ACKED__LATENCY, TIMERS_KEY_SPACE_DISCARDED__HANDSHAKE__LATENCY, TIMERS_KEY_SPACE_DISCARDED__INITIAL__LATENCY, TIMERS_KEY_SPACE_DISCARDED__ONE_RTT__LATENCY, TIMERS_PLATFORM_EVENT_LOOP_SLEEP__PROCESSING_DURATION, TIMERS_TLS_CLIENT_HELLO__LATENCY, TIMERS_TLS_SERVER_HELLO__LATENCY, TIMERS_TRANSPORT_PARAMETERS_RECEIVED__LATENCY,
};
use super::{spec_latency, ConnectionContext};
use crate::event::api;
use crate::time::Timestamp;
use core::time::Duration;
use vstd::prelude::*;

verus! {

/// The position of a `CipherSuite` among its variants, in the order they are
/// declared.
pub open spec fn spec_cipher_suite_variant_idx(v: api::CipherSuite) -> usize {
    match v {
        api::CipherSuite::TLS_AES_128_GCM_SHA256 { .. } => 0,
        api::CipherSuite::TLS_AES_256_GCM_SHA384 { .. } => 1,
        api::CipherSuite::TLS_CHACHA20_POLY1305_SHA256 { .. } => 2,
        api::CipherSuite::Unknown { .. } => 3,
    }
}

/// The position of `v` among the variants of `CipherSuite`.
pub fn cipher_suite_variant_idx(v: &api::CipherSuite) -> (r: usize)
    ensures
        r == spec_cipher_suite_variant_idx(*v),
        r < 4,
{
    match v {
        api::CipherSuite::TLS_AES_128_GCM_SHA256 { .. } => 0,
        api::CipherSuite::TLS_AES_256_GCM_SHA384 { .. } => 1,
        api::CipherSuite::TLS_CHACHA20_POLY1305_SHA256 { .. } => 2,
        api::CipherSuite::Unknown { .. } => 3,
    }
}

/// The position of a `CongestionSource` among its variants, in the order they are
/// declared.
pub open spec fn spec_congestion_source_variant_idx(v: api::CongestionSource) -> usize {
    match v {
        api::CongestionSource::Ecn { .. } => 0,
        api::CongestionSource::PacketLoss { .. } => 1,
    }
}

/// The position of `v` among the variants of `CongestionSource`.
pub fn congestion_source_variant_idx(v: &api::CongestionSource) -> (r: usize)
    ensures
        r == spec_congestion_source_variant_idx(*v),
        r < 2,
{
    match v {
        api::CongestionSource::Ecn { .. } => 0,
        api::CongestionSource::PacketLoss { .. } => 1,
    }
}

/// The position of a `DatagramDropReason` among its variants, in the order they are
/// declared.
pub open spec fn spec_datagram_drop_reason_variant_idx(v: api::DatagramDropReason) -> usize {
    match v {
        api::DatagramDropReason::DecodingFailed { .. } => 0,
        api::DatagramDropReason::InvalidRetryToken { .. } => 1,
        api::DatagramDropReason::UnsupportedVersion { .. } => 2,
        api::DatagramDropReason::InvalidDestinationConnectionId { .. } => 3,
        api::DatagramDropReason::InvalidSourceConnectionId { .. } => 4,
        api::DatagramDropReason::UnknownDestinationConnectionId { .. } => 5,
        api::DatagramDropReason::RejectedConnectionAttempt { .. } => 6,
    }
}

/// The position of `v` among the variants of `DatagramDropReason`.
pub fn datagram_drop_reason_variant_idx(v: &api::DatagramDropReason) -> (r: usize)
    ensures
        r == spec_datagram_drop_reason_variant_idx(*v),
        r < 7,
{
    match v {
        api::DatagramDropReason::DecodingFailed { .. } => 0,
        api::DatagramDropReason::InvalidRetryToken { .. } => 1,
        api::DatagramDropReason::UnsupportedVersion { .. } => 2,
        api::DatagramDropReason::InvalidDestinationConnectionId { .. } => 3,
        api::DatagramDropReason::InvalidSourceConnectionId { .. } => 4,
        api::DatagramDropReason::UnknownDestinationConnectionId { .. } => 5,
        api::DatagramDropReason::RejectedConnectionAttempt { .. } => 6,
    }
}

/// The position of a `DuplicatePacketError` among its variants, in the order they are
/// declared.
pub open spec fn spec_duplicate_packet_error_variant_idx(v: api::DuplicatePacketError) -> usize {
    match v {
        api::DuplicatePacketError::Duplicate { .. } => 0,
        api::DuplicatePacketError::TooOld { .. } => 1,
    }
}

/// The position of `v` among the variants of `DuplicatePacketError`.
pub fn duplicate_packet_error_variant_idx(v: &api::DuplicatePacketError) -> (r: usize)
    ensures
        r == spec_duplicate_packet_error_variant_idx(*v),
        r < 2,
{
    match v {
        api::DuplicatePacketError::Duplicate { .. } => 0,
        api::DuplicatePacketError::TooOld { .. } => 1,
    }
}

/// The position of a `EcnState` among its variants, in the order they are
/// declared.
pub open spec fn spec_ecn_state_variant_idx(v: api::EcnState) -> usize {
    match v {
        api::EcnState::Testing { .. } => 0,
        api::EcnState::Unknown { .. } => 1,
        api::EcnState::Failed { .. } => 2,
        api::EcnState::Capable { .. } => 3,
    }
}

/// The position of `v` among the variants of `EcnState`.
pub fn ecn_state_variant_idx(v: &api::EcnState) -> (r: usize)
    ensures
        r == spec_ecn_state_variant_idx(*v),
        r < 4,
{
    match v {
        api::EcnState::Testing { .. } => 0,
        api::EcnState::Unknown { .. } => 1,
        api::EcnState::Failed { .. } => 2,
        api::EcnState::Capable { .. } => 3,
    }
}

/// The position of a `Frame` among its variants, in the order they are
/// declared.
pub open spec fn spec_frame_variant_idx(v: api::Frame) -> usize {
    match v {
        api::Frame::Padding { .. } => 0,
        api::Frame::Ping { .. } => 1,
        api::Frame::Ack { .. } => 2,
        api::Frame::ResetStream { .. } => 3,
        api::Frame::StopSending { .. } => 4,
        api::Frame::Crypto { .. } => 5,
        api::Frame::NewToken { .. } => 6,
        api::Frame::Stream { .. } => 7,
        api::Frame::MaxData { .. } => 8,
        api::Frame::MaxStreamData { .. } => 9,
        api::Frame::MaxStreams { .. } => 10,
        api::Frame::DataBlocked { .. } => 11,
        api::Frame::StreamDataBlocked { .. } => 12,
        api::Frame::StreamsBlocked { .. } => 13,
        api::Frame::NewConnectionId { .. } => 14,
        api::Frame::RetireConnectionId { .. } => 15,
        api::Frame::PathChallenge { .. } => 16,
        api::Frame::PathResponse { .. } => 17,
        api::Frame::ConnectionClose { .. } => 18,
        api::Frame::HandshakeDone { .. } => 19,
    }
}

/// The position of `v` among the variants of `Frame`.
pub fn frame_variant_idx(v: &api::Frame) -> (r: usize)
    ensures
        r == spec_frame_variant_idx(*v),
        r < 20,
{
    match v {
        api::Frame::Padding { .. } => 0,
        api::Frame::Ping { .. } => 1,
        api::Frame::Ack { .. } => 2,
        api::Frame::ResetStream { .. } => 3,
        api::Frame::StopSending { .. } => 4,
        api::Frame::Crypto { .. } => 5,
        api::Frame::NewToken { .. } => 6,
        api::Frame::Stream { .. } => 7,
        api::Frame::MaxData { .. } => 8,
        api::Frame::MaxStreamData { .. } => 9,
        api::Frame::MaxStreams { .. } => 10,
        api::Frame::DataBlocked { .. } => 11,
        api::Frame::StreamDataBlocked { .. } => 12,
        api::Frame::StreamsBlocked { .. } => 13,
        api::Frame::NewConnectionId { .. } => 14,
        api::Frame::RetireConnectionId { .. } => 15,
        api::Frame::PathChallenge { .. } => 16,
        api::Frame::PathResponse { .. } => 17,
        api::Frame::ConnectionClose { .. } => 18,
        api::Frame::HandshakeDone { .. } => 19,
    }
}

/// The position of a `HandshakeStatus` among its variants, in the order they are
/// declared.
pub open spec fn spec_handshake_status_variant_idx(v: api::HandshakeStatus) -> usize {
    match v {
        api::HandshakeStatus::Complete { .. } => 0,
        api::HandshakeStatus::Confirmed { .. } => 1,
        api::HandshakeStatus::HandshakeDoneAcked { .. } => 2,
        api::HandshakeStatus::HandshakeDoneLost { .. } => 3,
    }
}

/// The position of `v` among the variants of `HandshakeStatus`.
pub fn handshake_status_variant_idx(v: &api::HandshakeStatus) -> (r: usize)
    ensures
        r == spec_handshake_status_variant_idx(*v),
        r < 4,
{
    match v {
        api::HandshakeStatus::Complete { .. } => 0,
        api::HandshakeStatus::Confirmed { .. } => 1,
        api::HandshakeStatus::HandshakeDoneAcked { .. } => 2,
        api::HandshakeStatus::HandshakeDoneLost { .. } => 3,
    }
}

/// The position of a `KeySpace` among its variants, in the order they are
/// declared.
pub open spec fn spec_key_space_variant_idx(v: api::KeySpace) -> usize {
    match v {
        api::KeySpace::Initial { .. } => 0,
        api::KeySpace::Handshake { .. } => 1,
        api::KeySpace::ZeroRtt { .. } => 2,
        api::KeySpace::OneRtt { .. } => 3,
    }
}

/// The position of `v` among the variants of `KeySpace`.
pub fn key_space_variant_idx(v: &api::KeySpace) -> (r: usize)
    ensures
        r == spec_key_space_variant_idx(*v),
        r < 4,
{
    match v {
        api::KeySpace::Initial { .. } => 0,
        api::KeySpace::Handshake { .. } => 1,
        api::KeySpace::ZeroRtt { .. } => 2,
        api::KeySpace::OneRtt { .. } => 3,
    }
}

/// The position of a `KeyType` among its variants, in the order they are
/// declared.
pub open spec fn spec_key_type_variant_idx(v: api::KeyType) -> usize {
    match v {
        api::KeyType::Initial { .. } => 0,
        api::KeyType::Handshake { .. } => 1,
        api::KeyType::ZeroRtt { .. } => 2,
        api::KeyType::OneRtt { .. } => 3,
    }
}

/// The position of `v` among the variants of `KeyType`.
pub fn key_type_variant_idx(v: &api::KeyType) -> (r: usize)
    ensures
        r == spec_key_type_variant_idx(*v),
        r < 4,
{
    match v {
        api::KeyType::Initial { .. } => 0,
        api::KeyType::Handshake { .. } => 1,
        api::KeyType::ZeroRtt { .. } => 2,
        api::KeyType::OneRtt { .. } => 3,
    }
}

/// The position of a `MigrationDenyReason` among its variants, in the order they are
/// declared.
pub open spec fn spec_migration_deny_reason_variant_idx(v: api::MigrationDenyReason) -> usize {
    match v {
        api::MigrationDenyReason::PortScopeChanged { .. } => 0,
        api::MigrationDenyReason::IpScopeChange { .. } => 1,
        api::MigrationDenyReason::ConnectionMigrationDisabled { .. } => 2,
    }
}

/// The position of `v` among the variants of `MigrationDenyReason`.
pub fn migration_deny_reason_variant_idx(v: &api::MigrationDenyReason) -> (r: usize)
    ensures
        r == spec_migration_deny_reason_variant_idx(*v),
        r < 3,
{
    match v {
        api::MigrationDenyReason::PortScopeChanged { .. } => 0,
        api::MigrationDenyReason::IpScopeChange { .. } => 1,
        api::MigrationDenyReason::ConnectionMigrationDisabled { .. } => 2,
    }
}

/// The position of a `PacketDropReason` among its variants, in the order they are
/// declared.
pub open spec fn spec_packet_drop_reason_variant_idx(v: api::PacketDropReason<'_>) -> usize {
    match v {
        api::PacketDropReason::ConnectionError { .. } => 0,
        api::PacketDropReason::HandshakeNotComplete { .. } => 1,
        api::PacketDropReason::VersionMismatch { .. } => 2,
        api::PacketDropReason::ConnectionIdMismatch { .. } => 3,
        api::PacketDropReason::UnprotectFailed { .. } => 4,
        api::PacketDropReason::DecryptionFailed { .. } => 5,
        api::PacketDropReason::DecodingFailed { .. } => 6,
        api::PacketDropReason::NonEmptyRetryToken { .. } => 7,
        api::PacketDropReason::RetryDiscarded { .. } => 8,
    }
}

/// The position of `v` among the variants of `PacketDropReason`.
pub fn packet_drop_reason_variant_idx(v: &api::PacketDropReason<'_>) -> (r: usize)
    ensures
        r == spec_packet_drop_reason_variant_idx(*v),
        r < 9,
{
    match v {
        api::PacketDropReason::ConnectionError { .. } => 0,
        api::PacketDropReason::HandshakeNotComplete { .. } => 1,
        api::PacketDropReason::VersionMismatch { .. } => 2,
        api::PacketDropReason::ConnectionIdMismatch { .. } => 3,
        api::PacketDropReason::UnprotectFailed { .. } => 4,
        api::PacketDropReason::DecryptionFailed { .. } => 5,
        api::PacketDropReason::DecodingFailed { .. } => 6,
        api::PacketDropReason::NonEmptyRetryToken { .. } => 7,
        api::PacketDropReason::RetryDiscarded { .. } => 8,
    }
}

/// The position of a `PacketHeader` among its variants, in the order they are
/// declared.
pub open spec fn spec_packet_header_variant_idx(v: api::PacketHeader) -> usize {
    match v {
        api::PacketHeader::Initial { .. } => 0,
        api::PacketHeader::Handshake { .. } => 1,
        api::PacketHeader::ZeroRtt { .. } => 2,
        api::PacketHeader::OneRtt { .. } => 3,
        api::PacketHeader::Retry { .. } => 4,
        api::PacketHeader::VersionNegotiation { .. } => 5,
        api::PacketHeader::StatelessReset { .. } => 6,
    }
}

/// The position of `v` among the variants of `PacketHeader`.
pub fn packet_header_variant_idx(v: &api::PacketHeader) -> (r: usize)
    ensures
        r == spec_packet_header_variant_idx(*v),
        r < 7,
{
    match v {
        api::PacketHeader::Initial { .. } => 0,
        api::PacketHeader::Handshake { .. } => 1,
        api::PacketHeader::ZeroRtt { .. } => 2,
        api::PacketHeader::OneRtt { .. } => 3,
        api::PacketHeader::Retry { .. } => 4,
        api::PacketHeader::VersionNegotiation { .. } => 5,
        api::PacketHeader::StatelessReset { .. } => 6,
    }
}

/// What the aggregating subscriber records for a `application_protocol_information` event, in order.
pub open spec fn spec_application_protocol_information_records() -> Seq<Record> {
    seq![Record::Count { counter: COUNTERS_APPLICATION_PROTOCOL_INFORMATION, value: 1 }]
}

/// The records for a `application_protocol_information` event.
pub fn application_protocol_information_records() -> (r: Vec<Record>)
    ensures
        r@ == spec_application_protocol_information_records(),
        forall|i: int| 0 <= i < r@.len() ==> spec_record_valid(#[trigger] r@[i]),
{
    let mut r: Vec<Record> = Vec::new();
    r.push(Record::Count { counter: COUNTERS_APPLICATION_PROTOCOL_INFORMATION, value: 1 });
    assert(r@ =~= spec_application_protocol_information_records());
    r
}

/// What the aggregating subscriber records for a `server_name_information` event, in order.
pub open spec fn spec_server_name_information_records() -> Seq<Record> {
    seq![Record::Count { counter: COUNTERS_SERVER_NAME_INFORMATION, value: 1 }]
}

/// The records for a `server_name_information` event.
pub fn server_name_information_records() -> (r: Vec<Record>)
    ensures
        r@ == spec_server_name_information_records(),
        forall|i: int| 0 <= i < r@.len() ==> spec_record_valid(#[trigger] r@[i]),
{
    let mut r: Vec<Record> = Vec::new();
    r.push(Record::Count { counter: COUNTERS_SERVER_NAME_INFORMATION, value: 1 });
    assert(r@ =~= spec_server_name_information_records());
    r
}

/// What the aggregating subscriber records for a `key_exchange_group` event, in order.
pub open spec fn spec_key_exchange_group_records() -> Seq<Record> {
    seq![Record::Count { counter: COUNTERS_KEY_EXCHANGE_GROUP, value: 1 }]
}

/// The records for a `key_exchange_group` event.
pub fn key_exchange_group_records() -> (r: Vec<Record>)
    ensures
        r@ == spec_key_exchange_group_records(),
        forall|i: int| 0 <= i < r@.len() ==> spec_record_valid(#[trigger] r@[i]),
{
    let mut r: Vec<Record> = Vec::new();
    r.push(Record::Count { counter: COUNTERS_KEY_EXCHANGE_GROUP, value: 1 });
    assert(r@ =~= spec_key_exchange_group_records());
    r
}

/// What the aggregating subscriber records for a `packet_skipped` event, in order.
pub open spec fn spec_packet_skipped_records() -> Seq<Record> {
    seq![Record::Count { counter: COUNTERS_PACKET_SKIPPED, value: 1 }]
}

/// The records for a `packet_skipped` event.
pub fn packet_skipped_records() -> (r: Vec<Record>)
    ensures
        r@ == spec_packet_skipped_records(),
        forall|i: int| 0 <= i < r@.len() ==> spec_record_valid(#[trigger] r@[i]),
{
    let mut r: Vec<Record> = Vec::new();
    r.push(Record::Count { counter: COUNTERS_PACKET_SKIPPED, value: 1 });
    assert(r@ =~= spec_packet_skipped_records());
    r
}

/// What the aggregating subscriber records for a `packet_sent` event, in order.
pub open spec fn spec_packet_sent_records(packet_header: usize, packet_len: u64) -> Seq<Record> {
    seq![Record::Count { counter: COUNTERS_PACKET_SENT, value: 1 }]
        + seq![Record::CountNominal { counter: NOMINAL_COUNTERS_PACKET_SENT__KIND, variant: packet_header }]
        + seq![Record::Count { counter: COUNTERS_PACKET_SENT__BYTES__TOTAL, value: packet_len }]
        + seq![Record::Measure { measure: MEASURES_PACKET_SENT__BYTES, value: packet_len }]
}

/// The records for a `packet_sent` event.
pub fn packet_sent_records(packet_header: usize, packet_len: u64) -> (r: Vec<Record>)
    ensures
        r@ == spec_packet_sent_records(packet_header, packet_len),
        forall|i: int| 0 <= i < r@.len() ==> spec_record_valid(#[trigger] r@[i]),
{
    let mut r: Vec<Record> = Vec::new();
    r.push(Record::Count { counter: COUNTERS_PACKET_SENT, value: 1 });
    r.push(Record::CountNominal { counter: NOMINAL_COUNTERS_PACKET_SENT__KIND, variant: packet_header });
    r.push(Record::Count { counter: COUNTERS_PACKET_SENT__BYTES__TOTAL, value: packet_len });
    r.push(Record::Measure { measure: MEASURES_PACKET_SENT__BYTES, value: packet_len });
    assert(r@ =~= spec_packet_sent_records(packet_header, packet_len));
    r
}

/// What the aggregating subscriber records for a `packet_received` event, in order.
pub open spec fn spec_packet_received_records(event: api::PacketReceived) -> Seq<Record> {
    seq![Record::Count { counter: COUNTERS_PACKET_RECEIVED, value: 1 }]
        + seq![Record::CountNominal { counter: NOMINAL_COUNTERS_PACKET_RECEIVED__KIND, variant: spec_packet_header_variant_idx(event.packet_header) }]
}

/// The records for a `packet_received` event.
pub fn packet_received_records(event: &api::PacketReceived) -> (r: Vec<Record>)
    ensures
        r@ == spec_packet_received_records(*event),
        forall|i: int| 0 <= i < r@.len() ==> spec_record_valid(#[trigger] r@[i]),
{
    let mut r: Vec<Record> = Vec::new();
    r.push(Record::Count { counter: COUNTERS_PACKET_RECEIVED, value: 1 });
    r.push(Record::CountNominal { counter: NOMINAL_COUNTERS_PACKET_RECEIVED__KIND, variant: packet_header_variant_idx(&event.packet_header) });
    assert(r@ =~= spec_packet_received_records(*event));
    r
}

/// What the aggregating subscriber records for a `active_path_updated` event, in order.
pub open spec fn spec_active_path_updated_records(event: api::ActivePathUpdated<'_>) -> Seq<Record> {
    seq![Record::Count { counter: COUNTERS_ACTIVE_PATH_UPDATED, value: 1 }]
}

/// The records for a `active_path_updated` event.
pub fn active_path_updated_records(event: &api::ActivePathUpdated<'_>) -> (r: Vec<Record>)
    ensures
        r@ == spec_active_path_updated_records(*event),
        forall|i: int| 0 <= i < r@.len() ==> spec_record_valid(#[trigger] r@[i]),
{
    let mut r: Vec<Record> = Vec::new();
    r.push(Record::Count { counter: COUNTERS_ACTIVE_PATH_UPDATED, value: 1 });
    assert(r@ =~= spec_active_path_updated_records(*event));
    r
}

/// What the aggregating subscriber records for a `path_created` event, in order.
pub open spec fn spec_path_created_records(event: api::PathCreated<'_>) -> Seq<Record> {
    seq![Record::Count { counter: COUNTERS_PATH_CREATED, value: 1 }]
}

/// The records for a `path_created` event.
pub fn path_created_records(event: &api::PathCreated<'_>) -> (r: Vec<Record>)
    ensures
        r@ == spec_path_created_records(*event),
        forall|i: int| 0 <= i < r@.len() ==> spec_record_valid(#[trigger] r@[i]),
{
    let mut r: Vec<Record> = Vec::new();
    r.push(Record::Count { counter: COUNTERS_PATH_CREATED, value: 1 });
    assert(r@ =~= spec_path_created_records(*event));
    r
}

/// What the aggregating subscriber records for a `frame_sent` event, in order.
pub open spec fn spec_frame_sent_records(event: api::FrameSent) -> Seq<Record> {
    seq![Record::Count { counter: COUNTERS_FRAME_SENT, value: 1 }]
        + seq![Record::CountNominal { counter: NOMINAL_COUNTERS_FRAME_SENT__PACKET, variant: spec_packet_header_variant_idx(event.packet_header) }]
        + seq![Record::CountNominal { counter: NOMINAL_COUNTERS_FRAME_SENT__FRAME, variant: spec_frame_variant_idx(event.frame) }]
}

/// The records for a `frame_sent` event.
pub fn frame_sent_records(event: &api::FrameSent) -> (r: Vec<Record>)
    ensures
        r@ == spec_frame_sent_records(*event),
        forall|i: int| 0 <= i < r@.len() ==> spec_record_valid(#[trigger] r@[i]),
{
    let mut r: Vec<Record> = Vec::new();
    r.push(Record::Count { counter: COUNTERS_FRAME_SENT, value: 1 });
    r.push(Record::CountNominal { counter: NOMINAL_COUNTERS_FRAME_SENT__PACKET, variant: packet_header_variant_idx(&event.packet_header) });
    r.push(Record::CountNominal { counter: NOMINAL_COUNTERS_FRAME_SENT__FRAME, variant: frame_variant_idx(&event.frame) });
    assert(r@ =~= spec_frame_sent_records(*event));
    r
}

/// What the aggregating subscriber records for a `frame_received` event, in order.
pub open spec fn spec_frame_received_records(event: api::FrameReceived<'_>) -> Seq<Record> {
    seq![Record::Count { counter: COUNTERS_FRAME_RECEIVED, value: 1 }]
        + seq![Record::CountNominal { counter: NOMINAL_COUNTERS_FRAME_RECEIVED__PACKET, variant: spec_packet_header_variant_idx(event.packet_header) }]
        + seq![Record::CountNominal { counter: NOMINAL_COUNTERS_FRAME_RECEIVED__FRAME, variant: spec_frame_variant_idx(event.frame) }]
}

/// The records for a `frame_received` event.
pub fn frame_received_records(event: &api::FrameReceived<'_>) -> (r: Vec<Record>)
    ensures
        r@ == spec_frame_received_records(*event),
        forall|i: int| 0 <= i < r@.len() ==> spec_record_valid(#[trigger] r@[i]),
{
    let mut r: Vec<Record> = Vec::new();
    r.push(Record::Count { counter: COUNTERS_FRAME_RECEIVED, value: 1 });
    r.push(Record::CountNominal { counter: NOMINAL_COUNTERS_FRAME_RECEIVED__PACKET, variant: packet_header_variant_idx(&event.packet_header) });
    r.push(Record::CountNominal { counter: NOMINAL_COUNTERS_FRAME_RECEIVED__FRAME, variant: frame_variant_idx(&event.frame) });
    assert(r@ =~= spec_frame_received_records(*event));
    r
}

/// What the aggregating subscriber records for a `connection_close_frame_received` event, in order.
pub open spec fn spec_connection_close_frame_received_records(packet_header: usize) -> Seq<Record> {
    seq![Record::Count { counter: COUNTERS_CONNECTION_CLOSE_FRAME_RECEIVED, value: 1 }]
        + seq![Record::CountNominal { counter: NOMINAL_COUNTERS_CONNECTION_CLOSE_FRAME_RECEIVED__PACKET, variant: packet_header }]
}

/// The records for a `connection_close_frame_received` event.
pub fn connection_close_frame_received_records(packet_header: usize) -> (r: Vec<Record>)
    ensures
        r@ == spec_connection_close_frame_received_records(packet_header),
        forall|i: int| 0 <= i < r@.len() ==> spec_record_valid(#[trigger] r@[i]),
{
    let mut r: Vec<Record> = Vec::new();
    r.push(Record::Count { counter: COUNTERS_CONNECTION_CLOSE_FRAME_RECEIVED, value: 1 });
    r.push(Record::CountNominal { counter: NOMINAL_COUNTERS_CONNECTION_CLOSE_FRAME_RECEIVED__PACKET, variant: packet_header });
    assert(r@ =~= spec_connection_close_frame_received_records(packet_header));
    r
}

/// What the aggregating subscriber records for a `packet_lost` event, in order.
pub open spec fn spec_packet_lost_records(event: api::PacketLost<'_>) -> Seq<Record> {
    seq![Record::Count { counter: COUNTERS_PACKET_LOST, value: 1 }]
        + seq![Record::CountNominal { counter: NOMINAL_COUNTERS_PACKET_LOST__KIND, variant: spec_packet_header_variant_idx(event.packet_header) }]
        + seq![Record::Count { counter: COUNTERS_PACKET_LOST__BYTES__TOTAL, value: event.bytes_lost as u64 }]
        + seq![Record::Measure { measure: MEASURES_PACKET_LOST__BYTES, value: event.bytes_lost as u64 }]
        + seq![Record::CountBool { counter: BOOL_COUNTERS_PACKET_LOST__IS_MTU_PROBE, value: event.is_mtu_probe }]
}

/// The records for a `packet_lost` event.
pub fn packet_lost_records(event: &api::PacketLost<'_>) -> (r: Vec<Record>)
    ensures
        r@ == spec_packet_lost_records(*event),
        forall|i: int| 0 <= i < r@.len() ==> spec_record_valid(#[trigger] r@[i]),
{
    let mut r: Vec<Record> = Vec::new();
    r.push(Record::Count { counter: COUNTERS_PACKET_LOST, value: 1 });
    r.push(Record::CountNominal { counter: NOMINAL_COUNTERS_PACKET_LOST__KIND, variant: packet_header_variant_idx(&event.packet_header) });
    r.push(Record::Count { counter: COUNTERS_PACKET_LOST__BYTES__TOTAL, value: event.bytes_lost as u64 });
    r.push(Record::Measure { measure: MEASURES_PACKET_LOST__BYTES, value: event.bytes_lost as u64 });
    r.push(Record::CountBool { counter: BOOL_COUNTERS_PACKET_LOST__IS_MTU_PROBE, value: event.is_mtu_probe });
    assert(r@ =~= spec_packet_lost_records(*event));
    r
}

/// What the aggregating subscriber records for a `recovery_metrics` event, in order.
pub open spec fn spec_recovery_metrics_records(
    min_rtt: u64,
    smoothed_rtt: u64,
    latest_rtt: u64,
    rtt_variance: u64,
    max_ack_delay: u64,
    pto_count: u64,
    congestion_window: u64,
    bytes_in_flight: u64,
    congestion_limited: bool,
) -> Seq<Record> {
    seq![Record::Count { counter: COUNTERS_RECOVERY_METRICS, value: 1 }]
        + seq![Record::Measure { measure: MEASURES_RECOVERY_METRICS__MIN_RTT, value: min_rtt }]
        + seq![Record::Measure { measure: MEASURES_RECOVERY_METRICS__SMOOTHED_RTT, value: smoothed_rtt }]
        + seq![Record::Measure { measure: MEASURES_RECOVERY_METRICS__LATEST_RTT, value: latest_rtt }]
        + seq![Record::Measure { measure: MEASURES_RECOVERY_METRICS__RTT_VARIANCE, value: rtt_variance }]
        + seq![Record::Measure { measure: MEASURES_RECOVERY_METRICS__MAX_ACK_DELAY, value: max_ack_delay }]
        + seq![Record::Measure { measure: MEASURES_RECOVERY_METRICS__PTO_COUNT, value: pto_count }]
        + seq![Record::Measure { measure: MEASURES_RECOVERY_METRICS__CONGESTION_WINDOW, value: congestion_window }]
        + seq![Record::Measure { measure: MEASURES_RECOVERY_METRICS__BYTES_IN_FLIGHT, value: bytes_in_flight }]
        + seq![Record::CountBool { counter: BOOL_COUNTERS_RECOVERY_METRICS__CONGESTION_LIMITED, value: congestion_limited }]
}

/// The records for a `recovery_metrics` event.
pub fn recovery_metrics_records(
    min_rtt: u64,
    smoothed_rtt: u64,
    latest_rtt: u64,
    rtt_variance: u64,
    max_ack_delay: u64,
    pto_count: u64,
    congestion_window: u64,
    bytes_in_flight: u64,
    congestion_limited: bool,
) -> (r: Vec<Record>)
    ensures
        r@ == spec_recovery_metrics_records(min_rtt, smoothed_rtt, latest_rtt, rtt_variance, max_ack_delay, pto_count, congestion_window, bytes_in_flight, congestion_limited),
        forall|i: int| 0 <= i < r@.len() ==> spec_record_valid(#[trigger] r@[i]),
{
    let mut r: Vec<Record> = Vec::new();
    r.push(Record::Count { counter: COUNTERS_RECOVERY_METRICS, value: 1 });
    r.push(Record::Measure { measure: MEASURES_RECOVERY_METRICS__MIN_RTT, value: min_rtt });
    r.push(Record::Measure { measure: MEASURES_RECOVERY_METRICS__SMOOTHED_RTT, value: smoothed_rtt });
    r.push(Record::Measure { measure: MEASURES_RECOVERY_METRICS__LATEST_RTT, value: latest_rtt });
    r.push(Record::Measure { measure: MEASURES_RECOVERY_METRICS__RTT_VARIANCE, value: rtt_variance });
    r.push(Record::Measure { measure: MEASURES_RECOVERY_METRICS__MAX_ACK_DELAY, value: max_ack_delay });
    r.push(Record::Measure { measure: MEASURES_RECOVERY_METRICS__PTO_COUNT, value: pto_count });
    r.push(Record::Measure { measure: MEASURES_RECOVERY_METRICS__CONGESTION_WINDOW, value: congestion_window });
    r.push(Record::Measure { measure: MEASURES_RECOVERY_METRICS__BYTES_IN_FLIGHT, value: bytes_in_flight });
    r.push(Record::CountBool { counter: BOOL_COUNTERS_RECOVERY_METRICS__CONGESTION_LIMITED, value: congestion_limited });
    assert(r@ =~= spec_recovery_metrics_records(min_rtt, smoothed_rtt, latest_rtt, rtt_variance, max_ack_delay, pto_count, congestion_window, bytes_in_flight, congestion_limited));
    r
}

/// What the aggregating subscriber records for a `congestion` event, in order.
pub open spec fn spec_congestion_records(event: api::Congestion<'_>) -> Seq<Record> {
    seq![Record::Count { counter: COUNTERS_CONGESTION, value: 1 }]
        + seq![Record::CountNominal { counter: NOMINAL_COUNTERS_CONGESTION__SOURCE, variant: spec_congestion_source_variant_idx(event.source) }]
}

/// The records for a `congestion` event.
pub fn congestion_records(event: &api::Congestion<'_>) -> (r: Vec<Record>)
    ensures
        r@ == spec_congestion_records(*event),
        forall|i: int| 0 <= i < r@.len() ==> spec_record_valid(#[trigger] r@[i]),
{
    let mut r: Vec<Record> = Vec::new();
    r.push(Record::Count { counter: COUNTERS_CONGESTION, value: 1 });
    r.push(Record::CountNominal { counter: NOMINAL_COUNTERS_CONGESTION__SOURCE, variant: congestion_source_variant_idx(&event.source) });
    assert(r@ =~= spec_congestion_records(*event));
    r
}

/// What the aggregating subscriber records for a `rx_ack_range_dropped` event, in order.
pub open spec fn spec_rx_ack_range_dropped_records() -> Seq<Record> {
    seq![Record::Count { counter: COUNTERS_RX_ACK_RANGE_DROPPED, value: 1 }]
}

/// The records for a `rx_ack_range_dropped` event.
pub fn rx_ack_range_dropped_records() -> (r: Vec<Record>)
    ensures
        r@ == spec_rx_ack_range_dropped_records(),
        forall|i: int| 0 <= i < r@.len() ==> spec_record_valid(#[trigger] r@[i]),
{
    let mut r: Vec<Record> = Vec::new();
    r.push(Record::Count { counter: COUNTERS_RX_ACK_RANGE_DROPPED, value: 1 });
    assert(r@ =~= spec_rx_ack_range_dropped_records());
    r
}

/// What the aggregating subscriber records for a `ack_range_received` event, in order.
pub open spec fn spec_ack_range_received_records(packet_header: usize) -> Seq<Record> {
    seq![Record::Count { counter: COUNTERS_ACK_RANGE_RECEIVED, value: 1 }]
        + seq![Record::CountNominal { counter: NOMINAL_COUNTERS_ACK_RANGE_RECEIVED__PACKET, variant: packet_header }]
}

/// The records for a `ack_range_received` event.
pub fn ack_range_received_records(packet_header: usize) -> (r: Vec<Record>)
    ensures
        r@ == spec_ack_range_received_records(packet_header),
        forall|i: int| 0 <= i < r@.len() ==> spec_record_valid(#[trigger] r@[i]),
{
    let mut r: Vec<Record> = Vec::new();
    r.push(Record::Count { counter: COUNTERS_ACK_RANGE_RECEIVED, value: 1 });
    r.push(Record::CountNominal { counter: NOMINAL_COUNTERS_ACK_RANGE_RECEIVED__PACKET, variant: packet_header });
    assert(r@ =~= spec_ack_range_received_records(packet_header));
    r
}

/// What the aggregating subscriber records for a `ack_range_sent` event, in order.
pub open spec fn spec_ack_range_sent_records(packet_header: usize) -> Seq<Record> {
    seq![Record::Count { counter: COUNTERS_ACK_RANGE_SENT, value: 1 }]
        + seq![Record::CountNominal { counter: NOMINAL_COUNTERS_ACK_RANGE_SENT__PACKET, variant: packet_header }]
}

/// The records for a `ack_range_sent` event.
pub fn ack_range_sent_records(packet_header: usize) -> (r: Vec<Record>)
    ensures
        r@ == spec_ack_range_sent_records(packet_header),
        forall|i: int| 0 <= i < r@.len() ==> spec_record_valid(#[trigger] r@[i]),
{
    let mut r: Vec<Record> = Vec::new();
    r.push(Record::Count { counter: COUNTERS_ACK_RANGE_SENT, value: 1 });
    r.push(Record::CountNominal { counter: NOMINAL_COUNTERS_ACK_RANGE_SENT__PACKET, variant: packet_header });
    assert(r@ =~= spec_ack_range_sent_records(packet_header));
    r
}

/// What the aggregating subscriber records for a `packet_dropped` event, in order.
pub open spec fn spec_packet_dropped_records(event: api::PacketDropped<'_>) -> Seq<Record> {
    seq![Record::Count { counter: COUNTERS_PACKET_DROPPED, value: 1 }]
        + seq![Record::CountNominal { counter: NOMINAL_COUNTERS_PACKET_DROPPED__REASON, variant: spec_packet_drop_reason_variant_idx(event.reason) }]
}

/// The records for a `packet_dropped` event.
pub fn packet_dropped_records(event: &api::PacketDropped<'_>) -> (r: Vec<Record>)
    ensures
        r@ == spec_packet_dropped_records(*event),
        forall|i: int| 0 <= i < r@.len() ==> spec_record_valid(#[trigger] r@[i]),
{
    let mut r: Vec<Record> = Vec::new();
    r.push(Record::Count { counter: COUNTERS_PACKET_DROPPED, value: 1 });
    r.push(Record::CountNominal { counter: NOMINAL_COUNTERS_PACKET_DROPPED__REASON, variant: packet_drop_reason_variant_idx(&event.reason) });
    assert(r@ =~= spec_packet_dropped_records(*event));
    r
}

/// What the aggregating subscriber records for a `key_update` event, in order.
pub open spec fn spec_key_update_records(event: api::KeyUpdate) -> Seq<Record> {
    seq![Record::Count { counter: COUNTERS_KEY_UPDATE, value: 1 }]
        + seq![Record::CountNominal { counter: NOMINAL_COUNTERS_KEY_UPDATE__KEY_TYPE, variant: spec_key_type_variant_idx(event.key_type) }]
        + seq![Record::CountNominal { counter: NOMINAL_COUNTERS_KEY_UPDATE__CIPHER_SUITE, variant: spec_cipher_suite_variant_idx(event.cipher_suite) }]
}

/// The records for a `key_update` event.
pub fn key_update_records(event: &api::KeyUpdate) -> (r: Vec<Record>)
    ensures
        r@ == spec_key_update_records(*event),
        forall|i: int| 0 <= i < r@.len() ==> spec_record_valid(#[trigger] r@[i]),
{
    let mut r: Vec<Record> = Vec::new();
    r.push(Record::Count { counter: COUNTERS_KEY_UPDATE, value: 1 });
    r.push(Record::CountNominal { counter: NOMINAL_COUNTERS_KEY_UPDATE__KEY_TYPE, variant: key_type_variant_idx(&event.key_type) });
    r.push(Record::CountNominal { counter: NOMINAL_COUNTERS_KEY_UPDATE__CIPHER_SUITE, variant: cipher_suite_variant_idx(&event.cipher_suite) });
    assert(r@ =~= spec_key_update_records(*event));
    r
}

/// What the aggregating subscriber records for a `key_space_discarded` event, in order.
pub open spec fn spec_key_space_discarded_records(
    start: Timestamp,
    meta: api::ConnectionMeta,
    event: api::KeySpaceDiscarded,
) -> Seq<Record> {
    seq![Record::Count { counter: COUNTERS_KEY_SPACE_DISCARDED, value: 1 }]
        + (if event.space is Initial { seq![Record::Time { timer: TIMERS_KEY_SPACE_DISCARDED__INITIAL__LATENCY, value: spec_latency(start, meta.timestamp) }] } else { Seq::empty() })
        + (if event.space is Handshake { seq![Record::Time { timer: TIMERS_KEY_SPACE_DISCARDED__HANDSHAKE__LATENCY, value: spec_latency(start, meta.timestamp) }] } else { Seq::empty() })
        + (if event.space is OneRtt { seq![Record::Time { timer: TIMERS_KEY_SPACE_DISCARDED__ONE_RTT__LATENCY, value: spec_latency(start, meta.timestamp) }] } else { Seq::empty() })
        + seq![Record::CountNominal { counter: NOMINAL_COUNTERS_KEY_SPACE_DISCARDED__SPACE, variant: spec_key_space_variant_idx(event.space) }]
}

/// The records for a `key_space_discarded` event.
pub fn key_space_discarded_records(
    context: &ConnectionContext,
    meta: &api::ConnectionMeta,
    event: &api::KeySpaceDiscarded,
) -> (r: Vec<Record>)
    ensures
        r@ == spec_key_space_discarded_records(context.spec_start_time(), *meta, *event),
        forall|i: int| 0 <= i < r@.len() ==> spec_record_valid(#[trigger] r@[i]),
{
    let mut r: Vec<Record> = Vec::new();
    r.push(Record::Count { counter: COUNTERS_KEY_SPACE_DISCARDED, value: 1 });
    if matches!(event.space, api::KeySpace::Initial { .. }) {
        r.push(Record::Time { timer: TIMERS_KEY_SPACE_DISCARDED__INITIAL__LATENCY, value: context.latency(meta.timestamp) });
    }
    if matches!(event.space, api::KeySpace::Handshake { .. }) {
        r.push(Record::Time { timer: TIMERS_KEY_SPACE_DISCARDED__HANDSHAKE__LATENCY, value: context.latency(meta.timestamp) });
    }
    if matches!(event.space, api::KeySpace::OneRtt { .. }) {
        r.push(Record::Time { timer: TIMERS_KEY_SPACE_DISCARDED__ONE_RTT__LATENCY, value: context.latency(meta.timestamp) });
    }
    r.push(Record::CountNominal { counter: NOMINAL_COUNTERS_KEY_SPACE_DISCARDED__SPACE, variant: key_space_variant_idx(&event.space) });
    assert(r@ =~= spec_key_space_discarded_records(context.spec_start_time(), *meta, *event));
    r
}

/// What the aggregating subscriber records for a `connection_started` event, in order.
pub open spec fn spec_connection_started_records(event: api::ConnectionStarted<'_>) -> Seq<Record> {
    seq![Record::Count { counter: COUNTERS_CONNECTION_STARTED, value: 1 }]
}

/// The records for a `connection_started` event.
pub fn connection_started_records(event: &api::ConnectionStarted<'_>) -> (r: Vec<Record>)
    ensures
        r@ == spec_connection_started_records(*event),
        forall|i: int| 0 <= i < r@.len() ==> spec_record_valid(#[trigger] r@[i]),
{
    let mut r: Vec<Record> = Vec::new();
    r.push(Record::Count { counter: COUNTERS_CONNECTION_STARTED, value: 1 });
    assert(r@ =~= spec_connection_started_records(*event));
    r
}

/// What the aggregating subscriber records for a `duplicate_packet` event, in order.
pub open spec fn spec_duplicate_packet_records(event: api::DuplicatePacket<'_>) -> Seq<Record> {
    seq![Record::Count { counter: COUNTERS_DUPLICATE_PACKET, value: 1 }]
        + seq![Record::CountNominal { counter: NOMINAL_COUNTERS_DUPLICATE_PACKET__KIND, variant: spec_packet_header_variant_idx(event.packet_header) }]
        + seq![Record::CountNominal { counter: NOMINAL_COUNTERS_DUPLICATE_PACKET__ERROR, variant: spec_duplicate_packet_error_variant_idx(event.error) }]
}

/// The records for a `duplicate_packet` event.
pub fn duplicate_packet_records(event: &api::DuplicatePacket<'_>) -> (r: Vec<Record>)
    ensures
        r@ == spec_duplicate_packet_records(*event),
        forall|i: int| 0 <= i < r@.len() ==> spec_record_valid(#[trigger] r@[i]),
{
    let mut r: Vec<Record> = Vec::new();
    r.push(Record::Count { counter: COUNTERS_DUPLICATE_PACKET, value: 1 });
    r.push(Record::CountNominal { counter: NOMINAL_COUNTERS_DUPLICATE_PACKET__KIND, variant: packet_header_variant_idx(&event.packet_header) });
    r.push(Record::CountNominal { counter: NOMINAL_COUNTERS_DUPLICATE_PACKET__ERROR, variant: duplicate_packet_error_variant_idx(&event.error) });
    assert(r@ =~= spec_duplicate_packet_records(*event));
    r
}

/// What the aggregating subscriber records for a `transport_parameters_received` event, in order.
pub open spec fn spec_transport_parameters_received_records(
    start: Timestamp,
    meta: api::ConnectionMeta,
    event: api::TransportParametersReceived<'_>,
) -> Seq<Record> {
    seq![Record::Count { counter: COUNTERS_TRANSPORT_PARAMETERS_RECEIVED, value: 1 }]
        + seq![Record::Time { timer: TIMERS_TRANSPORT_PARAMETERS_RECEIVED__LATENCY, value: spec_latency(start, meta.timestamp) }]
}

/// The records for a `transport_parameters_received` event.
pub fn transport_parameters_received_records(
    context: &ConnectionContext,
    meta: &api::ConnectionMeta,
    event: &api::TransportParametersReceived<'_>,
) -> (r: Vec<Record>)
    ensures
        r@ == spec_transport_parameters_received_records(context.spec_start_time(), *meta, *event),
        forall|i: int| 0 <= i < r@.len() ==> spec_record_valid(#[trigger] r@[i]),
{
    let mut r: Vec<Record> = Vec::new();
    r.push(Record::Count { counter: COUNTERS_TRANSPORT_PARAMETERS_RECEIVED, value: 1 });
    r.push(Record::Time { timer: TIMERS_TRANSPORT_PARAMETERS_RECEIVED__LATENCY, value: context.latency(meta.timestamp) });
    assert(r@ =~= spec_transport_parameters_received_records(context.spec_start_time(), *meta, *event));
    r
}

/// What the aggregating subscriber records for a `datagram_sent` event, in order.
pub open spec fn spec_datagram_sent_records(event: api::DatagramSent) -> Seq<Record> {
    seq![Record::Count { counter: COUNTERS_DATAGRAM_SENT, value: 1 }]
        + seq![Record::Count { counter: COUNTERS_DATAGRAM_SENT__BYTES__TOTAL, value: event.len as u64 }]
        + seq![Record::Measure { measure: MEASURES_DATAGRAM_SENT__BYTES, value: event.len as u64 }]
        + seq![Record::Measure { measure: MEASURES_DATAGRAM_SENT__GSO_OFFSET, value: event.gso_offset as u64 }]
}

/// The records for a `datagram_sent` event.
pub fn datagram_sent_records(event: &api::DatagramSent) -> (r: Vec<Record>)
    ensures
        r@ == spec_datagram_sent_records(*event),
        forall|i: int| 0 <= i < r@.len() ==> spec_record_valid(#[trigger] r@[i]),
{
    let mut r: Vec<Record> = Vec::new();
    r.push(Record::Count { counter: COUNTERS_DATAGRAM_SENT, value: 1 });
    r.push(Record::Count { counter: COUNTERS_DATAGRAM_SENT__BYTES__TOTAL, value: event.len as u64 });
    r.push(Record::Measure { measure: MEASURES_DATAGRAM_SENT__BYTES, value: event.len as u64 });
    r.push(Record::Measure { measure: MEASURES_DATAGRAM_SENT__GSO_OFFSET, value: event.gso_offset as u64 });
    assert(r@ =~= spec_datagram_sent_records(*event));
    r
}

/// What the aggregating subscriber records for a `datagram_received` event, in order.
pub open spec fn spec_datagram_received_records(event: api::DatagramReceived) -> Seq<Record> {
    seq![Record::Count { counter: COUNTERS_DATAGRAM_RECEIVED, value: 1 }]
        + seq![Record::Count { counter: COUNTERS_DATAGRAM_RECEIVED__BYTES__TOTAL, value: event.len as u64 }]
        + seq![Record::Measure { measure: MEASURES_DATAGRAM_RECEIVED__BYTES, value: event.len as u64 }]
}

/// The records for a `datagram_received` event.
pub fn datagram_received_records(event: &api::DatagramReceived) -> (r: Vec<Record>)
    ensures
        r@ == spec_datagram_received_records(*event),
        forall|i: int| 0 <= i < r@.len() ==> spec_record_valid(#[trigger] r@[i]),
{
    let mut r: Vec<Record> = Vec::new();
    r.push(Record::Count { counter: COUNTERS_DATAGRAM_RECEIVED, value: 1 });
    r.push(Record::Count { counter: COUNTERS_DATAGRAM_RECEIVED__BYTES__TOTAL, value: event.len as u64 });
    r.push(Record::Measure { measure: MEASURES_DATAGRAM_RECEIVED__BYTES, value: event.len as u64 });
    assert(r@ =~= spec_datagram_received_records(*event));
    r
}

/// What the aggregating subscriber records for a `datagram_dropped` event, in order.
pub open spec fn spec_datagram_dropped_records(event: api::DatagramDropped) -> Seq<Record> {
    seq![Record::Count { counter: COUNTERS_DATAGRAM_DROPPED, value: 1 }]
        + seq![Record::Count { counter: COUNTERS_DATAGRAM_DROPPED__BYTES__TOTAL, value: event.len as u64 }]
        + seq![Record::Measure { measure: MEASURES_DATAGRAM_DROPPED__BYTES, value: event.len as u64 }]
        + seq![Record::CountNominal { counter: NOMINAL_COUNTERS_DATAGRAM_DROPPED__REASON, variant: spec_datagram_drop_reason_variant_idx(event.reason) }]
}

/// The records for a `datagram_dropped` event.
pub fn datagram_dropped_records(event: &api::DatagramDropped) -> (r: Vec<Record>)
    ensures
        r@ == spec_datagram_dropped_records(*event),
        forall|i: int| 0 <= i < r@.len() ==> spec_record_valid(#[trigger] r@[i]),
{
    let mut r: Vec<Record> = Vec::new();
    r.push(Record::Count { counter: COUNTERS_DATAGRAM_DROPPED, value: 1 });
    r.push(Record::Count { counter: COUNTERS_DATAGRAM_DROPPED__BYTES__TOTAL, value: event.len as u64 });
    r.push(Record::Measure { measure: MEASURES_DATAGRAM_DROPPED__BYTES, value: event.len as u64 });
    r.push(Record::CountNominal { counter: NOMINAL_COUNTERS_DATAGRAM_DROPPED__REASON, variant: datagram_drop_reason_variant_idx(&event.reason) });
    assert(r@ =~= spec_datagram_dropped_records(*event));
    r
}

/// What the aggregating subscriber records for a `handshake_remote_address_change_observed` event, in order.
pub open spec fn spec_handshake_remote_address_change_observed_records() -> Seq<Record> {
    seq![Record::Count { counter: COUNTERS_HANDSHAKE_REMOTE_ADDRESS_CHANGE_OBSERVED, value: 1 }]
}

/// The records for a `handshake_remote_address_change_observed` event.
pub fn handshake_remote_address_change_observed_records() -> (r: Vec<Record>)
    ensures
        r@ == spec_handshake_remote_address_change_observed_records(),
        forall|i: int| 0 <= i < r@.len() ==> spec_record_valid(#[trigger] r@[i]),
{
    let mut r: Vec<Record> = Vec::new();
    r.push(Record::Count { counter: COUNTERS_HANDSHAKE_REMOTE_ADDRESS_CHANGE_OBSERVED, value: 1 });
    assert(r@ =~= spec_handshake_remote_address_change_observed_records());
    r
}

/// What the aggregating subscriber records for a `connection_id_updated` event, in order.
pub open spec fn spec_connection_id_updated_records(event: api::ConnectionIdUpdated<'_>) -> Seq<Record> {
    seq![Record::Count { counter: COUNTERS_CONNECTION_ID_UPDATED, value: 1 }]
}

/// The records for a `connection_id_updated` event.
pub fn connection_id_updated_records(event: &api::ConnectionIdUpdated<'_>) -> (r: Vec<Record>)
    ensures
        r@ == spec_connection_id_updated_records(*event),
        forall|i: int| 0 <= i < r@.len() ==> spec_record_valid(#[trigger] r@[i]),
{
    let mut r: Vec<Record> = Vec::new();
    r.push(Record::Count { counter: COUNTERS_CONNECTION_ID_UPDATED, value: 1 });
    assert(r@ =~= spec_connection_id_updated_records(*event));
    r
}

/// What the aggregating subscriber records for a `ecn_state_changed` event, in order.
pub open spec fn spec_ecn_state_changed_records(event: api::EcnStateChanged<'_>) -> Seq<Record> {
    seq![Record::Count { counter: COUNTERS_ECN_STATE_CHANGED, value: 1 }]
        + seq![Record::CountNominal { counter: NOMINAL_COUNTERS_ECN_STATE_CHANGED__STATE, variant: spec_ecn_state_variant_idx(event.state) }]
}

/// The records for a `ecn_state_changed` event.
pub fn ecn_state_changed_records(event: &api::EcnStateChanged<'_>) -> (r: Vec<Record>)
    ensures
        r@ == spec_ecn_state_changed_records(*event),
        forall|i: int| 0 <= i < r@.len() ==> spec_record_valid(#[trigger] r@[i]),
{
    let mut r: Vec<Record> = Vec::new();
    r.push(Record::Count { counter: COUNTERS_ECN_STATE_CHANGED, value: 1 });
    r.push(Record::CountNominal { counter: NOMINAL_COUNTERS_ECN_STATE_CHANGED__STATE, variant: ecn_state_variant_idx(&event.state) });
    assert(r@ =~= spec_ecn_state_changed_records(*event));
    r
}

/// What the aggregating subscriber records for a `connection_migration_denied` event, in order.
pub open spec fn spec_connection_migration_denied_records(event: api::ConnectionMigrationDenied) -> Seq<Record> {
    seq![Record::Count { counter: COUNTERS_CONNECTION_MIGRATION_DENIED, value: 1 }]
        + seq![Record::CountNominal { counter: NOMINAL_COUNTERS_CONNECTION_MIGRATION_DENIED__REASON, variant: spec_migration_deny_reason_variant_idx(event.reason) }]
}

/// The records for a `connection_migration_denied` event.
pub fn connection_migration_denied_records(event: &api::ConnectionMigrationDenied) -> (r: Vec<Record>)
    ensures
        r@ == spec_connection_migration_denied_records(*event),
        forall|i: int| 0 <= i < r@.len() ==> spec_record_valid(#[trigger] r@[i]),
{
    let mut r: Vec<Record> = Vec::new();
    r.push(Record::Count { counter: COUNTERS_CONNECTION_MIGRATION_DENIED, value: 1 });
    r.push(Record::CountNominal { counter: NOMINAL_COUNTERS_CONNECTION_MIGRATION_DENIED__REASON, variant: migration_deny_reason_variant_idx(&event.reason) });
    assert(r@ =~= spec_connection_migration_denied_records(*event));
    r
}

/// What the aggregating subscriber records for a `handshake_status_updated` event, in order.
pub open spec fn spec_handshake_status_updated_records(
    start: Timestamp,
    meta: api::ConnectionMeta,
    event: api::HandshakeStatusUpdated,
) -> Seq<Record> {
    seq![Record::Count { counter: COUNTERS_HANDSHAKE_STATUS_UPDATED, value: 1 }]
        + (if event.status is Complete { seq![Record::Time { timer: TIMERS_HANDSHAKE_STATUS_UPDATED__COMPLETE__LATENCY, value: spec_latency(start, meta.timestamp) }] } else { Seq::empty() })
        + (if event.status is Confirmed { seq![Record::Time { timer: TIMERS_HANDSHAKE_STATUS_UPDATED__CONFIRMED__LATENCY, value: spec_latency(start, meta.timestamp) }] } else { Seq::empty() })
        + (if event.status is HandshakeDoneAcked { seq![Record::Time { timer: TIMERS_HANDSHAKE_STATUS_UPDATED__HANDSHAKE_DONE_ACKED__LATENCY, value: spec_latency(start, meta.timestamp) }] } else { Seq::empty() })
        + seq![Record::CountNominal { counter: NOMINAL_COUNTERS_HANDSHAKE_STATUS_UPDATED__STATUS, variant: spec_handshake_status_variant_idx(event.status) }]
}

/// The records for a `handshake_status_updated` event.
pub fn handshake_status_updated_records(
    context: &ConnectionContext,
    meta: &api::ConnectionMeta,
    event: &api::HandshakeStatusUpdated,
) -> (r: Vec<Record>)
    ensures
        r@ == spec_handshake_status_updated_records(context.spec_start_time(), *meta, *event),
        forall|i: int| 0 <= i < r@.len() ==> spec_record_valid(#[trigger] r@[i]),
{
    let mut r: Vec<Record> = Vec::new();
    r.push(Record::Count { counter: COUNTERS_HANDSHAKE_STATUS_UPDATED, value: 1 });
    if matches!(event.status, api::HandshakeStatus::Complete { .. }) {
        r.push(Record::Time { timer: TIMERS_HANDSHAKE_STATUS_UPDATED__COMPLETE__LATENCY, value: context.latency(meta.timestamp) });
    }
    if matches!(event.status, api::HandshakeStatus::Confirmed { .. }) {
        r.push(Record::Time { timer: TIMERS_HANDSHAKE_STATUS_UPDATED__CONFIRMED__LATENCY, value: context.latency(meta.timestamp) });
    }
    if matches!(event.status, api::HandshakeStatus::HandshakeDoneAcked { .. }) {
        r.push(Record::Time { timer: TIMERS_HANDSHAKE_STATUS_UPDATED__HANDSHAKE_DONE_ACKED__LATENCY, value: context.latency(meta.timestamp) });
    }
    r.push(Record::CountNominal { counter: NOMINAL_COUNTERS_HANDSHAKE_STATUS_UPDATED__STATUS, variant: handshake_status_variant_idx(&event.status) });
    assert(r@ =~= spec_handshake_status_updated_records(context.spec_start_time(), *meta, *event));
    r
}

/// What the aggregating subscriber records for a `tls_exporter_ready` event, in order.
pub open spec fn spec_tls_exporter_ready_records() -> Seq<Record> {
    seq![Record::Count { counter: COUNTERS_TLS_EXPORTER_READY, value: 1 }]
}

/// The records for a `tls_exporter_ready` event.
pub fn tls_exporter_ready_records() -> (r: Vec<Record>)
    ensures
        r@ == spec_tls_exporter_ready_records(),
        forall|i: int| 0 <= i < r@.len() ==> spec_record_valid(#[trigger] r@[i]),
{
    let mut r: Vec<Record> = Vec::new();
    r.push(Record::Count { counter: COUNTERS_TLS_EXPORTER_READY, value: 1 });
    assert(r@ =~= spec_tls_exporter_ready_records());
    r
}

/// What the aggregating subscriber records for a `tls_handshake_failed` event, in order.
pub open spec fn spec_tls_handshake_failed_records() -> Seq<Record> {
    seq![Record::Count { counter: COUNTERS_TLS_HANDSHAKE_FAILED, value: 1 }]
}

/// The records for a `tls_handshake_failed` event.
pub fn tls_handshake_failed_records() -> (r: Vec<Record>)
    ensures
        r@ == spec_tls_handshake_failed_records(),
        forall|i: int| 0 <= i < r@.len() ==> spec_record_valid(#[trigger] r@[i]),
{
    let mut r: Vec<Record> = Vec::new();
    r.push(Record::Count { counter: COUNTERS_TLS_HANDSHAKE_FAILED, value: 1 });
    assert(r@ =~= spec_tls_handshake_failed_records());
    r
}

/// What the aggregating subscriber records for a `path_challenge_updated` event, in order.
pub open spec fn spec_path_challenge_updated_records(path_challenge_status: usize) -> Seq<Record> {
    seq![Record::Count { counter: COUNTERS_PATH_CHALLENGE_UPDATED, value: 1 }]
        + seq![Record::CountNominal { counter: NOMINAL_COUNTERS_PATH_CHALLENGE_UPDATED__STATUS, variant: path_challenge_status }]
}

/// The records for a `path_challenge_updated` event.
pub fn path_challenge_updated_records(path_challenge_status: usize) -> (r: Vec<Record>)
    ensures
        r@ == spec_path_challenge_updated_records(path_challenge_status),
        forall|i: int| 0 <= i < r@.len() ==> spec_record_valid(#[trigger] r@[i]),
{
    let mut r: Vec<Record> = Vec::new();
    r.push(Record::Count { counter: COUNTERS_PATH_CHALLENGE_UPDATED, value: 1 });
    r.push(Record::CountNominal { counter: NOMINAL_COUNTERS_PATH_CHALLENGE_UPDATED__STATUS, variant: path_challenge_status });
    assert(r@ =~= spec_path_challenge_updated_records(path_challenge_status));
    r
}

/// What the aggregating subscriber records for a `tls_client_hello` event, in order.
pub open spec fn spec_tls_client_hello_records(
    start: Timestamp,
    meta: api::ConnectionMeta,
    event: api::TlsClientHello<'_>,
) -> Seq<Record> {
    seq![Record::Count { counter: COUNTERS_TLS_CLIENT_HELLO, value: 1 }]
        + seq![Record::Time { timer: TIMERS_TLS_CLIENT_HELLO__LATENCY, value: spec_latency(start, meta.timestamp) }]
}

/// The records for a `tls_client_hello` event.
pub fn tls_client_hello_records(
    context: &ConnectionContext,
    meta: &api::ConnectionMeta,
    event: &api::TlsClientHello<'_>,
) -> (r: Vec<Record>)
    ensures
        r@ == spec_tls_client_hello_records(context.spec_start_time(), *meta, *event),
        forall|i: int| 0 <= i < r@.len() ==> spec_record_valid(#[trigger] r@[i]),
{
    let mut r: Vec<Record> = Vec::new();
    r.push(Record::Count { counter: COUNTERS_TLS_CLIENT_HELLO, value: 1 });
    r.push(Record::Time { timer: TIMERS_TLS_CLIENT_HELLO__LATENCY, value: context.latency(meta.timestamp) });
    assert(r@ =~= spec_tls_client_hello_records(context.spec_start_time(), *meta, *event));
    r
}

/// What the aggregating subscriber records for a `tls_server_hello` event, in order.
pub open spec fn spec_tls_server_hello_records(
    start: Timestamp,
    meta: api::ConnectionMeta,
    event: api::TlsServerHello<'_>,
) -> Seq<Record> {
    seq![Record::Count { counter: COUNTERS_TLS_SERVER_HELLO, value: 1 }]
        + seq![Record::Time { timer: TIMERS_TLS_SERVER_HELLO__LATENCY, value: spec_latency(start, meta.timestamp) }]
}

/// The records for a `tls_server_hello` event.
pub fn tls_server_hello_records(
    context: &ConnectionContext,
    meta: &api::ConnectionMeta,
    event: &api::TlsServerHello<'_>,
) -> (r: Vec<Record>)
    ensures
        r@ == spec_tls_server_hello_records(context.spec_start_time(), *meta, *event),
        forall|i: int| 0 <= i < r@.len() ==> spec_record_valid(#[trigger] r@[i]),
{
    let mut r: Vec<Record> = Vec::new();
    r.push(Record::Count { counter: COUNTERS_TLS_SERVER_HELLO, value: 1 });
    r.push(Record::Time { timer: TIMERS_TLS_SERVER_HELLO__LATENCY, value: context.latency(meta.timestamp) });
    assert(r@ =~= spec_tls_server_hello_records(context.spec_start_time(), *meta, *event));
    r
}

/// What the aggregating subscriber records for a `rx_stream_progress` event, in order.
pub open spec fn spec_rx_stream_progress_records(bytes: u64) -> Seq<Record> {
    seq![Record::Count { counter: COUNTERS_RX_STREAM_PROGRESS, value: 1 }]
        + seq![Record::Count { counter: COUNTERS_RX_STREAM_PROGRESS__BYTES__TOTAL, value: bytes }]
        + seq![Record::Measure { measure: MEASURES_RX_STREAM_PROGRESS__BYTES, value: bytes }]
}

/// The records for a `rx_stream_progress` event.
pub fn rx_stream_progress_records(bytes: u64) -> (r: Vec<Record>)
    ensures
        r@ == spec_rx_stream_progress_records(bytes),
        forall|i: int| 0 <= i < r@.len() ==> spec_record_valid(#[trigger] r@[i]),
{
    let mut r: Vec<Record> = Vec::new();
    r.push(Record::Count { counter: COUNTERS_RX_STREAM_PROGRESS, value: 1 });
    r.push(Record::Count { counter: COUNTERS_RX_STREAM_PROGRESS__BYTES__TOTAL, value: bytes });
    r.push(Record::Measure { measure: MEASURES_RX_STREAM_PROGRESS__BYTES, value: bytes });
    assert(r@ =~= spec_rx_stream_progress_records(bytes));
    r
}

/// What the aggregating subscriber records for a `tx_stream_progress` event, in order.
pub open spec fn spec_tx_stream_progress_records(bytes: u64) -> Seq<Record> {
    seq![Record::Count { counter: COUNTERS_TX_STREAM_PROGRESS, value: 1 }]
        + seq![Record::Count { counter: COUNTERS_TX_STREAM_PROGRESS__BYTES__TOTAL, value: bytes }]
        + seq![Record::Measure { measure: MEASURES_TX_STREAM_PROGRESS__BYTES, value: bytes }]
}

/// The records for a `tx_stream_progress` event.
pub fn tx_stream_progress_records(bytes: u64) -> (r: Vec<Record>)
    ensures
        r@ == spec_tx_stream_progress_records(bytes),
        forall|i: int| 0 <= i < r@.len() ==> spec_record_valid(#[trigger] r@[i]),
{
    let mut r: Vec<Record> = Vec::new();
    r.push(Record::Count { counter: COUNTERS_TX_STREAM_PROGRESS, value: 1 });
    r.push(Record::Count { counter: COUNTERS_TX_STREAM_PROGRESS__BYTES__TOTAL, value: bytes });
    r.push(Record::Measure { measure: MEASURES_TX_STREAM_PROGRESS__BYTES, value: bytes });
    assert(r@ =~= spec_tx_stream_progress_records(bytes));
    r
}

/// What the aggregating subscriber records for a `keep_alive_timer_expired` event, in order.
pub open spec fn spec_keep_alive_timer_expired_records() -> Seq<Record> {
    seq![Record::Count { counter: COUNTERS_KEEP_ALIVE_TIMER_EXPIRED, value: 1 }]
}

/// The records for a `keep_alive_timer_expired` event.
pub fn keep_alive_timer_expired_records() -> (r: Vec<Record>)
    ensures
        r@ == spec_keep_alive_timer_expired_records(),
        forall|i: int| 0 <= i < r@.len() ==> spec_record_valid(#[trigger] r@[i]),
{
    let mut r: Vec<Record> = Vec::new();
    r.push(Record::Count { counter: COUNTERS_KEEP_ALIVE_TIMER_EXPIRED, value: 1 });
    assert(r@ =~= spec_keep_alive_timer_expired_records());
    r
}

/// What the aggregating subscriber records for a `mtu_updated` event, in order.
pub open spec fn spec_mtu_updated_records(mtu: u64, cause: usize, search_complete: bool) -> Seq<Record> {
    seq![Record::Count { counter: COUNTERS_MTU_UPDATED, value: 1 }]
        + seq![Record::Measure { measure: MEASURES_MTU_UPDATED__MTU, value: mtu }]
        + seq![Record::CountNominal { counter: NOMINAL_COUNTERS_MTU_UPDATED__CAUSE, variant: cause }]
        + seq![Record::CountBool { counter: BOOL_COUNTERS_MTU_UPDATED__SEARCH_COMPLETE, value: search_complete }]
}

/// The records for a `mtu_updated` event.
pub fn mtu_updated_records(mtu: u64, cause: usize, search_complete: bool) -> (r: Vec<Record>)
    ensures
        r@ == spec_mtu_updated_records(mtu, cause, search_complete),
        forall|i: int| 0 <= i < r@.len() ==> spec_record_valid(#[trigger] r@[i]),
{
    let mut r: Vec<Record> = Vec::new();
    r.push(Record::Count { counter: COUNTERS_MTU_UPDATED, value: 1 });
    r.push(Record::Measure { measure: MEASURES_MTU_UPDATED__MTU, value: mtu });
    r.push(Record::CountNominal { counter: NOMINAL_COUNTERS_MTU_UPDATED__CAUSE, variant: cause });
    r.push(Record::CountBool { counter: BOOL_COUNTERS_MTU_UPDATED__SEARCH_COMPLETE, value: search_complete });
    assert(r@ =~= spec_mtu_updated_records(mtu, cause, search_complete));
    r
}

/// What the aggregating subscriber records for a `mtu_probing_complete_received` event, in order.
pub open spec fn spec_mtu_probing_complete_received_records(packet_header: usize, mtu: u64) -> Seq<Record> {
    seq![Record::Count { counter: COUNTERS_MTU_PROBING_COMPLETE_RECEIVED, value: 1 }]
        + seq![Record::CountNominal { counter: NOMINAL_COUNTERS_MTU_PROBING_COMPLETE_RECEIVED__PACKET, variant: packet_header }]
        + seq![Record::Measure { measure: MEASURES_MTU_PROBING_COMPLETE_RECEIVED__MTU, value: mtu }]
}

/// The records for a `mtu_probing_complete_received` event.
pub fn mtu_probing_complete_received_records(packet_header: usize, mtu: u64) -> (r: Vec<Record>)
    ensures
        r@ == spec_mtu_probing_complete_received_records(packet_header, mtu),
        forall|i: int| 0 <= i < r@.len() ==> spec_record_valid(#[trigger] r@[i]),
{
    let mut r: Vec<Record> = Vec::new();
    r.push(Record::Count { counter: COUNTERS_MTU_PROBING_COMPLETE_RECEIVED, value: 1 });
    r.push(Record::CountNominal { counter: NOMINAL_COUNTERS_MTU_PROBING_COMPLETE_RECEIVED__PACKET, variant: packet_header });
    r.push(Record::Measure { measure: MEASURES_MTU_PROBING_COMPLETE_RECEIVED__MTU, value: mtu });
    assert(r@ =~= spec_mtu_probing_complete_received_records(packet_header, mtu));
    r
}

/// What the aggregating subscriber records for a `slow_start_exited` event, in order.
pub open spec fn spec_slow_start_exited_records(cause: usize, latency: Duration, congestion_window: u64) -> Seq<Record> {
    seq![Record::Count { counter: COUNTERS_SLOW_START_EXITED, value: 1 }]
        + seq![Record::CountNominal { counter: NOMINAL_COUNTERS_SLOW_START_EXITED__CAUSE, variant: cause }]
        + seq![Record::TimeNominal { timer: NOMINAL_TIMERS_SLOW_START_EXITED__LATENCY, variant: cause, value: latency }]
        + seq![Record::Measure { measure: MEASURES_SLOW_START_EXITED__CONGESTION_WINDOW, value: congestion_window }]
}

/// The records for a `slow_start_exited` event.
pub fn slow_start_exited_records(cause: usize, latency: Duration, congestion_window: u64) -> (r: Vec<Record>)
    ensures
        r@ == spec_slow_start_exited_records(cause, latency, congestion_window),
        forall|i: int| 0 <= i < r@.len() ==> spec_record_valid(#[trigger] r@[i]),
{
    let mut r: Vec<Record> = Vec::new();
    r.push(Record::Count { counter: COUNTERS_SLOW_START_EXITED, value: 1 });
    r.push(Record::CountNominal { counter: NOMINAL_COUNTERS_SLOW_START_EXITED__CAUSE, variant: cause });
    r.push(Record::TimeNominal { timer: NOMINAL_TIMERS_SLOW_START_EXITED__LATENCY, variant: cause, value: latency });
    r.push(Record::Measure { measure: MEASURES_SLOW_START_EXITED__CONGESTION_WINDOW, value: congestion_window });
    assert(r@ =~= spec_slow_start_exited_records(cause, latency, congestion_window));
    r
}

/// What the aggregating subscriber records for a `delivery_rate_sampled` event, in order.
pub open spec fn spec_delivery_rate_sampled_records() -> Seq<Record> {
    seq![Record::Count { counter: COUNTERS_DELIVERY_RATE_SAMPLED, value: 1 }]
}

/// The records for a `delivery_rate_sampled` event.
pub fn delivery_rate_sampled_records() -> (r: Vec<Record>)
    ensures
        r@ == spec_delivery_rate_sampled_records(),
        forall|i: int| 0 <= i < r@.len() ==> spec_record_valid(#[trigger] r@[i]),
{
    let mut r: Vec<Record> = Vec::new();
    r.push(Record::Count { counter: COUNTERS_DELIVERY_RATE_SAMPLED, value: 1 });
    assert(r@ =~= spec_delivery_rate_sampled_records());
    r
}

/// What the aggregating subscriber records for a `bbr_state_changed` event, in order.
pub open spec fn spec_bbr_state_changed_records(state: usize) -> Seq<Record> {
    seq![Record::Count { counter: COUNTERS_BBR_STATE_CHANGED, value: 1 }]
        + seq![Record::CountNominal { counter: NOMINAL_COUNTERS_BBR_STATE_CHANGED__STATE, variant: state }]
}

/// The records for a `bbr_state_changed` event.
pub fn bbr_state_changed_records(state: usize) -> (r: Vec<Record>)
    ensures
        r@ == spec_bbr_state_changed_records(state),
        forall|i: int| 0 <= i < r@.len() ==> spec_record_valid(#[trigger] r@[i]),
{
    let mut r: Vec<Record> = Vec::new();
    r.push(Record::Count { counter: COUNTERS_BBR_STATE_CHANGED, value: 1 });
    r.push(Record::CountNominal { counter: NOMINAL_COUNTERS_BBR_STATE_CHANGED__STATE, variant: state });
    assert(r@ =~= spec_bbr_state_changed_records(state));
    r
}

/// What the aggregating subscriber records for a `dc_state_changed` event, in order.
pub open spec fn spec_dc_state_changed_records(
    latency: Duration,
    state_is_version_negotiated: bool,
    state_is_path_secrets_ready: bool,
    state_is_complete: bool,
    state: usize,
) -> Seq<Record> {
    seq![Record::Count { counter: COUNTERS_DC_STATE_CHANGED, value: 1 }]
        + (if state_is_version_negotiated { seq![Record::Time { timer: TIMERS_DC_STATE_CHANGED__VERSION_NEGOTIATED__LATENCY, value: latency }] } else { Seq::empty() })
        + (if state_is_version_negotiated { seq![Record::Time { timer: TIMERS_DC_STATE_CHANGED__NO_VERSION_NEGOTIATED__LATENCY, value: latency }] } else { Seq::empty() })
        + (if state_is_path_secrets_ready { seq![Record::Time { timer: TIMERS_DC_STATE_CHANGED__PATH_SECRETS__LATENCY, value: latency }] } else { Seq::empty() })
        + (if state_is_complete { seq![Record::Time { timer: TIMERS_DC_STATE_CHANGED__COMPLETE__LATENCY, value: latency }] } else { Seq::empty() })
        + seq![Record::CountNominal { counter: NOMINAL_COUNTERS_DC_STATE_CHANGED__STATE, variant: state }]
}

/// The records for a `dc_state_changed` event.
pub fn dc_state_changed_records(
    latency: Duration,
    state_is_version_negotiated: bool,
    state_is_path_secrets_ready: bool,
    state_is_complete: bool,
    state: usize,
) -> (r: Vec<Record>)
    ensures
        r@ == spec_dc_state_changed_records(latency, state_is_version_negotiated, state_is_path_secrets_ready, state_is_complete, state),
        forall|i: int| 0 <= i < r@.len() ==> spec_record_valid(#[trigger] r@[i]),
{
    let mut r: Vec<Record> = Vec::new();
    r.push(Record::Count { counter: COUNTERS_DC_STATE_CHANGED, value: 1 });
    if state_is_version_negotiated {
        r.push(Record::Time { timer: TIMERS_DC_STATE_CHANGED__VERSION_NEGOTIATED__LATENCY, value: latency });
    }
    if state_is_version_negotiated {
        r.push(Record::Time { timer: TIMERS_DC_STATE_CHANGED__NO_VERSION_NEGOTIATED__LATENCY, value: latency });
    }
    if state_is_path_secrets_ready {
        r.push(Record::Time { timer: TIMERS_DC_STATE_CHANGED__PATH_SECRETS__LATENCY, value: latency });
    }
    if state_is_complete {
        r.push(Record::Time { timer: TIMERS_DC_STATE_CHANGED__COMPLETE__LATENCY, value: latency });
    }
    r.push(Record::CountNominal { counter: NOMINAL_COUNTERS_DC_STATE_CHANGED__STATE, variant: state });
    assert(r@ =~= spec_dc_state_changed_records(latency, state_is_version_negotiated, state_is_path_secrets_ready, state_is_complete, state));
    r
}

/// What the aggregating subscriber records for a `dc_path_created` event, in order.
pub open spec fn spec_dc_path_created_records() -> Seq<Record> {
    seq![Record::Count { counter: COUNTERS_DC_PATH_CREATED, value: 1 }]
}

/// The records for a `dc_path_created` event.
pub fn dc_path_created_records() -> (r: Vec<Record>)
    ensures
        r@ == spec_dc_path_created_records(),
        forall|i: int| 0 <= i < r@.len() ==> spec_record_valid(#[trigger] r@[i]),
{
    let mut r: Vec<Record> = Vec::new();
    r.push(Record::Count { counter: COUNTERS_DC_PATH_CREATED, value: 1 });
    assert(r@ =~= spec_dc_path_created_records());
    r
}

/// What the aggregating subscriber records for a `connection_closed` event, in order.
pub open spec fn spec_connection_closed_records(latency: Duration, error: usize) -> Seq<Record> {
    seq![Record::Count { counter: COUNTERS_CONNECTION_CLOSED, value: 1 }]
        + seq![Record::Time { timer: TIMERS_CONNECTION_CLOSED__LATENCY, value: latency }]
        + seq![Record::CountNominal { counter: NOMINAL_COUNTERS_CONNECTION_CLOSED__ERROR, variant: error }]
}

/// The records for a `connection_closed` event.
pub fn connection_closed_records(latency: Duration, error: usize) -> (r: Vec<Record>)
    ensures
        r@ == spec_connection_closed_records(latency, error),
        forall|i: int| 0 <= i < r@.len() ==> spec_record_valid(#[trigger] r@[i]),
{
    let mut r: Vec<Record> = Vec::new();
    r.push(Record::Count { counter: COUNTERS_CONNECTION_CLOSED, value: 1 });
    r.push(Record::Time { timer: TIMERS_CONNECTION_CLOSED__LATENCY, value: latency });
    r.push(Record::CountNominal { counter: NOMINAL_COUNTERS_CONNECTION_CLOSED__ERROR, variant: error });
    assert(r@ =~= spec_connection_closed_records(latency, error));
    r
}

/// What the aggregating subscriber records for a `version_information` event, in order.
pub open spec fn spec_version_information_records(event: api::VersionInformation<'_>) -> Seq<Record> {
    seq![Record::Count { counter: COUNTERS_VERSION_INFORMATION, value: 1 }]
}

/// The records for a `version_information` event.
pub fn version_information_records(event: &api::VersionInformation<'_>) -> (r: Vec<Record>)
    ensures
        r@ == spec_version_information_records(*event),
        forall|i: int| 0 <= i < r@.len() ==> spec_record_valid(#[trigger] r@[i]),
{
    let mut r: Vec<Record> = Vec::new();
    r.push(Record::Count { counter: COUNTERS_VERSION_INFORMATION, value: 1 });
    assert(r@ =~= spec_version_information_records(*event));
    r
}

/// What the aggregating subscriber records for a `endpoint_packet_sent` event, in order.
pub open spec fn spec_endpoint_packet_sent_records(event: api::EndpointPacketSent) -> Seq<Record> {
    seq![Record::Count { counter: COUNTERS_ENDPOINT_PACKET_SENT, value: 1 }]
}

/// The records for a `endpoint_packet_sent` event.
pub fn endpoint_packet_sent_records(event: &api::EndpointPacketSent) -> (r: Vec<Record>)
    ensures
        r@ == spec_endpoint_packet_sent_records(*event),
        forall|i: int| 0 <= i < r@.len() ==> spec_record_valid(#[trigger] r@[i]),
{
    let mut r: Vec<Record> = Vec::new();
    r.push(Record::Count { counter: COUNTERS_ENDPOINT_PACKET_SENT, value: 1 });
    assert(r@ =~= spec_endpoint_packet_sent_records(*event));
    r
}

/// What the aggregating subscriber records for a `endpoint_packet_received` event, in order.
pub open spec fn spec_endpoint_packet_received_records(event: api::EndpointPacketReceived) -> Seq<Record> {
    seq![Record::Count { counter: COUNTERS_ENDPOINT_PACKET_RECEIVED, value: 1 }]
}

/// The records for a `endpoint_packet_received` event.
pub fn endpoint_packet_received_records(event: &api::EndpointPacketReceived) -> (r: Vec<Record>)
    ensures
        r@ == spec_endpoint_packet_received_records(*event),
        forall|i: int| 0 <= i < r@.len() ==> spec_record_valid(#[trigger] r@[i]),
{
    let mut r: Vec<Record> = Vec::new();
    r.push(Record::Count { counter: COUNTERS_ENDPOINT_PACKET_RECEIVED, value: 1 });
    assert(r@ =~= spec_endpoint_packet_received_records(*event));
    r
}

/// What the aggregating subscriber records for a `endpoint_datagram_sent` event, in order.
pub open spec fn spec_endpoint_datagram_sent_records(event: api::EndpointDatagramSent) -> Seq<Record> {
    seq![Record::Count { counter: COUNTERS_ENDPOINT_DATAGRAM_SENT, value: 1 }]
        + seq![Record::Measure { measure: MEASURES_ENDPOINT_DATAGRAM_SENT__BYTES, value: event.len as u64 }]
        + seq![Record::Measure { measure: MEASURES_ENDPOINT_DATAGRAM_SENT__BYTES__TOTAL, value: event.len as u64 }]
        + seq![Record::Measure { measure: MEASURES_ENDPOINT_DATAGRAM_SENT__GSO_OFFSET, value: event.gso_offset as u64 }]
}

/// The records for a `endpoint_datagram_sent` event.
pub fn endpoint_datagram_sent_records(event: &api::EndpointDatagramSent) -> (r: Vec<Record>)
    ensures
        r@ == spec_endpoint_datagram_sent_records(*event),
        forall|i: int| 0 <= i < r@.len() ==> spec_record_valid(#[trigger] r@[i]),
{
    let mut r: Vec<Record> = Vec::new();
    r.push(Record::Count { counter: COUNTERS_ENDPOINT_DATAGRAM_SENT, value: 1 });
    r.push(Record::Measure { measure: MEASURES_ENDPOINT_DATAGRAM_SENT__BYTES, value: event.len as u64 });
    r.push(Record::Measure { measure: MEASURES_ENDPOINT_DATAGRAM_SENT__BYTES__TOTAL, value: event.len as u64 });
    r.push(Record::Measure { measure: MEASURES_ENDPOINT_DATAGRAM_SENT__GSO_OFFSET, value: event.gso_offset as u64 });
    assert(r@ =~= spec_endpoint_datagram_sent_records(*event));
    r
}

/// What the aggregating subscriber records for a `endpoint_datagram_received` event, in order.
pub open spec fn spec_endpoint_datagram_received_records(event: api::EndpointDatagramReceived) -> Seq<Record> {
    seq![Record::Count { counter: COUNTERS_ENDPOINT_DATAGRAM_RECEIVED, value: 1 }]
        + seq![Record::Measure { measure: MEASURES_ENDPOINT_DATAGRAM_RECEIVED__BYTES, value: event.len as u64 }]
        + seq![Record::Measure { measure: MEASURES_ENDPOINT_DATAGRAM_RECEIVED__BYTES__TOTAL, value: event.len as u64 }]
}

/// The records for a `endpoint_datagram_received` event.
pub fn endpoint_datagram_received_records(event: &api::EndpointDatagramReceived) -> (r: Vec<Record>)
    ensures
        r@ == spec_endpoint_datagram_received_records(*event),
        forall|i: int| 0 <= i < r@.len() ==> spec_record_valid(#[trigger] r@[i]),
{
    let mut r: Vec<Record> = Vec::new();
    r.push(Record::Count { counter: COUNTERS_ENDPOINT_DATAGRAM_RECEIVED, value: 1 });
    r.push(Record::Measure { measure: MEASURES_ENDPOINT_DATAGRAM_RECEIVED__BYTES, value: event.len as u64 });
    r.push(Record::Measure { measure: MEASURES_ENDPOINT_DATAGRAM_RECEIVED__BYTES__TOTAL, value: event.len as u64 });
    assert(r@ =~= spec_endpoint_datagram_received_records(*event));
    r
}

/// What the aggregating subscriber records for a `endpoint_datagram_dropped` event, in order.
pub open spec fn spec_endpoint_datagram_dropped_records(event: api::EndpointDatagramDropped) -> Seq<Record> {
    seq![Record::Count { counter: COUNTERS_ENDPOINT_DATAGRAM_DROPPED, value: 1 }]
        + seq![Record::Measure { measure: MEASURES_ENDPOINT_DATAGRAM_DROPPED__BYTES, value: event.len as u64 }]
        + seq![Record::Measure { measure: MEASURES_ENDPOINT_DATAGRAM_DROPPED__BYTES__TOTAL, value: event.len as u64 }]
        + seq![Record::CountNominal { counter: NOMINAL_COUNTERS_ENDPOINT_DATAGRAM_DROPPED__REASON, variant: spec_datagram_drop_reason_variant_idx(event.reason) }]
}

/// The records for a `endpoint_datagram_dropped` event.
pub fn endpoint_datagram_dropped_records(event: &api::EndpointDatagramDropped) -> (r: Vec<Record>)
    ensures
        r@ == spec_endpoint_datagram_dropped_records(*event),
        forall|i: int| 0 <= i < r@.len() ==> spec_record_valid(#[trigger] r@[i]),
{
    let mut r: Vec<Record> = Vec::new();
    r.push(Record::Count { counter: COUNTERS_ENDPOINT_DATAGRAM_DROPPED, value: 1 });
    r.push(Record::Measure { measure: MEASURES_ENDPOINT_DATAGRAM_DROPPED__BYTES, value: event.len as u64 });
    r.push(Record::Measure { measure: MEASURES_ENDPOINT_DATAGRAM_DROPPED__BYTES__TOTAL, value: event.len as u64 });
    r.push(Record::CountNominal { counter: NOMINAL_COUNTERS_ENDPOINT_DATAGRAM_DROPPED__REASON, variant: datagram_drop_reason_variant_idx(&event.reason) });
    assert(r@ =~= spec_endpoint_datagram_dropped_records(*event));
    r
}

/// What the aggregating subscriber records for a `endpoint_connection_attempt_failed` event, in order.
pub open spec fn spec_endpoint_connection_attempt_failed_records(error: usize) -> Seq<Record> {
    seq![Record::Count { counter: COUNTERS_ENDPOINT_CONNECTION_ATTEMPT_FAILED, value: 1 }]
        + seq![Record::CountNominal { counter: NOMINAL_COUNTERS_ENDPOINT_CONNECTION_ATTEMPT_FAILED__ERROR, variant: error }]
}

/// The records for a `endpoint_connection_attempt_failed` event.
pub fn endpoint_connection_attempt_failed_records(error: usize) -> (r: Vec<Record>)
    ensures
        r@ == spec_endpoint_connection_attempt_failed_records(error),
        forall|i: int| 0 <= i < r@.len() ==> spec_record_valid(#[trigger] r@[i]),
{
    let mut r: Vec<Record> = Vec::new();
    r.push(Record::Count { counter: COUNTERS_ENDPOINT_CONNECTION_ATTEMPT_FAILED, value: 1 });
    r.push(Record::CountNominal { counter: NOMINAL_COUNTERS_ENDPOINT_CONNECTION_ATTEMPT_FAILED__ERROR, variant: error });
    assert(r@ =~= spec_endpoint_connection_attempt_failed_records(error));
    r
}

/// What the aggregating subscriber records for a `endpoint_connection_attempt_deduplicated` event, in order.
pub open spec fn spec_endpoint_connection_attempt_deduplicated_records() -> Seq<Record> {
    seq![Record::Count { counter: COUNTERS_ENDPOINT_CONNECTION_ATTEMPT_DEDUPLICATED, value: 1 }]
}

/// The records for a `endpoint_connection_attempt_deduplicated` event.
pub fn endpoint_connection_attempt_deduplicated_records() -> (r: Vec<Record>)
    ensures
        r@ == spec_endpoint_connection_attempt_deduplicated_records(),
        forall|i: int| 0 <= i < r@.len() ==> spec_record_valid(#[trigger] r@[i]),
{
    let mut r: Vec<Record> = Vec::new();
    r.push(Record::Count { counter: COUNTERS_ENDPOINT_CONNECTION_ATTEMPT_DEDUPLICATED, value: 1 });
    assert(r@ =~= spec_endpoint_connection_attempt_deduplicated_records());
    r
}

/// What the aggregating subscriber records for a `platform_tx` event, in order.
pub open spec fn spec_platform_tx_records(
    count: u64,
    syscalls: u64,
    blocked_syscalls: u64,
    total_errors: u64,
    dropped_errors: u64,
) -> Seq<Record> {
    seq![Record::Count { counter: COUNTERS_PLATFORM_TX, value: 1 }]
        + seq![Record::Count { counter: COUNTERS_PLATFORM_TX__PACKETS__TOTAL, value: count }]
        + seq![Record::Measure { measure: MEASURES_PLATFORM_TX__PACKETS, value: count }]
        + seq![Record::Count { counter: COUNTERS_PLATFORM_TX__SYSCALLS__TOTAL, value: syscalls }]
        + seq![Record::Measure { measure: MEASURES_PLATFORM_TX__SYSCALLS, value: syscalls }]
        + seq![Record::Count { counter: COUNTERS_PLATFORM_TX__SYSCALLS__BLOCKED__TOTAL, value: blocked_syscalls }]
        + seq![Record::Measure { measure: MEASURES_PLATFORM_TX__SYSCALLS__BLOCKED, value: blocked_syscalls }]
        + seq![Record::Count { counter: COUNTERS_PLATFORM_TX__ERRORS__TOTAL, value: total_errors }]
        + seq![Record::Measure { measure: MEASURES_PLATFORM_TX__ERRORS, value: total_errors }]
        + seq![Record::Count { counter: COUNTERS_PLATFORM_TX__ERRORS__DROPPED__TOTAL, value: dropped_errors }]
        + seq![Record::Measure { measure: MEASURES_PLATFORM_TX__ERRORS__DROPPED, value: dropped_errors }]
}

/// The records for a `platform_tx` event.
pub fn platform_tx_records(
    count: u64,
    syscalls: u64,
    blocked_syscalls: u64,
    total_errors: u64,
    dropped_errors: u64,
) -> (r: Vec<Record>)
    ensures
        r@ == spec_platform_tx_records(count, syscalls, blocked_syscalls, total_errors, dropped_errors),
        forall|i: int| 0 <= i < r@.len() ==> spec_record_valid(#[trigger] r@[i]),
{
    let mut r: Vec<Record> = Vec::new();
    r.push(Record::Count { counter: COUNTERS_PLATFORM_TX, value: 1 });
    r.push(Record::Count { counter: COUNTERS_PLATFORM_TX__PACKETS__TOTAL, value: count });
    r.push(Record::Measure { measure: MEASURES_PLATFORM_TX__PACKETS, value: count });
    r.push(Record::Count { counter: COUNTERS_PLATFORM_TX__SYSCALLS__TOTAL, value: syscalls });
    r.push(Record::Measure { measure: MEASURES_PLATFORM_TX__SYSCALLS, value: syscalls });
    r.push(Record::Count { counter: COUNTERS_PLATFORM_TX__SYSCALLS__BLOCKED__TOTAL, value: blocked_syscalls });
    r.push(Record::Measure { measure: MEASURES_PLATFORM_TX__SYSCALLS__BLOCKED, value: blocked_syscalls });
    r.push(Record::Count { counter: COUNTERS_PLATFORM_TX__ERRORS__TOTAL, value: total_errors });
    r.push(Record::Measure { measure: MEASURES_PLATFORM_TX__ERRORS, value: total_errors });
    r.push(Record::Count { counter: COUNTERS_PLATFORM_TX__ERRORS__DROPPED__TOTAL, value: dropped_errors });
    r.push(Record::Measure { measure: MEASURES_PLATFORM_TX__ERRORS__DROPPED, value: dropped_errors });
    assert(r@ =~= spec_platform_tx_records(count, syscalls, blocked_syscalls, total_errors, dropped_errors));
    r
}

/// What the aggregating subscriber records for a `platform_tx_error` event, in order.
pub open spec fn spec_platform_tx_error_records(event: api::PlatformTxError) -> Seq<Record> {
    seq![Record::Count { counter: COUNTERS_PLATFORM_TX_ERROR, value: 1 }]
}

/// The records for a `platform_tx_error` event.
pub fn platform_tx_error_records(event: &api::PlatformTxError) -> (r: Vec<Record>)
    ensures
        r@ == spec_platform_tx_error_records(*event),
        forall|i: int| 0 <= i < r@.len() ==> spec_record_valid(#[trigger] r@[i]),
{
    let mut r: Vec<Record> = Vec::new();
    r.push(Record::Count { counter: COUNTERS_PLATFORM_TX_ERROR, value: 1 });
    assert(r@ =~= spec_platform_tx_error_records(*event));
    r
}

/// What the aggregating subscriber records for a `platform_rx` event, in order.
pub open spec fn spec_platform_rx_records(
    count: u64,
    syscalls: u64,
    blocked_syscalls: u64,
    total_errors: u64,
    dropped_errors: u64,
) -> Seq<Record> {
    seq![Record::Count { counter: COUNTERS_PLATFORM_RX, value: 1 }]
        + seq![Record::Count { counter: COUNTERS_PLATFORM_RX__PACKETS__TOTAL, value: count }]
        + seq![Record::Measure { measure: MEASURES_PLATFORM_RX__PACKETS, value: count }]
        + seq![Record::Count { counter: COUNTERS_PLATFORM_RX__SYSCALLS__TOTAL, value: syscalls }]
        + seq![Record::Measure { measure: MEASURES_PLATFORM_RX__SYSCALLS, value: syscalls }]
        + seq![Record::Count { counter: COUNTERS_PLATFORM_RX__SYSCALLS__BLOCKED__TOTAL, value: blocked_syscalls }]
        + seq![Record::Measure { measure: MEASURES_PLATFORM_RX__SYSCALLS__BLOCKED, value: blocked_syscalls }]
        + seq![Record::Count { counter: COUNTERS_PLATFORM_RX__ERRORS__TOTAL, value: total_errors }]
        + seq![Record::Measure { measure: MEASURES_PLATFORM_RX__ERRORS, value: total_errors }]
        + seq![Record::Count { counter: COUNTERS_PLATFORM_RX__ERRORS__DROPPED__TOTAL, value: dropped_errors }]
        + seq![Record::Measure { measure: MEASURES_PLATFORM_RX__ERRORS__DROPPED, value: dropped_errors }]
}

/// The records for a `platform_rx` event.
pub fn platform_rx_records(
    count: u64,
    syscalls: u64,
    blocked_syscalls: u64,
    total_errors: u64,
    dropped_errors: u64,
) -> (r: Vec<Record>)
    ensures
        r@ == spec_platform_rx_records(count, syscalls, blocked_syscalls, total_errors, dropped_errors),
        forall|i: int| 0 <= i < r@.len() ==> spec_record_valid(#[trigger] r@[i]),
{
    let mut r: Vec<Record> = Vec::new();
    r.push(Record::Count { counter: COUNTERS_PLATFORM_RX, value: 1 });
    r.push(Record::Count { counter: COUNTERS_PLATFORM_RX__PACKETS__TOTAL, value: count });
    r.push(Record::Measure { measure: MEASURES_PLATFORM_RX__PACKETS, value: count });
    r.push(Record::Count { counter: COUNTERS_PLATFORM_RX__SYSCALLS__TOTAL, value: syscalls });
    r.push(Record::Measure { measure: MEASURES_PLATFORM_RX__SYSCALLS, value: syscalls });
    r.push(Record::Count { counter: COUNTERS_PLATFORM_RX__SYSCALLS__BLOCKED__TOTAL, value: blocked_syscalls });
    r.push(Record::Measure { measure: MEASURES_PLATFORM_RX__SYSCALLS__BLOCKED, value: blocked_syscalls });
    r.push(Record::Count { counter: COUNTERS_PLATFORM_RX__ERRORS__TOTAL, value: total_errors });
    r.push(Record::Measure { measure: MEASURES_PLATFORM_RX__ERRORS, value: total_errors });
    r.push(Record::Count { counter: COUNTERS_PLATFORM_RX__ERRORS__DROPPED__TOTAL, value: dropped_errors });
    r.push(Record::Measure { measure: MEASURES_PLATFORM_RX__ERRORS__DROPPED, value: dropped_errors });
    assert(r@ =~= spec_platform_rx_records(count, syscalls, blocked_syscalls, total_errors, dropped_errors));
    r
}

/// What the aggregating subscriber records for a `platform_rx_error` event, in order.
pub open spec fn spec_platform_rx_error_records(event: api::PlatformRxError) -> Seq<Record> {
    seq![Record::Count { counter: COUNTERS_PLATFORM_RX_ERROR, value: 1 }]
}

/// The records for a `platform_rx_error` event.
pub fn platform_rx_error_records(event: &api::PlatformRxError) -> (r: Vec<Record>)
    ensures
        r@ == spec_platform_rx_error_records(*event),
        forall|i: int| 0 <= i < r@.len() ==> spec_record_valid(#[trigger] r@[i]),
{
    let mut r: Vec<Record> = Vec::new();
    r.push(Record::Count { counter: COUNTERS_PLATFORM_RX_ERROR, value: 1 });
    assert(r@ =~= spec_platform_rx_error_records(*event));
    r
}

/// What the aggregating subscriber records for a `platform_feature_configured` event, in order.
pub open spec fn spec_platform_feature_configured_records(event: api::PlatformFeatureConfigured) -> Seq<Record> {
    seq![Record::Count { counter: COUNTERS_PLATFORM_FEATURE_CONFIGURED, value: 1 }]
}

/// The records for a `platform_feature_configured` event.
pub fn platform_feature_configured_records(event: &api::PlatformFeatureConfigured) -> (r: Vec<Record>)
    ensures
        r@ == spec_platform_feature_configured_records(*event),
        forall|i: int| 0 <= i < r@.len() ==> spec_record_valid(#[trigger] r@[i]),
{
    let mut r: Vec<Record> = Vec::new();
    r.push(Record::Count { counter: COUNTERS_PLATFORM_FEATURE_CONFIGURED, value: 1 });
    assert(r@ =~= spec_platform_feature_configured_records(*event));
    r
}

/// What the aggregating subscriber records for a `platform_event_loop_wakeup` event, in order.
pub open spec fn spec_platform_event_loop_wakeup_records(event: api::PlatformEventLoopWakeup) -> Seq<Record> {
    seq![Record::Count { counter: COUNTERS_PLATFORM_EVENT_LOOP_WAKEUP, value: 1 }]
}

/// The records for a `platform_event_loop_wakeup` event.
pub fn platform_event_loop_wakeup_records(event: &api::PlatformEventLoopWakeup) -> (r: Vec<Record>)
    ensures
        r@ == spec_platform_event_loop_wakeup_records(*event),
        forall|i: int| 0 <= i < r@.len() ==> spec_record_valid(#[trigger] r@[i]),
{
    let mut r: Vec<Record> = Vec::new();
    r.push(Record::Count { counter: COUNTERS_PLATFORM_EVENT_LOOP_WAKEUP, value: 1 });
    assert(r@ =~= spec_platform_event_loop_wakeup_records(*event));
    r
}

/// What the aggregating subscriber records for a `platform_event_loop_sleep` event, in order.
pub open spec fn spec_platform_event_loop_sleep_records(processing_duration: Duration) -> Seq<Record> {
    seq![Record::Count { counter: COUNTERS_PLATFORM_EVENT_LOOP_SLEEP, value: 1 }]
        + seq![Record::Time { timer: TIMERS_PLATFORM_EVENT_LOOP_SLEEP__PROCESSING_DURATION, value: processing_duration }]
}

/// The records for a `platform_event_loop_sleep` event.
pub fn platform_event_loop_sleep_records(processing_duration: Duration) -> (r: Vec<Record>)
    ensures
        r@ == spec_platform_event_loop_sleep_records(processing_duration),
        forall|i: int| 0 <= i < r@.len() ==> spec_record_valid(#[trigger] r@[i]),
{
    let mut r: Vec<Record> = Vec::new();
    r.push(Record::Count { counter: COUNTERS_PLATFORM_EVENT_LOOP_SLEEP, value: 1 });
    r.push(Record::Time { timer: TIMERS_PLATFORM_EVENT_LOOP_SLEEP__PROCESSING_DURATION, value: processing_duration });
    assert(r@ =~= spec_platform_event_loop_sleep_records(processing_duration));
    r
}

/// What the aggregating subscriber records for a `platform_event_loop_started` event, in order.
pub open spec fn spec_platform_event_loop_started_records() -> Seq<Record> {
    seq![Record::Count { counter: COUNTERS_PLATFORM_EVENT_LOOP_STARTED, value: 1 }]
}

/// The records for a `platform_event_loop_started` event.
pub fn platform_event_loop_started_records() -> (r: Vec<Record>)
    ensures
        r@ == spec_platform_event_loop_started_records(),
        forall|i: int| 0 <= i < r@.len() ==> spec_record_valid(#[trigger] r@[i]),
{
    let mut r: Vec<Record> = Vec::new();
    r.push(Record::Count { counter: COUNTERS_PLATFORM_EVENT_LOOP_STARTED, value: 1 });
    assert(r@ =~= spec_platform_event_loop_started_records());
    r
}

impl<R: Registry> Subscriber<R> {
    /// Records a `application_protocol_information` event.
    pub fn on_application_protocol_information(&self)
        ensures
            forall|i: int|
                0 <= i < spec_application_protocol_information_records().len() ==> self.spec_recorded(
                    #[trigger] spec_application_protocol_information_records()[i],
                ),
            self.spec_recorded(Record::Count { counter: COUNTERS_APPLICATION_PROTOCOL_INFORMATION, value: 1 }),
    {
        let records = application_protocol_information_records();
        self.record_all(&records);
        proof {
            let s = records@;
            let mut k: int = 0;
            assert(s[k] == Record::Count { counter: COUNTERS_APPLICATION_PROTOCOL_INFORMATION, value: 1 });
        }
    }

    /// Records a `server_name_information` event.
    pub fn on_server_name_information(&self)
        ensures
            forall|i: int|
                0 <= i < spec_server_name_information_records().len() ==> self.spec_recorded(
                    #[trigger] spec_server_name_information_records()[i],
                ),
            self.spec_recorded(Record::Count { counter: COUNTERS_SERVER_NAME_INFORMATION, value: 1 }),
    {
        let records = server_name_information_records();
        self.record_all(&records);
        proof {
            let s = records@;
            let mut k: int = 0;
            assert(s[k] == Record::Count { counter: COUNTERS_SERVER_NAME_INFORMATION, value: 1 });
        }
    }

    /// Records a `key_exchange_group` event.
    pub fn on_key_exchange_group(&self)
        ensures
            forall|i: int|
                0 <= i < spec_key_exchange_group_records().len() ==> self.spec_recorded(
                    #[trigger] spec_key_exchange_group_records()[i],
                ),
            self.spec_recorded(Record::Count { counter: COUNTERS_KEY_EXCHANGE_GROUP, value: 1 }),
    {
        let records = key_exchange_group_records();
        self.record_all(&records);
        proof {
            let s = records@;
            let mut k: int = 0;
            assert(s[k] == Record::Count { counter: COUNTERS_KEY_EXCHANGE_GROUP, value: 1 });
        }
    }

    /// Records a `packet_skipped` event.
    pub fn on_packet_skipped(&self)
        ensures
            forall|i: int|
                0 <= i < spec_packet_skipped_records().len() ==> self.spec_recorded(
                    #[trigger] spec_packet_skipped_records()[i],
                ),
            self.spec_recorded(Record::Count { counter: COUNTERS_PACKET_SKIPPED, value: 1 }),
    {
        let records = packet_skipped_records();
        self.record_all(&records);
        proof {
            let s = records@;
            let mut k: int = 0;
            assert(s[k] == Record::Count { counter: COUNTERS_PACKET_SKIPPED, value: 1 });
        }
    }

    /// Records a `packet_sent` event.
    pub fn on_packet_sent(&self, packet_header: usize, packet_len: u64)
        requires
            packet_header < self.spec_nominal_variants()[NOMINAL_COUNTERS_PACKET_SENT__KIND as int].len(),
        ensures
            forall|i: int|
                0 <= i < spec_packet_sent_records(packet_header, packet_len).len() ==> self.spec_recorded(
                    #[trigger] spec_packet_sent_records(packet_header, packet_len)[i],
                ),
            self.spec_recorded(Record::Count { counter: COUNTERS_PACKET_SENT, value: 1 }),
            self.spec_recorded(Record::CountNominal { counter: NOMINAL_COUNTERS_PACKET_SENT__KIND, variant: packet_header }),
            self.spec_recorded(Record::Count { counter: COUNTERS_PACKET_SENT__BYTES__TOTAL, value: packet_len }),
            self.spec_recorded(Record::Measure { measure: MEASURES_PACKET_SENT__BYTES, value: packet_len }),
    {
        let records = packet_sent_records(packet_header, packet_len);
        self.record_all(&records);
        proof {
            let s = records@;
            let mut k: int = 0;
            assert(s[k] == Record::Count { counter: COUNTERS_PACKET_SENT, value: 1 });
            k = k + 1;
            assert(s[k] == Record::CountNominal { counter: NOMINAL_COUNTERS_PACKET_SENT__KIND, variant: packet_header });
            k = k + 1;
            assert(s[k] == Record::Count { counter: COUNTERS_PACKET_SENT__BYTES__TOTAL, value: packet_len });
            k = k + 1;
            assert(s[k] == Record::Measure { measure: MEASURES_PACKET_SENT__BYTES, value: packet_len });
        }
    }

    /// Records a `packet_received` event.
    pub fn on_packet_received(&self, event: &api::PacketReceived)
        requires
            spec_packet_header_variant_idx(event.packet_header) < self.spec_nominal_variants()[NOMINAL_COUNTERS_PACKET_RECEIVED__KIND as int].len(),
        ensures
            forall|i: int|
                0 <= i < spec_packet_received_records(*event).len() ==> self.spec_recorded(
                    #[trigger] spec_packet_received_records(*event)[i],
                ),
            self.spec_recorded(Record::Count { counter: COUNTERS_PACKET_RECEIVED, value: 1 }),
            self.spec_recorded(Record::CountNominal { counter: NOMINAL_COUNTERS_PACKET_RECEIVED__KIND, variant: spec_packet_header_variant_idx((*event).packet_header) }),
    {
        let records = packet_received_records(event);
        self.record_all(&records);
        proof {
            let s = records@;
            let mut k: int = 0;
            assert(s[k] == Record::Count { counter: COUNTERS_PACKET_RECEIVED, value: 1 });
            k = k + 1;
            assert(s[k] == Record::CountNominal { counter: NOMINAL_COUNTERS_PACKET_RECEIVED__KIND, variant: spec_packet_header_variant_idx((*event).packet_header) });
        }
    }

    /// Records a `active_path_updated` event.
    pub fn on_active_path_updated(&self, event: &api::ActivePathUpdated<'_>)
        ensures
            forall|i: int|
                0 <= i < spec_active_path_updated_records(*event).len() ==> self.spec_recorded(
                    #[trigger] spec_active_path_updated_records(*event)[i],
                ),
            self.spec_recorded(Record::Count { counter: COUNTERS_ACTIVE_PATH_UPDATED, value: 1 }),
    {
        let records = active_path_updated_records(event);
        self.record_all(&records);
        proof {
            let s = records@;
            let mut k: int = 0;
            assert(s[k] == Record::Count { counter: COUNTERS_ACTIVE_PATH_UPDATED, value: 1 });
        }
    }

    /// Records a `path_created` event.
    pub fn on_path_created(&self, event: &api::PathCreated<'_>)
        ensures
            forall|i: int|
                0 <= i < spec_path_created_records(*event).len() ==> self.spec_recorded(
                    #[trigger] spec_path_created_records(*event)[i],
                ),
            self.spec_recorded(Record::Count { counter: COUNTERS_PATH_CREATED, value: 1 }),
    {
        let records = path_created_records(event);
        self.record_all(&records);
        proof {
            let s = records@;
            let mut k: int = 0;
            assert(s[k] == Record::Count { counter: COUNTERS_PATH_CREATED, value: 1 });
        }
    }

    /// Records a `frame_sent` event.
    pub fn on_frame_sent(&self, event: &api::FrameSent)
        requires
            spec_packet_header_variant_idx(event.packet_header) < self.spec_nominal_variants()[NOMINAL_COUNTERS_FRAME_SENT__PACKET as int].len(),
            spec_frame_variant_idx(event.frame) < self.spec_nominal_variants()[NOMINAL_COUNTERS_FRAME_SENT__FRAME as int].len(),
        ensures
            forall|i: int|
                0 <= i < spec_frame_sent_records(*event).len() ==> self.spec_recorded(
                    #[trigger] spec_frame_sent_records(*event)[i],
                ),
            self.spec_recorded(Record::Count { counter: COUNTERS_FRAME_SENT, value: 1 }),
            self.spec_recorded(Record::CountNominal { counter: NOMINAL_COUNTERS_FRAME_SENT__PACKET, variant: spec_packet_header_variant_idx((*event).packet_header) }),
            self.spec_recorded(Record::CountNominal { counter: NOMINAL_COUNTERS_FRAME_SENT__FRAME, variant: spec_frame_variant_idx((*event).frame) }),
    {
        let records = frame_sent_records(event);
        self.record_all(&records);
        proof {
            let s = records@;
            let mut k: int = 0;
            assert(s[k] == Record::Count { counter: COUNTERS_FRAME_SENT, value: 1 });
            k = k + 1;
            assert(s[k] == Record::CountNominal { counter: NOMINAL_COUNTERS_FRAME_SENT__PACKET, variant: spec_packet_header_variant_idx((*event).packet_header) });
            k = k + 1;
            assert(s[k] == Record::CountNominal { counter: NOMINAL_COUNTERS_FRAME_SENT__FRAME, variant: spec_frame_variant_idx((*event).frame) });
        }
    }

    /// Records a `frame_received` event.
    pub fn on_frame_received(&self, event: &api::FrameReceived<'_>)
        requires
            spec_packet_header_variant_idx(event.packet_header) < self.spec_nominal_variants()[NOMINAL_COUNTERS_FRAME_RECEIVED__PACKET as int].len(),
            spec_frame_variant_idx(event.frame) < self.spec_nominal_variants()[NOMINAL_COUNTERS_FRAME_RECEIVED__FRAME as int].len(),
        ensures
            forall|i: int|
                0 <= i < spec_frame_received_records(*event).len() ==> self.spec_recorded(
                    #[trigger] spec_frame_received_records(*event)[i],
                ),
            self.spec_recorded(Record::Count { counter: COUNTERS_FRAME_RECEIVED, value: 1 }),
            self.spec_recorded(Record::CountNominal { counter: NOMINAL_COUNTERS_FRAME_RECEIVED__PACKET, variant: spec_packet_header_variant_idx((*event).packet_header) }),
            self.spec_recorded(Record::CountNominal { counter: NOMINAL_COUNTERS_FRAME_RECEIVED__FRAME, variant: spec_frame_variant_idx((*event).frame) }),
    {
        let records = frame_received_records(event);
        self.record_all(&records);
        proof {
            let s = records@;
            let mut k: int = 0;
            assert(s[k] == Record::Count { counter: COUNTERS_FRAME_RECEIVED, value: 1 });
            k = k + 1;
            assert(s[k] == Record::CountNominal { counter: NOMINAL_COUNTERS_FRAME_RECEIVED__PACKET, variant: spec_packet_header_variant_idx((*event).packet_header) });
            k = k + 1;
            assert(s[k] == Record::CountNominal { counter: NOMINAL_COUNTERS_FRAME_RECEIVED__FRAME, variant: spec_frame_variant_idx((*event).frame) });
        }
    }

    /// Records a `connection_close_frame_received` event.
    pub fn on_connection_close_frame_received(&self, packet_header: usize)
        requires
            packet_header < self.spec_nominal_variants()[NOMINAL_COUNTERS_CONNECTION_CLOSE_FRAME_RECEIVED__PACKET as int].len(),
        ensures
            forall|i: int|
                0 <= i < spec_connection_close_frame_received_records(packet_header).len() ==> self.spec_recorded(
                    #[trigger] spec_connection_close_frame_received_records(packet_header)[i],
                ),
            self.spec_recorded(Record::Count { counter: COUNTERS_CONNECTION_CLOSE_FRAME_RECEIVED, value: 1 }),
            self.spec_recorded(Record::CountNominal { counter: NOMINAL_COUNTERS_CONNECTION_CLOSE_FRAME_RECEIVED__PACKET, variant: packet_header }),
    {
        let records = connection_close_frame_received_records(packet_header);
        self.record_all(&records);
        proof {
            let s = records@;
            let mut k: int = 0;
            assert(s[k] == Record::Count { counter: COUNTERS_CONNECTION_CLOSE_FRAME_RECEIVED, value: 1 });
            k = k + 1;
            assert(s[k] == Record::CountNominal { counter: NOMINAL_COUNTERS_CONNECTION_CLOSE_FRAME_RECEIVED__PACKET, variant: packet_header });
        }
    }

    /// Records a `packet_lost` event.
    pub fn on_packet_lost(&self, event: &api::PacketLost<'_>)
        requires
            spec_packet_header_variant_idx(event.packet_header) < self.spec_nominal_variants()[NOMINAL_COUNTERS_PACKET_LOST__KIND as int].len(),
        ensures
            forall|i: int|
                0 <= i < spec_packet_lost_records(*event).len() ==> self.spec_recorded(
                    #[trigger] spec_packet_lost_records(*event)[i],
                ),
            self.spec_recorded(Record::Count { counter: COUNTERS_PACKET_LOST, value: 1 }),
            self.spec_recorded(Record::CountNominal { counter: NOMINAL_COUNTERS_PACKET_LOST__KIND, variant: spec_packet_header_variant_idx((*event).packet_header) }),
            self.spec_recorded(Record::Count { counter: COUNTERS_PACKET_LOST__BYTES__TOTAL, value: (*event).bytes_lost as u64 }),
            self.spec_recorded(Record::Measure { measure: MEASURES_PACKET_LOST__BYTES, value: (*event).bytes_lost as u64 }),
            self.spec_recorded(Record::CountBool { counter: BOOL_COUNTERS_PACKET_LOST__IS_MTU_PROBE, value: (*event).is_mtu_probe }),
    {
        let records = packet_lost_records(event);
        self.record_all(&records);
        proof {
            let s = records@;
            let mut k: int = 0;
            assert(s[k] == Record::Count { counter: COUNTERS_PACKET_LOST, value: 1 });
            k = k + 1;
            assert(s[k] == Record::CountNominal { counter: NOMINAL_COUNTERS_PACKET_LOST__KIND, variant: spec_packet_header_variant_idx((*event).packet_header) });
            k = k + 1;
            assert(s[k] == Record::Count { counter: COUNTERS_PACKET_LOST__BYTES__TOTAL, value: (*event).bytes_lost as u64 });
            k = k + 1;
            assert(s[k] == Record::Measure { measure: MEASURES_PACKET_LOST__BYTES, value: (*event).bytes_lost as u64 });
            k = k + 1;
            assert(s[k] == Record::CountBool { counter: BOOL_COUNTERS_PACKET_LOST__IS_MTU_PROBE, value: (*event).is_mtu_probe });
        }
    }

    /// Records a `recovery_metrics` event.
    pub fn on_recovery_metrics(
        &self,
        min_rtt: u64,
        smoothed_rtt: u64,
        latest_rtt: u64,
        rtt_variance: u64,
        max_ack_delay: u64,
        pto_count: u64,
        congestion_window: u64,
        bytes_in_flight: u64,
        congestion_limited: bool,
    )
        ensures
            forall|i: int|
                0 <= i < spec_recovery_metrics_records(min_rtt, smoothed_rtt, latest_rtt, rtt_variance, max_ack_delay, pto_count, congestion_window, bytes_in_flight, congestion_limited).len() ==> self.spec_recorded(
                    #[trigger] spec_recovery_metrics_records(min_rtt, smoothed_rtt, latest_rtt, rtt_variance, max_ack_delay, pto_count, congestion_window, bytes_in_flight, congestion_limited)[i],
                ),
            self.spec_recorded(Record::Count { counter: COUNTERS_RECOVERY_METRICS, value: 1 }),
            self.spec_recorded(Record::Measure { measure: MEASURES_RECOVERY_METRICS__MIN_RTT, value: min_rtt }),
            self.spec_recorded(Record::Measure { measure: MEASURES_RECOVERY_METRICS__SMOOTHED_RTT, value: smoothed_rtt }),
            self.spec_recorded(Record::Measure { measure: MEASURES_RECOVERY_METRICS__LATEST_RTT, value: latest_rtt }),
            self.spec_recorded(Record::Measure { measure: MEASURES_RECOVERY_METRICS__RTT_VARIANCE, value: rtt_variance }),
            self.spec_recorded(Record::Measure { measure: MEASURES_RECOVERY_METRICS__MAX_ACK_DELAY, value: max_ack_delay }),
            self.spec_recorded(Record::Measure { measure: MEASURES_RECOVERY_METRICS__PTO_COUNT, value: pto_count }),
            self.spec_recorded(Record::Measure { measure: MEASURES_RECOVERY_METRICS__CONGESTION_WINDOW, value: congestion_window }),
            self.spec_recorded(Record::Measure { measure: MEASURES_RECOVERY_METRICS__BYTES_IN_FLIGHT, value: bytes_in_flight }),
            self.spec_recorded(Record::CountBool { counter: BOOL_COUNTERS_RECOVERY_METRICS__CONGESTION_LIMITED, value: congestion_limited }),
    {
        let records = recovery_metrics_records(min_rtt, smoothed_rtt, latest_rtt, rtt_variance, max_ack_delay, pto_count, congestion_window, bytes_in_flight, congestion_limited);
        self.record_all(&records);
        proof {
            let s = records@;
            let mut k: int = 0;
            assert(s[k] == Record::Count { counter: COUNTERS_RECOVERY_METRICS, value: 1 });
            k = k + 1;
            assert(s[k] == Record::Measure { measure: MEASURES_RECOVERY_METRICS__MIN_RTT, value: min_rtt });
            k = k + 1;
            assert(s[k] == Record::Measure { measure: MEASURES_RECOVERY_METRICS__SMOOTHED_RTT, value: smoothed_rtt });
            k = k + 1;
            assert(s[k] == Record::Measure { measure: MEASURES_RECOVERY_METRICS__LATEST_RTT, value: latest_rtt });
            k = k + 1;
            assert(s[k] == Record::Measure { measure: MEASURES_RECOVERY_METRICS__RTT_VARIANCE, value: rtt_variance });
            k = k + 1;
            assert(s[k] == Record::Measure { measure: MEASURES_RECOVERY_METRICS__MAX_ACK_DELAY, value: max_ack_delay });
            k = k + 1;
            assert(s[k] == Record::Measure { measure: MEASURES_RECOVERY_METRICS__PTO_COUNT, value: pto_count });
            k = k + 1;
            assert(s[k] == Record::Measure { measure: MEASURES_RECOVERY_METRICS__CONGESTION_WINDOW, value: congestion_window });
            k = k + 1;
            assert(s[k] == Record::Measure { measure: MEASURES_RECOVERY_METRICS__BYTES_IN_FLIGHT, value: bytes_in_flight });
            k = k + 1;
            assert(s[k] == Record::CountBool { counter: BOOL_COUNTERS_RECOVERY_METRICS__CONGESTION_LIMITED, value: congestion_limited });
        }
    }

    /// Records a `congestion` event.
    pub fn on_congestion(&self, event: &api::Congestion<'_>)
        requires
            spec_congestion_source_variant_idx(event.source) < self.spec_nominal_variants()[NOMINAL_COUNTERS_CONGESTION__SOURCE as int].len(),
        ensures
            forall|i: int|
                0 <= i < spec_congestion_records(*event).len() ==> self.spec_recorded(
                    #[trigger] spec_congestion_records(*event)[i],
                ),
            self.spec_recorded(Record::Count { counter: COUNTERS_CONGESTION, value: 1 }),
            self.spec_recorded(Record::CountNominal { counter: NOMINAL_COUNTERS_CONGESTION__SOURCE, variant: spec_congestion_source_variant_idx((*event).source) }),
    {
        let records = congestion_records(event);
        self.record_all(&records);
        proof {
            let s = records@;
            let mut k: int = 0;
            assert(s[k] == Record::Count { counter: COUNTERS_CONGESTION, value: 1 });
            k = k + 1;
            assert(s[k] == Record::CountNominal { counter: NOMINAL_COUNTERS_CONGESTION__SOURCE, variant: spec_congestion_source_variant_idx((*event).source) });
        }
    }

    /// Records a `rx_ack_range_dropped` event.
    pub fn on_rx_ack_range_dropped(&self)
        ensures
            forall|i: int|
                0 <= i < spec_rx_ack_range_dropped_records().len() ==> self.spec_recorded(
                    #[trigger] spec_rx_ack_range_dropped_records()[i],
                ),
            self.spec_recorded(Record::Count { counter: COUNTERS_RX_ACK_RANGE_DROPPED, value: 1 }),
    {
        let records = rx_ack_range_dropped_records();
        self.record_all(&records);
        proof {
            let s = records@;
            let mut k: int = 0;
            assert(s[k] == Record::Count { counter: COUNTERS_RX_ACK_RANGE_DROPPED, value: 1 });
        }
    }

    /// Records a `ack_range_received` event.
    pub fn on_ack_range_received(&self, packet_header: usize)
        requires
            packet_header < self.spec_nominal_variants()[NOMINAL_COUNTERS_ACK_RANGE_RECEIVED__PACKET as int].len(),
        ensures
            forall|i: int|
                0 <= i < spec_ack_range_received_records(packet_header).len() ==> self.spec_recorded(
                    #[trigger] spec_ack_range_received_records(packet_header)[i],
                ),
            self.spec_recorded(Record::Count { counter: COUNTERS_ACK_RANGE_RECEIVED, value: 1 }),
            self.spec_recorded(Record::CountNominal { counter: NOMINAL_COUNTERS_ACK_RANGE_RECEIVED__PACKET, variant: packet_header }),
    {
        let records = ack_range_received_records(packet_header);
        self.record_all(&records);
        proof {
            let s = records@;
            let mut k: int = 0;
            assert(s[k] == Record::Count { counter: COUNTERS_ACK_RANGE_RECEIVED, value: 1 });
            k = k + 1;
            assert(s[k] == Record::CountNominal { counter: NOMINAL_COUNTERS_ACK_RANGE_RECEIVED__PACKET, variant: packet_header });
        }
    }

    /// Records a `ack_range_sent` event.
    pub fn on_ack_range_sent(&self, packet_header: usize)
        requires
            packet_header < self.spec_nominal_variants()[NOMINAL_COUNTERS_ACK_RANGE_SENT__PACKET as int].len(),
        ensures
            forall|i: int|
                0 <= i < spec_ack_range_sent_records(packet_header).len() ==> self.spec_recorded(
                    #[trigger] spec_ack_range_sent_records(packet_header)[i],
                ),
            self.spec_recorded(Record::Count { counter: COUNTERS_ACK_RANGE_SENT, value: 1 }),
            self.spec_recorded(Record::CountNominal { counter: NOMINAL_COUNTERS_ACK_RANGE_SENT__PACKET, variant: packet_header }),
    {
        let records = ack_range_sent_records(packet_header);
        self.record_all(&records);
        proof {
            let s = records@;
            let mut k: int = 0;
            assert(s[k] == Record::Count { counter: COUNTERS_ACK_RANGE_SENT, value: 1 });
            k = k + 1;
            assert(s[k] == Record::CountNominal { counter: NOMINAL_COUNTERS_ACK_RANGE_SENT__PACKET, variant: packet_header });
        }
    }

    /// Records a `packet_dropped` event.
    pub fn on_packet_dropped(&self, event: &api::PacketDropped<'_>)
        requires
            spec_packet_drop_reason_variant_idx(event.reason) < self.spec_nominal_variants()[NOMINAL_COUNTERS_PACKET_DROPPED__REASON as int].len(),
        ensures
            forall|i: int|
                0 <= i < spec_packet_dropped_records(*event).len() ==> self.spec_recorded(
                    #[trigger] spec_packet_dropped_records(*event)[i],
                ),
            self.spec_recorded(Record::Count { counter: COUNTERS_PACKET_DROPPED, value: 1 }),
            self.spec_recorded(Record::CountNominal { counter: NOMINAL_COUNTERS_PACKET_DROPPED__REASON, variant: spec_packet_drop_reason_variant_idx((*event).reason) }),
    {
        let records = packet_dropped_records(event);
        self.record_all(&records);
        proof {
            let s = records@;
            let mut k: int = 0;
            assert(s[k] == Record::Count { counter: COUNTERS_PACKET_DROPPED, value: 1 });
            k = k + 1;
            assert(s[k] == Record::CountNominal { counter: NOMINAL_COUNTERS_PACKET_DROPPED__REASON, variant: spec_packet_drop_reason_variant_idx((*event).reason) });
        }
    }

    /// Records a `key_update` event.
    pub fn on_key_update(&self, event: &api::KeyUpdate)
        requires
            spec_key_type_variant_idx(event.key_type) < self.spec_nominal_variants()[NOMINAL_COUNTERS_KEY_UPDATE__KEY_TYPE as int].len(),
            spec_cipher_suite_variant_idx(event.cipher_suite) < self.spec_nominal_variants()[NOMINAL_COUNTERS_KEY_UPDATE__CIPHER_SUITE as int].len(),
        ensures
            forall|i: int|
                0 <= i < spec_key_update_records(*event).len() ==> self.spec_recorded(
                    #[trigger] spec_key_update_records(*event)[i],
                ),
            self.spec_recorded(Record::Count { counter: COUNTERS_KEY_UPDATE, value: 1 }),
            self.spec_recorded(Record::CountNominal { counter: NOMINAL_COUNTERS_KEY_UPDATE__KEY_TYPE, variant: spec_key_type_variant_idx((*event).key_type) }),
            self.spec_recorded(Record::CountNominal { counter: NOMINAL_COUNTERS_KEY_UPDATE__CIPHER_SUITE, variant: spec_cipher_suite_variant_idx((*event).cipher_suite) }),
    {
        let records = key_update_records(event);
        self.record_all(&records);
        proof {
            let s = records@;
            let mut k: int = 0;
            assert(s[k] == Record::Count { counter: COUNTERS_KEY_UPDATE, value: 1 });
            k = k + 1;
            assert(s[k] == Record::CountNominal { counter: NOMINAL_COUNTERS_KEY_UPDATE__KEY_TYPE, variant: spec_key_type_variant_idx((*event).key_type) });
            k = k + 1;
            assert(s[k] == Record::CountNominal { counter: NOMINAL_COUNTERS_KEY_UPDATE__CIPHER_SUITE, variant: spec_cipher_suite_variant_idx((*event).cipher_suite) });
        }
    }

    /// Records a `key_space_discarded` event.
    pub fn on_key_space_discarded(
        &self,
        context: &ConnectionContext,
        meta: &api::ConnectionMeta,
        event: &api::KeySpaceDiscarded,
    )
        requires
            spec_key_space_variant_idx(event.space) < self.spec_nominal_variants()[NOMINAL_COUNTERS_KEY_SPACE_DISCARDED__SPACE as int].len(),
        ensures
            forall|i: int|
                0 <= i < spec_key_space_discarded_records(context.spec_start_time(), *meta, *event).len() ==> self.spec_recorded(
                    #[trigger] spec_key_space_discarded_records(context.spec_start_time(), *meta, *event)[i],
                ),
            self.spec_recorded(Record::Count { counter: COUNTERS_KEY_SPACE_DISCARDED, value: 1 }),
            (*event).space is Initial ==> self.spec_recorded(Record::Time { timer: TIMERS_KEY_SPACE_DISCARDED__INITIAL__LATENCY, value: spec_latency(context.spec_start_time(), (*meta).timestamp) }),
            (*event).space is Handshake ==> self.spec_recorded(Record::Time { timer: TIMERS_KEY_SPACE_DISCARDED__HANDSHAKE__LATENCY, value: spec_latency(context.spec_start_time(), (*meta).timestamp) }),
            (*event).space is OneRtt ==> self.spec_recorded(Record::Time { timer: TIMERS_KEY_SPACE_DISCARDED__ONE_RTT__LATENCY, value: spec_latency(context.spec_start_time(), (*meta).timestamp) }),
            self.spec_recorded(Record::CountNominal { counter: NOMINAL_COUNTERS_KEY_SPACE_DISCARDED__SPACE, variant: spec_key_space_variant_idx((*event).space) }),
    {
        let records = key_space_discarded_records(context, meta, event);
        self.record_all(&records);
        proof {
            let s = records@;
            let mut k: int = 0;
            assert(s[k] == Record::Count { counter: COUNTERS_KEY_SPACE_DISCARDED, value: 1 });
            k = k + 1;
            if (*event).space is Initial {
                assert(s[k] == Record::Time { timer: TIMERS_KEY_SPACE_DISCARDED__INITIAL__LATENCY, value: spec_latency(context.spec_start_time(), (*meta).timestamp) });
                k = k + 1;
            }
            if (*event).space is Handshake {
                assert(s[k] == Record::Time { timer: TIMERS_KEY_SPACE_DISCARDED__HANDSHAKE__LATENCY, value: spec_latency(context.spec_start_time(), (*meta).timestamp) });
                k = k + 1;
            }
            if (*event).space is OneRtt {
                assert(s[k] == Record::Time { timer: TIMERS_KEY_SPACE_DISCARDED__ONE_RTT__LATENCY, value: spec_latency(context.spec_start_time(), (*meta).timestamp) });
                k = k + 1;
            }
            assert(s[k] == Record::CountNominal { counter: NOMINAL_COUNTERS_KEY_SPACE_DISCARDED__SPACE, variant: spec_key_space_variant_idx((*event).space) });
        }
    }

    /// Records a `connection_started` event.
    pub fn on_connection_started(&self, event: &api::ConnectionStarted<'_>)
        ensures
            forall|i: int|
                0 <= i < spec_connection_started_records(*event).len() ==> self.spec_recorded(
                    #[trigger] spec_connection_started_records(*event)[i],
                ),
            self.spec_recorded(Record::Count { counter: COUNTERS_CONNECTION_STARTED, value: 1 }),
    {
        let records = connection_started_records(event);
        self.record_all(&records);
        proof {
            let s = records@;
            let mut k: int = 0;
            assert(s[k] == Record::Count { counter: COUNTERS_CONNECTION_STARTED, value: 1 });
        }
    }

    /// Records a `duplicate_packet` event.
    pub fn on_duplicate_packet(&self, event: &api::DuplicatePacket<'_>)
        requires
            spec_packet_header_variant_idx(event.packet_header) < self.spec_nominal_variants()[NOMINAL_COUNTERS_DUPLICATE_PACKET__KIND as int].len(),
            spec_duplicate_packet_error_variant_idx(event.error) < self.spec_nominal_variants()[NOMINAL_COUNTERS_DUPLICATE_PACKET__ERROR as int].len(),
        ensures
            forall|i: int|
                0 <= i < spec_duplicate_packet_records(*event).len() ==> self.spec_recorded(
                    #[trigger] spec_duplicate_packet_records(*event)[i],
                ),
            self.spec_recorded(Record::Count { counter: COUNTERS_DUPLICATE_PACKET, value: 1 }),
            self.spec_recorded(Record::CountNominal { counter: NOMINAL_COUNTERS_DUPLICATE_PACKET__KIND, variant: spec_packet_header_variant_idx((*event).packet_header) }),
            self.spec_recorded(Record::CountNominal { counter: NOMINAL_COUNTERS_DUPLICATE_PACKET__ERROR, variant: spec_duplicate_packet_error_variant_idx((*event).error) }),
    {
        let records = duplicate_packet_records(event);
        self.record_all(&records);
        proof {
            let s = records@;
            let mut k: int = 0;
            assert(s[k] == Record::Count { counter: COUNTERS_DUPLICATE_PACKET, value: 1 });
            k = k + 1;
            assert(s[k] == Record::CountNominal { counter: NOMINAL_COUNTERS_DUPLICATE_PACKET__KIND, variant: spec_packet_header_variant_idx((*event).packet_header) });
            k = k + 1;
            assert(s[k] == Record::CountNominal { counter: NOMINAL_COUNTERS_DUPLICATE_PACKET__ERROR, variant: spec_duplicate_packet_error_variant_idx((*event).error) });
        }
    }

    /// Records a `transport_parameters_received` event.
    pub fn on_transport_parameters_received(
        &self,
        context: &ConnectionContext,
        meta: &api::ConnectionMeta,
        event: &api::TransportParametersReceived<'_>,
    )
        ensures
            forall|i: int|
                0 <= i < spec_transport_parameters_received_records(context.spec_start_time(), *meta, *event).len() ==> self.spec_recorded(
                    #[trigger] spec_transport_parameters_received_records(context.spec_start_time(), *meta, *event)[i],
                ),
            self.spec_recorded(Record::Count { counter: COUNTERS_TRANSPORT_PARAMETERS_RECEIVED, value: 1 }),
            self.spec_recorded(Record::Time { timer: TIMERS_TRANSPORT_PARAMETERS_RECEIVED__LATENCY, value: spec_latency(context.spec_start_time(), (*meta).timestamp) }),
    {
        let records = transport_parameters_received_records(context, meta, event);
        self.record_all(&records);
        proof {
            let s = records@;
            let mut k: int = 0;
            assert(s[k] == Record::Count { counter: COUNTERS_TRANSPORT_PARAMETERS_RECEIVED, value: 1 });
            k = k + 1;
            assert(s[k] == Record::Time { timer: TIMERS_TRANSPORT_PARAMETERS_RECEIVED__LATENCY, value: spec_latency(context.spec_start_time(), (*meta).timestamp) });
        }
    }

    /// Records a `datagram_sent` event.
    pub fn on_datagram_sent(&self, event: &api::DatagramSent)
        ensures
            forall|i: int|
                0 <= i < spec_datagram_sent_records(*event).len() ==> self.spec_recorded(
                    #[trigger] spec_datagram_sent_records(*event)[i],
                ),
            self.spec_recorded(Record::Count { counter: COUNTERS_DATAGRAM_SENT, value: 1 }),
            self.spec_recorded(Record::Count { counter: COUNTERS_DATAGRAM_SENT__BYTES__TOTAL, value: (*event).len as u64 }),
            self.spec_recorded(Record::Measure { measure: MEASURES_DATAGRAM_SENT__BYTES, value: (*event).len as u64 }),
            self.spec_recorded(Record::Measure { measure: MEASURES_DATAGRAM_SENT__GSO_OFFSET, value: (*event).gso_offset as u64 }),
    {
        let records = datagram_sent_records(event);
        self.record_all(&records);
        proof {
            let s = records@;
            let mut k: int = 0;
            assert(s[k] == Record::Count { counter: COUNTERS_DATAGRAM_SENT, value: 1 });
            k = k + 1;
            assert(s[k] == Record::Count { counter: COUNTERS_DATAGRAM_SENT__BYTES__TOTAL, value: (*event).len as u64 });
            k = k + 1;
            assert(s[k] == Record::Measure { measure: MEASURES_DATAGRAM_SENT__BYTES, value: (*event).len as u64 });
            k = k + 1;
            assert(s[k] == Record::Measure { measure: MEASURES_DATAGRAM_SENT__GSO_OFFSET, value: (*event).gso_offset as u64 });
        }
    }

    /// Records a `datagram_received` event.
    pub fn on_datagram_received(&self, event: &api::DatagramReceived)
        ensures
            forall|i: int|
                0 <= i < spec_datagram_received_records(*event).len() ==> self.spec_recorded(
                    #[trigger] spec_datagram_received_records(*event)[i],
                ),
            self.spec_recorded(Record::Count { counter: COUNTERS_DATAGRAM_RECEIVED, value: 1 }),
            self.spec_recorded(Record::Count { counter: COUNTERS_DATAGRAM_RECEIVED__BYTES__TOTAL, value: (*event).len as u64 }),
            self.spec_recorded(Record::Measure { measure: MEASURES_DATAGRAM_RECEIVED__BYTES, value: (*event).len as u64 }),
    {
        let records = datagram_received_records(event);
        self.record_all(&records);
        proof {
            let s = records@;
            let mut k: int = 0;
            assert(s[k] == Record::Count { counter: COUNTERS_DATAGRAM_RECEIVED, value: 1 });
            k = k + 1;
            assert(s[k] == Record::Count { counter: COUNTERS_DATAGRAM_RECEIVED__BYTES__TOTAL, value: (*event).len as u64 });
            k = k + 1;
            assert(s[k] == Record::Measure { measure: MEASURES_DATAGRAM_RECEIVED__BYTES, value: (*event).len as u64 });
        }
    }

    /// Records a `datagram_dropped` event.
    pub fn on_datagram_dropped(&self, event: &api::DatagramDropped)
        requires
            spec_datagram_drop_reason_variant_idx(event.reason) < self.spec_nominal_variants()[NOMINAL_COUNTERS_DATAGRAM_DROPPED__REASON as int].len(),
        ensures
            forall|i: int|
                0 <= i < spec_datagram_dropped_records(*event).len() ==> self.spec_recorded(
                    #[trigger] spec_datagram_dropped_records(*event)[i],
                ),
            self.spec_recorded(Record::Count { counter: COUNTERS_DATAGRAM_DROPPED, value: 1 }),
            self.spec_recorded(Record::Count { counter: COUNTERS_DATAGRAM_DROPPED__BYTES__TOTAL, value: (*event).len as u64 }),
            self.spec_recorded(Record::Measure { measure: MEASURES_DATAGRAM_DROPPED__BYTES, value: (*event).len as u64 }),
            self.spec_recorded(Record::CountNominal { counter: NOMINAL_COUNTERS_DATAGRAM_DROPPED__REASON, variant: spec_datagram_drop_reason_variant_idx((*event).reason) }),
    {
        let records = datagram_dropped_records(event);
        self.record_all(&records);
        proof {
            let s = records@;
            let mut k: int = 0;
            assert(s[k] == Record::Count { counter: COUNTERS_DATAGRAM_DROPPED, value: 1 });
            k = k + 1;
            assert(s[k] == Record::Count { counter: COUNTERS_DATAGRAM_DROPPED__BYTES__TOTAL, value: (*event).len as u64 });
            k = k + 1;
            assert(s[k] == Record::Measure { measure: MEASURES_DATAGRAM_DROPPED__BYTES, value: (*event).len as u64 });
            k = k + 1;
            assert(s[k] == Record::CountNominal { counter: NOMINAL_COUNTERS_DATAGRAM_DROPPED__REASON, variant: spec_datagram_drop_reason_variant_idx((*event).reason) });
        }
    }

    /// Records a `handshake_remote_address_change_observed` event.
    pub fn on_handshake_remote_address_change_observed(&self)
        ensures
            forall|i: int|
                0 <= i < spec_handshake_remote_address_change_observed_records().len() ==> self.spec_recorded(
                    #[trigger] spec_handshake_remote_address_change_observed_records()[i],
                ),
            self.spec_recorded(Record::Count { counter: COUNTERS_HANDSHAKE_REMOTE_ADDRESS_CHANGE_OBSERVED, value: 1 }),
    {
        let records = handshake_remote_address_change_observed_records();
        self.record_all(&records);
        proof {
            let s = records@;
            let mut k: int = 0;
            assert(s[k] == Record::Count { counter: COUNTERS_HANDSHAKE_REMOTE_ADDRESS_CHANGE_OBSERVED, value: 1 });
        }
    }

    /// Records a `connection_id_updated` event.
    pub fn on_connection_id_updated(&self, event: &api::ConnectionIdUpdated<'_>)
        ensures
            forall|i: int|
                0 <= i < spec_connection_id_updated_records(*event).len() ==> self.spec_recorded(
                    #[trigger] spec_connection_id_updated_records(*event)[i],
                ),
            self.spec_recorded(Record::Count { counter: COUNTERS_CONNECTION_ID_UPDATED, value: 1 }),
    {
        let records = connection_id_updated_records(event);
        self.record_all(&records);
        proof {
            let s = records@;
            let mut k: int = 0;
            assert(s[k] == Record::Count { counter: COUNTERS_CONNECTION_ID_UPDATED, value: 1 });
        }
    }

    /// Records a `ecn_state_changed` event.
    pub fn on_ecn_state_changed(&self, event: &api::EcnStateChanged<'_>)
        requires
            spec_ecn_state_variant_idx(event.state) < self.spec_nominal_variants()[NOMINAL_COUNTERS_ECN_STATE_CHANGED__STATE as int].len(),
        ensures
            forall|i: int|
                0 <= i < spec_ecn_state_changed_records(*event).len() ==> self.spec_recorded(
                    #[trigger] spec_ecn_state_changed_records(*event)[i],
                ),
            self.spec_recorded(Record::Count { counter: COUNTERS_ECN_STATE_CHANGED, value: 1 }),
            self.spec_recorded(Record::CountNominal { counter: NOMINAL_COUNTERS_ECN_STATE_CHANGED__STATE, variant: spec_ecn_state_variant_idx((*event).state) }),
    {
        let records = ecn_state_changed_records(event);
        self.record_all(&records);
        proof {
            let s = records@;
            let mut k: int = 0;
            assert(s[k] == Record::Count { counter: COUNTERS_ECN_STATE_CHANGED, value: 1 });
            k = k + 1;
            assert(s[k] == Record::CountNominal { counter: NOMINAL_COUNTERS_ECN_STATE_CHANGED__STATE, variant: spec_ecn_state_variant_idx((*event).state) });
        }
    }

    /// Records a `connection_migration_denied` event.
    pub fn on_connection_migration_denied(&self, event: &api::ConnectionMigrationDenied)
        requires
            spec_migration_deny_reason_variant_idx(event.reason) < self.spec_nominal_variants()[NOMINAL_COUNTERS_CONNECTION_MIGRATION_DENIED__REASON as int].len(),
        ensures
            forall|i: int|
                0 <= i < spec_connection_migration_denied_records(*event).len() ==> self.spec_recorded(
                    #[trigger] spec_connection_migration_denied_records(*event)[i],
                ),
            self.spec_recorded(Record::Count { counter: COUNTERS_CONNECTION_MIGRATION_DENIED, value: 1 }),
            self.spec_recorded(Record::CountNominal { counter: NOMINAL_COUNTERS_CONNECTION_MIGRATION_DENIED__REASON, variant: spec_migration_deny_reason_variant_idx((*event).reason) }),
    {
        let records = connection_migration_denied_records(event);
        self.record_all(&records);
        proof {
            let s = records@;
            let mut k: int = 0;
            assert(s[k] == Record::Count { counter: COUNTERS_CONNECTION_MIGRATION_DENIED, value: 1 });
            k = k + 1;
            assert(s[k] == Record::CountNominal { counter: NOMINAL_COUNTERS_CONNECTION_MIGRATION_DENIED__REASON, variant: spec_migration_deny_reason_variant_idx((*event).reason) });
        }
    }

    /// Records a `handshake_status_updated` event.
    pub fn on_handshake_status_updated(
        &self,
        context: &ConnectionContext,
        meta: &api::ConnectionMeta,
        event: &api::HandshakeStatusUpdated,
    )
        requires
            spec_handshake_status_variant_idx(event.status) < self.spec_nominal_variants()[NOMINAL_COUNTERS_HANDSHAKE_STATUS_UPDATED__STATUS as int].len(),
        ensures
            forall|i: int|
                0 <= i < spec_handshake_status_updated_records(context.spec_start_time(), *meta, *event).len() ==> self.spec_recorded(
                    #[trigger] spec_handshake_status_updated_records(context.spec_start_time(), *meta, *event)[i],
                ),
            self.spec_recorded(Record::Count { counter: COUNTERS_HANDSHAKE_STATUS_UPDATED, value: 1 }),
            (*event).status is Complete ==> self.spec_recorded(Record::Time { timer: TIMERS_HANDSHAKE_STATUS_UPDATED__COMPLETE__LATENCY, value: spec_latency(context.spec_start_time(), (*meta).timestamp) }),
            (*event).status is Confirmed ==> self.spec_recorded(Record::Time { timer: TIMERS_HANDSHAKE_STATUS_UPDATED__CONFIRMED__LATENCY, value: spec_latency(context.spec_start_time(), (*meta).timestamp) }),
            (*event).status is HandshakeDoneAcked ==> self.spec_recorded(Record::Time { timer: TIMERS_HANDSHAKE_STATUS_UPDATED__HANDSHAKE_DONE_ACKED__LATENCY, value: spec_latency(context.spec_start_time(), (*meta).timestamp) }),
            self.spec_recorded(Record::CountNominal { counter: NOMINAL_COUNTERS_HANDSHAKE_STATUS_UPDATED__STATUS, variant: spec_handshake_status_variant_idx((*event).status) }),
    {
        let records = handshake_status_updated_records(context, meta, event);
        self.record_all(&records);
        proof {
            let s = records@;
            let mut k: int = 0;
            assert(s[k] == Record::Count { counter: COUNTERS_HANDSHAKE_STATUS_UPDATED, value: 1 });
            k = k + 1;
            if (*event).status is Complete {
                assert(s[k] == Record::Time { timer: TIMERS_HANDSHAKE_STATUS_UPDATED__COMPLETE__LATENCY, value: spec_latency(context.spec_start_time(), (*meta).timestamp) });
                k = k + 1;
            }
            if (*event).status is Confirmed {
                assert(s[k] == Record::Time { timer: TIMERS_HANDSHAKE_STATUS_UPDATED__CONFIRMED__LATENCY, value: spec_latency(context.spec_start_time(), (*meta).timestamp) });
                k = k + 1;
            }
            if (*event).status is HandshakeDoneAcked {
                assert(s[k] == Record::Time { timer: TIMERS_HANDSHAKE_STATUS_UPDATED__HANDSHAKE_DONE_ACKED__LATENCY, value: spec_latency(context.spec_start_time(), (*meta).timestamp) });
                k = k + 1;
            }
            assert(s[k] == Record::CountNominal { counter: NOMINAL_COUNTERS_HANDSHAKE_STATUS_UPDATED__STATUS, variant: spec_handshake_status_variant_idx((*event).status) });
        }
    }

    /// Records a `tls_exporter_ready` event.
    pub fn on_tls_exporter_ready(&self)
        ensures
            forall|i: int|
                0 <= i < spec_tls_exporter_ready_records().len() ==> self.spec_recorded(
                    #[trigger] spec_tls_exporter_ready_records()[i],
                ),
            self.spec_recorded(Record::Count { counter: COUNTERS_TLS_EXPORTER_READY, value: 1 }),
    {
        let records = tls_exporter_ready_records();
        self.record_all(&records);
        proof {
            let s = records@;
            let mut k: int = 0;
            assert(s[k] == Record::Count { counter: COUNTERS_TLS_EXPORTER_READY, value: 1 });
        }
    }

    /// Records a `tls_handshake_failed` event.
    pub fn on_tls_handshake_failed(&self)
        ensures
            forall|i: int|
                0 <= i < spec_tls_handshake_failed_records().len() ==> self.spec_recorded(
                    #[trigger] spec_tls_handshake_failed_records()[i],
                ),
            self.spec_recorded(Record::Count { counter: COUNTERS_TLS_HANDSHAKE_FAILED, value: 1 }),
    {
        let records = tls_handshake_failed_records();
        self.record_all(&records);
        proof {
            let s = records@;
            let mut k: int = 0;
            assert(s[k] == Record::Count { counter: COUNTERS_TLS_HANDSHAKE_FAILED, value: 1 });
        }
    }

    /// Records a `path_challenge_updated` event.
    pub fn on_path_challenge_updated(&self, path_challenge_status: usize)
        requires
            path_challenge_status < self.spec_nominal_variants()[NOMINAL_COUNTERS_PATH_CHALLENGE_UPDATED__STATUS as int].len(),
        ensures
            forall|i: int|
                0 <= i < spec_path_challenge_updated_records(path_challenge_status).len() ==> self.spec_recorded(
                    #[trigger] spec_path_challenge_updated_records(path_challenge_status)[i],
                ),
            self.spec_recorded(Record::Count { counter: COUNTERS_PATH_CHALLENGE_UPDATED, value: 1 }),
            self.spec_recorded(Record::CountNominal { counter: NOMINAL_COUNTERS_PATH_CHALLENGE_UPDATED__STATUS, variant: path_challenge_status }),
    {
        let records = path_challenge_updated_records(path_challenge_status);
        self.record_all(&records);
        proof {
            let s = records@;
            let mut k: int = 0;
            assert(s[k] == Record::Count { counter: COUNTERS_PATH_CHALLENGE_UPDATED, value: 1 });
            k = k + 1;
            assert(s[k] == Record::CountNominal { counter: NOMINAL_COUNTERS_PATH_CHALLENGE_UPDATED__STATUS, variant: path_challenge_status });
        }
    }

    /// Records a `tls_client_hello` event.
    pub fn on_tls_client_hello(
        &self,
        context: &ConnectionContext,
        meta: &api::ConnectionMeta,
        event: &api::TlsClientHello<'_>,
    )
        ensures
            forall|i: int|
                0 <= i < spec_tls_client_hello_records(context.spec_start_time(), *meta, *event).len() ==> self.spec_recorded(
                    #[trigger] spec_tls_client_hello_records(context.spec_start_time(), *meta, *event)[i],
                ),
            self.spec_recorded(Record::Count { counter: COUNTERS_TLS_CLIENT_HELLO, value: 1 }),
            self.spec_recorded(Record::Time { timer: TIMERS_TLS_CLIENT_HELLO__LATENCY, value: spec_latency(context.spec_start_time(), (*meta).timestamp) }),
    {
        let records = tls_client_hello_records(context, meta, event);
        self.record_all(&records);
        proof {
            let s = records@;
            let mut k: int = 0;
            assert(s[k] == Record::Count { counter: COUNTERS_TLS_CLIENT_HELLO, value: 1 });
            k = k + 1;
            assert(s[k] == Record::Time { timer: TIMERS_TLS_CLIENT_HELLO__LATENCY, value: spec_latency(context.spec_start_time(), (*meta).timestamp) });
        }
    }

    /// Records a `tls_server_hello` event.
    pub fn on_tls_server_hello(
        &self,
        context: &ConnectionContext,
        meta: &api::ConnectionMeta,
        event: &api::TlsServerHello<'_>,
    )
        ensures
            forall|i: int|
                0 <= i < spec_tls_server_hello_records(context.spec_start_time(), *meta, *event).len() ==> self.spec_recorded(
                    #[trigger] spec_tls_server_hello_records(context.spec_start_time(), *meta, *event)[i],
                ),
            self.spec_recorded(Record::Count { counter: COUNTERS_TLS_SERVER_HELLO, value: 1 }),
            self.spec_recorded(Record::Time { timer: TIMERS_TLS_SERVER_HELLO__LATENCY, value: spec_latency(context.spec_start_time(), (*meta).timestamp) }),
    {
        let records = tls_server_hello_records(context, meta, event);
        self.record_all(&records);
        proof {
            let s = records@;
            let mut k: int = 0;
            assert(s[k] == Record::Count { counter: COUNTERS_TLS_SERVER_HELLO, value: 1 });
            k = k + 1;
            assert(s[k] == Record::Time { timer: TIMERS_TLS_SERVER_HELLO__LATENCY, value: spec_latency(context.spec_start_time(), (*meta).timestamp) });
        }
    }

    /// Records a `rx_stream_progress` event.
    pub fn on_rx_stream_progress(&self, bytes: u64)
        ensures
            forall|i: int|
                0 <= i < spec_rx_stream_progress_records(bytes).len() ==> self.spec_recorded(
                    #[trigger] spec_rx_stream_progress_records(bytes)[i],
                ),
            self.spec_recorded(Record::Count { counter: COUNTERS_RX_STREAM_PROGRESS, value: 1 }),
            self.spec_recorded(Record::Count { counter: COUNTERS_RX_STREAM_PROGRESS__BYTES__TOTAL, value: bytes }),
            self.spec_recorded(Record::Measure { measure: MEASURES_RX_STREAM_PROGRESS__BYTES, value: bytes }),
    {
        let records = rx_stream_progress_records(bytes);
        self.record_all(&records);
        proof {
            let s = records@;
            let mut k: int = 0;
            assert(s[k] == Record::Count { counter: COUNTERS_RX_STREAM_PROGRESS, value: 1 });
            k = k + 1;
            assert(s[k] == Record::Count { counter: COUNTERS_RX_STREAM_PROGRESS__BYTES__TOTAL, value: bytes });
            k = k + 1;
            assert(s[k] == Record::Measure { measure: MEASURES_RX_STREAM_PROGRESS__BYTES, value: bytes });
        }
    }

    /// Records a `tx_stream_progress` event.
    pub fn on_tx_stream_progress(&self, bytes: u64)
        ensures
            forall|i: int|
                0 <= i < spec_tx_stream_progress_records(bytes).len() ==> self.spec_recorded(
                    #[trigger] spec_tx_stream_progress_records(bytes)[i],
                ),
            self.spec_recorded(Record::Count { counter: COUNTERS_TX_STREAM_PROGRESS, value: 1 }),
            self.spec_recorded(Record::Count { counter: COUNTERS_TX_STREAM_PROGRESS__BYTES__TOTAL, value: bytes }),
            self.spec_recorded(Record::Measure { measure: MEASURES_TX_STREAM_PROGRESS__BYTES, value: bytes }),
    {
        let records = tx_stream_progress_records(bytes);
        self.record_all(&records);
        proof {
            let s = records@;
            let mut k: int = 0;
            assert(s[k] == Record::Count { counter: COUNTERS_TX_STREAM_PROGRESS, value: 1 });
            k = k + 1;
            assert(s[k] == Record::Count { counter: COUNTERS_TX_STREAM_PROGRESS__BYTES__TOTAL, value: bytes });
            k = k + 1;
            assert(s[k] == Record::Measure { measure: MEASURES_TX_STREAM_PROGRESS__BYTES, value: bytes });
        }
    }

    /// Records a `keep_alive_timer_expired` event.
    pub fn on_keep_alive_timer_expired(&self)
        ensures
            forall|i: int|
                0 <= i < spec_keep_alive_timer_expired_records().len() ==> self.spec_recorded(
                    #[trigger] spec_keep_alive_timer_expired_records()[i],
                ),
            self.spec_recorded(Record::Count { counter: COUNTERS_KEEP_ALIVE_TIMER_EXPIRED, value: 1 }),
    {
        let records = keep_alive_timer_expired_records();
        self.record_all(&records);
        proof {
            let s = records@;
            let mut k: int = 0;
            assert(s[k] == Record::Count { counter: COUNTERS_KEEP_ALIVE_TIMER_EXPIRED, value: 1 });
        }
    }

    /// Records a `mtu_updated` event.
    pub fn on_mtu_updated(&self, mtu: u64, cause: usize, search_complete: bool)
        requires
            cause < self.spec_nominal_variants()[NOMINAL_COUNTERS_MTU_UPDATED__CAUSE as int].len(),
        ensures
            forall|i: int|
                0 <= i < spec_mtu_updated_records(mtu, cause, search_complete).len() ==> self.spec_recorded(
                    #[trigger] spec_mtu_updated_records(mtu, cause, search_complete)[i],
                ),
            self.spec_recorded(Record::Count { counter: COUNTERS_MTU_UPDATED, value: 1 }),
            self.spec_recorded(Record::Measure { measure: MEASURES_MTU_UPDATED__MTU, value: mtu }),
            self.spec_recorded(Record::CountNominal { counter: NOMINAL_COUNTERS_MTU_UPDATED__CAUSE, variant: cause }),
            self.spec_recorded(Record::CountBool { counter: BOOL_COUNTERS_MTU_UPDATED__SEARCH_COMPLETE, value: search_complete }),
    {
        let records = mtu_updated_records(mtu, cause, search_complete);
        self.record_all(&records);
        proof {
            let s = records@;
            let mut k: int = 0;
            assert(s[k] == Record::Count { counter: COUNTERS_MTU_UPDATED, value: 1 });
            k = k + 1;
            assert(s[k] == Record::Measure { measure: MEASURES_MTU_UPDATED__MTU, value: mtu });
            k = k + 1;
            assert(s[k] == Record::CountNominal { counter: NOMINAL_COUNTERS_MTU_UPDATED__CAUSE, variant: cause });
            k = k + 1;
            assert(s[k] == Record::CountBool { counter: BOOL_COUNTERS_MTU_UPDATED__SEARCH_COMPLETE, value: search_complete });
        }
    }

    /// Records a `mtu_probing_complete_received` event.
    pub fn on_mtu_probing_complete_received(&self, packet_header: usize, mtu: u64)
        requires
            packet_header < self.spec_nominal_variants()[NOMINAL_COUNTERS_MTU_PROBING_COMPLETE_RECEIVED__PACKET as int].len(),
        ensures
            forall|i: int|
                0 <= i < spec_mtu_probing_complete_received_records(packet_header, mtu).len() ==> self.spec_recorded(
                    #[trigger] spec_mtu_probing_complete_received_records(packet_header, mtu)[i],
                ),
            self.spec_recorded(Record::Count { counter: COUNTERS_MTU_PROBING_COMPLETE_RECEIVED, value: 1 }),
            self.spec_recorded(Record::CountNominal { counter: NOMINAL_COUNTERS_MTU_PROBING_COMPLETE_RECEIVED__PACKET, variant: packet_header }),
            self.spec_recorded(Record::Measure { measure: MEASURES_MTU_PROBING_COMPLETE_RECEIVED__MTU, value: mtu }),
    {
        let records = mtu_probing_complete_received_records(packet_header, mtu);
        self.record_all(&records);
        proof {
            let s = records@;
            let mut k: int = 0;
            assert(s[k] == Record::Count { counter: COUNTERS_MTU_PROBING_COMPLETE_RECEIVED, value: 1 });
            k = k + 1;
            assert(s[k] == Record::CountNominal { counter: NOMINAL_COUNTERS_MTU_PROBING_COMPLETE_RECEIVED__PACKET, variant: packet_header });
            k = k + 1;
            assert(s[k] == Record::Measure { measure: MEASURES_MTU_PROBING_COMPLETE_RECEIVED__MTU, value: mtu });
        }
    }

    /// Records a `slow_start_exited` event.
    pub fn on_slow_start_exited(&self, cause: usize, latency: Duration, congestion_window: u64)
        requires
            cause < self.spec_nominal_variants()[NOMINAL_COUNTERS_SLOW_START_EXITED__CAUSE as int].len(),
            cause < self.spec_nominal_timer_variants()[NOMINAL_TIMERS_SLOW_START_EXITED__LATENCY as int].len(),
        ensures
            forall|i: int|
                0 <= i < spec_slow_start_exited_records(cause, latency, congestion_window).len() ==> self.spec_recorded(
                    #[trigger] spec_slow_start_exited_records(cause, latency, congestion_window)[i],
                ),
            self.spec_recorded(Record::Count { counter: COUNTERS_SLOW_START_EXITED, value: 1 }),
            self.spec_recorded(Record::CountNominal { counter: NOMINAL_COUNTERS_SLOW_START_EXITED__CAUSE, variant: cause }),
            self.spec_recorded(Record::TimeNominal { timer: NOMINAL_TIMERS_SLOW_START_EXITED__LATENCY, variant: cause, value: latency }),
            self.spec_recorded(Record::Measure { measure: MEASURES_SLOW_START_EXITED__CONGESTION_WINDOW, value: congestion_window }),
    {
        let records = slow_start_exited_records(cause, latency, congestion_window);
        self.record_all(&records);
        proof {
            let s = records@;
            let mut k: int = 0;
            assert(s[k] == Record::Count { counter: COUNTERS_SLOW_START_EXITED, value: 1 });
            k = k + 1;
            assert(s[k] == Record::CountNominal { counter: NOMINAL_COUNTERS_SLOW_START_EXITED__CAUSE, variant: cause });
            k = k + 1;
            assert(s[k] == Record::TimeNominal { timer: NOMINAL_TIMERS_SLOW_START_EXITED__LATENCY, variant: cause, value: latency });
            k = k + 1;
            assert(s[k] == Record::Measure { measure: MEASURES_SLOW_START_EXITED__CONGESTION_WINDOW, value: congestion_window });
        }
    }

    /// Records a `delivery_rate_sampled` event.
    pub fn on_delivery_rate_sampled(&self)
        ensures
            forall|i: int|
                0 <= i < spec_delivery_rate_sampled_records().len() ==> self.spec_recorded(
                    #[trigger] spec_delivery_rate_sampled_records()[i],
                ),
            self.spec_recorded(Record::Count { counter: COUNTERS_DELIVERY_RATE_SAMPLED, value: 1 }),
    {
        let records = delivery_rate_sampled_records();
        self.record_all(&records);
        proof {
            let s = records@;
            let mut k: int = 0;
            assert(s[k] == Record::Count { counter: COUNTERS_DELIVERY_RATE_SAMPLED, value: 1 });
        }
    }

    /// Records a `bbr_state_changed` event.
    pub fn on_bbr_state_changed(&self, state: usize)
        requires
            state < self.spec_nominal_variants()[NOMINAL_COUNTERS_BBR_STATE_CHANGED__STATE as int].len(),
        ensures
            forall|i: int|
                0 <= i < spec_bbr_state_changed_records(state).len() ==> self.spec_recorded(
                    #[trigger] spec_bbr_state_changed_records(state)[i],
                ),
            self.spec_recorded(Record::Count { counter: COUNTERS_BBR_STATE_CHANGED, value: 1 }),
            self.spec_recorded(Record::CountNominal { counter: NOMINAL_COUNTERS_BBR_STATE_CHANGED__STATE, variant: state }),
    {
        let records = bbr_state_changed_records(state);
        self.record_all(&records);
        proof {
            let s = records@;
            let mut k: int = 0;
            assert(s[k] == Record::Count { counter: COUNTERS_BBR_STATE_CHANGED, value: 1 });
            k = k + 1;
            assert(s[k] == Record::CountNominal { counter: NOMINAL_COUNTERS_BBR_STATE_CHANGED__STATE, variant: state });
        }
    }

    /// Records a `dc_state_changed` event.
    pub fn on_dc_state_changed(
        &self,
        latency: Duration,
        state_is_version_negotiated: bool,
        state_is_path_secrets_ready: bool,
        state_is_complete: bool,
        state: usize,
    )
        requires
            state < self.spec_nominal_variants()[NOMINAL_COUNTERS_DC_STATE_CHANGED__STATE as int].len(),
        ensures
            forall|i: int|
                0 <= i < spec_dc_state_changed_records(latency, state_is_version_negotiated, state_is_path_secrets_ready, state_is_complete, state).len() ==> self.spec_recorded(
                    #[trigger] spec_dc_state_changed_records(latency, state_is_version_negotiated, state_is_path_secrets_ready, state_is_complete, state)[i],
                ),
            self.spec_recorded(Record::Count { counter: COUNTERS_DC_STATE_CHANGED, value: 1 }),
            state_is_version_negotiated ==> self.spec_recorded(Record::Time { timer: TIMERS_DC_STATE_CHANGED__VERSION_NEGOTIATED__LATENCY, value: latency }),
            state_is_version_negotiated ==> self.spec_recorded(Record::Time { timer: TIMERS_DC_STATE_CHANGED__NO_VERSION_NEGOTIATED__LATENCY, value: latency }),
            state_is_path_secrets_ready ==> self.spec_recorded(Record::Time { timer: TIMERS_DC_STATE_CHANGED__PATH_SECRETS__LATENCY, value: latency }),
            state_is_complete ==> self.spec_recorded(Record::Time { timer: TIMERS_DC_STATE_CHANGED__COMPLETE__LATENCY, value: latency }),
            self.spec_recorded(Record::CountNominal { counter: NOMINAL_COUNTERS_DC_STATE_CHANGED__STATE, variant: state }),
    {
        let records = dc_state_changed_records(latency, state_is_version_negotiated, state_is_path_secrets_ready, state_is_complete, state);
        self.record_all(&records);
        proof {
            let s = records@;
            let mut k: int = 0;
            assert(s[k] == Record::Count { counter: COUNTERS_DC_STATE_CHANGED, value: 1 });
            k = k + 1;
            if state_is_version_negotiated {
                assert(s[k] == Record::Time { timer: TIMERS_DC_STATE_CHANGED__VERSION_NEGOTIATED__LATENCY, value: latency });
                k = k + 1;
            }
            if state_is_version_negotiated {
                assert(s[k] == Record::Time { timer: TIMERS_DC_STATE_CHANGED__NO_VERSION_NEGOTIATED__LATENCY, value: latency });
                k = k + 1;
            }
            if state_is_path_secrets_ready {
                assert(s[k] == Record::Time { timer: TIMERS_DC_STATE_CHANGED__PATH_SECRETS__LATENCY, value: latency });
                k = k + 1;
            }
            if state_is_complete {
                assert(s[k] == Record::Time { timer: TIMERS_DC_STATE_CHANGED__COMPLETE__LATENCY, value: latency });
                k = k + 1;
            }
            assert(s[k] == Record::CountNominal { counter: NOMINAL_COUNTERS_DC_STATE_CHANGED__STATE, variant: state });
        }
    }

    /// Records a `dc_path_created` event.
    pub fn on_dc_path_created(&self)
        ensures
            forall|i: int|
                0 <= i < spec_dc_path_created_records().len() ==> self.spec_recorded(
                    #[trigger] spec_dc_path_created_records()[i],
                ),
            self.spec_recorded(Record::Count { counter: COUNTERS_DC_PATH_CREATED, value: 1 }),
    {
        let records = dc_path_created_records();
        self.record_all(&records);
        proof {
            let s = records@;
            let mut k: int = 0;
            assert(s[k] == Record::Count { counter: COUNTERS_DC_PATH_CREATED, value: 1 });
        }
    }

    /// Records a `connection_closed` event.
    pub fn on_connection_closed(&self, latency: Duration, error: usize)
        requires
            error < self.spec_nominal_variants()[NOMINAL_COUNTERS_CONNECTION_CLOSED__ERROR as int].len(),
        ensures
            forall|i: int|
                0 <= i < spec_connection_closed_records(latency, error).len() ==> self.spec_recorded(
                    #[trigger] spec_connection_closed_records(latency, error)[i],
                ),
            self.spec_recorded(Record::Count { counter: COUNTERS_CONNECTION_CLOSED, value: 1 }),
            self.spec_recorded(Record::Time { timer: TIMERS_CONNECTION_CLOSED__LATENCY, value: latency }),
            self.spec_recorded(Record::CountNominal { counter: NOMINAL_COUNTERS_CONNECTION_CLOSED__ERROR, variant: error }),
    {
        let records = connection_closed_records(latency, error);
        self.record_all(&records);
        proof {
            let s = records@;
            let mut k: int = 0;
            assert(s[k] == Record::Count { counter: COUNTERS_CONNECTION_CLOSED, value: 1 });
            k = k + 1;
            assert(s[k] == Record::Time { timer: TIMERS_CONNECTION_CLOSED__LATENCY, value: latency });
            k = k + 1;
            assert(s[k] == Record::CountNominal { counter: NOMINAL_COUNTERS_CONNECTION_CLOSED__ERROR, variant: error });
        }
    }

    /// Records a `version_information` event.
    pub fn on_version_information(&self, event: &api::VersionInformation<'_>)
        ensures
            forall|i: int|
                0 <= i < spec_version_information_records(*event).len() ==> self.spec_recorded(
                    #[trigger] spec_version_information_records(*event)[i],
                ),
            self.spec_recorded(Record::Count { counter: COUNTERS_VERSION_INFORMATION, value: 1 }),
    {
        let records = version_information_records(event);
        self.record_all(&records);
        proof {
            let s = records@;
            let mut k: int = 0;
            assert(s[k] == Record::Count { counter: COUNTERS_VERSION_INFORMATION, value: 1 });
        }
    }

    /// Records a `endpoint_packet_sent` event.
    pub fn on_endpoint_packet_sent(&self, event: &api::EndpointPacketSent)
        ensures
            forall|i: int|
                0 <= i < spec_endpoint_packet_sent_records(*event).len() ==> self.spec_recorded(
                    #[trigger] spec_endpoint_packet_sent_records(*event)[i],
                ),
            self.spec_recorded(Record::Count { counter: COUNTERS_ENDPOINT_PACKET_SENT, value: 1 }),
    {
        let records = endpoint_packet_sent_records(event);
        self.record_all(&records);
        proof {
            let s = records@;
            let mut k: int = 0;
            assert(s[k] == Record::Count { counter: COUNTERS_ENDPOINT_PACKET_SENT, value: 1 });
        }
    }

    /// Records a `endpoint_packet_received` event.
    pub fn on_endpoint_packet_received(&self, event: &api::EndpointPacketReceived)
        ensures
            forall|i: int|
                0 <= i < spec_endpoint_packet_received_records(*event).len() ==> self.spec_recorded(
                    #[trigger] spec_endpoint_packet_received_records(*event)[i],
                ),
            self.spec_recorded(Record::Count { counter: COUNTERS_ENDPOINT_PACKET_RECEIVED, value: 1 }),
    {
        let records = endpoint_packet_received_records(event);
        self.record_all(&records);
        proof {
            let s = records@;
            let mut k: int = 0;
            assert(s[k] == Record::Count { counter: COUNTERS_ENDPOINT_PACKET_RECEIVED, value: 1 });
        }
    }

    /// Records a `endpoint_datagram_sent` event.
    pub fn on_endpoint_datagram_sent(&self, event: &api::EndpointDatagramSent)
        ensures
            forall|i: int|
                0 <= i < spec_endpoint_datagram_sent_records(*event).len() ==> self.spec_recorded(
                    #[trigger] spec_endpoint_datagram_sent_records(*event)[i],
                ),
            self.spec_recorded(Record::Count { counter: COUNTERS_ENDPOINT_DATAGRAM_SENT, value: 1 }),
            self.spec_recorded(Record::Measure { measure: MEASURES_ENDPOINT_DATAGRAM_SENT__BYTES, value: (*event).len as u64 }),
            self.spec_recorded(Record::Measure { measure: MEASURES_ENDPOINT_DATAGRAM_SENT__BYTES__TOTAL, value: (*event).len as u64 }),
            self.spec_recorded(Record::Measure { measure: MEASURES_ENDPOINT_DATAGRAM_SENT__GSO_OFFSET, value: (*event).gso_offset as u64 }),
    {
        let records = endpoint_datagram_sent_records(event);
        self.record_all(&records);
        proof {
            let s = records@;
            let mut k: int = 0;
            assert(s[k] == Record::Count { counter: COUNTERS_ENDPOINT_DATAGRAM_SENT, value: 1 });
            k = k + 1;
            assert(s[k] == Record::Measure { measure: MEASURES_ENDPOINT_DATAGRAM_SENT__BYTES, value: (*event).len as u64 });
            k = k + 1;
            assert(s[k] == Record::Measure { measure: MEASURES_ENDPOINT_DATAGRAM_SENT__BYTES__TOTAL, value: (*event).len as u64 });
            k = k + 1;
            assert(s[k] == Record::Measure { measure: MEASURES_ENDPOINT_DATAGRAM_SENT__GSO_OFFSET, value: (*event).gso_offset as u64 });
        }
    }

    /// Records a `endpoint_datagram_received` event.
    pub fn on_endpoint_datagram_received(&self, event: &api::EndpointDatagramReceived)
        ensures
            forall|i: int|
                0 <= i < spec_endpoint_datagram_received_records(*event).len() ==> self.spec_recorded(
                    #[trigger] spec_endpoint_datagram_received_records(*event)[i],
                ),
            self.spec_recorded(Record::Count { counter: COUNTERS_ENDPOINT_DATAGRAM_RECEIVED, value: 1 }),
            self.spec_recorded(Record::Measure { measure: MEASURES_ENDPOINT_DATAGRAM_RECEIVED__BYTES, value: (*event).len as u64 }),
            self.spec_recorded(Record::Measure { measure: MEASURES_ENDPOINT_DATAGRAM_RECEIVED__BYTES__TOTAL, value: (*event).len as u64 }),
    {
        let records = endpoint_datagram_received_records(event);
        self.record_all(&records);
        proof {
            let s = records@;
            let mut k: int = 0;
            assert(s[k] == Record::Count { counter: COUNTERS_ENDPOINT_DATAGRAM_RECEIVED, value: 1 });
            k = k + 1;
            assert(s[k] == Record::Measure { measure: MEASURES_ENDPOINT_DATAGRAM_RECEIVED__BYTES, value: (*event).len as u64 });
            k = k + 1;
            assert(s[k] == Record::Measure { measure: MEASURES_ENDPOINT_DATAGRAM_RECEIVED__BYTES__TOTAL, value: (*event).len as u64 });
        }
    }

    /// Records a `endpoint_datagram_dropped` event.
    pub fn on_endpoint_datagram_dropped(&self, event: &api::EndpointDatagramDropped)
        requires
            spec_datagram_drop_reason_variant_idx(event.reason) < self.spec_nominal_variants()[NOMINAL_COUNTERS_ENDPOINT_DATAGRAM_DROPPED__REASON as int].len(),
        ensures
            forall|i: int|
                0 <= i < spec_endpoint_datagram_dropped_records(*event).len() ==> self.spec_recorded(
                    #[trigger] spec_endpoint_datagram_dropped_records(*event)[i],
                ),
            self.spec_recorded(Record::Count { counter: COUNTERS_ENDPOINT_DATAGRAM_DROPPED, value: 1 }),
            self.spec_recorded(Record::Measure { measure: MEASURES_ENDPOINT_DATAGRAM_DROPPED__BYTES, value: (*event).len as u64 }),
            self.spec_recorded(Record::Measure { measure: MEASURES_ENDPOINT_DATAGRAM_DROPPED__BYTES__TOTAL, value: (*event).len as u64 }),
            self.spec_recorded(Record::CountNominal { counter: NOMINAL_COUNTERS_ENDPOINT_DATAGRAM_DROPPED__REASON, variant: spec_datagram_drop_reason_variant_idx((*event).reason) }),
    {
        let records = endpoint_datagram_dropped_records(event);
        self.record_all(&records);
        proof {
            let s = records@;
            let mut k: int = 0;
            assert(s[k] == Record::Count { counter: COUNTERS_ENDPOINT_DATAGRAM_DROPPED, value: 1 });
            k = k + 1;
            assert(s[k] == Record::Measure { measure: MEASURES_ENDPOINT_DATAGRAM_DROPPED__BYTES, value: (*event).len as u64 });
            k = k + 1;
            assert(s[k] == Record::Measure { measure: MEASURES_ENDPOINT_DATAGRAM_DROPPED__BYTES__TOTAL, value: (*event).len as u64 });
            k = k + 1;
            assert(s[k] == Record::CountNominal { counter: NOMINAL_COUNTERS_ENDPOINT_DATAGRAM_DROPPED__REASON, variant: spec_datagram_drop_reason_variant_idx((*event).reason) });
        }
    }

    /// Records a `endpoint_connection_attempt_failed` event.
    pub fn on_endpoint_connection_attempt_failed(&self, error: usize)
        requires
            error < self.spec_nominal_variants()[NOMINAL_COUNTERS_ENDPOINT_CONNECTION_ATTEMPT_FAILED__ERROR as int].len(),
        ensures
            forall|i: int|
                0 <= i < spec_endpoint_connection_attempt_failed_records(error).len() ==> self.spec_recorded(
                    #[trigger] spec_endpoint_connection_attempt_failed_records(error)[i],
                ),
            self.spec_recorded(Record::Count { counter: COUNTERS_ENDPOINT_CONNECTION_ATTEMPT_FAILED, value: 1 }),
            self.spec_recorded(Record::CountNominal { counter: NOMINAL_COUNTERS_ENDPOINT_CONNECTION_ATTEMPT_FAILED__ERROR, variant: error }),
    {
        let records = endpoint_connection_attempt_failed_records(error);
        self.record_all(&records);
        proof {
            let s = records@;
            let mut k: int = 0;
            assert(s[k] == Record::Count { counter: COUNTERS_ENDPOINT_CONNECTION_ATTEMPT_FAILED, value: 1 });
            k = k + 1;
            assert(s[k] == Record::CountNominal { counter: NOMINAL_COUNTERS_ENDPOINT_CONNECTION_ATTEMPT_FAILED__ERROR, variant: error });
        }
    }

    /// Records a `endpoint_connection_attempt_deduplicated` event.
    pub fn on_endpoint_connection_attempt_deduplicated(&self)
        ensures
            forall|i: int|
                0 <= i < spec_endpoint_connection_attempt_deduplicated_records().len() ==> self.spec_recorded(
                    #[trigger] spec_endpoint_connection_attempt_deduplicated_records()[i],
                ),
            self.spec_recorded(Record::Count { counter: COUNTERS_ENDPOINT_CONNECTION_ATTEMPT_DEDUPLICATED, value: 1 }),
    {
        let records = endpoint_connection_attempt_deduplicated_records();
        self.record_all(&records);
        proof {
            let s = records@;
            let mut k: int = 0;
            assert(s[k] == Record::Count { counter: COUNTERS_ENDPOINT_CONNECTION_ATTEMPT_DEDUPLICATED, value: 1 });
        }
    }

    /// Records a `platform_tx` event.
    pub fn on_platform_tx(
        &self,
        count: u64,
        syscalls: u64,
        blocked_syscalls: u64,
        total_errors: u64,
        dropped_errors: u64,
    )
        ensures
            forall|i: int|
                0 <= i < spec_platform_tx_records(count, syscalls, blocked_syscalls, total_errors, dropped_errors).len() ==> self.spec_recorded(
                    #[trigger] spec_platform_tx_records(count, syscalls, blocked_syscalls, total_errors, dropped_errors)[i],
                ),
            self.spec_recorded(Record::Count { counter: COUNTERS_PLATFORM_TX, value: 1 }),
            self.spec_recorded(Record::Count { counter: COUNTERS_PLATFORM_TX__PACKETS__TOTAL, value: count }),
            self.spec_recorded(Record::Measure { measure: MEASURES_PLATFORM_TX__PACKETS, value: count }),
            self.spec_recorded(Record::Count { counter: COUNTERS_PLATFORM_TX__SYSCALLS__TOTAL, value: syscalls }),
            self.spec_recorded(Record::Measure { measure: MEASURES_PLATFORM_TX__SYSCALLS, value: syscalls }),
            self.spec_recorded(Record::Count { counter: COUNTERS_PLATFORM_TX__SYSCALLS__BLOCKED__TOTAL, value: blocked_syscalls }),
            self.spec_recorded(Record::Measure { measure: MEASURES_PLATFORM_TX__SYSCALLS__BLOCKED, value: blocked_syscalls }),
            self.spec_recorded(Record::Count { counter: COUNTERS_PLATFORM_TX__ERRORS__TOTAL, value: total_errors }),
            self.spec_recorded(Record::Measure { measure: MEASURES_PLATFORM_TX__ERRORS, value: total_errors }),
            self.spec_recorded(Record::Count { counter: COUNTERS_PLATFORM_TX__ERRORS__DROPPED__TOTAL, value: dropped_errors }),
            self.spec_recorded(Record::Measure { measure: MEASURES_PLATFORM_TX__ERRORS__DROPPED, value: dropped_errors }),
    {
        let records = platform_tx_records(count, syscalls, blocked_syscalls, total_errors, dropped_errors);
        self.record_all(&records);
        proof {
            let s = records@;
            let mut k: int = 0;
            assert(s[k] == Record::Count { counter: COUNTERS_PLATFORM_TX, value: 1 });
            k = k + 1;
            assert(s[k] == Record::Count { counter: COUNTERS_PLATFORM_TX__PACKETS__TOTAL, value: count });
            k = k + 1;
            assert(s[k] == Record::Measure { measure: MEASURES_PLATFORM_TX__PACKETS, value: count });
            k = k + 1;
            assert(s[k] == Record::Count { counter: COUNTERS_PLATFORM_TX__SYSCALLS__TOTAL, value: syscalls });
            k = k + 1;
            assert(s[k] == Record::Measure { measure: MEASURES_PLATFORM_TX__SYSCALLS, value: syscalls });
            k = k + 1;
            assert(s[k] == Record::Count { counter: COUNTERS_PLATFORM_TX__SYSCALLS__BLOCKED__TOTAL, value: blocked_syscalls });
            k = k + 1;
            assert(s[k] == Record::Measure { measure: MEASURES_PLATFORM_TX__SYSCALLS__BLOCKED, value: blocked_syscalls });
            k = k + 1;
            assert(s[k] == Record::Count { counter: COUNTERS_PLATFORM_TX__ERRORS__TOTAL, value: total_errors });
            k = k + 1;
            assert(s[k] == Record::Measure { measure: MEASURES_PLATFORM_TX__ERRORS, value: total_errors });
            k = k + 1;
            assert(s[k] == Record::Count { counter: COUNTERS_PLATFORM_TX__ERRORS__DROPPED__TOTAL, value: dropped_errors });
            k = k + 1;
            assert(s[k] == Record::Measure { measure: MEASURES_PLATFORM_TX__ERRORS__DROPPED, value: dropped_errors });
        }
    }

    /// Records a `platform_tx_error` event.
    pub fn on_platform_tx_error(&self, event: &api::PlatformTxError)
        ensures
            forall|i: int|
                0 <= i < spec_platform_tx_error_records(*event).len() ==> self.spec_recorded(
                    #[trigger] spec_platform_tx_error_records(*event)[i],
                ),
            self.spec_recorded(Record::Count { counter: COUNTERS_PLATFORM_TX_ERROR, value: 1 }),
    {
        let records = platform_tx_error_records(event);
        self.record_all(&records);
        proof {
            let s = records@;
            let mut k: int = 0;
            assert(s[k] == Record::Count { counter: COUNTERS_PLATFORM_TX_ERROR, value: 1 });
        }
    }

    /// Records a `platform_rx` event.
    pub fn on_platform_rx(
        &self,
        count: u64,
        syscalls: u64,
        blocked_syscalls: u64,
        total_errors: u64,
        dropped_errors: u64,
    )
        ensures
            forall|i: int|
                0 <= i < spec_platform_rx_records(count, syscalls, blocked_syscalls, total_errors, dropped_errors).len() ==> self.spec_recorded(
                    #[trigger] spec_platform_rx_records(count, syscalls, blocked_syscalls, total_errors, dropped_errors)[i],
                ),
            self.spec_recorded(Record::Count { counter: COUNTERS_PLATFORM_RX, value: 1 }),
            self.spec_recorded(Record::Count { counter: COUNTERS_PLATFORM_RX__PACKETS__TOTAL, value: count }),
            self.spec_recorded(Record::Measure { measure: MEASURES_PLATFORM_RX__PACKETS, value: count }),
            self.spec_recorded(Record::Count { counter: COUNTERS_PLATFORM_RX__SYSCALLS__TOTAL, value: syscalls }),
            self.spec_recorded(Record::Measure { measure: MEASURES_PLATFORM_RX__SYSCALLS, value: syscalls }),
            self.spec_recorded(Record::Count { counter: COUNTERS_PLATFORM_RX__SYSCALLS__BLOCKED__TOTAL, value: blocked_syscalls }),
            self.spec_recorded(Record::Measure { measure: MEASURES_PLATFORM_RX__SYSCALLS__BLOCKED, value: blocked_syscalls }),
            self.spec_recorded(Record::Count { counter: COUNTERS_PLATFORM_RX__ERRORS__TOTAL, value: total_errors }),
            self.spec_recorded(Record::Measure { measure: MEASURES_PLATFORM_RX__ERRORS, value: total_errors }),
            self.spec_recorded(Record::Count { counter: COUNTERS_PLATFORM_RX__ERRORS__DROPPED__TOTAL, value: dropped_errors }),
            self.spec_recorded(Record::Measure { measure: MEASURES_PLATFORM_RX__ERRORS__DROPPED, value: dropped_errors }),
    {
        let records = platform_rx_records(count, syscalls, blocked_syscalls, total_errors, dropped_errors);
        self.record_all(&records);
        proof {
            let s = records@;
            let mut k: int = 0;
            assert(s[k] == Record::Count { counter: COUNTERS_PLATFORM_RX, value: 1 });
            k = k + 1;
            assert(s[k] == Record::Count { counter: COUNTERS_PLATFORM_RX__PACKETS__TOTAL, value: count });
            k = k + 1;
            assert(s[k] == Record::Measure { measure: MEASURES_PLATFORM_RX__PACKETS, value: count });
            k = k + 1;
            assert(s[k] == Record::Count { counter: COUNTERS_PLATFORM_RX__SYSCALLS__TOTAL, value: syscalls });
            k = k + 1;
            assert(s[k] == Record::Measure { measure: MEASURES_PLATFORM_RX__SYSCALLS, value: syscalls });
            k = k + 1;
            assert(s[k] == Record::Count { counter: COUNTERS_PLATFORM_RX__SYSCALLS__BLOCKED__TOTAL, value: blocked_syscalls });
            k = k + 1;
            assert(s[k] == Record::Measure { measure: MEASURES_PLATFORM_RX__SYSCALLS__BLOCKED, value: blocked_syscalls });
            k = k + 1;
            assert(s[k] == Record::Count { counter: COUNTERS_PLATFORM_RX__ERRORS__TOTAL, value: total_errors });
            k = k + 1;
            assert(s[k] == Record::Measure { measure: MEASURES_PLATFORM_RX__ERRORS, value: total_errors });
            k = k + 1;
            assert(s[k] == Record::Count { counter: COUNTERS_PLATFORM_RX__ERRORS__DROPPED__TOTAL, value: dropped_errors });
            k = k + 1;
            assert(s[k] == Record::Measure { measure: MEASURES_PLATFORM_RX__ERRORS__DROPPED, value: dropped_errors });
        }
    }

    /// Records a `platform_rx_error` event.
    pub fn on_platform_rx_error(&self, event: &api::PlatformRxError)
        ensures
            forall|i: int|
                0 <= i < spec_platform_rx_error_records(*event).len() ==> self.spec_recorded(
                    #[trigger] spec_platform_rx_error_records(*event)[i],
                ),
            self.spec_recorded(Record::Count { counter: COUNTERS_PLATFORM_RX_ERROR, value: 1 }),
    {
        let records = platform_rx_error_records(event);
        self.record_all(&records);
        proof {
            let s = records@;
            let mut k: int = 0;
            assert(s[k] == Record::Count { counter: COUNTERS_PLATFORM_RX_ERROR, value: 1 });
        }
    }

    /// Records a `platform_feature_configured` event.
    pub fn on_platform_feature_configured(&self, event: &api::PlatformFeatureConfigured)
        ensures
            forall|i: int|
                0 <= i < spec_platform_feature_configured_records(*event).len() ==> self.spec_recorded(
                    #[trigger] spec_platform_feature_configured_records(*event)[i],
                ),
            self.spec_recorded(Record::Count { counter: COUNTERS_PLATFORM_FEATURE_CONFIGURED, value: 1 }),
    {
        let records = platform_feature_configured_records(event);
        self.record_all(&records);
        proof {
            let s = records@;
            let mut k: int = 0;
            assert(s[k] == Record::Count { counter: COUNTERS_PLATFORM_FEATURE_CONFIGURED, value: 1 });
        }
    }

    /// Records a `platform_event_loop_wakeup` event.
    pub fn on_platform_event_loop_wakeup(&self, event: &api::PlatformEventLoopWakeup)
        ensures
            forall|i: int|
                0 <= i < spec_platform_event_loop_wakeup_records(*event).len() ==> self.spec_recorded(
                    #[trigger] spec_platform_event_loop_wakeup_records(*event)[i],
                ),
            self.spec_recorded(Record::Count { counter: COUNTERS_PLATFORM_EVENT_LOOP_WAKEUP, value: 1 }),
    {
        let records = platform_event_loop_wakeup_records(event);
        self.record_all(&records);
        proof {
            let s = records@;
            let mut k: int = 0;
            assert(s[k] == Record::Count { counter: COUNTERS_PLATFORM_EVENT_LOOP_WAKEUP, value: 1 });
        }
    }

    /// Records a `platform_event_loop_sleep` event.
    pub fn on_platform_event_loop_sleep(&self, processing_duration: Duration)
        ensures
            forall|i: int|
                0 <= i < spec_platform_event_loop_sleep_records(processing_duration).len() ==> self.spec_recorded(
                    #[trigger] spec_platform_event_loop_sleep_records(processing_duration)[i],
                ),
            self.spec_recorded(Record::Count { counter: COUNTERS_PLATFORM_EVENT_LOOP_SLEEP, value: 1 }),
            self.spec_recorded(Record::Time { timer: TIMERS_PLATFORM_EVENT_LOOP_SLEEP__PROCESSING_DURATION, value: processing_duration }),
    {
        let records = platform_event_loop_sleep_records(processing_duration);
        self.record_all(&records);
        proof {
            let s = records@;
            let mut k: int = 0;
            assert(s[k] == Record::Count { counter: COUNTERS_PLATFORM_EVENT_LOOP_SLEEP, value: 1 });
            k = k + 1;
            assert(s[k] == Record::Time { timer: TIMERS_PLATFORM_EVENT_LOOP_SLEEP__PROCESSING_DURATION, value: processing_duration });
        }
    }

    /// Records a `platform_event_loop_started` event.
    pub fn on_platform_event_loop_started(&self)
        ensures
            forall|i: int|
                0 <= i < spec_platform_event_loop_started_records().len() ==> self.spec_recorded(
                    #[trigger] spec_platform_event_loop_started_records()[i],
                ),
            self.spec_recorded(Record::Count { counter: COUNTERS_PLATFORM_EVENT_LOOP_STARTED, value: 1 }),
    {
        let records = platform_event_loop_started_records();
        self.record_all(&records);
        proof {
            let s = records@;
            let mut k: int = 0;
            assert(s[k] == Record::Count { counter: COUNTERS_PLATFORM_EVENT_LOOP_STARTED, value: 1 });
        }
    }
}

} // verus!
