//! The metrics the aggregating subscriber keeps: the description of each
//! one, and which of them are counters, boolean counters, measures and
//! timers.
use super::info::{self, Info, Str};
use super::Units;
use vstd::prelude::*;
use vstd::string::StringSliceAdditionalSpecFns;

verus! {

/// The number of metrics described.
pub const INFO_COUNT: usize = 169usize;

/// The number of counters.
pub const COUNTER_COUNT: usize = 81usize;

/// The number of boolean counters.
pub const BOOL_COUNTER_COUNT: usize = 3usize;

/// The number of measures.
pub const MEASURE_COUNT: usize = 39usize;

/// The number of timers.
pub const TIMER_COUNT: usize = 15usize;

/// The number of nominal counters.
pub const NOMINAL_COUNTER_COUNT: usize = 30usize;

/// The number of nominal timers.
pub const NOMINAL_TIMER_COUNT: usize = 1usize;

pub const APPLICATION_PROTOCOL_INFORMATION: usize = 0usize;

pub const SERVER_NAME_INFORMATION: usize = 1usize;

pub const KEY_EXCHANGE_GROUP: usize = 2usize;

pub const PACKET_SKIPPED: usize = 3usize;

pub const PACKET_SENT: usize = 4usize;

pub const PACKET_SENT__KIND: usize = 5usize;

pub const PACKET_SENT__BYTES__TOTAL: usize = 6usize;

pub const PACKET_SENT__BYTES: usize = 7usize;

pub const PACKET_RECEIVED: usize = 8usize;

pub const PACKET_RECEIVED__KIND: usize = 9usize;

pub const ACTIVE_PATH_UPDATED: usize = 10usize;

pub const PATH_CREATED: usize = 11usize;

pub const FRAME_SENT: usize = 12usize;

pub const FRAME_SENT__PACKET: usize = 13usize;

pub const FRAME_SENT__FRAME: usize = 14usize;

pub const FRAME_RECEIVED: usize = 15usize;

pub const FRAME_RECEIVED__PACKET: usize = 16usize;

pub const FRAME_RECEIVED__FRAME: usize = 17usize;

pub const CONNECTION_CLOSE_FRAME_RECEIVED: usize = 18usize;

pub const CONNECTION_CLOSE_FRAME_RECEIVED__PACKET: usize = 19usize;

pub const PACKET_LOST: usize = 20usize;

pub const PACKET_LOST__KIND: usize = 21usize;

pub const PACKET_LOST__BYTES__TOTAL: usize = 22usize;

pub const PACKET_LOST__BYTES: usize = 23usize;

pub const PACKET_LOST__IS_MTU_PROBE: usize = 24usize;

pub const RECOVERY_METRICS: usize = 25usize;

pub const RECOVERY_METRICS__MIN_RTT: usize = 26usize;

pub const RECOVERY_METRICS__SMOOTHED_RTT: usize = 27usize;

pub const RECOVERY_METRICS__LATEST_RTT: usize = 28usize;

pub const RECOVERY_METRICS__RTT_VARIANCE: usize = 29usize;

pub const RECOVERY_METRICS__MAX_ACK_DELAY: usize = 30usize;

pub const RECOVERY_METRICS__PTO_COUNT: usize = 31usize;

pub const RECOVERY_METRICS__CONGESTION_WINDOW: usize = 32usize;

pub const RECOVERY_METRICS__BYTES_IN_FLIGHT: usize = 33usize;

pub const RECOVERY_METRICS__CONGESTION_LIMITED: usize = 34usize;

pub const CONGESTION: usize = 35usize;

pub const CONGESTION__SOURCE: usize = 36usize;

pub const RX_ACK_RANGE_DROPPED: usize = 37usize;

pub const ACK_RANGE_RECEIVED: usize = 38usize;

pub const ACK_RANGE_RECEIVED__PACKET: usize = 39usize;

pub const ACK_RANGE_SENT: usize = 40usize;

pub const ACK_RANGE_SENT__PACKET: usize = 41usize;

pub const PACKET_DROPPED: usize = 42usize;

pub const PACKET_DROPPED__REASON: usize = 43usize;

pub const KEY_UPDATE: usize = 44usize;

pub const KEY_UPDATE__KEY_TYPE: usize = 45usize;

pub const KEY_UPDATE__CIPHER_SUITE: usize = 46usize;

pub const KEY_SPACE_DISCARDED: usize = 47usize;

pub const KEY_SPACE_DISCARDED__INITIAL__LATENCY: usize = 48usize;

pub const KEY_SPACE_DISCARDED__HANDSHAKE__LATENCY: usize = 49usize;

pub const KEY_SPACE_DISCARDED__ONE_RTT__LATENCY: usize = 50usize;

pub const KEY_SPACE_DISCARDED__SPACE: usize = 51usize;

pub const CONNECTION_STARTED: usize = 52usize;

pub const DUPLICATE_PACKET: usize = 53usize;

pub const DUPLICATE_PACKET__KIND: usize = 54usize;

pub const DUPLICATE_PACKET__ERROR: usize = 55usize;

pub const TRANSPORT_PARAMETERS_RECEIVED: usize = 56usize;

pub const TRANSPORT_PARAMETERS_RECEIVED__LATENCY: usize = 57usize;

pub const DATAGRAM_SENT: usize = 58usize;

pub const DATAGRAM_SENT__BYTES__TOTAL: usize = 59usize;

pub const DATAGRAM_SENT__BYTES: usize = 60usize;

pub const DATAGRAM_SENT__GSO_OFFSET: usize = 61usize;

pub const DATAGRAM_RECEIVED: usize = 62usize;

pub const DATAGRAM_RECEIVED__BYTES__TOTAL: usize = 63usize;

pub const DATAGRAM_RECEIVED__BYTES: usize = 64usize;

pub const DATAGRAM_DROPPED: usize = 65usize;

pub const DATAGRAM_DROPPED__BYTES__TOTAL: usize = 66usize;

pub const DATAGRAM_DROPPED__BYTES: usize = 67usize;

pub const DATAGRAM_DROPPED__REASON: usize = 68usize;

pub const HANDSHAKE_REMOTE_ADDRESS_CHANGE_OBSERVED: usize = 69usize;

pub const CONNECTION_ID_UPDATED: usize = 70usize;

pub const ECN_STATE_CHANGED: usize = 71usize;

pub const ECN_STATE_CHANGED__STATE: usize = 72usize;

pub const CONNECTION_MIGRATION_DENIED: usize = 73usize;

pub const CONNECTION_MIGRATION_DENIED__REASON: usize = 74usize;

pub const HANDSHAKE_STATUS_UPDATED: usize = 75usize;

pub const HANDSHAKE_STATUS_UPDATED__COMPLETE__LATENCY: usize = 76usize;

pub const HANDSHAKE_STATUS_UPDATED__CONFIRMED__LATENCY: usize = 77usize;

pub const HANDSHAKE_STATUS_UPDATED__HANDSHAKE_DONE_ACKED__LATENCY: usize = 78usize;

pub const HANDSHAKE_STATUS_UPDATED__STATUS: usize = 79usize;

pub const TLS_EXPORTER_READY: usize = 80usize;

pub const TLS_HANDSHAKE_FAILED: usize = 81usize;

pub const PATH_CHALLENGE_UPDATED: usize = 82usize;

pub const PATH_CHALLENGE_UPDATED__STATUS: usize = 83usize;

pub const TLS_CLIENT_HELLO: usize = 84usize;

pub const TLS_CLIENT_HELLO__LATENCY: usize = 85usize;

pub const TLS_SERVER_HELLO: usize = 86usize;

pub const TLS_SERVER_HELLO__LATENCY: usize = 87usize;

pub const RX_STREAM_PROGRESS: usize = 88usize;

pub const RX_STREAM_PROGRESS__BYTES__TOTAL: usize = 89usize;

pub const RX_STREAM_PROGRESS__BYTES: usize = 90usize;

pub const TX_STREAM_PROGRESS: usize = 91usize;

pub const TX_STREAM_PROGRESS__BYTES__TOTAL: usize = 92usize;

pub const TX_STREAM_PROGRESS__BYTES: usize = 93usize;

pub const KEEP_ALIVE_TIMER_EXPIRED: usize = 94usize;

pub const MTU_UPDATED: usize = 95usize;

pub const MTU_UPDATED__MTU: usize = 96usize;

pub const MTU_UPDATED__CAUSE: usize = 97usize;

pub const MTU_UPDATED__SEARCH_COMPLETE: usize = 98usize;

pub const MTU_PROBING_COMPLETE_RECEIVED: usize = 99usize;

pub const MTU_PROBING_COMPLETE_RECEIVED__PACKET: usize = 100usize;

pub const MTU_PROBING_COMPLETE_RECEIVED__MTU: usize = 101usize;

pub const SLOW_START_EXITED: usize = 102usize;

pub const SLOW_START_EXITED__CAUSE: usize = 103usize;

pub const SLOW_START_EXITED__LATENCY: usize = 104usize;

pub const SLOW_START_EXITED__CONGESTION_WINDOW: usize = 105usize;

pub const DELIVERY_RATE_SAMPLED: usize = 106usize;

pub const PACING_RATE_UPDATED: usize = 107usize;

pub const PACING_RATE_UPDATED__BYTES_PER_SECOND: usize = 108usize;

pub const PACING_RATE_UPDATED__BURST_SIZE: usize = 109usize;

pub const PACING_RATE_UPDATED__PACING_GAIN: usize = 110usize;

pub const BBR_STATE_CHANGED: usize = 111usize;

pub const BBR_STATE_CHANGED__STATE: usize = 112usize;

pub const DC_STATE_CHANGED: usize = 113usize;

pub const DC_STATE_CHANGED__VERSION_NEGOTIATED__LATENCY: usize = 114usize;

pub const DC_STATE_CHANGED__NO_VERSION_NEGOTIATED__LATENCY: usize = 115usize;

pub const DC_STATE_CHANGED__PATH_SECRETS__LATENCY: usize = 116usize;

pub const DC_STATE_CHANGED__COMPLETE__LATENCY: usize = 117usize;

pub const DC_STATE_CHANGED__STATE: usize = 118usize;

pub const DC_PATH_CREATED: usize = 119usize;

pub const CONNECTION_CLOSED: usize = 120usize;

pub const CONNECTION_CLOSED__LATENCY: usize = 121usize;

pub const CONNECTION_CLOSED__ERROR: usize = 122usize;

pub const VERSION_INFORMATION: usize = 123usize;

pub const ENDPOINT_PACKET_SENT: usize = 124usize;

pub const ENDPOINT_PACKET_RECEIVED: usize = 125usize;

pub const ENDPOINT_DATAGRAM_SENT: usize = 126usize;

pub const ENDPOINT_DATAGRAM_SENT__BYTES: usize = 127usize;

pub const ENDPOINT_DATAGRAM_SENT__BYTES__TOTAL: usize = 128usize;

pub const ENDPOINT_DATAGRAM_SENT__GSO_OFFSET: usize = 129usize;

pub const ENDPOINT_DATAGRAM_RECEIVED: usize = 130usize;

pub const ENDPOINT_DATAGRAM_RECEIVED__BYTES: usize = 131usize;

pub const ENDPOINT_DATAGRAM_RECEIVED__BYTES__TOTAL: usize = 132usize;

pub const ENDPOINT_DATAGRAM_DROPPED: usize = 133usize;

pub const ENDPOINT_DATAGRAM_DROPPED__BYTES: usize = 134usize;

pub const ENDPOINT_DATAGRAM_DROPPED__BYTES__TOTAL: usize = 135usize;

pub const ENDPOINT_DATAGRAM_DROPPED__REASON: usize = 136usize;

pub const ENDPOINT_CONNECTION_ATTEMPT_FAILED: usize = 137usize;

pub const ENDPOINT_CONNECTION_ATTEMPT_FAILED__ERROR: usize = 138usize;

pub const ENDPOINT_CONNECTION_ATTEMPT_DEDUPLICATED: usize = 139usize;

pub const PLATFORM_TX: usize = 140usize;

pub const PLATFORM_TX__PACKETS__TOTAL: usize = 141usize;

pub const PLATFORM_TX__PACKETS: usize = 142usize;

pub const PLATFORM_TX__SYSCALLS__TOTAL: usize = 143usize;

pub const PLATFORM_TX__SYSCALLS: usize = 144usize;

pub const PLATFORM_TX__SYSCALLS__BLOCKED__TOTAL: usize = 145usize;

pub const PLATFORM_TX__SYSCALLS__BLOCKED: usize = 146usize;

pub const PLATFORM_TX__ERRORS__TOTAL: usize = 147usize;

pub const PLATFORM_TX__ERRORS: usize = 148usize;

pub const PLATFORM_TX__ERRORS__DROPPED__TOTAL: usize = 149usize;

pub const PLATFORM_TX__ERRORS__DROPPED: usize = 150usize;

pub const PLATFORM_TX_ERROR: usize = 151usize;

pub const PLATFORM_RX: usize = 152usize;

pub const PLATFORM_RX__PACKETS__TOTAL: usize = 153usize;

pub const PLATFORM_RX__PACKETS: usize = 154usize;

pub const PLATFORM_RX__SYSCALLS__TOTAL: usize = 155usize;

pub const PLATFORM_RX__SYSCALLS: usize = 156usize;

pub const PLATFORM_RX__SYSCALLS__BLOCKED__TOTAL: usize = 157usize;

pub const PLATFORM_RX__SYSCALLS__BLOCKED: usize = 158usize;

pub const PLATFORM_RX__ERRORS__TOTAL: usize = 159usize;

pub const PLATFORM_RX__ERRORS: usize = 160usize;

pub const PLATFORM_RX__ERRORS__DROPPED__TOTAL: usize = 161usize;

pub const PLATFORM_RX__ERRORS__DROPPED: usize = 162usize;

pub const PLATFORM_RX_ERROR: usize = 163usize;

pub const PLATFORM_FEATURE_CONFIGURED: usize = 164usize;

pub const PLATFORM_EVENT_LOOP_WAKEUP: usize = 165usize;

pub const PLATFORM_EVENT_LOOP_SLEEP: usize = 166usize;

pub const PLATFORM_EVENT_LOOP_SLEEP__PROCESSING_DURATION: usize = 167usize;

pub const PLATFORM_EVENT_LOOP_STARTED: usize = 168usize;

pub const COUNTERS_APPLICATION_PROTOCOL_INFORMATION: usize = 0usize;

pub const COUNTERS_SERVER_NAME_INFORMATION: usize = 1usize;

pub const COUNTERS_KEY_EXCHANGE_GROUP: usize = 2usize;

pub const COUNTERS_PACKET_SKIPPED: usize = 3usize;

pub const COUNTERS_PACKET_SENT: usize = 4usize;

pub const COUNTERS_PACKET_SENT__BYTES__TOTAL: usize = 5usize;

pub const COUNTERS_PACKET_RECEIVED: usize = 6usize;

pub const COUNTERS_ACTIVE_PATH_UPDATED: usize = 7usize;

pub const COUNTERS_PATH_CREATED: usize = 8usize;

pub const COUNTERS_FRAME_SENT: usize = 9usize;

pub const COUNTERS_FRAME_RECEIVED: usize = 10usize;

pub const COUNTERS_CONNECTION_CLOSE_FRAME_RECEIVED: usize = 11usize;

pub const COUNTERS_PACKET_LOST: usize = 12usize;

pub const COUNTERS_PACKET_LOST__BYTES__TOTAL: usize = 13usize;

pub const COUNTERS_RECOVERY_METRICS: usize = 14usize;

pub const COUNTERS_CONGESTION: usize = 15usize;

pub const COUNTERS_RX_ACK_RANGE_DROPPED: usize = 16usize;

pub const COUNTERS_ACK_RANGE_RECEIVED: usize = 17usize;

pub const COUNTERS_ACK_RANGE_SENT: usize = 18usize;

pub const COUNTERS_PACKET_DROPPED: usize = 19usize;

pub const COUNTERS_KEY_UPDATE: usize = 20usize;

pub const COUNTERS_KEY_SPACE_DISCARDED: usize = 21usize;

pub const COUNTERS_CONNECTION_STARTED: usize = 22usize;

pub const COUNTERS_DUPLICATE_PACKET: usize = 23usize;

pub const COUNTERS_TRANSPORT_PARAMETERS_RECEIVED: usize = 24usize;

pub const COUNTERS_DATAGRAM_SENT: usize = 25usize;

pub const COUNTERS_DATAGRAM_SENT__BYTES__TOTAL: usize = 26usize;

pub const COUNTERS_DATAGRAM_RECEIVED: usize = 27usize;

pub const COUNTERS_DATAGRAM_RECEIVED__BYTES__TOTAL: usize = 28usize;

pub const COUNTERS_DATAGRAM_DROPPED: usize = 29usize;

pub const COUNTERS_DATAGRAM_DROPPED__BYTES__TOTAL: usize = 30usize;

pub const COUNTERS_HANDSHAKE_REMOTE_ADDRESS_CHANGE_OBSERVED: usize = 31usize;

pub const COUNTERS_CONNECTION_ID_UPDATED: usize = 32usize;

pub const COUNTERS_ECN_STATE_CHANGED: usize = 33usize;

pub const COUNTERS_CONNECTION_MIGRATION_DENIED: usize = 34usize;

pub const COUNTERS_HANDSHAKE_STATUS_UPDATED: usize = 35usize;

pub const COUNTERS_TLS_EXPORTER_READY: usize = 36usize;

pub const COUNTERS_TLS_HANDSHAKE_FAILED: usize = 37usize;

pub const COUNTERS_PATH_CHALLENGE_UPDATED: usize = 38usize;

pub const COUNTERS_TLS_CLIENT_HELLO: usize = 39usize;

pub const COUNTERS_TLS_SERVER_HELLO: usize = 40usize;

pub const COUNTERS_RX_STREAM_PROGRESS: usize = 41usize;

pub const COUNTERS_RX_STREAM_PROGRESS__BYTES__TOTAL: usize = 42usize;

pub const COUNTERS_TX_STREAM_PROGRESS: usize = 43usize;

pub const COUNTERS_TX_STREAM_PROGRESS__BYTES__TOTAL: usize = 44usize;

pub const COUNTERS_KEEP_ALIVE_TIMER_EXPIRED: usize = 45usize;

pub const COUNTERS_MTU_UPDATED: usize = 46usize;

pub const COUNTERS_MTU_PROBING_COMPLETE_RECEIVED: usize = 47usize;

pub const COUNTERS_SLOW_START_EXITED: usize = 48usize;

pub const COUNTERS_DELIVERY_RATE_SAMPLED: usize = 49usize;

pub const COUNTERS_PACING_RATE_UPDATED: usize = 50usize;

pub const COUNTERS_BBR_STATE_CHANGED: usize = 51usize;

pub const COUNTERS_DC_STATE_CHANGED: usize = 52usize;

pub const COUNTERS_DC_PATH_CREATED: usize = 53usize;

pub const COUNTERS_CONNECTION_CLOSED: usize = 54usize;

pub const COUNTERS_VERSION_INFORMATION: usize = 55usize;

pub const COUNTERS_ENDPOINT_PACKET_SENT: usize = 56usize;

pub const COUNTERS_ENDPOINT_PACKET_RECEIVED: usize = 57usize;

pub const COUNTERS_ENDPOINT_DATAGRAM_SENT: usize = 58usize;

pub const COUNTERS_ENDPOINT_DATAGRAM_RECEIVED: usize = 59usize;

pub const COUNTERS_ENDPOINT_DATAGRAM_DROPPED: usize = 60usize;

pub const COUNTERS_ENDPOINT_CONNECTION_ATTEMPT_FAILED: usize = 61usize;

pub const COUNTERS_ENDPOINT_CONNECTION_ATTEMPT_DEDUPLICATED: usize = 62usize;

pub const COUNTERS_PLATFORM_TX: usize = 63usize;

pub const COUNTERS_PLATFORM_TX__PACKETS__TOTAL: usize = 64usize;

pub const COUNTERS_PLATFORM_TX__SYSCALLS__TOTAL: usize = 65usize;

pub const COUNTERS_PLATFORM_TX__SYSCALLS__BLOCKED__TOTAL: usize = 66usize;

pub const COUNTERS_PLATFORM_TX__ERRORS__TOTAL: usize = 67usize;

pub const COUNTERS_PLATFORM_TX__ERRORS__DROPPED__TOTAL: usize = 68usize;

pub const COUNTERS_PLATFORM_TX_ERROR: usize = 69usize;

pub const COUNTERS_PLATFORM_RX: usize = 70usize;

pub const COUNTERS_PLATFORM_RX__PACKETS__TOTAL: usize = 71usize;

pub const COUNTERS_PLATFORM_RX__SYSCALLS__TOTAL: usize = 72usize;

pub const COUNTERS_PLATFORM_RX__SYSCALLS__BLOCKED__TOTAL: usize = 73usize;

pub const COUNTERS_PLATFORM_RX__ERRORS__TOTAL: usize = 74usize;

pub const COUNTERS_PLATFORM_RX__ERRORS__DROPPED__TOTAL: usize = 75usize;

pub const COUNTERS_PLATFORM_RX_ERROR: usize = 76usize;

pub const COUNTERS_PLATFORM_FEATURE_CONFIGURED: usize = 77usize;

pub const COUNTERS_PLATFORM_EVENT_LOOP_WAKEUP: usize = 78usize;

pub const COUNTERS_PLATFORM_EVENT_LOOP_SLEEP: usize = 79usize;

pub const COUNTERS_PLATFORM_EVENT_LOOP_STARTED: usize = 80usize;

pub const BOOL_COUNTERS_PACKET_LOST__IS_MTU_PROBE: usize = 0usize;

pub const BOOL_COUNTERS_RECOVERY_METRICS__CONGESTION_LIMITED: usize = 1usize;

pub const BOOL_COUNTERS_MTU_UPDATED__SEARCH_COMPLETE: usize = 2usize;

pub const MEASURES_PACKET_SENT__BYTES: usize = 0usize;

pub const MEASURES_PACKET_LOST__BYTES: usize = 1usize;

pub const MEASURES_RECOVERY_METRICS__MIN_RTT: usize = 2usize;

pub const MEASURES_RECOVERY_METRICS__SMOOTHED_RTT: usize = 3usize;

pub const MEASURES_RECOVERY_METRICS__LATEST_RTT: usize = 4usize;

pub const MEASURES_RECOVERY_METRICS__RTT_VARIANCE: usize = 5usize;

pub const MEASURES_RECOVERY_METRICS__MAX_ACK_DELAY: usize = 6usize;

pub const MEASURES_RECOVERY_METRICS__PTO_COUNT: usize = 7usize;

pub const MEASURES_RECOVERY_METRICS__CONGESTION_WINDOW: usize = 8usize;

pub const MEASURES_RECOVERY_METRICS__BYTES_IN_FLIGHT: usize = 9usize;

pub const MEASURES_DATAGRAM_SENT__BYTES: usize = 10usize;

pub const MEASURES_DATAGRAM_SENT__GSO_OFFSET: usize = 11usize;

pub const MEASURES_DATAGRAM_RECEIVED__BYTES: usize = 12usize;

pub const MEASURES_DATAGRAM_DROPPED__BYTES: usize = 13usize;

pub const MEASURES_RX_STREAM_PROGRESS__BYTES: usize = 14usize;

pub const MEASURES_TX_STREAM_PROGRESS__BYTES: usize = 15usize;

pub const MEASURES_MTU_UPDATED__MTU: usize = 16usize;

pub const MEASURES_MTU_PROBING_COMPLETE_RECEIVED__MTU: usize = 17usize;

pub const MEASURES_SLOW_START_EXITED__CONGESTION_WINDOW: usize = 18usize;

pub const MEASURES_PACING_RATE_UPDATED__BYTES_PER_SECOND: usize = 19usize;

pub const MEASURES_PACING_RATE_UPDATED__BURST_SIZE: usize = 20usize;

pub const MEASURES_PACING_RATE_UPDATED__PACING_GAIN: usize = 21usize;

pub const MEASURES_ENDPOINT_DATAGRAM_SENT__BYTES: usize = 22usize;

pub const MEASURES_ENDPOINT_DATAGRAM_SENT__BYTES__TOTAL: usize = 23usize;

pub const MEASURES_ENDPOINT_DATAGRAM_SENT__GSO_OFFSET: usize = 24usize;

pub const MEASURES_ENDPOINT_DATAGRAM_RECEIVED__BYTES: usize = 25usize;

pub const MEASURES_ENDPOINT_DATAGRAM_RECEIVED__BYTES__TOTAL: usize = 26usize;

pub const MEASURES_ENDPOINT_DATAGRAM_DROPPED__BYTES: usize = 27usize;

pub const MEASURES_ENDPOINT_DATAGRAM_DROPPED__BYTES__TOTAL: usize = 28usize;

pub const MEASURES_PLATFORM_TX__PACKETS: usize = 29usize;

pub const MEASURES_PLATFORM_TX__SYSCALLS: usize = 30usize;

pub const MEASURES_PLATFORM_TX__SYSCALLS__BLOCKED: usize = 31usize;

pub const MEASURES_PLATFORM_TX__ERRORS: usize = 32usize;

pub const MEASURES_PLATFORM_TX__ERRORS__DROPPED: usize = 33usize;

pub const MEASURES_PLATFORM_RX__PACKETS: usize = 34usize;

pub const MEASURES_PLATFORM_RX__SYSCALLS: usize = 35usize;

pub const MEASURES_PLATFORM_RX__SYSCALLS__BLOCKED: usize = 36usize;

pub const MEASURES_PLATFORM_RX__ERRORS: usize = 37usize;

pub const MEASURES_PLATFORM_RX__ERRORS__DROPPED: usize = 38usize;

pub const TIMERS_KEY_SPACE_DISCARDED__INITIAL__LATENCY: usize = 0usize;

pub const TIMERS_KEY_SPACE_DISCARDED__HANDSHAKE__LATENCY: usize = 1usize;

pub const TIMERS_KEY_SPACE_DISCARDED__ONE_RTT__LATENCY: usize = 2usize;

pub const TIMERS_TRANSPORT_PARAMETERS_RECEIVED__LATENCY: usize = 3usize;

pub const TIMERS_HANDSHAKE_STATUS_UPDATED__COMPLETE__LATENCY: usize = 4usize;

pub const TIMERS_HANDSHAKE_STATUS_UPDATED__CONFIRMED__LATENCY: usize = 5usize;

pub const TIMERS_HANDSHAKE_STATUS_UPDATED__HANDSHAKE_DONE_ACKED__LATENCY: usize = 6usize;

pub const TIMERS_TLS_CLIENT_HELLO__LATENCY: usize = 7usize;

pub const TIMERS_TLS_SERVER_HELLO__LATENCY: usize = 8usize;

pub const TIMERS_DC_STATE_CHANGED__VERSION_NEGOTIATED__LATENCY: usize = 9usize;

pub const TIMERS_DC_STATE_CHANGED__NO_VERSION_NEGOTIATED__LATENCY: usize = 10usize;

pub const TIMERS_DC_STATE_CHANGED__PATH_SECRETS__LATENCY: usize = 11usize;

pub const TIMERS_DC_STATE_CHANGED__COMPLETE__LATENCY: usize = 12usize;

pub const TIMERS_CONNECTION_CLOSED__LATENCY: usize = 13usize;

pub const TIMERS_PLATFORM_EVENT_LOOP_SLEEP__PROCESSING_DURATION: usize = 14usize;

/// The name of metric `id`, with the nul byte that ends it.
pub open spec fn spec_info_name(id: usize) -> &'static str {
    match id {
        0 => "application_protocol_information\0",
        1 => "server_name_information\0",
        2 => "key_exchange_group\0",
        3 => "packet_skipped\0",
        4 => "packet_sent\0",
        5 => "packet_sent.kind\0",
        6 => "packet_sent.bytes.total\0",
        7 => "packet_sent.bytes\0",
        8 => "packet_received\0",
        9 => "packet_received.kind\0",
        10 => "active_path_updated\0",
        11 => "path_created\0",
        12 => "frame_sent\0",
        13 => "frame_sent.packet\0",
        14 => "frame_sent.frame\0",
        15 => "frame_received\0",
        16 => "frame_received.packet\0",
        17 => "frame_received.frame\0",
        18 => "connection_close_frame_received\0",
        19 => "connection_close_frame_received.packet\0",
        20 => "packet_lost\0",
        21 => "packet_lost.kind\0",
        22 => "packet_lost.bytes.total\0",
        23 => "packet_lost.bytes\0",
        24 => "packet_lost.is_mtu_probe\0",
        25 => "recovery_metrics\0",
        26 => "recovery_metrics.min_rtt\0",
        27 => "recovery_metrics.smoothed_rtt\0",
        28 => "recovery_metrics.latest_rtt\0",
        29 => "recovery_metrics.rtt_variance\0",
        30 => "recovery_metrics.max_ack_delay\0",
        31 => "recovery_metrics.pto_count\0",
        32 => "recovery_metrics.congestion_window\0",
        33 => "recovery_metrics.bytes_in_flight\0",
        34 => "recovery_metrics.congestion_limited\0",
        35 => "congestion\0",
        36 => "congestion.source\0",
        37 => "rx_ack_range_dropped\0",
        38 => "ack_range_received\0",
        39 => "ack_range_received.packet\0",
        40 => "ack_range_sent\0",
        41 => "ack_range_sent.packet\0",
        42 => "packet_dropped\0",
        43 => "packet_dropped.reason\0",
        44 => "key_update\0",
        45 => "key_update.key_type\0",
        46 => "key_update.cipher_suite\0",
        47 => "key_space_discarded\0",
        48 => "key_space_discarded.initial.latency\0",
        49 => "key_space_discarded.handshake.latency\0",
        50 => "key_space_discarded.one_rtt.latency\0",
        51 => "key_space_discarded.space\0",
        52 => "connection_started\0",
        53 => "duplicate_packet\0",
        54 => "duplicate_packet.kind\0",
        55 => "duplicate_packet.error\0",
        56 => "transport_parameters_received\0",
        57 => "transport_parameters_received.latency\0",
        58 => "datagram_sent\0",
        59 => "datagram_sent.bytes.total\0",
        60 => "datagram_sent.bytes\0",
        61 => "datagram_sent.gso_offset\0",
        62 => "datagram_received\0",
        63 => "datagram_received.bytes.total\0",
        64 => "datagram_received.bytes\0",
        65 => "datagram_dropped\0",
        66 => "datagram_dropped.bytes.total\0",
        67 => "datagram_dropped.bytes\0",
        68 => "datagram_dropped.reason\0",
        69 => "handshake_remote_address_change_observed\0",
        70 => "connection_id_updated\0",
        71 => "ecn_state_changed\0",
        72 => "ecn_state_changed.state\0",
        73 => "connection_migration_denied\0",
        74 => "connection_migration_denied.reason\0",
        75 => "handshake_status_updated\0",
        76 => "handshake_status_updated.complete.latency\0",
        77 => "handshake_status_updated.confirmed.latency\0",
        78 => "handshake_status_updated.handshake_done_acked.latency\0",
        79 => "handshake_status_updated.status\0",
        80 => "tls_exporter_ready\0",
        81 => "tls_handshake_failed\0",
        82 => "path_challenge_updated\0",
        83 => "path_challenge_updated.status\0",
        84 => "tls_client_hello\0",
        85 => "tls_client_hello.latency\0",
        86 => "tls_server_hello\0",
        87 => "tls_server_hello.latency\0",
        88 => "rx_stream_progress\0",
        89 => "rx_stream_progress.bytes.total\0",
        90 => "rx_stream_progress.bytes\0",
        91 => "tx_stream_progress\0",
        92 => "tx_stream_progress.bytes.total\0",
        93 => "tx_stream_progress.bytes\0",
        94 => "keep_alive_timer_expired\0",
        95 => "mtu_updated\0",
        96 => "mtu_updated.mtu\0",
        97 => "mtu_updated.cause\0",
        98 => "mtu_updated.search_complete\0",
        99 => "mtu_probing_complete_received\0",
        100 => "mtu_probing_complete_received.packet\0",
        101 => "mtu_probing_complete_received.mtu\0",
        102 => "slow_start_exited\0",
        103 => "slow_start_exited.cause\0",
        104 => "slow_start_exited.latency\0",
        105 => "slow_start_exited.congestion_window\0",
        106 => "delivery_rate_sampled\0",
        107 => "pacing_rate_updated\0",
        108 => "pacing_rate_updated.bytes_per_second\0",
        109 => "pacing_rate_updated.burst_size\0",
        110 => "pacing_rate_updated.pacing_gain\0",
        111 => "bbr_state_changed\0",
        112 => "bbr_state_changed.state\0",
        113 => "dc_state_changed\0",
        114 => "dc_state_changed.version_negotiated.latency\0",
        115 => "dc_state_changed.no_version_negotiated.latency\0",
        116 => "dc_state_changed.path_secrets.latency\0",
        117 => "dc_state_changed.complete.latency\0",
        118 => "dc_state_changed.state\0",
        119 => "dc_path_created\0",
        120 => "connection_closed\0",
        121 => "connection_closed.latency\0",
        122 => "connection_closed.error\0",
        123 => "version_information\0",
        124 => "endpoint_packet_sent\0",
        125 => "endpoint_packet_received\0",
        126 => "endpoint_datagram_sent\0",
        127 => "endpoint_datagram_sent.bytes\0",
        128 => "endpoint_datagram_sent.bytes.total\0",
        129 => "endpoint_datagram_sent.gso_offset\0",
        130 => "endpoint_datagram_received\0",
        131 => "endpoint_datagram_received.bytes\0",
        132 => "endpoint_datagram_received.bytes.total\0",
        133 => "endpoint_datagram_dropped\0",
        134 => "endpoint_datagram_dropped.bytes\0",
        135 => "endpoint_datagram_dropped.bytes.total\0",
        136 => "endpoint_datagram_dropped.reason\0",
        137 => "endpoint_connection_attempt_failed\0",
        138 => "endpoint_connection_attempt_failed.error\0",
        139 => "endpoint_connection_attempt_deduplicated\0",
        140 => "platform_tx\0",
        141 => "platform_tx.packets.total\0",
        142 => "platform_tx.packets\0",
        143 => "platform_tx.syscalls.total\0",
        144 => "platform_tx.syscalls\0",
        145 => "platform_tx.syscalls.blocked.total\0",
        146 => "platform_tx.syscalls.blocked\0",
        147 => "platform_tx.errors.total\0",
        148 => "platform_tx.errors\0",
        149 => "platform_tx.errors.dropped.total\0",
        150 => "platform_tx.errors.dropped\0",
        151 => "platform_tx_error\0",
        152 => "platform_rx\0",
        153 => "platform_rx.packets.total\0",
        154 => "platform_rx.packets\0",
        155 => "platform_rx.syscalls.total\0",
        156 => "platform_rx.syscalls\0",
        157 => "platform_rx.syscalls.blocked.total\0",
        158 => "platform_rx.syscalls.blocked\0",
        159 => "platform_rx.errors.total\0",
        160 => "platform_rx.errors\0",
        161 => "platform_rx.errors.dropped.total\0",
        162 => "platform_rx.errors.dropped\0",
        163 => "platform_rx_error\0",
        164 => "platform_feature_configured\0",
        165 => "platform_event_loop_wakeup\0",
        166 => "platform_event_loop_sleep\0",
        167 => "platform_event_loop_sleep.processing_duration\0",
        168 => "platform_event_loop_started\0",
        _ => "\0",
    }
}

/// The units of metric `id`.
pub open spec fn spec_info_units(id: usize) -> Units {
    match id {
        0 => Units::Unitless,
        1 => Units::Unitless,
        2 => Units::Unitless,
        3 => Units::Unitless,
        4 => Units::Unitless,
        5 => Units::Unitless,
        6 => Units::Bytes,
        7 => Units::Bytes,
        8 => Units::Unitless,
        9 => Units::Unitless,
        10 => Units::Unitless,
        11 => Units::Unitless,
        12 => Units::Unitless,
        13 => Units::Unitless,
        14 => Units::Unitless,
        15 => Units::Unitless,
        16 => Units::Unitless,
        17 => Units::Unitless,
        18 => Units::Unitless,
        19 => Units::Unitless,
        20 => Units::Unitless,
        21 => Units::Unitless,
        22 => Units::Bytes,
        23 => Units::Bytes,
        24 => Units::Unitless,
        25 => Units::Unitless,
        26 => Units::Duration,
        27 => Units::Duration,
        28 => Units::Duration,
        29 => Units::Duration,
        30 => Units::Duration,
        31 => Units::Unitless,
        32 => Units::Duration,
        33 => Units::Duration,
        34 => Units::Unitless,
        35 => Units::Unitless,
        36 => Units::Unitless,
        37 => Units::Unitless,
        38 => Units::Unitless,
        39 => Units::Unitless,
        40 => Units::Unitless,
        41 => Units::Unitless,
        42 => Units::Unitless,
        43 => Units::Unitless,
        44 => Units::Unitless,
        45 => Units::Unitless,
        46 => Units::Unitless,
        47 => Units::Unitless,
        48 => Units::Duration,
        49 => Units::Duration,
        50 => Units::Duration,
        51 => Units::Unitless,
        52 => Units::Unitless,
        53 => Units::Unitless,
        54 => Units::Unitless,
        55 => Units::Unitless,
        56 => Units::Unitless,
        57 => Units::Duration,
        58 => Units::Unitless,
        59 => Units::Bytes,
        60 => Units::Bytes,
        61 => Units::Unitless,
        62 => Units::Unitless,
        63 => Units::Bytes,
        64 => Units::Bytes,
        65 => Units::Unitless,
        66 => Units::Bytes,
        67 => Units::Bytes,
        68 => Units::Unitless,
        69 => Units::Unitless,
        70 => Units::Unitless,
        71 => Units::Unitless,
        72 => Units::Unitless,
        73 => Units::Unitless,
        74 => Units::Unitless,
        75 => Units::Unitless,
        76 => Units::Duration,
        77 => Units::Duration,
        78 => Units::Duration,
        79 => Units::Unitless,
        80 => Units::Unitless,
        81 => Units::Unitless,
        82 => Units::Unitless,
        83 => Units::Unitless,
        84 => Units::Unitless,
        85 => Units::Duration,
        86 => Units::Unitless,
        87 => Units::Duration,
        88 => Units::Unitless,
        89 => Units::Bytes,
        90 => Units::Bytes,
        91 => Units::Unitless,
        92 => Units::Bytes,
        93 => Units::Bytes,
        94 => Units::Unitless,
        95 => Units::Unitless,
        96 => Units::Bytes,
        97 => Units::Unitless,
        98 => Units::Unitless,
        99 => Units::Unitless,
        100 => Units::Unitless,
        101 => Units::Bytes,
        102 => Units::Unitless,
        103 => Units::Unitless,
        104 => Units::Duration,
        105 => Units::Bytes,
        106 => Units::Unitless,
        107 => Units::Unitless,
        108 => Units::Bytes,
        109 => Units::Bytes,
        110 => Units::Unitless,
        111 => Units::Unitless,
        112 => Units::Unitless,
        113 => Units::Unitless,
        114 => Units::Duration,
        115 => Units::Duration,
        116 => Units::Duration,
        117 => Units::Duration,
        118 => Units::Unitless,
        119 => Units::Unitless,
        120 => Units::Unitless,
        121 => Units::Duration,
        122 => Units::Unitless,
        123 => Units::Unitless,
        124 => Units::Unitless,
        125 => Units::Unitless,
        126 => Units::Unitless,
        127 => Units::Bytes,
        128 => Units::Bytes,
        129 => Units::Unitless,
        130 => Units::Unitless,
        131 => Units::Bytes,
        132 => Units::Bytes,
        133 => Units::Unitless,
        134 => Units::Bytes,
        135 => Units::Bytes,
        136 => Units::Unitless,
        137 => Units::Unitless,
        138 => Units::Unitless,
        139 => Units::Unitless,
        140 => Units::Unitless,
        141 => Units::Unitless,
        142 => Units::Unitless,
        143 => Units::Unitless,
        144 => Units::Unitless,
        145 => Units::Unitless,
        146 => Units::Unitless,
        147 => Units::Unitless,
        148 => Units::Unitless,
        149 => Units::Unitless,
        150 => Units::Unitless,
        151 => Units::Unitless,
        152 => Units::Unitless,
        153 => Units::Unitless,
        154 => Units::Unitless,
        155 => Units::Unitless,
        156 => Units::Unitless,
        157 => Units::Unitless,
        158 => Units::Unitless,
        159 => Units::Unitless,
        160 => Units::Unitless,
        161 => Units::Unitless,
        162 => Units::Unitless,
        163 => Units::Unitless,
        164 => Units::Unitless,
        165 => Units::Unitless,
        166 => Units::Unitless,
        167 => Units::Duration,
        168 => Units::Unitless,
        _ => Units::Unitless,
    }
}

/// `i` is the description of metric `id`.
pub open spec fn spec_is_info(i: Info, id: usize) -> bool {
    &&& i.id == id
    &&& i.name.spec_raw() == spec_info_name(id).spec_bytes()
    &&& i.units == spec_info_units(id)
}

fn info_0(id: usize) -> (r: Info)
    requires
        0 <= id <= 24,
    ensures
        spec_is_info(r, id),
{
    match id {
        0 => {
            proof {
                reveal_strlit("application_protocol_information\0");
                vstd::string::is_ascii_spec_bytes("application_protocol_information\0");
            }
            info::Builder { id: APPLICATION_PROTOCOL_INFORMATION, name: Str::new("application_protocol_information\0"), units: Units::Unitless }.build()
        },
        1 => {
            proof {
                reveal_strlit("server_name_information\0");
                vstd::string::is_ascii_spec_bytes("server_name_information\0");
            }
            info::Builder { id: SERVER_NAME_INFORMATION, name: Str::new("server_name_information\0"), units: Units::Unitless }.build()
        },
        2 => {
            proof {
                reveal_strlit("key_exchange_group\0");
                vstd::string::is_ascii_spec_bytes("key_exchange_group\0");
            }
            info::Builder { id: KEY_EXCHANGE_GROUP, name: Str::new("key_exchange_group\0"), units: Units::Unitless }.build()
        },
        3 => {
            proof {
                reveal_strlit("packet_skipped\0");
                vstd::string::is_ascii_spec_bytes("packet_skipped\0");
            }
            info::Builder { id: PACKET_SKIPPED, name: Str::new("packet_skipped\0"), units: Units::Unitless }.build()
        },
        4 => {
            proof {
                reveal_strlit("packet_sent\0");
                vstd::string::is_ascii_spec_bytes("packet_sent\0");
            }
            info::Builder { id: PACKET_SENT, name: Str::new("packet_sent\0"), units: Units::Unitless }.build()
        },
        5 => {
            proof {
                reveal_strlit("packet_sent.kind\0");
                vstd::string::is_ascii_spec_bytes("packet_sent.kind\0");
            }
            info::Builder { id: PACKET_SENT__KIND, name: Str::new("packet_sent.kind\0"), units: Units::Unitless }.build()
        },
        6 => {
            proof {
                reveal_strlit("packet_sent.bytes.total\0");
                vstd::string::is_ascii_spec_bytes("packet_sent.bytes.total\0");
            }
            info::Builder { id: PACKET_SENT__BYTES__TOTAL, name: Str::new("packet_sent.bytes.total\0"), units: Units::Bytes }.build()
        },
        7 => {
            proof {
                reveal_strlit("packet_sent.bytes\0");
                vstd::string::is_ascii_spec_bytes("packet_sent.bytes\0");
            }
            info::Builder { id: PACKET_SENT__BYTES, name: Str::new("packet_sent.bytes\0"), units: Units::Bytes }.build()
        },
        8 => {
            proof {
                reveal_strlit("packet_received\0");
                vstd::string::is_ascii_spec_bytes("packet_received\0");
            }
            info::Builder { id: PACKET_RECEIVED, name: Str::new("packet_received\0"), units: Units::Unitless }.build()
        },
        9 => {
            proof {
                reveal_strlit("packet_received.kind\0");
                vstd::string::is_ascii_spec_bytes("packet_received.kind\0");
            }
            info::Builder { id: PACKET_RECEIVED__KIND, name: Str::new("packet_received.kind\0"), units: Units::Unitless }.build()
        },
        10 => {
            proof {
                reveal_strlit("active_path_updated\0");
                vstd::string::is_ascii_spec_bytes("active_path_updated\0");
            }
            info::Builder { id: ACTIVE_PATH_UPDATED, name: Str::new("active_path_updated\0"), units: Units::Unitless }.build()
        },
        11 => {
            proof {
                reveal_strlit("path_created\0");
                vstd::string::is_ascii_spec_bytes("path_created\0");
            }
            info::Builder { id: PATH_CREATED, name: Str::new("path_created\0"), units: Units::Unitless }.build()
        },
        12 => {
            proof {
                reveal_strlit("frame_sent\0");
                vstd::string::is_ascii_spec_bytes("frame_sent\0");
            }
            info::Builder { id: FRAME_SENT, name: Str::new("frame_sent\0"), units: Units::Unitless }.build()
        },
        13 => {
            proof {
                reveal_strlit("frame_sent.packet\0");
                vstd::string::is_ascii_spec_bytes("frame_sent.packet\0");
            }
            info::Builder { id: FRAME_SENT__PACKET, name: Str::new("frame_sent.packet\0"), units: Units::Unitless }.build()
        },
        14 => {
            proof {
                reveal_strlit("frame_sent.frame\0");
                vstd::string::is_ascii_spec_bytes("frame_sent.frame\0");
            }
            info::Builder { id: FRAME_SENT__FRAME, name: Str::new("frame_sent.frame\0"), units: Units::Unitless }.build()
        },
        15 => {
            proof {
                reveal_strlit("frame_received\0");
                vstd::string::is_ascii_spec_bytes("frame_received\0");
            }
            info::Builder { id: FRAME_RECEIVED, name: Str::new("frame_received\0"), units: Units::Unitless }.build()
        },
        16 => {
            proof {
                reveal_strlit("frame_received.packet\0");
                vstd::string::is_ascii_spec_bytes("frame_received.packet\0");
            }
            info::Builder { id: FRAME_RECEIVED__PACKET, name: Str::new("frame_received.packet\0"), units: Units::Unitless }.build()
        },
        17 => {
            proof {
                reveal_strlit("frame_received.frame\0");
                vstd::string::is_ascii_spec_bytes("frame_received.frame\0");
            }
            info::Builder { id: FRAME_RECEIVED__FRAME, name: Str::new("frame_received.frame\0"), units: Units::Unitless }.build()
        },
        18 => {
            proof {
                reveal_strlit("connection_close_frame_received\0");
                vstd::string::is_ascii_spec_bytes("connection_close_frame_received\0");
            }
            info::Builder { id: CONNECTION_CLOSE_FRAME_RECEIVED, name: Str::new("connection_close_frame_received\0"), units: Units::Unitless }.build()
        },
        19 => {
            proof {
                reveal_strlit("connection_close_frame_received.packet\0");
                vstd::string::is_ascii_spec_bytes("connection_close_frame_received.packet\0");
            }
            info::Builder { id: CONNECTION_CLOSE_FRAME_RECEIVED__PACKET, name: Str::new("connection_close_frame_received.packet\0"), units: Units::Unitless }.build()
        },
        20 => {
            proof {
                reveal_strlit("packet_lost\0");
                vstd::string::is_ascii_spec_bytes("packet_lost\0");
            }
            info::Builder { id: PACKET_LOST, name: Str::new("packet_lost\0"), units: Units::Unitless }.build()
        },
        21 => {
            proof {
                reveal_strlit("packet_lost.kind\0");
                vstd::string::is_ascii_spec_bytes("packet_lost.kind\0");
            }
            info::Builder { id: PACKET_LOST__KIND, name: Str::new("packet_lost.kind\0"), units: Units::Unitless }.build()
        },
        22 => {
            proof {
                reveal_strlit("packet_lost.bytes.total\0");
                vstd::string::is_ascii_spec_bytes("packet_lost.bytes.total\0");
            }
            info::Builder { id: PACKET_LOST__BYTES__TOTAL, name: Str::new("packet_lost.bytes.total\0"), units: Units::Bytes }.build()
        },
        23 => {
            proof {
                reveal_strlit("packet_lost.bytes\0");
                vstd::string::is_ascii_spec_bytes("packet_lost.bytes\0");
            }
            info::Builder { id: PACKET_LOST__BYTES, name: Str::new("packet_lost.bytes\0"), units: Units::Bytes }.build()
        },
        _ => {
            proof {
                reveal_strlit("packet_lost.is_mtu_probe\0");
                vstd::string::is_ascii_spec_bytes("packet_lost.is_mtu_probe\0");
            }
            info::Builder { id: PACKET_LOST__IS_MTU_PROBE, name: Str::new("packet_lost.is_mtu_probe\0"), units: Units::Unitless }.build()
        },
    }
}

fn info_1(id: usize) -> (r: Info)
    requires
        25 <= id <= 49,
    ensures
        spec_is_info(r, id),
{
    match id {
        25 => {
            proof {
                reveal_strlit("recovery_metrics\0");
                vstd::string::is_ascii_spec_bytes("recovery_metrics\0");
            }
            info::Builder { id: RECOVERY_METRICS, name: Str::new("recovery_metrics\0"), units: Units::Unitless }.build()
        },
        26 => {
            proof {
                reveal_strlit("recovery_metrics.min_rtt\0");
                vstd::string::is_ascii_spec_bytes("recovery_metrics.min_rtt\0");
            }
            info::Builder { id: RECOVERY_METRICS__MIN_RTT, name: Str::new("recovery_metrics.min_rtt\0"), units: Units::Duration }.build()
        },
        27 => {
            proof {
                reveal_strlit("recovery_metrics.smoothed_rtt\0");
                vstd::string::is_ascii_spec_bytes("recovery_metrics.smoothed_rtt\0");
            }
            info::Builder { id: RECOVERY_METRICS__SMOOTHED_RTT, name: Str::new("recovery_metrics.smoothed_rtt\0"), units: Units::Duration }.build()
        },
        28 => {
            proof {
                reveal_strlit("recovery_metrics.latest_rtt\0");
                vstd::string::is_ascii_spec_bytes("recovery_metrics.latest_rtt\0");
            }
            info::Builder { id: RECOVERY_METRICS__LATEST_RTT, name: Str::new("recovery_metrics.latest_rtt\0"), units: Units::Duration }.build()
        },
        29 => {
            proof {
                reveal_strlit("recovery_metrics.rtt_variance\0");
                vstd::string::is_ascii_spec_bytes("recovery_metrics.rtt_variance\0");
            }
            info::Builder { id: RECOVERY_METRICS__RTT_VARIANCE, name: Str::new("recovery_metrics.rtt_variance\0"), units: Units::Duration }.build()
        },
        30 => {
            proof {
                reveal_strlit("recovery_metrics.max_ack_delay\0");
                vstd::string::is_ascii_spec_bytes("recovery_metrics.max_ack_delay\0");
            }
            info::Builder { id: RECOVERY_METRICS__MAX_ACK_DELAY, name: Str::new("recovery_metrics.max_ack_delay\0"), units: Units::Duration }.build()
        },
        31 => {
            proof {
                reveal_strlit("recovery_metrics.pto_count\0");
                vstd::string::is_ascii_spec_bytes("recovery_metrics.pto_count\0");
            }
            info::Builder { id: RECOVERY_METRICS__PTO_COUNT, name: Str::new("recovery_metrics.pto_count\0"), units: Units::Unitless }.build()
        },
        32 => {
            proof {
                reveal_strlit("recovery_metrics.congestion_window\0");
                vstd::string::is_ascii_spec_bytes("recovery_metrics.congestion_window\0");
            }
            info::Builder { id: RECOVERY_METRICS__CONGESTION_WINDOW, name: Str::new("recovery_metrics.congestion_window\0"), units: Units::Duration }.build()
        },
        33 => {
            proof {
                reveal_strlit("recovery_metrics.bytes_in_flight\0");
                vstd::string::is_ascii_spec_bytes("recovery_metrics.bytes_in_flight\0");
            }
            info::Builder { id: RECOVERY_METRICS__BYTES_IN_FLIGHT, name: Str::new("recovery_metrics.bytes_in_flight\0"), units: Units::Duration }.build()
        },
        34 => {
            proof {
                reveal_strlit("recovery_metrics.congestion_limited\0");
                vstd::string::is_ascii_spec_bytes("recovery_metrics.congestion_limited\0");
            }
            info::Builder { id: RECOVERY_METRICS__CONGESTION_LIMITED, name: Str::new("recovery_metrics.congestion_limited\0"), units: Units::Unitless }.build()
        },
        35 => {
            proof {
                reveal_strlit("congestion\0");
                vstd::string::is_ascii_spec_bytes("congestion\0");
            }
            info::Builder { id: CONGESTION, name: Str::new("congestion\0"), units: Units::Unitless }.build()
        },
        36 => {
            proof {
                reveal_strlit("congestion.source\0");
                vstd::string::is_ascii_spec_bytes("congestion.source\0");
            }
            info::Builder { id: CONGESTION__SOURCE, name: Str::new("congestion.source\0"), units: Units::Unitless }.build()
        },
        37 => {
            proof {
                reveal_strlit("rx_ack_range_dropped\0");
                vstd::string::is_ascii_spec_bytes("rx_ack_range_dropped\0");
            }
            info::Builder { id: RX_ACK_RANGE_DROPPED, name: Str::new("rx_ack_range_dropped\0"), units: Units::Unitless }.build()
        },
        38 => {
            proof {
                reveal_strlit("ack_range_received\0");
                vstd::string::is_ascii_spec_bytes("ack_range_received\0");
            }
            info::Builder { id: ACK_RANGE_RECEIVED, name: Str::new("ack_range_received\0"), units: Units::Unitless }.build()
        },
        39 => {
            proof {
                reveal_strlit("ack_range_received.packet\0");
                vstd::string::is_ascii_spec_bytes("ack_range_received.packet\0");
            }
            info::Builder { id: ACK_RANGE_RECEIVED__PACKET, name: Str::new("ack_range_received.packet\0"), units: Units::Unitless }.build()
        },
        40 => {
            proof {
                reveal_strlit("ack_range_sent\0");
                vstd::string::is_ascii_spec_bytes("ack_range_sent\0");
            }
            info::Builder { id: ACK_RANGE_SENT, name: Str::new("ack_range_sent\0"), units: Units::Unitless }.build()
        },
        41 => {
            proof {
                reveal_strlit("ack_range_sent.packet\0");
                vstd::string::is_ascii_spec_bytes("ack_range_sent.packet\0");
            }
            info::Builder { id: ACK_RANGE_SENT__PACKET, name: Str::new("ack_range_sent.packet\0"), units: Units::Unitless }.build()
        },
        42 => {
            proof {
                reveal_strlit("packet_dropped\0");
                vstd::string::is_ascii_spec_bytes("packet_dropped\0");
            }
            info::Builder { id: PACKET_DROPPED, name: Str::new("packet_dropped\0"), units: Units::Unitless }.build()
        },
        43 => {
            proof {
                reveal_strlit("packet_dropped.reason\0");
                vstd::string::is_ascii_spec_bytes("packet_dropped.reason\0");
            }
            info::Builder { id: PACKET_DROPPED__REASON, name: Str::new("packet_dropped.reason\0"), units: Units::Unitless }.build()
        },
        44 => {
            proof {
                reveal_strlit("key_update\0");
                vstd::string::is_ascii_spec_bytes("key_update\0");
            }
            info::Builder { id: KEY_UPDATE, name: Str::new("key_update\0"), units: Units::Unitless }.build()
        },
        45 => {
            proof {
                reveal_strlit("key_update.key_type\0");
                vstd::string::is_ascii_spec_bytes("key_update.key_type\0");
            }
            info::Builder { id: KEY_UPDATE__KEY_TYPE, name: Str::new("key_update.key_type\0"), units: Units::Unitless }.build()
        },
        46 => {
            proof {
                reveal_strlit("key_update.cipher_suite\0");
                vstd::string::is_ascii_spec_bytes("key_update.cipher_suite\0");
            }
            info::Builder { id: KEY_UPDATE__CIPHER_SUITE, name: Str::new("key_update.cipher_suite\0"), units: Units::Unitless }.build()
        },
        47 => {
            proof {
                reveal_strlit("key_space_discarded\0");
                vstd::string::is_ascii_spec_bytes("key_space_discarded\0");
            }
            info::Builder { id: KEY_SPACE_DISCARDED, name: Str::new("key_space_discarded\0"), units: Units::Unitless }.build()
        },
        48 => {
            proof {
                reveal_strlit("key_space_discarded.initial.latency\0");
                vstd::string::is_ascii_spec_bytes("key_space_discarded.initial.latency\0");
            }
            info::Builder { id: KEY_SPACE_DISCARDED__INITIAL__LATENCY, name: Str::new("key_space_discarded.initial.latency\0"), units: Units::Duration }.build()
        },
        _ => {
            proof {
                reveal_strlit("key_space_discarded.handshake.latency\0");
                vstd::string::is_ascii_spec_bytes("key_space_discarded.handshake.latency\0");
            }
            info::Builder { id: KEY_SPACE_DISCARDED__HANDSHAKE__LATENCY, name: Str::new("key_space_discarded.handshake.latency\0"), units: Units::Duration }.build()
        },
    }
}

fn info_2(id: usize) -> (r: Info)
    requires
        50 <= id <= 74,
    ensures
        spec_is_info(r, id),
{
    match id {
        50 => {
            proof {
                reveal_strlit("key_space_discarded.one_rtt.latency\0");
                vstd::string::is_ascii_spec_bytes("key_space_discarded.one_rtt.latency\0");
            }
            info::Builder { id: KEY_SPACE_DISCARDED__ONE_RTT__LATENCY, name: Str::new("key_space_discarded.one_rtt.latency\0"), units: Units::Duration }.build()
        },
        51 => {
            proof {
                reveal_strlit("key_space_discarded.space\0");
                vstd::string::is_ascii_spec_bytes("key_space_discarded.space\0");
            }
            info::Builder { id: KEY_SPACE_DISCARDED__SPACE, name: Str::new("key_space_discarded.space\0"), units: Units::Unitless }.build()
        },
        52 => {
            proof {
                reveal_strlit("connection_started\0");
                vstd::string::is_ascii_spec_bytes("connection_started\0");
            }
            info::Builder { id: CONNECTION_STARTED, name: Str::new("connection_started\0"), units: Units::Unitless }.build()
        },
        53 => {
            proof {
                reveal_strlit("duplicate_packet\0");
                vstd::string::is_ascii_spec_bytes("duplicate_packet\0");
            }
            info::Builder { id: DUPLICATE_PACKET, name: Str::new("duplicate_packet\0"), units: Units::Unitless }.build()
        },
        54 => {
            proof {
                reveal_strlit("duplicate_packet.kind\0");
                vstd::string::is_ascii_spec_bytes("duplicate_packet.kind\0");
            }
            info::Builder { id: DUPLICATE_PACKET__KIND, name: Str::new("duplicate_packet.kind\0"), units: Units::Unitless }.build()
        },
        55 => {
            proof {
                reveal_strlit("duplicate_packet.error\0");
                vstd::string::is_ascii_spec_bytes("duplicate_packet.error\0");
            }
            info::Builder { id: DUPLICATE_PACKET__ERROR, name: Str::new("duplicate_packet.error\0"), units: Units::Unitless }.build()
        },
        56 => {
            proof {
                reveal_strlit("transport_parameters_received\0");
                vstd::string::is_ascii_spec_bytes("transport_parameters_received\0");
            }
            info::Builder { id: TRANSPORT_PARAMETERS_RECEIVED, name: Str::new("transport_parameters_received\0"), units: Units::Unitless }.build()
        },
        57 => {
            proof {
                reveal_strlit("transport_parameters_received.latency\0");
                vstd::string::is_ascii_spec_bytes("transport_parameters_received.latency\0");
            }
            info::Builder { id: TRANSPORT_PARAMETERS_RECEIVED__LATENCY, name: Str::new("transport_parameters_received.latency\0"), units: Units::Duration }.build()
        },
        58 => {
            proof {
                reveal_strlit("datagram_sent\0");
                vstd::string::is_ascii_spec_bytes("datagram_sent\0");
            }
            info::Builder { id: DATAGRAM_SENT, name: Str::new("datagram_sent\0"), units: Units::Unitless }.build()
        },
        59 => {
            proof {
                reveal_strlit("datagram_sent.bytes.total\0");
                vstd::string::is_ascii_spec_bytes("datagram_sent.bytes.total\0");
            }
            info::Builder { id: DATAGRAM_SENT__BYTES__TOTAL, name: Str::new("datagram_sent.bytes.total\0"), units: Units::Bytes }.build()
        },
        60 => {
            proof {
                reveal_strlit("datagram_sent.bytes\0");
                vstd::string::is_ascii_spec_bytes("datagram_sent.bytes\0");
            }
            info::Builder { id: DATAGRAM_SENT__BYTES, name: Str::new("datagram_sent.bytes\0"), units: Units::Bytes }.build()
        },
        61 => {
            proof {
                reveal_strlit("datagram_sent.gso_offset\0");
                vstd::string::is_ascii_spec_bytes("datagram_sent.gso_offset\0");
            }
            info::Builder { id: DATAGRAM_SENT__GSO_OFFSET, name: Str::new("datagram_sent.gso_offset\0"), units: Units::Unitless }.build()
        },
        62 => {
            proof {
                reveal_strlit("datagram_received\0");
                vstd::string::is_ascii_spec_bytes("datagram_received\0");
            }
            info::Builder { id: DATAGRAM_RECEIVED, name: Str::new("datagram_received\0"), units: Units::Unitless }.build()
        },
        63 => {
            proof {
                reveal_strlit("datagram_received.bytes.total\0");
                vstd::string::is_ascii_spec_bytes("datagram_received.bytes.total\0");
            }
            info::Builder { id: DATAGRAM_RECEIVED__BYTES__TOTAL, name: Str::new("datagram_received.bytes.total\0"), units: Units::Bytes }.build()
        },
        64 => {
            proof {
                reveal_strlit("datagram_received.bytes\0");
                vstd::string::is_ascii_spec_bytes("datagram_received.bytes\0");
            }
            info::Builder { id: DATAGRAM_RECEIVED__BYTES, name: Str::new("datagram_received.bytes\0"), units: Units::Bytes }.build()
        },
        65 => {
            proof {
                reveal_strlit("datagram_dropped\0");
                vstd::string::is_ascii_spec_bytes("datagram_dropped\0");
            }
            info::Builder { id: DATAGRAM_DROPPED, name: Str::new("datagram_dropped\0"), units: Units::Unitless }.build()
        },
        66 => {
            proof {
                reveal_strlit("datagram_dropped.bytes.total\0");
                vstd::string::is_ascii_spec_bytes("datagram_dropped.bytes.total\0");
            }
            info::Builder { id: DATAGRAM_DROPPED__BYTES__TOTAL, name: Str::new("datagram_dropped.bytes.total\0"), units: Units::Bytes }.build()
        },
        67 => {
            proof {
                reveal_strlit("datagram_dropped.bytes\0");
                vstd::string::is_ascii_spec_bytes("datagram_dropped.bytes\0");
            }
            info::Builder { id: DATAGRAM_DROPPED__BYTES, name: Str::new("datagram_dropped.bytes\0"), units: Units::Bytes }.build()
        },
        68 => {
            proof {
                reveal_strlit("datagram_dropped.reason\0");
                vstd::string::is_ascii_spec_bytes("datagram_dropped.reason\0");
            }
            info::Builder { id: DATAGRAM_DROPPED__REASON, name: Str::new("datagram_dropped.reason\0"), units: Units::Unitless }.build()
        },
        69 => {
            proof {
                reveal_strlit("handshake_remote_address_change_observed\0");
                vstd::string::is_ascii_spec_bytes("handshake_remote_address_change_observed\0");
            }
            info::Builder { id: HANDSHAKE_REMOTE_ADDRESS_CHANGE_OBSERVED, name: Str::new("handshake_remote_address_change_observed\0"), units: Units::Unitless }.build()
        },
        70 => {
            proof {
                reveal_strlit("connection_id_updated\0");
                vstd::string::is_ascii_spec_bytes("connection_id_updated\0");
            }
            info::Builder { id: CONNECTION_ID_UPDATED, name: Str::new("connection_id_updated\0"), units: Units::Unitless }.build()
        },
        71 => {
            proof {
                reveal_strlit("ecn_state_changed\0");
                vstd::string::is_ascii_spec_bytes("ecn_state_changed\0");
            }
            info::Builder { id: ECN_STATE_CHANGED, name: Str::new("ecn_state_changed\0"), units: Units::Unitless }.build()
        },
        72 => {
            proof {
                reveal_strlit("ecn_state_changed.state\0");
                vstd::string::is_ascii_spec_bytes("ecn_state_changed.state\0");
            }
            info::Builder { id: ECN_STATE_CHANGED__STATE, name: Str::new("ecn_state_changed.state\0"), units: Units::Unitless }.build()
        },
        73 => {
            proof {
                reveal_strlit("connection_migration_denied\0");
                vstd::string::is_ascii_spec_bytes("connection_migration_denied\0");
            }
            info::Builder { id: CONNECTION_MIGRATION_DENIED, name: Str::new("connection_migration_denied\0"), units: Units::Unitless }.build()
        },
        _ => {
            proof {
                reveal_strlit("connection_migration_denied.reason\0");
                vstd::string::is_ascii_spec_bytes("connection_migration_denied.reason\0");
            }
            info::Builder { id: CONNECTION_MIGRATION_DENIED__REASON, name: Str::new("connection_migration_denied.reason\0"), units: Units::Unitless }.build()
        },
    }
}

fn info_3(id: usize) -> (r: Info)
    requires
        75 <= id <= 99,
    ensures
        spec_is_info(r, id),
{
    match id {
        75 => {
            proof {
                reveal_strlit("handshake_status_updated\0");
                vstd::string::is_ascii_spec_bytes("handshake_status_updated\0");
            }
            info::Builder { id: HANDSHAKE_STATUS_UPDATED, name: Str::new("handshake_status_updated\0"), units: Units::Unitless }.build()
        },
        76 => {
            proof {
                reveal_strlit("handshake_status_updated.complete.latency\0");
                vstd::string::is_ascii_spec_bytes("handshake_status_updated.complete.latency\0");
            }
            info::Builder { id: HANDSHAKE_STATUS_UPDATED__COMPLETE__LATENCY, name: Str::new("handshake_status_updated.complete.latency\0"), units: Units::Duration }.build()
        },
        77 => {
            proof {
                reveal_strlit("handshake_status_updated.confirmed.latency\0");
                vstd::string::is_ascii_spec_bytes("handshake_status_updated.confirmed.latency\0");
            }
            info::Builder { id: HANDSHAKE_STATUS_UPDATED__CONFIRMED__LATENCY, name: Str::new("handshake_status_updated.confirmed.latency\0"), units: Units::Duration }.build()
        },
        78 => {
            proof {
                reveal_strlit("handshake_status_updated.handshake_done_acked.latency\0");
                vstd::string::is_ascii_spec_bytes("handshake_status_updated.handshake_done_acked.latency\0");
            }
            info::Builder { id: HANDSHAKE_STATUS_UPDATED__HANDSHAKE_DONE_ACKED__LATENCY, name: Str::new("handshake_status_updated.handshake_done_acked.latency\0"), units: Units::Duration }.build()
        },
        79 => {
            proof {
                reveal_strlit("handshake_status_updated.status\0");
                vstd::string::is_ascii_spec_bytes("handshake_status_updated.status\0");
            }
            info::Builder { id: HANDSHAKE_STATUS_UPDATED__STATUS, name: Str::new("handshake_status_updated.status\0"), units: Units::Unitless }.build()
        },
        80 => {
            proof {
                reveal_strlit("tls_exporter_ready\0");
                vstd::string::is_ascii_spec_bytes("tls_exporter_ready\0");
            }
            info::Builder { id: TLS_EXPORTER_READY, name: Str::new("tls_exporter_ready\0"), units: Units::Unitless }.build()
        },
        81 => {
            proof {
                reveal_strlit("tls_handshake_failed\0");
                vstd::string::is_ascii_spec_bytes("tls_handshake_failed\0");
            }
            info::Builder { id: TLS_HANDSHAKE_FAILED, name: Str::new("tls_handshake_failed\0"), units: Units::Unitless }.build()
        },
        82 => {
            proof {
                reveal_strlit("path_challenge_updated\0");
                vstd::string::is_ascii_spec_bytes("path_challenge_updated\0");
            }
            info::Builder { id: PATH_CHALLENGE_UPDATED, name: Str::new("path_challenge_updated\0"), units: Units::Unitless }.build()
        },
        83 => {
            proof {
                reveal_strlit("path_challenge_updated.status\0");
                vstd::string::is_ascii_spec_bytes("path_challenge_updated.status\0");
            }
            info::Builder { id: PATH_CHALLENGE_UPDATED__STATUS, name: Str::new("path_challenge_updated.status\0"), units: Units::Unitless }.build()
        },
        84 => {
            proof {
                reveal_strlit("tls_client_hello\0");
                vstd::string::is_ascii_spec_bytes("tls_client_hello\0");
            }
            info::Builder { id: TLS_CLIENT_HELLO, name: Str::new("tls_client_hello\0"), units: Units::Unitless }.build()
        },
        85 => {
            proof {
                reveal_strlit("tls_client_hello.latency\0");
                vstd::string::is_ascii_spec_bytes("tls_client_hello.latency\0");
            }
            info::Builder { id: TLS_CLIENT_HELLO__LATENCY, name: Str::new("tls_client_hello.latency\0"), units: Units::Duration }.build()
        },
        86 => {
            proof {
                reveal_strlit("tls_server_hello\0");
                vstd::string::is_ascii_spec_bytes("tls_server_hello\0");
            }
            info::Builder { id: TLS_SERVER_HELLO, name: Str::new("tls_server_hello\0"), units: Units::Unitless }.build()
        },
        87 => {
            proof {
                reveal_strlit("tls_server_hello.latency\0");
                vstd::string::is_ascii_spec_bytes("tls_server_hello.latency\0");
            }
            info::Builder { id: TLS_SERVER_HELLO__LATENCY, name: Str::new("tls_server_hello.latency\0"), units: Units::Duration }.build()
        },
        88 => {
            proof {
                reveal_strlit("rx_stream_progress\0");
                vstd::string::is_ascii_spec_bytes("rx_stream_progress\0");
            }
            info::Builder { id: RX_STREAM_PROGRESS, name: Str::new("rx_stream_progress\0"), units: Units::Unitless }.build()
        },
        89 => {
            proof {
                reveal_strlit("rx_stream_progress.bytes.total\0");
                vstd::string::is_ascii_spec_bytes("rx_stream_progress.bytes.total\0");
            }
            info::Builder { id: RX_STREAM_PROGRESS__BYTES__TOTAL, name: Str::new("rx_stream_progress.bytes.total\0"), units: Units::Bytes }.build()
        },
        90 => {
            proof {
                reveal_strlit("rx_stream_progress.bytes\0");
                vstd::string::is_ascii_spec_bytes("rx_stream_progress.bytes\0");
            }
            info::Builder { id: RX_STREAM_PROGRESS__BYTES, name: Str::new("rx_stream_progress.bytes\0"), units: Units::Bytes }.build()
        },
        91 => {
            proof {
                reveal_strlit("tx_stream_progress\0");
                vstd::string::is_ascii_spec_bytes("tx_stream_progress\0");
            }
            info::Builder { id: TX_STREAM_PROGRESS, name: Str::new("tx_stream_progress\0"), units: Units::Unitless }.build()
        },
        92 => {
            proof {
                reveal_strlit("tx_stream_progress.bytes.total\0");
                vstd::string::is_ascii_spec_bytes("tx_stream_progress.bytes.total\0");
            }
            info::Builder { id: TX_STREAM_PROGRESS__BYTES__TOTAL, name: Str::new("tx_stream_progress.bytes.total\0"), units: Units::Bytes }.build()
        },
        93 => {
            proof {
                reveal_strlit("tx_stream_progress.bytes\0");
                vstd::string::is_ascii_spec_bytes("tx_stream_progress.bytes\0");
            }
            info::Builder { id: TX_STREAM_PROGRESS__BYTES, name: Str::new("tx_stream_progress.bytes\0"), units: Units::Bytes }.build()
        },
        94 => {
            proof {
                reveal_strlit("keep_alive_timer_expired\0");
                vstd::string::is_ascii_spec_bytes("keep_alive_timer_expired\0");
            }
            info::Builder { id: KEEP_ALIVE_TIMER_EXPIRED, name: Str::new("keep_alive_timer_expired\0"), units: Units::Unitless }.build()
        },
        95 => {
            proof {
                reveal_strlit("mtu_updated\0");
                vstd::string::is_ascii_spec_bytes("mtu_updated\0");
            }
            info::Builder { id: MTU_UPDATED, name: Str::new("mtu_updated\0"), units: Units::Unitless }.build()
        },
        96 => {
            proof {
                reveal_strlit("mtu_updated.mtu\0");
                vstd::string::is_ascii_spec_bytes("mtu_updated.mtu\0");
            }
            info::Builder { id: MTU_UPDATED__MTU, name: Str::new("mtu_updated.mtu\0"), units: Units::Bytes }.build()
        },
        97 => {
            proof {
                reveal_strlit("mtu_updated.cause\0");
                vstd::string::is_ascii_spec_bytes("mtu_updated.cause\0");
            }
            info::Builder { id: MTU_UPDATED__CAUSE, name: Str::new("mtu_updated.cause\0"), units: Units::Unitless }.build()
        },
        98 => {
            proof {
                reveal_strlit("mtu_updated.search_complete\0");
                vstd::string::is_ascii_spec_bytes("mtu_updated.search_complete\0");
            }
            info::Builder { id: MTU_UPDATED__SEARCH_COMPLETE, name: Str::new("mtu_updated.search_complete\0"), units: Units::Unitless }.build()
        },
        _ => {
            proof {
                reveal_strlit("mtu_probing_complete_received\0");
                vstd::string::is_ascii_spec_bytes("mtu_probing_complete_received\0");
            }
            info::Builder { id: MTU_PROBING_COMPLETE_RECEIVED, name: Str::new("mtu_probing_complete_received\0"), units: Units::Unitless }.build()
        },
    }
}

fn info_4(id: usize) -> (r: Info)
    requires
        100 <= id <= 124,
    ensures
        spec_is_info(r, id),
{
    match id {
        100 => {
            proof {
                reveal_strlit("mtu_probing_complete_received.packet\0");
                vstd::string::is_ascii_spec_bytes("mtu_probing_complete_received.packet\0");
            }
            info::Builder { id: MTU_PROBING_COMPLETE_RECEIVED__PACKET, name: Str::new("mtu_probing_complete_received.packet\0"), units: Units::Unitless }.build()
        },
        101 => {
            proof {
                reveal_strlit("mtu_probing_complete_received.mtu\0");
                vstd::string::is_ascii_spec_bytes("mtu_probing_complete_received.mtu\0");
            }
            info::Builder { id: MTU_PROBING_COMPLETE_RECEIVED__MTU, name: Str::new("mtu_probing_complete_received.mtu\0"), units: Units::Bytes }.build()
        },
        102 => {
            proof {
                reveal_strlit("slow_start_exited\0");
                vstd::string::is_ascii_spec_bytes("slow_start_exited\0");
            }
            info::Builder { id: SLOW_START_EXITED, name: Str::new("slow_start_exited\0"), units: Units::Unitless }.build()
        },
        103 => {
            proof {
                reveal_strlit("slow_start_exited.cause\0");
                vstd::string::is_ascii_spec_bytes("slow_start_exited.cause\0");
            }
            info::Builder { id: SLOW_START_EXITED__CAUSE, name: Str::new("slow_start_exited.cause\0"), units: Units::Unitless }.build()
        },
        104 => {
            proof {
                reveal_strlit("slow_start_exited.latency\0");
                vstd::string::is_ascii_spec_bytes("slow_start_exited.latency\0");
            }
            info::Builder { id: SLOW_START_EXITED__LATENCY, name: Str::new("slow_start_exited.latency\0"), units: Units::Duration }.build()
        },
        105 => {
            proof {
                reveal_strlit("slow_start_exited.congestion_window\0");
                vstd::string::is_ascii_spec_bytes("slow_start_exited.congestion_window\0");
            }
            info::Builder { id: SLOW_START_EXITED__CONGESTION_WINDOW, name: Str::new("slow_start_exited.congestion_window\0"), units: Units::Bytes }.build()
        },
        106 => {
            proof {
                reveal_strlit("delivery_rate_sampled\0");
                vstd::string::is_ascii_spec_bytes("delivery_rate_sampled\0");
            }
            info::Builder { id: DELIVERY_RATE_SAMPLED, name: Str::new("delivery_rate_sampled\0"), units: Units::Unitless }.build()
        },
        107 => {
            proof {
                reveal_strlit("pacing_rate_updated\0");
                vstd::string::is_ascii_spec_bytes("pacing_rate_updated\0");
            }
            info::Builder { id: PACING_RATE_UPDATED, name: Str::new("pacing_rate_updated\0"), units: Units::Unitless }.build()
        },
        108 => {
            proof {
                reveal_strlit("pacing_rate_updated.bytes_per_second\0");
                vstd::string::is_ascii_spec_bytes("pacing_rate_updated.bytes_per_second\0");
            }
            info::Builder { id: PACING_RATE_UPDATED__BYTES_PER_SECOND, name: Str::new("pacing_rate_updated.bytes_per_second\0"), units: Units::Bytes }.build()
        },
        109 => {
            proof {
                reveal_strlit("pacing_rate_updated.burst_size\0");
                vstd::string::is_ascii_spec_bytes("pacing_rate_updated.burst_size\0");
            }
            info::Builder { id: PACING_RATE_UPDATED__BURST_SIZE, name: Str::new("pacing_rate_updated.burst_size\0"), units: Units::Bytes }.build()
        },
        110 => {
            proof {
                reveal_strlit("pacing_rate_updated.pacing_gain\0");
                vstd::string::is_ascii_spec_bytes("pacing_rate_updated.pacing_gain\0");
            }
            info::Builder { id: PACING_RATE_UPDATED__PACING_GAIN, name: Str::new("pacing_rate_updated.pacing_gain\0"), units: Units::Unitless }.build()
        },
        111 => {
            proof {
                reveal_strlit("bbr_state_changed\0");
                vstd::string::is_ascii_spec_bytes("bbr_state_changed\0");
            }
            info::Builder { id: BBR_STATE_CHANGED, name: Str::new("bbr_state_changed\0"), units: Units::Unitless }.build()
        },
        112 => {
            proof {
                reveal_strlit("bbr_state_changed.state\0");
                vstd::string::is_ascii_spec_bytes("bbr_state_changed.state\0");
            }
            info::Builder { id: BBR_STATE_CHANGED__STATE, name: Str::new("bbr_state_changed.state\0"), units: Units::Unitless }.build()
        },
        113 => {
            proof {
                reveal_strlit("dc_state_changed\0");
                vstd::string::is_ascii_spec_bytes("dc_state_changed\0");
            }
            info::Builder { id: DC_STATE_CHANGED, name: Str::new("dc_state_changed\0"), units: Units::Unitless }.build()
        },
        114 => {
            proof {
                reveal_strlit("dc_state_changed.version_negotiated.latency\0");
                vstd::string::is_ascii_spec_bytes("dc_state_changed.version_negotiated.latency\0");
            }
            info::Builder { id: DC_STATE_CHANGED__VERSION_NEGOTIATED__LATENCY, name: Str::new("dc_state_changed.version_negotiated.latency\0"), units: Units::Duration }.build()
        },
        115 => {
            proof {
                reveal_strlit("dc_state_changed.no_version_negotiated.latency\0");
                vstd::string::is_ascii_spec_bytes("dc_state_changed.no_version_negotiated.latency\0");
            }
            info::Builder { id: DC_STATE_CHANGED__NO_VERSION_NEGOTIATED__LATENCY, name: Str::new("dc_state_changed.no_version_negotiated.latency\0"), units: Units::Duration }.build()
        },
        116 => {
            proof {
                reveal_strlit("dc_state_changed.path_secrets.latency\0");
                vstd::string::is_ascii_spec_bytes("dc_state_changed.path_secrets.latency\0");
            }
            info::Builder { id: DC_STATE_CHANGED__PATH_SECRETS__LATENCY, name: Str::new("dc_state_changed.path_secrets.latency\0"), units: Units::Duration }.build()
        },
        117 => {
            proof {
                reveal_strlit("dc_state_changed.complete.latency\0");
                vstd::string::is_ascii_spec_bytes("dc_state_changed.complete.latency\0");
            }
            info::Builder { id: DC_STATE_CHANGED__COMPLETE__LATENCY, name: Str::new("dc_state_changed.complete.latency\0"), units: Units::Duration }.build()
        },
        118 => {
            proof {
                reveal_strlit("dc_state_changed.state\0");
                vstd::string::is_ascii_spec_bytes("dc_state_changed.state\0");
            }
            info::Builder { id: DC_STATE_CHANGED__STATE, name: Str::new("dc_state_changed.state\0"), units: Units::Unitless }.build()
        },
        119 => {
            proof {
                reveal_strlit("dc_path_created\0");
                vstd::string::is_ascii_spec_bytes("dc_path_created\0");
            }
            info::Builder { id: DC_PATH_CREATED, name: Str::new("dc_path_created\0"), units: Units::Unitless }.build()
        },
        120 => {
            proof {
                reveal_strlit("connection_closed\0");
                vstd::string::is_ascii_spec_bytes("connection_closed\0");
            }
            info::Builder { id: CONNECTION_CLOSED, name: Str::new("connection_closed\0"), units: Units::Unitless }.build()
        },
        121 => {
            proof {
                reveal_strlit("connection_closed.latency\0");
                vstd::string::is_ascii_spec_bytes("connection_closed.latency\0");
            }
            info::Builder { id: CONNECTION_CLOSED__LATENCY, name: Str::new("connection_closed.latency\0"), units: Units::Duration }.build()
        },
        122 => {
            proof {
                reveal_strlit("connection_closed.error\0");
                vstd::string::is_ascii_spec_bytes("connection_closed.error\0");
            }
            info::Builder { id: CONNECTION_CLOSED__ERROR, name: Str::new("connection_closed.error\0"), units: Units::Unitless }.build()
        },
        123 => {
            proof {
                reveal_strlit("version_information\0");
                vstd::string::is_ascii_spec_bytes("version_information\0");
            }
            info::Builder { id: VERSION_INFORMATION, name: Str::new("version_information\0"), units: Units::Unitless }.build()
        },
        _ => {
            proof {
                reveal_strlit("endpoint_packet_sent\0");
                vstd::string::is_ascii_spec_bytes("endpoint_packet_sent\0");
            }
            info::Builder { id: ENDPOINT_PACKET_SENT, name: Str::new("endpoint_packet_sent\0"), units: Units::Unitless }.build()
        },
    }
}

fn info_5(id: usize) -> (r: Info)
    requires
        125 <= id <= 149,
    ensures
        spec_is_info(r, id),
{
    match id {
        125 => {
            proof {
                reveal_strlit("endpoint_packet_received\0");
                vstd::string::is_ascii_spec_bytes("endpoint_packet_received\0");
            }
            info::Builder { id: ENDPOINT_PACKET_RECEIVED, name: Str::new("endpoint_packet_received\0"), units: Units::Unitless }.build()
        },
        126 => {
            proof {
                reveal_strlit("endpoint_datagram_sent\0");
                vstd::string::is_ascii_spec_bytes("endpoint_datagram_sent\0");
            }
            info::Builder { id: ENDPOINT_DATAGRAM_SENT, name: Str::new("endpoint_datagram_sent\0"), units: Units::Unitless }.build()
        },
        127 => {
            proof {
                reveal_strlit("endpoint_datagram_sent.bytes\0");
                vstd::string::is_ascii_spec_bytes("endpoint_datagram_sent.bytes\0");
            }
            info::Builder { id: ENDPOINT_DATAGRAM_SENT__BYTES, name: Str::new("endpoint_datagram_sent.bytes\0"), units: Units::Bytes }.build()
        },
        128 => {
            proof {
                reveal_strlit("endpoint_datagram_sent.bytes.total\0");
                vstd::string::is_ascii_spec_bytes("endpoint_datagram_sent.bytes.total\0");
            }
            info::Builder { id: ENDPOINT_DATAGRAM_SENT__BYTES__TOTAL, name: Str::new("endpoint_datagram_sent.bytes.total\0"), units: Units::Bytes }.build()
        },
        129 => {
            proof {
                reveal_strlit("endpoint_datagram_sent.gso_offset\0");
                vstd::string::is_ascii_spec_bytes("endpoint_datagram_sent.gso_offset\0");
            }
            info::Builder { id: ENDPOINT_DATAGRAM_SENT__GSO_OFFSET, name: Str::new("endpoint_datagram_sent.gso_offset\0"), units: Units::Unitless }.build()
        },
        130 => {
            proof {
                reveal_strlit("endpoint_datagram_received\0");
                vstd::string::is_ascii_spec_bytes("endpoint_datagram_received\0");
            }
            info::Builder { id: ENDPOINT_DATAGRAM_RECEIVED, name: Str::new("endpoint_datagram_received\0"), units: Units::Unitless }.build()
        },
        131 => {
            proof {
                reveal_strlit("endpoint_datagram_received.bytes\0");
                vstd::string::is_ascii_spec_bytes("endpoint_datagram_received.bytes\0");
            }
            info::Builder { id: ENDPOINT_DATAGRAM_RECEIVED__BYTES, name: Str::new("endpoint_datagram_received.bytes\0"), units: Units::Bytes }.build()
        },
        132 => {
            proof {
                reveal_strlit("endpoint_datagram_received.bytes.total\0");
                vstd::string::is_ascii_spec_bytes("endpoint_datagram_received.bytes.total\0");
            }
            info::Builder { id: ENDPOINT_DATAGRAM_RECEIVED__BYTES__TOTAL, name: Str::new("endpoint_datagram_received.bytes.total\0"), units: Units::Bytes }.build()
        },
        133 => {
            proof {
                reveal_strlit("endpoint_datagram_dropped\0");
                vstd::string::is_ascii_spec_bytes("endpoint_datagram_dropped\0");
            }
            info::Builder { id: ENDPOINT_DATAGRAM_DROPPED, name: Str::new("endpoint_datagram_dropped\0"), units: Units::Unitless }.build()
        },
        134 => {
            proof {
                reveal_strlit("endpoint_datagram_dropped.bytes\0");
                vstd::string::is_ascii_spec_bytes("endpoint_datagram_dropped.bytes\0");
            }
            info::Builder { id: ENDPOINT_DATAGRAM_DROPPED__BYTES, name: Str::new("endpoint_datagram_dropped.bytes\0"), units: Units::Bytes }.build()
        },
        135 => {
            proof {
                reveal_strlit("endpoint_datagram_dropped.bytes.total\0");
                vstd::string::is_ascii_spec_bytes("endpoint_datagram_dropped.bytes.total\0");
            }
            info::Builder { id: ENDPOINT_DATAGRAM_DROPPED__BYTES__TOTAL, name: Str::new("endpoint_datagram_dropped.bytes.total\0"), units: Units::Bytes }.build()
        },
        136 => {
            proof {
                reveal_strlit("endpoint_datagram_dropped.reason\0");
                vstd::string::is_ascii_spec_bytes("endpoint_datagram_dropped.reason\0");
            }
            info::Builder { id: ENDPOINT_DATAGRAM_DROPPED__REASON, name: Str::new("endpoint_datagram_dropped.reason\0"), units: Units::Unitless }.build()
        },
        137 => {
            proof {
                reveal_strlit("endpoint_connection_attempt_failed\0");
                vstd::string::is_ascii_spec_bytes("endpoint_connection_attempt_failed\0");
            }
            info::Builder { id: ENDPOINT_CONNECTION_ATTEMPT_FAILED, name: Str::new("endpoint_connection_attempt_failed\0"), units: Units::Unitless }.build()
        },
        138 => {
            proof {
                reveal_strlit("endpoint_connection_attempt_failed.error\0");
                vstd::string::is_ascii_spec_bytes("endpoint_connection_attempt_failed.error\0");
            }
            info::Builder { id: ENDPOINT_CONNECTION_ATTEMPT_FAILED__ERROR, name: Str::new("endpoint_connection_attempt_failed.error\0"), units: Units::Unitless }.build()
        },
        139 => {
            proof {
                reveal_strlit("endpoint_connection_attempt_deduplicated\0");
                vstd::string::is_ascii_spec_bytes("endpoint_connection_attempt_deduplicated\0");
            }
            info::Builder { id: ENDPOINT_CONNECTION_ATTEMPT_DEDUPLICATED, name: Str::new("endpoint_connection_attempt_deduplicated\0"), units: Units::Unitless }.build()
        },
        140 => {
            proof {
                reveal_strlit("platform_tx\0");
                vstd::string::is_ascii_spec_bytes("platform_tx\0");
            }
            info::Builder { id: PLATFORM_TX, name: Str::new("platform_tx\0"), units: Units::Unitless }.build()
        },
        141 => {
            proof {
                reveal_strlit("platform_tx.packets.total\0");
                vstd::string::is_ascii_spec_bytes("platform_tx.packets.total\0");
            }
            info::Builder { id: PLATFORM_TX__PACKETS__TOTAL, name: Str::new("platform_tx.packets.total\0"), units: Units::Unitless }.build()
        },
        142 => {
            proof {
                reveal_strlit("platform_tx.packets\0");
                vstd::string::is_ascii_spec_bytes("platform_tx.packets\0");
            }
            info::Builder { id: PLATFORM_TX__PACKETS, name: Str::new("platform_tx.packets\0"), units: Units::Unitless }.build()
        },
        143 => {
            proof {
                reveal_strlit("platform_tx.syscalls.total\0");
                vstd::string::is_ascii_spec_bytes("platform_tx.syscalls.total\0");
            }
            info::Builder { id: PLATFORM_TX__SYSCALLS__TOTAL, name: Str::new("platform_tx.syscalls.total\0"), units: Units::Unitless }.build()
        },
        144 => {
            proof {
                reveal_strlit("platform_tx.syscalls\0");
                vstd::string::is_ascii_spec_bytes("platform_tx.syscalls\0");
            }
            info::Builder { id: PLATFORM_TX__SYSCALLS, name: Str::new("platform_tx.syscalls\0"), units: Units::Unitless }.build()
        },
        145 => {
            proof {
                reveal_strlit("platform_tx.syscalls.blocked.total\0");
                vstd::string::is_ascii_spec_bytes("platform_tx.syscalls.blocked.total\0");
            }
            info::Builder { id: PLATFORM_TX__SYSCALLS__BLOCKED__TOTAL, name: Str::new("platform_tx.syscalls.blocked.total\0"), units: Units::Unitless }.build()
        },
        146 => {
            proof {
                reveal_strlit("platform_tx.syscalls.blocked\0");
                vstd::string::is_ascii_spec_bytes("platform_tx.syscalls.blocked\0");
            }
            info::Builder { id: PLATFORM_TX__SYSCALLS__BLOCKED, name: Str::new("platform_tx.syscalls.blocked\0"), units: Units::Unitless }.build()
        },
        147 => {
            proof {
                reveal_strlit("platform_tx.errors.total\0");
                vstd::string::is_ascii_spec_bytes("platform_tx.errors.total\0");
            }
            info::Builder { id: PLATFORM_TX__ERRORS__TOTAL, name: Str::new("platform_tx.errors.total\0"), units: Units::Unitless }.build()
        },
        148 => {
            proof {
                reveal_strlit("platform_tx.errors\0");
                vstd::string::is_ascii_spec_bytes("platform_tx.errors\0");
            }
            info::Builder { id: PLATFORM_TX__ERRORS, name: Str::new("platform_tx.errors\0"), units: Units::Unitless }.build()
        },
        _ => {
            proof {
                reveal_strlit("platform_tx.errors.dropped.total\0");
                vstd::string::is_ascii_spec_bytes("platform_tx.errors.dropped.total\0");
            }
            info::Builder { id: PLATFORM_TX__ERRORS__DROPPED__TOTAL, name: Str::new("platform_tx.errors.dropped.total\0"), units: Units::Unitless }.build()
        },
    }
}

fn info_6(id: usize) -> (r: Info)
    requires
        150 <= id <= 168,
    ensures
        spec_is_info(r, id),
{
    match id {
        150 => {
            proof {
                reveal_strlit("platform_tx.errors.dropped\0");
                vstd::string::is_ascii_spec_bytes("platform_tx.errors.dropped\0");
            }
            info::Builder { id: PLATFORM_TX__ERRORS__DROPPED, name: Str::new("platform_tx.errors.dropped\0"), units: Units::Unitless }.build()
        },
        151 => {
            proof {
                reveal_strlit("platform_tx_error\0");
                vstd::string::is_ascii_spec_bytes("platform_tx_error\0");
            }
            info::Builder { id: PLATFORM_TX_ERROR, name: Str::new("platform_tx_error\0"), units: Units::Unitless }.build()
        },
        152 => {
            proof {
                reveal_strlit("platform_rx\0");
                vstd::string::is_ascii_spec_bytes("platform_rx\0");
            }
            info::Builder { id: PLATFORM_RX, name: Str::new("platform_rx\0"), units: Units::Unitless }.build()
        },
        153 => {
            proof {
                reveal_strlit("platform_rx.packets.total\0");
                vstd::string::is_ascii_spec_bytes("platform_rx.packets.total\0");
            }
            info::Builder { id: PLATFORM_RX__PACKETS__TOTAL, name: Str::new("platform_rx.packets.total\0"), units: Units::Unitless }.build()
        },
        154 => {
            proof {
                reveal_strlit("platform_rx.packets\0");
                vstd::string::is_ascii_spec_bytes("platform_rx.packets\0");
            }
            info::Builder { id: PLATFORM_RX__PACKETS, name: Str::new("platform_rx.packets\0"), units: Units::Unitless }.build()
        },
        155 => {
            proof {
                reveal_strlit("platform_rx.syscalls.total\0");
                vstd::string::is_ascii_spec_bytes("platform_rx.syscalls.total\0");
            }
            info::Builder { id: PLATFORM_RX__SYSCALLS__TOTAL, name: Str::new("platform_rx.syscalls.total\0"), units: Units::Unitless }.build()
        },
        156 => {
            proof {
                reveal_strlit("platform_rx.syscalls\0");
                vstd::string::is_ascii_spec_bytes("platform_rx.syscalls\0");
            }
            info::Builder { id: PLATFORM_RX__SYSCALLS, name: Str::new("platform_rx.syscalls\0"), units: Units::Unitless }.build()
        },
        157 => {
            proof {
                reveal_strlit("platform_rx.syscalls.blocked.total\0");
                vstd::string::is_ascii_spec_bytes("platform_rx.syscalls.blocked.total\0");
            }
            info::Builder { id: PLATFORM_RX__SYSCALLS__BLOCKED__TOTAL, name: Str::new("platform_rx.syscalls.blocked.total\0"), units: Units::Unitless }.build()
        },
        158 => {
            proof {
                reveal_strlit("platform_rx.syscalls.blocked\0");
                vstd::string::is_ascii_spec_bytes("platform_rx.syscalls.blocked\0");
            }
            info::Builder { id: PLATFORM_RX__SYSCALLS__BLOCKED, name: Str::new("platform_rx.syscalls.blocked\0"), units: Units::Unitless }.build()
        },
        159 => {
            proof {
                reveal_strlit("platform_rx.errors.total\0");
                vstd::string::is_ascii_spec_bytes("platform_rx.errors.total\0");
            }
            info::Builder { id: PLATFORM_RX__ERRORS__TOTAL, name: Str::new("platform_rx.errors.total\0"), units: Units::Unitless }.build()
        },
        160 => {
            proof {
                reveal_strlit("platform_rx.errors\0");
                vstd::string::is_ascii_spec_bytes("platform_rx.errors\0");
            }
            info::Builder { id: PLATFORM_RX__ERRORS, name: Str::new("platform_rx.errors\0"), units: Units::Unitless }.build()
        },
        161 => {
            proof {
                reveal_strlit("platform_rx.errors.dropped.total\0");
                vstd::string::is_ascii_spec_bytes("platform_rx.errors.dropped.total\0");
            }
            info::Builder { id: PLATFORM_RX__ERRORS__DROPPED__TOTAL, name: Str::new("platform_rx.errors.dropped.total\0"), units: Units::Unitless }.build()
        },
        162 => {
            proof {
                reveal_strlit("platform_rx.errors.dropped\0");
                vstd::string::is_ascii_spec_bytes("platform_rx.errors.dropped\0");
            }
            info::Builder { id: PLATFORM_RX__ERRORS__DROPPED, name: Str::new("platform_rx.errors.dropped\0"), units: Units::Unitless }.build()
        },
        163 => {
            proof {
                reveal_strlit("platform_rx_error\0");
                vstd::string::is_ascii_spec_bytes("platform_rx_error\0");
            }
            info::Builder { id: PLATFORM_RX_ERROR, name: Str::new("platform_rx_error\0"), units: Units::Unitless }.build()
        },
        164 => {
            proof {
                reveal_strlit("platform_feature_configured\0");
                vstd::string::is_ascii_spec_bytes("platform_feature_configured\0");
            }
            info::Builder { id: PLATFORM_FEATURE_CONFIGURED, name: Str::new("platform_feature_configured\0"), units: Units::Unitless }.build()
        },
        165 => {
            proof {
                reveal_strlit("platform_event_loop_wakeup\0");
                vstd::string::is_ascii_spec_bytes("platform_event_loop_wakeup\0");
            }
            info::Builder { id: PLATFORM_EVENT_LOOP_WAKEUP, name: Str::new("platform_event_loop_wakeup\0"), units: Units::Unitless }.build()
        },
        166 => {
            proof {
                reveal_strlit("platform_event_loop_sleep\0");
                vstd::string::is_ascii_spec_bytes("platform_event_loop_sleep\0");
            }
            info::Builder { id: PLATFORM_EVENT_LOOP_SLEEP, name: Str::new("platform_event_loop_sleep\0"), units: Units::Unitless }.build()
        },
        167 => {
            proof {
                reveal_strlit("platform_event_loop_sleep.processing_duration\0");
                vstd::string::is_ascii_spec_bytes("platform_event_loop_sleep.processing_duration\0");
            }
            info::Builder { id: PLATFORM_EVENT_LOOP_SLEEP__PROCESSING_DURATION, name: Str::new("platform_event_loop_sleep.processing_duration\0"), units: Units::Duration }.build()
        },
        _ => {
            proof {
                reveal_strlit("platform_event_loop_started\0");
                vstd::string::is_ascii_spec_bytes("platform_event_loop_started\0");
            }
            info::Builder { id: PLATFORM_EVENT_LOOP_STARTED, name: Str::new("platform_event_loop_started\0"), units: Units::Unitless }.build()
        },
    }
}

/// The description of metric `id`.
pub fn info(id: usize) -> (r: Info)
    requires
        id < INFO_COUNT,
    ensures
        spec_is_info(r, id),
{
    if id <= 24 {
        info_0(id)
    } else if id <= 49 {
        info_1(id)
    } else if id <= 74 {
        info_2(id)
    } else if id <= 99 {
        info_3(id)
    } else if id <= 124 {
        info_4(id)
    } else if id <= 149 {
        info_5(id)
    } else {
        info_6(id)
    }
}

pub const NOMINAL_COUNTERS_PACKET_SENT__KIND: usize = 0usize;

pub const NOMINAL_COUNTERS_PACKET_RECEIVED__KIND: usize = 1usize;

pub const NOMINAL_COUNTERS_FRAME_SENT__PACKET: usize = 2usize;

pub const NOMINAL_COUNTERS_FRAME_SENT__FRAME: usize = 3usize;

pub const NOMINAL_COUNTERS_FRAME_RECEIVED__PACKET: usize = 4usize;

pub const NOMINAL_COUNTERS_FRAME_RECEIVED__FRAME: usize = 5usize;

pub const NOMINAL_COUNTERS_CONNECTION_CLOSE_FRAME_RECEIVED__PACKET: usize = 6usize;

pub const NOMINAL_COUNTERS_PACKET_LOST__KIND: usize = 7usize;

pub const NOMINAL_COUNTERS_CONGESTION__SOURCE: usize = 8usize;

pub const NOMINAL_COUNTERS_ACK_RANGE_RECEIVED__PACKET: usize = 9usize;

pub const NOMINAL_COUNTERS_ACK_RANGE_SENT__PACKET: usize = 10usize;

pub const NOMINAL_COUNTERS_PACKET_DROPPED__REASON: usize = 11usize;

pub const NOMINAL_COUNTERS_KEY_UPDATE__KEY_TYPE: usize = 12usize;

pub const NOMINAL_COUNTERS_KEY_UPDATE__CIPHER_SUITE: usize = 13usize;

pub const NOMINAL_COUNTERS_KEY_SPACE_DISCARDED__SPACE: usize = 14usize;

pub const NOMINAL_COUNTERS_DUPLICATE_PACKET__KIND: usize = 15usize;

pub const NOMINAL_COUNTERS_DUPLICATE_PACKET__ERROR: usize = 16usize;

pub const NOMINAL_COUNTERS_DATAGRAM_DROPPED__REASON: usize = 17usize;

pub const NOMINAL_COUNTERS_ECN_STATE_CHANGED__STATE: usize = 18usize;

pub const NOMINAL_COUNTERS_CONNECTION_MIGRATION_DENIED__REASON: usize = 19usize;

pub const NOMINAL_COUNTERS_HANDSHAKE_STATUS_UPDATED__STATUS: usize = 20usize;

pub const NOMINAL_COUNTERS_PATH_CHALLENGE_UPDATED__STATUS: usize = 21usize;

pub const NOMINAL_COUNTERS_MTU_UPDATED__CAUSE: usize = 22usize;

pub const NOMINAL_COUNTERS_MTU_PROBING_COMPLETE_RECEIVED__PACKET: usize = 23usize;

pub const NOMINAL_COUNTERS_SLOW_START_EXITED__CAUSE: usize = 24usize;

pub const NOMINAL_COUNTERS_BBR_STATE_CHANGED__STATE: usize = 25usize;

pub const NOMINAL_COUNTERS_DC_STATE_CHANGED__STATE: usize = 26usize;

pub const NOMINAL_COUNTERS_CONNECTION_CLOSED__ERROR: usize = 27usize;

pub const NOMINAL_COUNTERS_ENDPOINT_DATAGRAM_DROPPED__REASON: usize = 28usize;

pub const NOMINAL_COUNTERS_ENDPOINT_CONNECTION_ATTEMPT_FAILED__ERROR: usize = 29usize;

pub const NOMINAL_TIMERS_SLOW_START_EXITED__LATENCY: usize = 0usize;

/// The metric that counter `i` records.
pub open spec fn spec_counter_info(i: usize) -> usize {
    match i {
        0 => APPLICATION_PROTOCOL_INFORMATION,
        1 => SERVER_NAME_INFORMATION,
        2 => KEY_EXCHANGE_GROUP,
        3 => PACKET_SKIPPED,
        4 => PACKET_SENT,
        5 => PACKET_SENT__BYTES__TOTAL,
        6 => PACKET_RECEIVED,
        7 => ACTIVE_PATH_UPDATED,
        8 => PATH_CREATED,
        9 => FRAME_SENT,
        10 => FRAME_RECEIVED,
        11 => CONNECTION_CLOSE_FRAME_RECEIVED,
        12 => PACKET_LOST,
        13 => PACKET_LOST__BYTES__TOTAL,
        14 => RECOVERY_METRICS,
        15 => CONGESTION,
        16 => RX_ACK_RANGE_DROPPED,
        17 => ACK_RANGE_RECEIVED,
        18 => ACK_RANGE_SENT,
        19 => PACKET_DROPPED,
        20 => KEY_UPDATE,
        21 => KEY_SPACE_DISCARDED,
        22 => CONNECTION_STARTED,
        23 => DUPLICATE_PACKET,
        24 => TRANSPORT_PARAMETERS_RECEIVED,
        25 => DATAGRAM_SENT,
        26 => DATAGRAM_SENT__BYTES__TOTAL,
        27 => DATAGRAM_RECEIVED,
        28 => DATAGRAM_RECEIVED__BYTES__TOTAL,
        29 => DATAGRAM_DROPPED,
        30 => DATAGRAM_DROPPED__BYTES__TOTAL,
        31 => HANDSHAKE_REMOTE_ADDRESS_CHANGE_OBSERVED,
        32 => CONNECTION_ID_UPDATED,
        33 => ECN_STATE_CHANGED,
        34 => CONNECTION_MIGRATION_DENIED,
        35 => HANDSHAKE_STATUS_UPDATED,
        36 => TLS_EXPORTER_READY,
        37 => TLS_HANDSHAKE_FAILED,
        38 => PATH_CHALLENGE_UPDATED,
        39 => TLS_CLIENT_HELLO,
        40 => TLS_SERVER_HELLO,
        41 => RX_STREAM_PROGRESS,
        42 => RX_STREAM_PROGRESS__BYTES__TOTAL,
        43 => TX_STREAM_PROGRESS,
        44 => TX_STREAM_PROGRESS__BYTES__TOTAL,
        45 => KEEP_ALIVE_TIMER_EXPIRED,
        46 => MTU_UPDATED,
        47 => MTU_PROBING_COMPLETE_RECEIVED,
        48 => SLOW_START_EXITED,
        49 => DELIVERY_RATE_SAMPLED,
        50 => PACING_RATE_UPDATED,
        51 => BBR_STATE_CHANGED,
        52 => DC_STATE_CHANGED,
        53 => DC_PATH_CREATED,
        54 => CONNECTION_CLOSED,
        55 => VERSION_INFORMATION,
        56 => ENDPOINT_PACKET_SENT,
        57 => ENDPOINT_PACKET_RECEIVED,
        58 => ENDPOINT_DATAGRAM_SENT,
        59 => ENDPOINT_DATAGRAM_RECEIVED,
        60 => ENDPOINT_DATAGRAM_DROPPED,
        61 => ENDPOINT_CONNECTION_ATTEMPT_FAILED,
        62 => ENDPOINT_CONNECTION_ATTEMPT_DEDUPLICATED,
        63 => PLATFORM_TX,
        64 => PLATFORM_TX__PACKETS__TOTAL,
        65 => PLATFORM_TX__SYSCALLS__TOTAL,
        66 => PLATFORM_TX__SYSCALLS__BLOCKED__TOTAL,
        67 => PLATFORM_TX__ERRORS__TOTAL,
        68 => PLATFORM_TX__ERRORS__DROPPED__TOTAL,
        69 => PLATFORM_TX_ERROR,
        70 => PLATFORM_RX,
        71 => PLATFORM_RX__PACKETS__TOTAL,
        72 => PLATFORM_RX__SYSCALLS__TOTAL,
        73 => PLATFORM_RX__SYSCALLS__BLOCKED__TOTAL,
        74 => PLATFORM_RX__ERRORS__TOTAL,
        75 => PLATFORM_RX__ERRORS__DROPPED__TOTAL,
        76 => PLATFORM_RX_ERROR,
        77 => PLATFORM_FEATURE_CONFIGURED,
        78 => PLATFORM_EVENT_LOOP_WAKEUP,
        79 => PLATFORM_EVENT_LOOP_SLEEP,
        80 => PLATFORM_EVENT_LOOP_STARTED,
        _ => 0,
    }
}

/// The metric that counter `i` records.
pub fn counter_info(i: usize) -> (r: usize)
    requires
        i < 81,
    ensures
        r == spec_counter_info(i),
        r < INFO_COUNT,
{
    match i {
        0 => APPLICATION_PROTOCOL_INFORMATION,
        1 => SERVER_NAME_INFORMATION,
        2 => KEY_EXCHANGE_GROUP,
        3 => PACKET_SKIPPED,
        4 => PACKET_SENT,
        5 => PACKET_SENT__BYTES__TOTAL,
        6 => PACKET_RECEIVED,
        7 => ACTIVE_PATH_UPDATED,
        8 => PATH_CREATED,
        9 => FRAME_SENT,
        10 => FRAME_RECEIVED,
        11 => CONNECTION_CLOSE_FRAME_RECEIVED,
        12 => PACKET_LOST,
        13 => PACKET_LOST__BYTES__TOTAL,
        14 => RECOVERY_METRICS,
        15 => CONGESTION,
        16 => RX_ACK_RANGE_DROPPED,
        17 => ACK_RANGE_RECEIVED,
        18 => ACK_RANGE_SENT,
        19 => PACKET_DROPPED,
        20 => KEY_UPDATE,
        21 => KEY_SPACE_DISCARDED,
        22 => CONNECTION_STARTED,
        23 => DUPLICATE_PACKET,
        24 => TRANSPORT_PARAMETERS_RECEIVED,
        25 => DATAGRAM_SENT,
        26 => DATAGRAM_SENT__BYTES__TOTAL,
        27 => DATAGRAM_RECEIVED,
        28 => DATAGRAM_RECEIVED__BYTES__TOTAL,
        29 => DATAGRAM_DROPPED,
        30 => DATAGRAM_DROPPED__BYTES__TOTAL,
        31 => HANDSHAKE_REMOTE_ADDRESS_CHANGE_OBSERVED,
        32 => CONNECTION_ID_UPDATED,
        33 => ECN_STATE_CHANGED,
        34 => CONNECTION_MIGRATION_DENIED,
        35 => HANDSHAKE_STATUS_UPDATED,
        36 => TLS_EXPORTER_READY,
        37 => TLS_HANDSHAKE_FAILED,
        38 => PATH_CHALLENGE_UPDATED,
        39 => TLS_CLIENT_HELLO,
        40 => TLS_SERVER_HELLO,
        41 => RX_STREAM_PROGRESS,
        42 => RX_STREAM_PROGRESS__BYTES__TOTAL,
        43 => TX_STREAM_PROGRESS,
        44 => TX_STREAM_PROGRESS__BYTES__TOTAL,
        45 => KEEP_ALIVE_TIMER_EXPIRED,
        46 => MTU_UPDATED,
        47 => MTU_PROBING_COMPLETE_RECEIVED,
        48 => SLOW_START_EXITED,
        49 => DELIVERY_RATE_SAMPLED,
        50 => PACING_RATE_UPDATED,
        51 => BBR_STATE_CHANGED,
        52 => DC_STATE_CHANGED,
        53 => DC_PATH_CREATED,
        54 => CONNECTION_CLOSED,
        55 => VERSION_INFORMATION,
        56 => ENDPOINT_PACKET_SENT,
        57 => ENDPOINT_PACKET_RECEIVED,
        58 => ENDPOINT_DATAGRAM_SENT,
        59 => ENDPOINT_DATAGRAM_RECEIVED,
        60 => ENDPOINT_DATAGRAM_DROPPED,
        61 => ENDPOINT_CONNECTION_ATTEMPT_FAILED,
        62 => ENDPOINT_CONNECTION_ATTEMPT_DEDUPLICATED,
        63 => PLATFORM_TX,
        64 => PLATFORM_TX__PACKETS__TOTAL,
        65 => PLATFORM_TX__SYSCALLS__TOTAL,
        66 => PLATFORM_TX__SYSCALLS__BLOCKED__TOTAL,
        67 => PLATFORM_TX__ERRORS__TOTAL,
        68 => PLATFORM_TX__ERRORS__DROPPED__TOTAL,
        69 => PLATFORM_TX_ERROR,
        70 => PLATFORM_RX,
        71 => PLATFORM_RX__PACKETS__TOTAL,
        72 => PLATFORM_RX__SYSCALLS__TOTAL,
        73 => PLATFORM_RX__SYSCALLS__BLOCKED__TOTAL,
        74 => PLATFORM_RX__ERRORS__TOTAL,
        75 => PLATFORM_RX__ERRORS__DROPPED__TOTAL,
        76 => PLATFORM_RX_ERROR,
        77 => PLATFORM_FEATURE_CONFIGURED,
        78 => PLATFORM_EVENT_LOOP_WAKEUP,
        79 => PLATFORM_EVENT_LOOP_SLEEP,
        _ => PLATFORM_EVENT_LOOP_STARTED,
    }
}

/// The metric that boolean counter `i` records.
pub open spec fn spec_bool_counter_info(i: usize) -> usize {
    match i {
        0 => PACKET_LOST__IS_MTU_PROBE,
        1 => RECOVERY_METRICS__CONGESTION_LIMITED,
        2 => MTU_UPDATED__SEARCH_COMPLETE,
        _ => 0,
    }
}

/// The metric that boolean counter `i` records.
pub fn bool_counter_info(i: usize) -> (r: usize)
    requires
        i < 3,
    ensures
        r == spec_bool_counter_info(i),
        r < INFO_COUNT,
{
    match i {
        0 => PACKET_LOST__IS_MTU_PROBE,
        1 => RECOVERY_METRICS__CONGESTION_LIMITED,
        _ => MTU_UPDATED__SEARCH_COMPLETE,
    }
}

/// The metric that measure `i` records.
pub open spec fn spec_measure_info(i: usize) -> usize {
    match i {
        0 => PACKET_SENT__BYTES,
        1 => PACKET_LOST__BYTES,
        2 => RECOVERY_METRICS__MIN_RTT,
        3 => RECOVERY_METRICS__SMOOTHED_RTT,
        4 => RECOVERY_METRICS__LATEST_RTT,
        5 => RECOVERY_METRICS__RTT_VARIANCE,
        6 => RECOVERY_METRICS__MAX_ACK_DELAY,
        7 => RECOVERY_METRICS__PTO_COUNT,
        8 => RECOVERY_METRICS__CONGESTION_WINDOW,
        9 => RECOVERY_METRICS__BYTES_IN_FLIGHT,
        10 => DATAGRAM_SENT__BYTES,
        11 => DATAGRAM_SENT__GSO_OFFSET,
        12 => DATAGRAM_RECEIVED__BYTES,
        13 => DATAGRAM_DROPPED__BYTES,
        14 => RX_STREAM_PROGRESS__BYTES,
        15 => TX_STREAM_PROGRESS__BYTES,
        16 => MTU_UPDATED__MTU,
        17 => MTU_PROBING_COMPLETE_RECEIVED__MTU,
        18 => SLOW_START_EXITED__CONGESTION_WINDOW,
        19 => PACING_RATE_UPDATED__BYTES_PER_SECOND,
        20 => PACING_RATE_UPDATED__BURST_SIZE,
        21 => PACING_RATE_UPDATED__PACING_GAIN,
        22 => ENDPOINT_DATAGRAM_SENT__BYTES,
        23 => ENDPOINT_DATAGRAM_SENT__BYTES__TOTAL,
        24 => ENDPOINT_DATAGRAM_SENT__GSO_OFFSET,
        25 => ENDPOINT_DATAGRAM_RECEIVED__BYTES,
        26 => ENDPOINT_DATAGRAM_RECEIVED__BYTES__TOTAL,
        27 => ENDPOINT_DATAGRAM_DROPPED__BYTES,
        28 => ENDPOINT_DATAGRAM_DROPPED__BYTES__TOTAL,
        29 => PLATFORM_TX__PACKETS,
        30 => PLATFORM_TX__SYSCALLS,
        31 => PLATFORM_TX__SYSCALLS__BLOCKED,
        32 => PLATFORM_TX__ERRORS,
        33 => PLATFORM_TX__ERRORS__DROPPED,
        34 => PLATFORM_RX__PACKETS,
        35 => PLATFORM_RX__SYSCALLS,
        36 => PLATFORM_RX__SYSCALLS__BLOCKED,
        37 => PLATFORM_RX__ERRORS,
        38 => PLATFORM_RX__ERRORS__DROPPED,
        _ => 0,
    }
}

/// The metric that measure `i` records.
pub fn measure_info(i: usize) -> (r: usize)
    requires
        i < 39,
    ensures
        r == spec_measure_info(i),
        r < INFO_COUNT,
{
    match i {
        0 => PACKET_SENT__BYTES,
        1 => PACKET_LOST__BYTES,
        2 => RECOVERY_METRICS__MIN_RTT,
        3 => RECOVERY_METRICS__SMOOTHED_RTT,
        4 => RECOVERY_METRICS__LATEST_RTT,
        5 => RECOVERY_METRICS__RTT_VARIANCE,
        6 => RECOVERY_METRICS__MAX_ACK_DELAY,
        7 => RECOVERY_METRICS__PTO_COUNT,
        8 => RECOVERY_METRICS__CONGESTION_WINDOW,
        9 => RECOVERY_METRICS__BYTES_IN_FLIGHT,
        10 => DATAGRAM_SENT__BYTES,
        11 => DATAGRAM_SENT__GSO_OFFSET,
        12 => DATAGRAM_RECEIVED__BYTES,
        13 => DATAGRAM_DROPPED__BYTES,
        14 => RX_STREAM_PROGRESS__BYTES,
        15 => TX_STREAM_PROGRESS__BYTES,
        16 => MTU_UPDATED__MTU,
        17 => MTU_PROBING_COMPLETE_RECEIVED__MTU,
        18 => SLOW_START_EXITED__CONGESTION_WINDOW,
        19 => PACING_RATE_UPDATED__BYTES_PER_SECOND,
        20 => PACING_RATE_UPDATED__BURST_SIZE,
        21 => PACING_RATE_UPDATED__PACING_GAIN,
        22 => ENDPOINT_DATAGRAM_SENT__BYTES,
        23 => ENDPOINT_DATAGRAM_SENT__BYTES__TOTAL,
        24 => ENDPOINT_DATAGRAM_SENT__GSO_OFFSET,
        25 => ENDPOINT_DATAGRAM_RECEIVED__BYTES,
        26 => ENDPOINT_DATAGRAM_RECEIVED__BYTES__TOTAL,
        27 => ENDPOINT_DATAGRAM_DROPPED__BYTES,
        28 => ENDPOINT_DATAGRAM_DROPPED__BYTES__TOTAL,
        29 => PLATFORM_TX__PACKETS,
        30 => PLATFORM_TX__SYSCALLS,
        31 => PLATFORM_TX__SYSCALLS__BLOCKED,
        32 => PLATFORM_TX__ERRORS,
        33 => PLATFORM_TX__ERRORS__DROPPED,
        34 => PLATFORM_RX__PACKETS,
        35 => PLATFORM_RX__SYSCALLS,
        36 => PLATFORM_RX__SYSCALLS__BLOCKED,
        37 => PLATFORM_RX__ERRORS,
        _ => PLATFORM_RX__ERRORS__DROPPED,
    }
}

/// The metric that timer `i` records.
pub open spec fn spec_timer_info(i: usize) -> usize {
    match i {
        0 => KEY_SPACE_DISCARDED__INITIAL__LATENCY,
        1 => KEY_SPACE_DISCARDED__HANDSHAKE__LATENCY,
        2 => KEY_SPACE_DISCARDED__ONE_RTT__LATENCY,
        3 => TRANSPORT_PARAMETERS_RECEIVED__LATENCY,
        4 => HANDSHAKE_STATUS_UPDATED__COMPLETE__LATENCY,
        5 => HANDSHAKE_STATUS_UPDATED__CONFIRMED__LATENCY,
        6 => HANDSHAKE_STATUS_UPDATED__HANDSHAKE_DONE_ACKED__LATENCY,
        7 => TLS_CLIENT_HELLO__LATENCY,
        8 => TLS_SERVER_HELLO__LATENCY,
        9 => DC_STATE_CHANGED__VERSION_NEGOTIATED__LATENCY,
        10 => DC_STATE_CHANGED__NO_VERSION_NEGOTIATED__LATENCY,
        11 => DC_STATE_CHANGED__PATH_SECRETS__LATENCY,
        12 => DC_STATE_CHANGED__COMPLETE__LATENCY,
        13 => CONNECTION_CLOSED__LATENCY,
        14 => PLATFORM_EVENT_LOOP_SLEEP__PROCESSING_DURATION,
        _ => 0,
    }
}

/// The metric that timer `i` records.
pub fn timer_info(i: usize) -> (r: usize)
    requires
        i < 15,
    ensures
        r == spec_timer_info(i),
        r < INFO_COUNT,
{
    match i {
        0 => KEY_SPACE_DISCARDED__INITIAL__LATENCY,
        1 => KEY_SPACE_DISCARDED__HANDSHAKE__LATENCY,
        2 => KEY_SPACE_DISCARDED__ONE_RTT__LATENCY,
        3 => TRANSPORT_PARAMETERS_RECEIVED__LATENCY,
        4 => HANDSHAKE_STATUS_UPDATED__COMPLETE__LATENCY,
        5 => HANDSHAKE_STATUS_UPDATED__CONFIRMED__LATENCY,
        6 => HANDSHAKE_STATUS_UPDATED__HANDSHAKE_DONE_ACKED__LATENCY,
        7 => TLS_CLIENT_HELLO__LATENCY,
        8 => TLS_SERVER_HELLO__LATENCY,
        9 => DC_STATE_CHANGED__VERSION_NEGOTIATED__LATENCY,
        10 => DC_STATE_CHANGED__NO_VERSION_NEGOTIATED__LATENCY,
        11 => DC_STATE_CHANGED__PATH_SECRETS__LATENCY,
        12 => DC_STATE_CHANGED__COMPLETE__LATENCY,
        13 => CONNECTION_CLOSED__LATENCY,
        _ => PLATFORM_EVENT_LOOP_SLEEP__PROCESSING_DURATION,
    }
}

/// The metric that nominal counter `i` records.
pub open spec fn spec_nominal_counter_info(i: usize) -> usize {
    match i {
        0 => PACKET_SENT__KIND,
        1 => PACKET_RECEIVED__KIND,
        2 => FRAME_SENT__PACKET,
        3 => FRAME_SENT__FRAME,
        4 => FRAME_RECEIVED__PACKET,
        5 => FRAME_RECEIVED__FRAME,
        6 => CONNECTION_CLOSE_FRAME_RECEIVED__PACKET,
        7 => PACKET_LOST__KIND,
        8 => CONGESTION__SOURCE,
        9 => ACK_RANGE_RECEIVED__PACKET,
        10 => ACK_RANGE_SENT__PACKET,
        11 => PACKET_DROPPED__REASON,
        12 => KEY_UPDATE__KEY_TYPE,
        13 => KEY_UPDATE__CIPHER_SUITE,
        14 => KEY_SPACE_DISCARDED__SPACE,
        15 => DUPLICATE_PACKET__KIND,
        16 => DUPLICATE_PACKET__ERROR,
        17 => DATAGRAM_DROPPED__REASON,
        18 => ECN_STATE_CHANGED__STATE,
        19 => CONNECTION_MIGRATION_DENIED__REASON,
        20 => HANDSHAKE_STATUS_UPDATED__STATUS,
        21 => PATH_CHALLENGE_UPDATED__STATUS,
        22 => MTU_UPDATED__CAUSE,
        23 => MTU_PROBING_COMPLETE_RECEIVED__PACKET,
        24 => SLOW_START_EXITED__CAUSE,
        25 => BBR_STATE_CHANGED__STATE,
        26 => DC_STATE_CHANGED__STATE,
        27 => CONNECTION_CLOSED__ERROR,
        28 => ENDPOINT_DATAGRAM_DROPPED__REASON,
        29 => ENDPOINT_CONNECTION_ATTEMPT_FAILED__ERROR,
        _ => 0,
    }
}

/// The metric that nominal counter `i` records.
pub fn nominal_counter_info(i: usize) -> (r: usize)
    requires
        i < 30,
    ensures
        r == spec_nominal_counter_info(i),
        r < INFO_COUNT,
{
    match i {
        0 => PACKET_SENT__KIND,
        1 => PACKET_RECEIVED__KIND,
        2 => FRAME_SENT__PACKET,
        3 => FRAME_SENT__FRAME,
        4 => FRAME_RECEIVED__PACKET,
        5 => FRAME_RECEIVED__FRAME,
        6 => CONNECTION_CLOSE_FRAME_RECEIVED__PACKET,
        7 => PACKET_LOST__KIND,
        8 => CONGESTION__SOURCE,
        9 => ACK_RANGE_RECEIVED__PACKET,
        10 => ACK_RANGE_SENT__PACKET,
        11 => PACKET_DROPPED__REASON,
        12 => KEY_UPDATE__KEY_TYPE,
        13 => KEY_UPDATE__CIPHER_SUITE,
        14 => KEY_SPACE_DISCARDED__SPACE,
        15 => DUPLICATE_PACKET__KIND,
        16 => DUPLICATE_PACKET__ERROR,
        17 => DATAGRAM_DROPPED__REASON,
        18 => ECN_STATE_CHANGED__STATE,
        19 => CONNECTION_MIGRATION_DENIED__REASON,
        20 => HANDSHAKE_STATUS_UPDATED__STATUS,
        21 => PATH_CHALLENGE_UPDATED__STATUS,
        22 => MTU_UPDATED__CAUSE,
        23 => MTU_PROBING_COMPLETE_RECEIVED__PACKET,
        24 => SLOW_START_EXITED__CAUSE,
        25 => BBR_STATE_CHANGED__STATE,
        26 => DC_STATE_CHANGED__STATE,
        27 => CONNECTION_CLOSED__ERROR,
        28 => ENDPOINT_DATAGRAM_DROPPED__REASON,
        _ => ENDPOINT_CONNECTION_ATTEMPT_FAILED__ERROR,
    }
}

/// The metric that nominal timer `i` records.
pub open spec fn spec_nominal_timer_info(i: usize) -> usize {
    match i {
        0 => SLOW_START_EXITED__LATENCY,
        _ => 0,
    }
}

/// The metric that nominal timer `i` records.
pub fn nominal_timer_info(i: usize) -> (r: usize)
    requires
        i < 1,
    ensures
        r == spec_nominal_timer_info(i),
        r < INFO_COUNT,
{
    match i {
        _ => SLOW_START_EXITED__LATENCY,
    }
}

} // verus!
