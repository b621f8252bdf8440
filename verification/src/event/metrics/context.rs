//! Counting, for each connection, how many events of each kind it saw.
use crate::event::{api, subscriber};
use vstd::prelude::*;

verus! {

/// The number of kinds of connection events that are counted.
pub const CONNECTION_EVENT_COUNT: usize = 48usize;

/// A kind of connection event that is counted.
#[derive(Clone, Copy, Debug, PartialEq, Eq, Structural, Hash)]
pub enum ConnectionEvent {
    ApplicationProtocolInformation,
    ServerNameInformation,
    KeyExchangeGroup,
    PacketSkipped,
    PacketSent,
    PacketReceived,
    ActivePathUpdated,
    PathCreated,
    FrameSent,
    FrameReceived,
    ConnectionCloseFrameReceived,
    PacketLost,
    RecoveryMetrics,
    Congestion,
    AckProcessed,
    RxAckRangeDropped,
    AckRangeReceived,
    AckRangeSent,
    PacketDropped,
    KeyUpdate,
    KeySpaceDiscarded,
    ConnectionStarted,
    DuplicatePacket,
    TransportParametersReceived,
    DatagramSent,
    DatagramReceived,
    DatagramDropped,
    HandshakeRemoteAddressChangeObserved,
    ConnectionIdUpdated,
    EcnStateChanged,
    ConnectionMigrationDenied,
    HandshakeStatusUpdated,
    TlsExporterReady,
    TlsHandshakeFailed,
    PathChallengeUpdated,
    TlsClientHello,
    TlsServerHello,
    RxStreamProgress,
    TxStreamProgress,
    KeepAliveTimerExpired,
    MtuUpdated,
    SlowStartExited,
    DeliveryRateSampled,
    PacingRateUpdated,
    BbrStateChanged,
    DcStateChanged,
    DcPathCreated,
    ConnectionClosed,
}

/// The position of event kind `e` in the counts.
pub open spec fn spec_event_index(e: ConnectionEvent) -> usize {
    match e {
        ConnectionEvent::ApplicationProtocolInformation => 0usize,
        ConnectionEvent::ServerNameInformation => 1usize,
        ConnectionEvent::KeyExchangeGroup => 2usize,
        ConnectionEvent::PacketSkipped => 3usize,
        ConnectionEvent::PacketSent => 4usize,
        ConnectionEvent::PacketReceived => 5usize,
        ConnectionEvent::ActivePathUpdated => 6usize,
        ConnectionEvent::PathCreated => 7usize,
        ConnectionEvent::FrameSent => 8usize,
        ConnectionEvent::FrameReceived => 9usize,
        ConnectionEvent::ConnectionCloseFrameReceived => 10usize,
        ConnectionEvent::PacketLost => 11usize,
        ConnectionEvent::RecoveryMetrics => 12usize,
        ConnectionEvent::Congestion => 13usize,
        ConnectionEvent::AckProcessed => 14usize,
        ConnectionEvent::RxAckRangeDropped => 15usize,
        ConnectionEvent::AckRangeReceived => 16usize,
        ConnectionEvent::AckRangeSent => 17usize,
        ConnectionEvent::PacketDropped => 18usize,
        ConnectionEvent::KeyUpdate => 19usize,
        ConnectionEvent::KeySpaceDiscarded => 20usize,
        ConnectionEvent::ConnectionStarted => 21usize,
        ConnectionEvent::DuplicatePacket => 22usize,
        ConnectionEvent::TransportParametersReceived => 23usize,
        ConnectionEvent::DatagramSent => 24usize,
        ConnectionEvent::DatagramReceived => 25usize,
        ConnectionEvent::DatagramDropped => 26usize,
        ConnectionEvent::HandshakeRemoteAddressChangeObserved => 27usize,
        ConnectionEvent::ConnectionIdUpdated => 28usize,
        ConnectionEvent::EcnStateChanged => 29usize,
        ConnectionEvent::ConnectionMigrationDenied => 30usize,
        ConnectionEvent::HandshakeStatusUpdated => 31usize,
        ConnectionEvent::TlsExporterReady => 32usize,
        ConnectionEvent::TlsHandshakeFailed => 33usize,
        ConnectionEvent::PathChallengeUpdated => 34usize,
        ConnectionEvent::TlsClientHello => 35usize,
        ConnectionEvent::TlsServerHello => 36usize,
        ConnectionEvent::RxStreamProgress => 37usize,
        ConnectionEvent::TxStreamProgress => 38usize,
        ConnectionEvent::KeepAliveTimerExpired => 39usize,
        ConnectionEvent::MtuUpdated => 40usize,
        ConnectionEvent::SlowStartExited => 41usize,
        ConnectionEvent::DeliveryRateSampled => 42usize,
        ConnectionEvent::PacingRateUpdated => 43usize,
        ConnectionEvent::BbrStateChanged => 44usize,
        ConnectionEvent::DcStateChanged => 45usize,
        ConnectionEvent::DcPathCreated => 46usize,
        ConnectionEvent::ConnectionClosed => 47usize,
    }
}

/// The name under which the count of the events at position `i` is
/// reported.
pub open spec fn spec_event_name(i: usize) -> &'static str {
    match i {
        0usize => "application_protocol_information",
        1usize => "server_name_information",
        2usize => "key_exchange_group",
        3usize => "packet_skipped",
        4usize => "packet_sent",
        5usize => "packet_received",
        6usize => "active_path_updated",
        7usize => "path_created",
        8usize => "frame_sent",
        9usize => "frame_received",
        10usize => "connection_close_frame_received",
        11usize => "packet_lost",
        12usize => "recovery_metrics",
        13usize => "congestion",
        14usize => "ack_processed",
        15usize => "rx_ack_range_dropped",
        16usize => "ack_range_received",
        17usize => "ack_range_sent",
        18usize => "packet_dropped",
        19usize => "key_update",
        20usize => "key_space_discarded",
        21usize => "connection_started",
        22usize => "duplicate_packet",
        23usize => "transport_parameters_received",
        24usize => "datagram_sent",
        25usize => "datagram_received",
        26usize => "datagram_dropped",
        27usize => "handshake_remote_address_change_observed",
        28usize => "connection_id_updated",
        29usize => "ecn_state_changed",
        30usize => "connection_migration_denied",
        31usize => "handshake_status_updated",
        32usize => "tls_exporter_ready",
        33usize => "tls_handshake_failed",
        34usize => "path_challenge_updated",
        35usize => "tls_client_hello",
        36usize => "tls_server_hello",
        37usize => "rx_stream_progress",
        38usize => "tx_stream_progress",
        39usize => "keep_alive_timer_expired",
        40usize => "mtu_updated",
        41usize => "slow_start_exited",
        42usize => "delivery_rate_sampled",
        43usize => "pacing_rate_updated",
        44usize => "bbr_state_changed",
        45usize => "dc_state_changed",
        46usize => "dc_path_created",
        47usize => "connection_closed",
        _ => "",
    }
}

impl ConnectionEvent {
    /// The position of this event kind in the counts.
    pub fn index(&self) -> (r: usize)
        ensures
            r == spec_event_index(*self),
            r < CONNECTION_EVENT_COUNT,
    {
        match self {
            ConnectionEvent::ApplicationProtocolInformation => 0,
            ConnectionEvent::ServerNameInformation => 1,
            ConnectionEvent::KeyExchangeGroup => 2,
            ConnectionEvent::PacketSkipped => 3,
            ConnectionEvent::PacketSent => 4,
            ConnectionEvent::PacketReceived => 5,
            ConnectionEvent::ActivePathUpdated => 6,
            ConnectionEvent::PathCreated => 7,
            ConnectionEvent::FrameSent => 8,
            ConnectionEvent::FrameReceived => 9,
            ConnectionEvent::ConnectionCloseFrameReceived => 10,
            ConnectionEvent::PacketLost => 11,
            ConnectionEvent::RecoveryMetrics => 12,
            ConnectionEvent::Congestion => 13,
            ConnectionEvent::AckProcessed => 14,
            ConnectionEvent::RxAckRangeDropped => 15,
            ConnectionEvent::AckRangeReceived => 16,
            ConnectionEvent::AckRangeSent => 17,
            ConnectionEvent::PacketDropped => 18,
            ConnectionEvent::KeyUpdate => 19,
            ConnectionEvent::KeySpaceDiscarded => 20,
            ConnectionEvent::ConnectionStarted => 21,
            ConnectionEvent::DuplicatePacket => 22,
            ConnectionEvent::TransportParametersReceived => 23,
            ConnectionEvent::DatagramSent => 24,
            ConnectionEvent::DatagramReceived => 25,
            ConnectionEvent::DatagramDropped => 26,
            ConnectionEvent::HandshakeRemoteAddressChangeObserved => 27,
            ConnectionEvent::ConnectionIdUpdated => 28,
            ConnectionEvent::EcnStateChanged => 29,
            ConnectionEvent::ConnectionMigrationDenied => 30,
            ConnectionEvent::HandshakeStatusUpdated => 31,
            ConnectionEvent::TlsExporterReady => 32,
            ConnectionEvent::TlsHandshakeFailed => 33,
            ConnectionEvent::PathChallengeUpdated => 34,
            ConnectionEvent::TlsClientHello => 35,
            ConnectionEvent::TlsServerHello => 36,
            ConnectionEvent::RxStreamProgress => 37,
            ConnectionEvent::TxStreamProgress => 38,
            ConnectionEvent::KeepAliveTimerExpired => 39,
            ConnectionEvent::MtuUpdated => 40,
            ConnectionEvent::SlowStartExited => 41,
            ConnectionEvent::DeliveryRateSampled => 42,
            ConnectionEvent::PacingRateUpdated => 43,
            ConnectionEvent::BbrStateChanged => 44,
            ConnectionEvent::DcStateChanged => 45,
            ConnectionEvent::DcPathCreated => 46,
            ConnectionEvent::ConnectionClosed => 47,
        }
    }
}

/// The name under which the count of the events at position `i` is
/// reported.
pub fn event_name(i: usize) -> (r: &'static str)
    requires
        i < CONNECTION_EVENT_COUNT,
    ensures
        r == spec_event_name(i),
{
    match i {
        0 => "application_protocol_information",
        1 => "server_name_information",
        2 => "key_exchange_group",
        3 => "packet_skipped",
        4 => "packet_sent",
        5 => "packet_received",
        6 => "active_path_updated",
        7 => "path_created",
        8 => "frame_sent",
        9 => "frame_received",
        10 => "connection_close_frame_received",
        11 => "packet_lost",
        12 => "recovery_metrics",
        13 => "congestion",
        14 => "ack_processed",
        15 => "rx_ack_range_dropped",
        16 => "ack_range_received",
        17 => "ack_range_sent",
        18 => "packet_dropped",
        19 => "key_update",
        20 => "key_space_discarded",
        21 => "connection_started",
        22 => "duplicate_packet",
        23 => "transport_parameters_received",
        24 => "datagram_sent",
        25 => "datagram_received",
        26 => "datagram_dropped",
        27 => "handshake_remote_address_change_observed",
        28 => "connection_id_updated",
        29 => "ecn_state_changed",
        30 => "connection_migration_denied",
        31 => "handshake_status_updated",
        32 => "tls_exporter_ready",
        33 => "tls_handshake_failed",
        34 => "path_challenge_updated",
        35 => "tls_client_hello",
        36 => "tls_server_hello",
        37 => "rx_stream_progress",
        38 => "tx_stream_progress",
        39 => "keep_alive_timer_expired",
        40 => "mtu_updated",
        41 => "slow_start_exited",
        42 => "delivery_rate_sampled",
        43 => "pacing_rate_updated",
        44 => "bbr_state_changed",
        45 => "dc_state_changed",
        46 => "dc_path_created",
        _ => "connection_closed",
    }
}

/// The per-connection state of the counting subscriber: the state of the
/// subscriber it wraps, and how many events of each kind the connection
/// saw.
pub struct Context<R> {
    recorder: R,
    counts: [u64; CONNECTION_EVENT_COUNT],
}

impl<R> Context<R> {
    /// The state of the wrapped subscriber.
    pub closed spec fn spec_inner(self) -> R {
        self.recorder
    }

    /// How many events of each kind were seen, by position.
    pub closed spec fn spec_counts(self) -> Seq<u64> {
        self.counts@
    }

    /// A context in which no event has been seen yet.
    pub fn new(recorder: R) -> (c: Self)
        ensures
            c.spec_inner() == recorder,
            c.spec_counts() == Seq::new(CONNECTION_EVENT_COUNT as nat, |_i: int| 0u64),
    {
        let counts = [0u64; CONNECTION_EVENT_COUNT];
        assert(counts@ =~= Seq::new(CONNECTION_EVENT_COUNT as nat, |_i: int| 0u64));
        Context { recorder, counts }
    }

    pub fn inner(&self) -> (r: &R)
        ensures
            *r == self.spec_inner(),
    {
        &self.recorder
    }

    /// The state of the wrapped subscriber, to be changed in place; the
    /// counts stay as they are.
    pub fn inner_mut(&mut self) -> (r: &mut R)
        ensures
            *r == old(self).spec_inner(),
            final(self).spec_inner() == *final(r),
            final(self).spec_counts() == old(self).spec_counts(),
    {
        &mut self.recorder
    }

    /// How many events of kind `e` were seen.
    pub fn count(&self, e: ConnectionEvent) -> (r: u64)
        ensures
            r == self.spec_counts()[spec_event_index(e) as int],
    {
        self.counts[e.index()]
    }

    /// Counts one more event of kind `e`; the count must not be at its
    /// maximum.
    pub fn on_event(&mut self, e: ConnectionEvent)
        requires
            old(self).spec_counts()[spec_event_index(e) as int] < u64::MAX,
        ensures
            final(self).spec_inner() == old(self).spec_inner(),
            final(self).spec_counts() == old(self).spec_counts().update(
                spec_event_index(e) as int,
                (old(self).spec_counts()[spec_event_index(e) as int] + 1) as u64,
            ),
    {
        let i = e.index();
        self.counts[i] = self.counts[i] + 1;
    }

    /// Counts one more event of kind `e`, unless its count is already at
    /// its maximum.
    fn count_one(&mut self, e: ConnectionEvent)
        ensures
            final(self).spec_inner() == old(self).spec_inner(),
            final(self).spec_counts() == spec_counted(old(self).spec_counts(), e),
    {
        if self.count(e) < u64::MAX {
            self.on_event(e);
        }
    }

    /// The count of each kind of event, with the name it is reported under,
    /// in order.
    pub fn counts(&self) -> (r: Vec<(&'static str, u64)>)
        ensures
            r@.len() == CONNECTION_EVENT_COUNT,
            forall|i: int|
                0 <= i < CONNECTION_EVENT_COUNT ==> (#[trigger] r@[i]).0 == spec_event_name(
                    i as usize,
                ) && r@[i].1 == self.spec_counts()[i],
    {
        let mut r: Vec<(&'static str, u64)> = Vec::new();
        let mut i: usize = 0;
        while i < CONNECTION_EVENT_COUNT
            invariant
                i <= CONNECTION_EVENT_COUNT,
                self.counts@.len() == CONNECTION_EVENT_COUNT,
                r@.len() == i,
                forall|j: int|
                    0 <= j < i ==> (#[trigger] r@[j]).0 == spec_event_name(j as usize) && r@[j].1
                        == self.counts@[j],
            decreases CONNECTION_EVENT_COUNT - i,
        {
            r.push((event_name(i), self.counts[i]));
            i = i + 1;
        }
        r
    }
}

/// How many of `events` are of the kind at position `i`.
pub open spec fn spec_count_of(events: Seq<ConnectionEvent>, i: usize) -> nat
    decreases events.len(),
{
    if events.len() == 0 {
        0
    } else {
        spec_count_of(events.drop_last(), i) + if spec_event_index(events.last()) == i {
            1nat
        } else {
            0nat
        }
    }
}

/// The counts of a context that started empty and saw `events`, by
/// position.
pub open spec fn spec_counts_of(events: Seq<ConnectionEvent>) -> Seq<u64> {
    Seq::new(CONNECTION_EVENT_COUNT as nat, |i: int| spec_count_of(events, i as usize) as u64)
}

/// A context counts each kind of event it saw: `Context::new` starts from
/// the counts of no events, and `on_event` with event `e` turns the counts
/// of `events` into those of `events` followed by `e`. So after any run of
/// events, `counts` reports for each kind how many events of that kind the
/// run held, as long as no count reached its maximum.
pub proof fn lemma_counts_of_run(events: Seq<ConnectionEvent>, e: ConnectionEvent)
    ensures
        spec_counts_of(Seq::empty()) == Seq::new(CONNECTION_EVENT_COUNT as nat, |_i: int| 0u64),
        spec_count_of(events, spec_event_index(e)) < u64::MAX ==> spec_counts_of(events.push(e))
            == spec_counts_of(events).update(
            spec_event_index(e) as int,
            (spec_counts_of(events)[spec_event_index(e) as int] + 1) as u64,
        ),
{
    assert(spec_counts_of(Seq::empty()) =~= Seq::new(CONNECTION_EVENT_COUNT as nat, |_i: int| 0u64));
    let pushed = events.push(e);
    assert(pushed.drop_last() =~= events);
    if spec_count_of(events, spec_event_index(e)) < u64::MAX {
        assert forall|i: int| 0 <= i < CONNECTION_EVENT_COUNT implies #[trigger] spec_counts_of(
            pushed,
        )[i] == spec_counts_of(events).update(
            spec_event_index(e) as int,
            (spec_counts_of(events)[spec_event_index(e) as int] + 1) as u64,
        )[i] by {
            assert(spec_count_of(pushed, i as usize) == spec_count_of(events, i as usize) + if spec_event_index(e) == i as usize { 1nat } else { 0nat });
        }
        assert(spec_counts_of(pushed) =~= spec_counts_of(events).update(
            spec_event_index(e) as int,
            (spec_counts_of(events)[spec_event_index(e) as int] + 1) as u64,
        ));
    }
}

/// `counts` after one more event of kind `e`; a count at its maximum stays
/// there.
pub open spec fn spec_counted(counts: Seq<u64>, e: ConnectionEvent) -> Seq<u64> {
    let i = spec_event_index(e) as int;
    if counts[i] < u64::MAX {
        counts.update(i, (counts[i] + 1) as u64)
    } else {
        counts
    }
}

/// Counting one more event of kind `e` adds one to that kind's count, unless
/// it is at its maximum, and leaves every other count as it was.
pub proof fn lemma_counted(counts: Seq<u64>, e: ConnectionEvent)
    requires
        counts.len() == CONNECTION_EVENT_COUNT,
    ensures
        spec_counted(counts, e).len() == counts.len(),
        forall|j: int|
            0 <= j < counts.len() && j != spec_event_index(e) ==> #[trigger] spec_counted(counts, e)[j]
                == counts[j],
        counts[spec_event_index(e) as int] < u64::MAX ==> spec_counted(counts, e)[spec_event_index(e) as int]
            == counts[spec_event_index(e) as int] + 1,
        counts[spec_event_index(e) as int] == u64::MAX ==> spec_counted(counts, e)[spec_event_index(e) as int]
            == u64::MAX,
{
}

/// A subscriber that counts the events of each connection, by kind, and
/// hands each event on to the subscriber it wraps, together with that
/// subscriber's own context for the connection.
pub struct Subscriber<S: subscriber::Subscriber> {
    subscriber: S,
}

impl<S: subscriber::Subscriber> Subscriber<S> {
    /// The wrapped subscriber.
    pub closed spec fn spec_subscriber(&self) -> S {
        self.subscriber
    }

    /// Wraps `subscriber`.
    pub fn new(subscriber: S) -> (s: Self)
        ensures
            s.spec_subscriber() == subscriber,
    {
        Subscriber { subscriber }
    }
}

impl<S: subscriber::Subscriber> subscriber::Subscriber for Subscriber<S> {
    type ConnectionContext = Context<S::ConnectionContext>;

    /// A context with every count at zero, around the wrapped subscriber's
    /// own context for the connection.
    fn create_connection_context(
        &mut self,
        meta: &api::ConnectionMeta,
        info: &api::ConnectionInfo,
    ) -> (c: Self::ConnectionContext)
        ensures
            c.spec_counts() == Seq::new(CONNECTION_EVENT_COUNT as nat, |_i: int| 0u64),
            exists|s: &mut S|
                mut_ref_current(s) == old(self).spec_subscriber()
                && mut_ref_future(s) == final(self).spec_subscriber()
                && #[trigger] call_ensures(S::create_connection_context, (s, meta, info), c.spec_inner()),
    {
        Context::new(self.subscriber.create_connection_context(meta, info))
    }

    fn on_packet_sent(
        &mut self,
        context: &mut Self::ConnectionContext,
        meta: &api::ConnectionMeta,
        event: &api::PacketSent,
    )
        ensures
            final(context).spec_counts() == spec_counted(
                old(context).spec_counts(),
                ConnectionEvent::PacketSent,
            ),
            exists|s: &mut S, c: &mut S::ConnectionContext|
                mut_ref_current(s) == old(self).spec_subscriber()
                && mut_ref_future(s) == final(self).spec_subscriber()
                && mut_ref_current(c) == old(context).spec_inner()
                && mut_ref_future(c) == final(context).spec_inner()
                && #[trigger] call_ensures(S::on_packet_sent, (s, c, meta, event), ()),
    {
        context.count_one(ConnectionEvent::PacketSent);
        self.subscriber.on_packet_sent(&mut context.recorder, meta, event);
    }

    fn on_packet_received(
        &mut self,
        context: &mut Self::ConnectionContext,
        meta: &api::ConnectionMeta,
        event: &api::PacketReceived,
    )
        ensures
            final(context).spec_counts() == spec_counted(
                old(context).spec_counts(),
                ConnectionEvent::PacketReceived,
            ),
            exists|s: &mut S, c: &mut S::ConnectionContext|
                mut_ref_current(s) == old(self).spec_subscriber()
                && mut_ref_future(s) == final(self).spec_subscriber()
                && mut_ref_current(c) == old(context).spec_inner()
                && mut_ref_future(c) == final(context).spec_inner()
                && #[trigger] call_ensures(S::on_packet_received, (s, c, meta, event), ()),
    {
        context.count_one(ConnectionEvent::PacketReceived);
        self.subscriber.on_packet_received(&mut context.recorder, meta, event);
    }

    fn on_active_path_updated(
        &mut self,
        context: &mut Self::ConnectionContext,
        meta: &api::ConnectionMeta,
        event: &api::ActivePathUpdated,
    )
        ensures
            final(context).spec_counts() == spec_counted(
                old(context).spec_counts(),
                ConnectionEvent::ActivePathUpdated,
            ),
            exists|s: &mut S, c: &mut S::ConnectionContext|
                mut_ref_current(s) == old(self).spec_subscriber()
                && mut_ref_future(s) == final(self).spec_subscriber()
                && mut_ref_current(c) == old(context).spec_inner()
                && mut_ref_future(c) == final(context).spec_inner()
                && #[trigger] call_ensures(S::on_active_path_updated, (s, c, meta, event), ()),
    {
        context.count_one(ConnectionEvent::ActivePathUpdated);
        self.subscriber.on_active_path_updated(&mut context.recorder, meta, event);
    }

    fn on_path_created(
        &mut self,
        context: &mut Self::ConnectionContext,
        meta: &api::ConnectionMeta,
        event: &api::PathCreated,
    )
        ensures
            final(context).spec_counts() == spec_counted(
                old(context).spec_counts(),
                ConnectionEvent::PathCreated,
            ),
            exists|s: &mut S, c: &mut S::ConnectionContext|
                mut_ref_current(s) == old(self).spec_subscriber()
                && mut_ref_future(s) == final(self).spec_subscriber()
                && mut_ref_current(c) == old(context).spec_inner()
                && mut_ref_future(c) == final(context).spec_inner()
                && #[trigger] call_ensures(S::on_path_created, (s, c, meta, event), ()),
    {
        context.count_one(ConnectionEvent::PathCreated);
        self.subscriber.on_path_created(&mut context.recorder, meta, event);
    }

    fn on_frame_sent(
        &mut self,
        context: &mut Self::ConnectionContext,
        meta: &api::ConnectionMeta,
        event: &api::FrameSent,
    )
        ensures
            final(context).spec_counts() == spec_counted(
                old(context).spec_counts(),
                ConnectionEvent::FrameSent,
            ),
            exists|s: &mut S, c: &mut S::ConnectionContext|
                mut_ref_current(s) == old(self).spec_subscriber()
                && mut_ref_future(s) == final(self).spec_subscriber()
                && mut_ref_current(c) == old(context).spec_inner()
                && mut_ref_future(c) == final(context).spec_inner()
                && #[trigger] call_ensures(S::on_frame_sent, (s, c, meta, event), ()),
    {
        context.count_one(ConnectionEvent::FrameSent);
        self.subscriber.on_frame_sent(&mut context.recorder, meta, event);
    }

    fn on_frame_received(
        &mut self,
        context: &mut Self::ConnectionContext,
        meta: &api::ConnectionMeta,
        event: &api::FrameReceived,
    )
        ensures
            final(context).spec_counts() == spec_counted(
                old(context).spec_counts(),
                ConnectionEvent::FrameReceived,
            ),
            exists|s: &mut S, c: &mut S::ConnectionContext|
                mut_ref_current(s) == old(self).spec_subscriber()
                && mut_ref_future(s) == final(self).spec_subscriber()
                && mut_ref_current(c) == old(context).spec_inner()
                && mut_ref_future(c) == final(context).spec_inner()
                && #[trigger] call_ensures(S::on_frame_received, (s, c, meta, event), ()),
    {
        context.count_one(ConnectionEvent::FrameReceived);
        self.subscriber.on_frame_received(&mut context.recorder, meta, event);
    }

    fn on_packet_lost(
        &mut self,
        context: &mut Self::ConnectionContext,
        meta: &api::ConnectionMeta,
        event: &api::PacketLost,
    )
        ensures
            final(context).spec_counts() == spec_counted(
                old(context).spec_counts(),
                ConnectionEvent::PacketLost,
            ),
            exists|s: &mut S, c: &mut S::ConnectionContext|
                mut_ref_current(s) == old(self).spec_subscriber()
                && mut_ref_future(s) == final(self).spec_subscriber()
                && mut_ref_current(c) == old(context).spec_inner()
                && mut_ref_future(c) == final(context).spec_inner()
                && #[trigger] call_ensures(S::on_packet_lost, (s, c, meta, event), ()),
    {
        context.count_one(ConnectionEvent::PacketLost);
        self.subscriber.on_packet_lost(&mut context.recorder, meta, event);
    }

    fn on_recovery_metrics(
        &mut self,
        context: &mut Self::ConnectionContext,
        meta: &api::ConnectionMeta,
        event: &api::RecoveryMetrics,
    )
        ensures
            final(context).spec_counts() == spec_counted(
                old(context).spec_counts(),
                ConnectionEvent::RecoveryMetrics,
            ),
            exists|s: &mut S, c: &mut S::ConnectionContext|
                mut_ref_current(s) == old(self).spec_subscriber()
                && mut_ref_future(s) == final(self).spec_subscriber()
                && mut_ref_current(c) == old(context).spec_inner()
                && mut_ref_future(c) == final(context).spec_inner()
                && #[trigger] call_ensures(S::on_recovery_metrics, (s, c, meta, event), ()),
    {
        context.count_one(ConnectionEvent::RecoveryMetrics);
        self.subscriber.on_recovery_metrics(&mut context.recorder, meta, event);
    }

    fn on_congestion(
        &mut self,
        context: &mut Self::ConnectionContext,
        meta: &api::ConnectionMeta,
        event: &api::Congestion,
    )
        ensures
            final(context).spec_counts() == spec_counted(
                old(context).spec_counts(),
                ConnectionEvent::Congestion,
            ),
            exists|s: &mut S, c: &mut S::ConnectionContext|
                mut_ref_current(s) == old(self).spec_subscriber()
                && mut_ref_future(s) == final(self).spec_subscriber()
                && mut_ref_current(c) == old(context).spec_inner()
                && mut_ref_future(c) == final(context).spec_inner()
                && #[trigger] call_ensures(S::on_congestion, (s, c, meta, event), ()),
    {
        context.count_one(ConnectionEvent::Congestion);
        self.subscriber.on_congestion(&mut context.recorder, meta, event);
    }

    fn on_packet_dropped(
        &mut self,
        context: &mut Self::ConnectionContext,
        meta: &api::ConnectionMeta,
        event: &api::PacketDropped,
    )
        ensures
            final(context).spec_counts() == spec_counted(
                old(context).spec_counts(),
                ConnectionEvent::PacketDropped,
            ),
            exists|s: &mut S, c: &mut S::ConnectionContext|
                mut_ref_current(s) == old(self).spec_subscriber()
                && mut_ref_future(s) == final(self).spec_subscriber()
                && mut_ref_current(c) == old(context).spec_inner()
                && mut_ref_future(c) == final(context).spec_inner()
                && #[trigger] call_ensures(S::on_packet_dropped, (s, c, meta, event), ()),
    {
        context.count_one(ConnectionEvent::PacketDropped);
        self.subscriber.on_packet_dropped(&mut context.recorder, meta, event);
    }

    fn on_key_update(
        &mut self,
        context: &mut Self::ConnectionContext,
        meta: &api::ConnectionMeta,
        event: &api::KeyUpdate,
    )
        ensures
            final(context).spec_counts() == spec_counted(
                old(context).spec_counts(),
                ConnectionEvent::KeyUpdate,
            ),
            exists|s: &mut S, c: &mut S::ConnectionContext|
                mut_ref_current(s) == old(self).spec_subscriber()
                && mut_ref_future(s) == final(self).spec_subscriber()
                && mut_ref_current(c) == old(context).spec_inner()
                && mut_ref_future(c) == final(context).spec_inner()
                && #[trigger] call_ensures(S::on_key_update, (s, c, meta, event), ()),
    {
        context.count_one(ConnectionEvent::KeyUpdate);
        self.subscriber.on_key_update(&mut context.recorder, meta, event);
    }

    fn on_key_space_discarded(
        &mut self,
        context: &mut Self::ConnectionContext,
        meta: &api::ConnectionMeta,
        event: &api::KeySpaceDiscarded,
    )
        ensures
            final(context).spec_counts() == spec_counted(
                old(context).spec_counts(),
                ConnectionEvent::KeySpaceDiscarded,
            ),
            exists|s: &mut S, c: &mut S::ConnectionContext|
                mut_ref_current(s) == old(self).spec_subscriber()
                && mut_ref_future(s) == final(self).spec_subscriber()
                && mut_ref_current(c) == old(context).spec_inner()
                && mut_ref_future(c) == final(context).spec_inner()
                && #[trigger] call_ensures(S::on_key_space_discarded, (s, c, meta, event), ()),
    {
        context.count_one(ConnectionEvent::KeySpaceDiscarded);
        self.subscriber.on_key_space_discarded(&mut context.recorder, meta, event);
    }

    fn on_connection_started(
        &mut self,
        context: &mut Self::ConnectionContext,
        meta: &api::ConnectionMeta,
        event: &api::ConnectionStarted,
    )
        ensures
            final(context).spec_counts() == spec_counted(
                old(context).spec_counts(),
                ConnectionEvent::ConnectionStarted,
            ),
            exists|s: &mut S, c: &mut S::ConnectionContext|
                mut_ref_current(s) == old(self).spec_subscriber()
                && mut_ref_future(s) == final(self).spec_subscriber()
                && mut_ref_current(c) == old(context).spec_inner()
                && mut_ref_future(c) == final(context).spec_inner()
                && #[trigger] call_ensures(S::on_connection_started, (s, c, meta, event), ()),
    {
        context.count_one(ConnectionEvent::ConnectionStarted);
        self.subscriber.on_connection_started(&mut context.recorder, meta, event);
    }

    fn on_connection_closed(
        &mut self,
        context: &mut Self::ConnectionContext,
        meta: &api::ConnectionMeta,
        event: &api::ConnectionClosed,
    )
        ensures
            final(context).spec_counts() == spec_counted(
                old(context).spec_counts(),
                ConnectionEvent::ConnectionClosed,
            ),
            exists|s: &mut S, c: &mut S::ConnectionContext|
                mut_ref_current(s) == old(self).spec_subscriber()
                && mut_ref_future(s) == final(self).spec_subscriber()
                && mut_ref_current(c) == old(context).spec_inner()
                && mut_ref_future(c) == final(context).spec_inner()
                && #[trigger] call_ensures(S::on_connection_closed, (s, c, meta, event), ()),
    {
        context.count_one(ConnectionEvent::ConnectionClosed);
        self.subscriber.on_connection_closed(&mut context.recorder, meta, event);
    }

    fn on_duplicate_packet(
        &mut self,
        context: &mut Self::ConnectionContext,
        meta: &api::ConnectionMeta,
        event: &api::DuplicatePacket,
    )
        ensures
            final(context).spec_counts() == spec_counted(
                old(context).spec_counts(),
                ConnectionEvent::DuplicatePacket,
            ),
            exists|s: &mut S, c: &mut S::ConnectionContext|
                mut_ref_current(s) == old(self).spec_subscriber()
                && mut_ref_future(s) == final(self).spec_subscriber()
                && mut_ref_current(c) == old(context).spec_inner()
                && mut_ref_future(c) == final(context).spec_inner()
                && #[trigger] call_ensures(S::on_duplicate_packet, (s, c, meta, event), ()),
    {
        context.count_one(ConnectionEvent::DuplicatePacket);
        self.subscriber.on_duplicate_packet(&mut context.recorder, meta, event);
    }

    fn on_transport_parameters_received(
        &mut self,
        context: &mut Self::ConnectionContext,
        meta: &api::ConnectionMeta,
        event: &api::TransportParametersReceived,
    )
        ensures
            final(context).spec_counts() == spec_counted(
                old(context).spec_counts(),
                ConnectionEvent::TransportParametersReceived,
            ),
            exists|s: &mut S, c: &mut S::ConnectionContext|
                mut_ref_current(s) == old(self).spec_subscriber()
                && mut_ref_future(s) == final(self).spec_subscriber()
                && mut_ref_current(c) == old(context).spec_inner()
                && mut_ref_future(c) == final(context).spec_inner()
                && #[trigger] call_ensures(S::on_transport_parameters_received, (s, c, meta, event), ()),
    {
        context.count_one(ConnectionEvent::TransportParametersReceived);
        self.subscriber.on_transport_parameters_received(&mut context.recorder, meta, event);
    }

    fn on_datagram_sent(
        &mut self,
        context: &mut Self::ConnectionContext,
        meta: &api::ConnectionMeta,
        event: &api::DatagramSent,
    )
        ensures
            final(context).spec_counts() == spec_counted(
                old(context).spec_counts(),
                ConnectionEvent::DatagramSent,
            ),
            exists|s: &mut S, c: &mut S::ConnectionContext|
                mut_ref_current(s) == old(self).spec_subscriber()
                && mut_ref_future(s) == final(self).spec_subscriber()
                && mut_ref_current(c) == old(context).spec_inner()
                && mut_ref_future(c) == final(context).spec_inner()
                && #[trigger] call_ensures(S::on_datagram_sent, (s, c, meta, event), ()),
    {
        context.count_one(ConnectionEvent::DatagramSent);
        self.subscriber.on_datagram_sent(&mut context.recorder, meta, event);
    }

    fn on_datagram_received(
        &mut self,
        context: &mut Self::ConnectionContext,
        meta: &api::ConnectionMeta,
        event: &api::DatagramReceived,
    )
        ensures
            final(context).spec_counts() == spec_counted(
                old(context).spec_counts(),
                ConnectionEvent::DatagramReceived,
            ),
            exists|s: &mut S, c: &mut S::ConnectionContext|
                mut_ref_current(s) == old(self).spec_subscriber()
                && mut_ref_future(s) == final(self).spec_subscriber()
                && mut_ref_current(c) == old(context).spec_inner()
                && mut_ref_future(c) == final(context).spec_inner()
                && #[trigger] call_ensures(S::on_datagram_received, (s, c, meta, event), ()),
    {
        context.count_one(ConnectionEvent::DatagramReceived);
        self.subscriber.on_datagram_received(&mut context.recorder, meta, event);
    }

    fn on_datagram_dropped(
        &mut self,
        context: &mut Self::ConnectionContext,
        meta: &api::ConnectionMeta,
        event: &api::DatagramDropped,
    )
        ensures
            final(context).spec_counts() == spec_counted(
                old(context).spec_counts(),
                ConnectionEvent::DatagramDropped,
            ),
            exists|s: &mut S, c: &mut S::ConnectionContext|
                mut_ref_current(s) == old(self).spec_subscriber()
                && mut_ref_future(s) == final(self).spec_subscriber()
                && mut_ref_current(c) == old(context).spec_inner()
                && mut_ref_future(c) == final(context).spec_inner()
                && #[trigger] call_ensures(S::on_datagram_dropped, (s, c, meta, event), ()),
    {
        context.count_one(ConnectionEvent::DatagramDropped);
        self.subscriber.on_datagram_dropped(&mut context.recorder, meta, event);
    }

    fn on_connection_id_updated(
        &mut self,
        context: &mut Self::ConnectionContext,
        meta: &api::ConnectionMeta,
        event: &api::ConnectionIdUpdated,
    )
        ensures
            final(context).spec_counts() == spec_counted(
                old(context).spec_counts(),
                ConnectionEvent::ConnectionIdUpdated,
            ),
            exists|s: &mut S, c: &mut S::ConnectionContext|
                mut_ref_current(s) == old(self).spec_subscriber()
                && mut_ref_future(s) == final(self).spec_subscriber()
                && mut_ref_current(c) == old(context).spec_inner()
                && mut_ref_future(c) == final(context).spec_inner()
                && #[trigger] call_ensures(S::on_connection_id_updated, (s, c, meta, event), ()),
    {
        context.count_one(ConnectionEvent::ConnectionIdUpdated);
        self.subscriber.on_connection_id_updated(&mut context.recorder, meta, event);
    }

    fn on_ecn_state_changed(
        &mut self,
        context: &mut Self::ConnectionContext,
        meta: &api::ConnectionMeta,
        event: &api::EcnStateChanged,
    )
        ensures
            final(context).spec_counts() == spec_counted(
                old(context).spec_counts(),
                ConnectionEvent::EcnStateChanged,
            ),
            exists|s: &mut S, c: &mut S::ConnectionContext|
                mut_ref_current(s) == old(self).spec_subscriber()
                && mut_ref_future(s) == final(self).spec_subscriber()
                && mut_ref_current(c) == old(context).spec_inner()
                && mut_ref_future(c) == final(context).spec_inner()
                && #[trigger] call_ensures(S::on_ecn_state_changed, (s, c, meta, event), ()),
    {
        context.count_one(ConnectionEvent::EcnStateChanged);
        self.subscriber.on_ecn_state_changed(&mut context.recorder, meta, event);
    }

    fn on_connection_migration_denied(
        &mut self,
        context: &mut Self::ConnectionContext,
        meta: &api::ConnectionMeta,
        event: &api::ConnectionMigrationDenied,
    )
        ensures
            final(context).spec_counts() == spec_counted(
                old(context).spec_counts(),
                ConnectionEvent::ConnectionMigrationDenied,
            ),
            exists|s: &mut S, c: &mut S::ConnectionContext|
                mut_ref_current(s) == old(self).spec_subscriber()
                && mut_ref_future(s) == final(self).spec_subscriber()
                && mut_ref_current(c) == old(context).spec_inner()
                && mut_ref_future(c) == final(context).spec_inner()
                && #[trigger] call_ensures(S::on_connection_migration_denied, (s, c, meta, event), ()),
    {
        context.count_one(ConnectionEvent::ConnectionMigrationDenied);
        self.subscriber.on_connection_migration_denied(&mut context.recorder, meta, event);
    }

    fn on_handshake_status_updated(
        &mut self,
        context: &mut Self::ConnectionContext,
        meta: &api::ConnectionMeta,
        event: &api::HandshakeStatusUpdated,
    )
        ensures
            final(context).spec_counts() == spec_counted(
                old(context).spec_counts(),
                ConnectionEvent::HandshakeStatusUpdated,
            ),
            exists|s: &mut S, c: &mut S::ConnectionContext|
                mut_ref_current(s) == old(self).spec_subscriber()
                && mut_ref_future(s) == final(self).spec_subscriber()
                && mut_ref_current(c) == old(context).spec_inner()
                && mut_ref_future(c) == final(context).spec_inner()
                && #[trigger] call_ensures(S::on_handshake_status_updated, (s, c, meta, event), ()),
    {
        context.count_one(ConnectionEvent::HandshakeStatusUpdated);
        self.subscriber.on_handshake_status_updated(&mut context.recorder, meta, event);
    }

    fn on_tls_client_hello(
        &mut self,
        context: &mut Self::ConnectionContext,
        meta: &api::ConnectionMeta,
        event: &api::TlsClientHello,
    )
        ensures
            final(context).spec_counts() == spec_counted(
                old(context).spec_counts(),
                ConnectionEvent::TlsClientHello,
            ),
            exists|s: &mut S, c: &mut S::ConnectionContext|
                mut_ref_current(s) == old(self).spec_subscriber()
                && mut_ref_future(s) == final(self).spec_subscriber()
                && mut_ref_current(c) == old(context).spec_inner()
                && mut_ref_future(c) == final(context).spec_inner()
                && #[trigger] call_ensures(S::on_tls_client_hello, (s, c, meta, event), ()),
    {
        context.count_one(ConnectionEvent::TlsClientHello);
        self.subscriber.on_tls_client_hello(&mut context.recorder, meta, event);
    }

    fn on_tls_server_hello(
        &mut self,
        context: &mut Self::ConnectionContext,
        meta: &api::ConnectionMeta,
        event: &api::TlsServerHello,
    )
        ensures
            final(context).spec_counts() == spec_counted(
                old(context).spec_counts(),
                ConnectionEvent::TlsServerHello,
            ),
            exists|s: &mut S, c: &mut S::ConnectionContext|
                mut_ref_current(s) == old(self).spec_subscriber()
                && mut_ref_future(s) == final(self).spec_subscriber()
                && mut_ref_current(c) == old(context).spec_inner()
                && mut_ref_future(c) == final(context).spec_inner()
                && #[trigger] call_ensures(S::on_tls_server_hello, (s, c, meta, event), ()),
    {
        context.count_one(ConnectionEvent::TlsServerHello);
        self.subscriber.on_tls_server_hello(&mut context.recorder, meta, event);
    }
}

} // verus!
