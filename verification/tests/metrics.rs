use s2n_quic_core::event::metrics::aggregate::info::{self, Info, Str, Variant};
use s2n_quic_core::event::metrics::aggregate::subscriber::{
    NominalRecorder, Record, Recorder, Registry, Subscriber,
};
use s2n_quic_core::event::metrics::aggregate::table::{
    self, COUNTERS_PLATFORM_TX, COUNTER_COUNT, MEASURE_COUNT, NOMINAL_COUNTER_COUNT, TIMER_COUNT,
};
use s2n_quic_core::event::metrics::aggregate::{BoolRecorder, Units};
use s2n_quic_core::endpoint;
use s2n_quic_core::event::metrics::aggregate::events::{platform_tx_records, recovery_metrics_records};
use s2n_quic_core::event::metrics::aggregate::ConnectionContext;
use s2n_quic_core::event::{api, builder, IntoEvent};
use s2n_quic_core::time::Timestamp;
use s2n_quic_core::event::metrics::context::{ConnectionEvent, Context, CONNECTION_EVENT_COUNT};
use std::cell::RefCell;
use std::rc::Rc;
use std::time::Duration;

type Log = Rc<RefCell<Vec<(String, String, u64)>>>;

/// A recorder that writes what it is given, with the metric it was
/// registered for, to a shared log.
struct Logged {
    kind: &'static str,
    registered_for: String,
    variant: Option<String>,
    log: Log,
}

impl Logged {
    fn push(&self, info: &Info, value: u64) {
        assert_eq!(info.name.as_str(), self.registered_for);
        let what = match &self.variant {
            Some(v) => format!("{}:{}[{}]", self.kind, info.name.as_str(), v),
            None => format!("{}:{}", self.kind, info.name.as_str()),
        };
        self.log.borrow_mut().push((what, String::new(), value));
    }
}

impl Recorder for Logged {
    fn record_u64(&self, info: &Info, value: u64) {
        self.push(info, value);
    }

    fn record_duration(&self, info: &Info, value: Duration) {
        self.push(info, value.as_micros() as u64);
    }
}

impl BoolRecorder for Logged {
    fn record(&self, info: &Info, value: bool) {
        self.push(info, value as u64);
    }
}

impl NominalRecorder for Logged {
    fn record_u64(&self, info: &Info, variant: &Variant, value: u64) {
        assert_eq!(Some(variant.name.as_str().to_string()), self.variant);
        self.push(info, value);
    }

    fn record_duration(&self, info: &Info, variant: &Variant, value: Duration) {
        assert_eq!(Some(variant.name.as_str().to_string()), self.variant);
        self.push(info, value.as_micros() as u64);
    }
}

struct LogRegistry {
    log: Log,
}

impl LogRegistry {
    fn recorder(&self, kind: &'static str, info: &Info, variant: Option<&Variant>) -> Logged {
        Logged {
            kind,
            registered_for: info.name.as_str().to_string(),
            variant: variant.map(|v| v.name.as_str().to_string()),
            log: self.log.clone(),
        }
    }
}

impl Registry for LogRegistry {
    type Counter = Logged;
    type BoolCounter = Logged;
    type Measure = Logged;
    type Timer = Logged;
    type NominalCounter = Logged;
    type NominalTimer = Logged;

    fn spec_registered_counter(&self, info: Info, c: Logged) -> bool {
        c.registered_for == info.name.as_str()
    }

    fn spec_registered_bool_counter(&self, info: Info, c: Logged) -> bool {
        c.registered_for == info.name.as_str()
    }

    fn spec_registered_measure(&self, info: Info, m: Logged) -> bool {
        m.registered_for == info.name.as_str()
    }

    fn spec_registered_timer(&self, info: Info, t: Logged) -> bool {
        t.registered_for == info.name.as_str()
    }

    fn spec_registered_nominal_counter(&self, info: Info, variant: Variant, c: Logged) -> bool {
        c.registered_for == info.name.as_str() && c.variant.as_deref() == Some(variant.name.as_str())
    }

    fn spec_registered_nominal_timer(&self, info: Info, variant: Variant, t: Logged) -> bool {
        t.registered_for == info.name.as_str() && t.variant.as_deref() == Some(variant.name.as_str())
    }

    fn register_counter(&self, info: &Info) -> Logged {
        self.recorder("count", info, None)
    }

    fn register_bool_counter(&self, info: &Info) -> Logged {
        self.recorder("bool", info, None)
    }

    fn register_measure(&self, info: &Info) -> Logged {
        self.recorder("measure", info, None)
    }

    fn register_timer(&self, info: &Info) -> Logged {
        self.recorder("time", info, None)
    }

    fn register_nominal_counter(&self, info: &Info, variant: &Variant) -> Logged {
        self.recorder("nominal", info, Some(variant))
    }

    fn register_nominal_timer(&self, info: &Info, variant: &Variant) -> Logged {
        self.recorder("nominal_time", info, Some(variant))
    }
}

fn variants(k: usize) -> Vec<Variant> {
    // nominal counter k gets k % 3 + 4 variants
    let names = ["A\0", "B\0", "C\0", "D\0", "E\0", "F\0"];
    (0..k % 3 + 4)
        .map(|i| info::variant::Builder { id: i, name: Str::new(names[i]) }.build())
        .collect()
}

fn subscriber() -> (Subscriber<LogRegistry>, Log) {
    let log: Log = Rc::new(RefCell::new(Vec::new()));
    let nominal = (0..NOMINAL_COUNTER_COUNT).map(variants).collect();
    let timer_variants = vec![variants(2)];
    (Subscriber::new(LogRegistry { log: log.clone() }, nominal, timer_variants), log)
}

fn entries(log: &Log) -> Vec<(String, u64)> {
    log.borrow().iter().map(|(w, _, v)| (w.clone(), *v)).collect()
}

#[test]
fn metric_descriptions() {
    let first = table::info(0);
    assert_eq!(first.id, 0);
    assert_eq!(first.name.as_str(), "application_protocol_information");
    assert_eq!(first.units, Units::Unitless);
    let tx = table::info(table::PLATFORM_TX__PACKETS);
    assert_eq!(tx.name.as_str(), "platform_tx.packets");
    for id in 0..table::INFO_COUNT {
        assert_eq!(table::info(id).id, id);
    }
}

#[test]
fn subscriber_registers_each_metric_in_order() {
    let (subscriber, _) = subscriber();
    let counters = subscriber.counters();
    assert_eq!(counters.len(), COUNTER_COUNT);
    assert_eq!(counters[0].0.name.as_str(), "application_protocol_information");
    for (info, counter) in &counters {
        assert_eq!(info.name.as_str(), counter.registered_for);
        assert_eq!(counter.kind, "count");
    }
    assert_eq!(counters[COUNTERS_PLATFORM_TX].0.name.as_str(), "platform_tx");
    assert_eq!(subscriber.measures().len(), MEASURE_COUNT);
    assert_eq!(subscriber.timers().len(), TIMER_COUNT);
    for (info, timer) in &subscriber.timers() {
        assert_eq!(info.name.as_str(), timer.registered_for);
        assert_eq!(info.units, Units::Duration);
    }
    assert_eq!(subscriber.bool_counters().len(), 3);
}

#[test]
fn nominal_counters_are_grouped_by_metric() {
    let (subscriber, log) = subscriber();
    let nominal = subscriber.nominal_counters();
    assert_eq!(nominal.len(), NOMINAL_COUNTER_COUNT);
    for (k, (info, recorders, variants)) in nominal.iter().enumerate() {
        assert_eq!(recorders.len(), k % 3 + 4);
        assert_eq!(variants.len(), k % 3 + 4);
        for (recorder, variant) in recorders.iter().zip(variants.iter()) {
            assert_eq!(recorder.registered_for, info.name.as_str());
            assert_eq!(recorder.variant.as_deref(), Some(variant.name.as_str()));
        }
    }
    assert_eq!(nominal[0].0.name.as_str(), "packet_sent.kind");

    // the second variant of the third nominal counter
    subscriber.count_nominal(2, 1);
    let name = nominal[2].0.name.as_str().to_string();
    assert_eq!(entries(&log), vec![(format!("nominal:{}[B]", name), 1)]);
}

#[test]
fn platform_tx_records_each_figure() {
    let (subscriber, log) = subscriber();
    subscriber.on_platform_tx(5, 2, 1, 3, 0);
    let e = entries(&log);
    assert_eq!(
        e,
        vec![
            ("count:platform_tx".to_string(), 1),
            ("count:platform_tx.packets.total".to_string(), 5),
            ("measure:platform_tx.packets".to_string(), 5),
            ("count:platform_tx.syscalls.total".to_string(), 2),
            ("measure:platform_tx.syscalls".to_string(), 2),
            ("count:platform_tx.syscalls.blocked.total".to_string(), 1),
            ("measure:platform_tx.syscalls.blocked".to_string(), 1),
            ("count:platform_tx.errors.total".to_string(), 3),
            ("measure:platform_tx.errors".to_string(), 3),
            ("count:platform_tx.errors.dropped.total".to_string(), 0),
            ("measure:platform_tx.errors.dropped".to_string(), 0),
        ]
    );
    assert_eq!(platform_tx_records(5, 2, 1, 3, 0).len(), 11);

    log.borrow_mut().clear();
    let error: api::PlatformRxError = builder::PlatformRxError { errno: 5 }.into_event();
    subscriber.on_platform_rx_error(&error);
    assert_eq!(entries(&log), vec![("count:platform_rx_error".to_string(), 1)]);

    log.borrow_mut().clear();
    subscriber.record(Record::Time { timer: 0, value: Duration::from_micros(7) });
    assert_eq!(entries(&log).len(), 1);
    assert_eq!(entries(&log)[0].1, 7);
}

#[test]
fn connection_context_counts_events() {
    let mut context = Context::new(());
    assert!(context.counts().iter().all(|(_, c)| *c == 0));
    context.on_event(ConnectionEvent::PacketSent);
    context.on_event(ConnectionEvent::PacketSent);
    context.on_event(ConnectionEvent::ConnectionClosed);
    assert_eq!(context.count(ConnectionEvent::PacketSent), 2);
    let counts = context.counts();
    assert_eq!(counts.len(), CONNECTION_EVENT_COUNT);
    assert_eq!(counts[0].0, "application_protocol_information");
    assert!(counts.contains(&("packet_sent", 2)));
    assert!(counts.contains(&("connection_closed", 1)));
    assert_eq!(counts.iter().map(|(_, c)| c).sum::<u64>(), 3);
    assert_eq!(counts.last().unwrap().0, "connection_closed");
}

#[test]
fn dc_state_changed_times_the_state_reached() {
    let (subscriber, log) = subscriber();
    let k = table::NOMINAL_COUNTERS_DC_STATE_CHANGED__STATE;
    subscriber.on_dc_state_changed(Duration::from_micros(250), true, false, false, 0);
    let e = entries(&log);
    let nominal_name = table::info(table::nominal_counter_info(k)).name.as_str().to_string();
    assert_eq!(
        e,
        vec![
            ("count:dc_state_changed".to_string(), 1),
            ("time:dc_state_changed.version_negotiated.latency".to_string(), 250),
            ("time:dc_state_changed.no_version_negotiated.latency".to_string(), 250),
            (format!("nominal:{}[A]", nominal_name), 1),
        ]
    );

    log.borrow_mut().clear();
    subscriber.on_dc_state_changed(Duration::from_micros(9), false, false, true, 0);
    let e = entries(&log);
    assert_eq!(e.len(), 3);
    assert_eq!(e[1], ("time:dc_state_changed.complete.latency".to_string(), 9));
}

#[test]
fn recovery_metrics_records_each_figure() {
    let records = recovery_metrics_records(
        1, 2, 3, 4, 5, 6, 7, 8, true,
    );
    // a count, eight measures and the boolean counter
    assert_eq!(records.len(), 10);
    assert!(matches!(records[0], Record::Count { value: 1, .. }));
    assert!(matches!(records[9], Record::CountBool { value: true, .. }));
    assert!(matches!(records[1], Record::Measure { value: 1, .. }));
}

#[test]
fn connection_latency_saturates() {
    let meta: api::ConnectionMeta = builder::ConnectionMeta {
        endpoint_type: endpoint::Type::Client,
        id: 1,
        timestamp: Timestamp { micros: 1_000 },
    }
    .into_event();
    let context = ConnectionContext::new(&meta);
    assert_eq!(context.start_time(), Timestamp { micros: 1_000 });
    assert_eq!(context.latency(Timestamp { micros: 1_750 }), Duration::from_micros(750));
    assert_eq!(context.latency(Timestamp { micros: 10 }), Duration::ZERO);
}

#[test]
fn slow_start_exit_is_counted_and_timed_by_cause() {
    let (subscriber, log) = subscriber();
    assert_eq!(subscriber.nominal_timers().len(), 1);
    assert_eq!(subscriber.nominal_timers()[0].1.len(), 6);
    subscriber.on_slow_start_exited(0, Duration::from_micros(40), 12_000);
    let e = entries(&log);
    assert_eq!(e.len(), 4);
    assert_eq!(e[0], ("count:slow_start_exited".to_string(), 1));
    assert!(e[1].0.starts_with("nominal:") && e[1].0.ends_with("[A]"));
    assert!(e[2].0.starts_with("nominal_time:") && e[2].0.ends_with("[A]"));
    assert_eq!(e[2].1, 40);
    assert_eq!(e[3].1, 12_000);
}

#[test]
fn key_space_discarded_times_only_its_space() {
    let (subscriber, log) = subscriber();
    let meta: api::ConnectionMeta = builder::ConnectionMeta {
        endpoint_type: endpoint::Type::Server,
        id: 2,
        timestamp: Timestamp { micros: 100 },
    }
    .into_event();
    let context = ConnectionContext::new(&meta);
    let later: api::ConnectionMeta = builder::ConnectionMeta {
        endpoint_type: endpoint::Type::Server,
        id: 2,
        timestamp: Timestamp { micros: 130 },
    }
    .into_event();

    let handshake: api::KeySpaceDiscarded =
        builder::KeySpaceDiscarded { space: builder::KeySpace::Handshake }.into_event();
    subscriber.on_key_space_discarded(&context, &later, &handshake);
    let e = entries(&log);
    assert_eq!(e.len(), 3);
    assert_eq!(e[0], ("count:key_space_discarded".to_string(), 1));
    assert_eq!(e[1], ("time:key_space_discarded.handshake.latency".to_string(), 30));
    // Handshake is the second key space
    assert!(e[2].0.ends_with("[B]"));

    log.borrow_mut().clear();
    let zero_rtt: api::KeySpaceDiscarded =
        builder::KeySpaceDiscarded { space: builder::KeySpace::ZeroRtt }.into_event();
    subscriber.on_key_space_discarded(&context, &later, &zero_rtt);
    let e = entries(&log);
    // no timer for the 0-RTT space
    assert_eq!(e.len(), 2);
    assert!(e[1].0.ends_with("[C]"));
}
