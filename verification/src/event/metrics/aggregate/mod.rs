//! Metrics aggregated over the events of an endpoint: what each metric is
//! called and measured in, and the interfaces that record them.
pub mod events;
pub mod info;
mod metric;
mod recorder;
pub mod subscriber;
pub mod table;
mod variant;

pub use info::Info;
pub use metric::Units;
pub use recorder::BoolRecorder;
pub use variant::AsVariant;

use crate::event::api;
use crate::frame::ack::{duration_from_micros, spec_duration_from_micros};
use crate::time::Timestamp;
use core::time::Duration;
use vstd::prelude::*;

verus! {

/// What the aggregating subscriber keeps about each connection: when it
/// started.
#[derive(Debug)]
pub struct ConnectionContext {
    start_time: Timestamp,
}

/// The time from `start` to `now`, or none if `now` comes first.
pub open spec fn spec_latency(start: Timestamp, now: Timestamp) -> Duration {
    spec_duration_from_micros(
        if now.micros >= start.micros {
            (now.micros - start.micros) as u64
        } else {
            0
        },
    )
}

impl ConnectionContext {
    /// The context of a connection that starts with the event `meta`
    /// describes.
    pub fn new(meta: &api::ConnectionMeta) -> (c: Self)
        ensures
            c.spec_start_time() == meta.timestamp,
    {
        ConnectionContext { start_time: meta.timestamp }
    }

    /// When the connection started.
    pub closed spec fn spec_start_time(&self) -> Timestamp {
        self.start_time
    }

    pub fn start_time(&self) -> (t: Timestamp)
        ensures
            t == self.spec_start_time(),
    {
        self.start_time
    }

    /// How long after its start the connection reached `now`: the latency
    /// that the subscriber's timers record.
    pub fn latency(&self, now: Timestamp) -> (d: Duration)
        ensures
            d == spec_latency(self.spec_start_time(), now),
    {
        let micros: u64 = if now.micros >= self.start_time.micros {
            now.micros - self.start_time.micros
        } else {
            0
        };
        duration_from_micros(micros)
    }
}

} // verus!
