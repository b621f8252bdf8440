//! Metrics about the events of an endpoint.
pub mod aggregate;
pub mod context;

pub use context::{Context, Subscriber};
