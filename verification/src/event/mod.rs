//! Events a QUIC endpoint reports about its connections.
use vstd::prelude::*;

pub mod api;
pub mod builder;
pub mod metrics;
pub mod publisher;
pub mod subscriber;
pub mod supervisor;
mod traits;

pub use subscriber::Subscriber;
pub use traits::{ConnectionPublisher, EndpointPublisher, Meta};

verus! {

/// Converts a builder value into the event value it describes.
pub trait IntoEvent<Target> {
    fn into_event(self) -> Target;
}

} // verus!
