//! The role of an endpoint, and which endpoint something is about.
use crate::event::{api, IntoEvent};
use vstd::prelude::*;

verus! {

/// Whether an endpoint is the client or the server of its connections.
#[derive(Clone, Copy, Debug, PartialEq, Eq, Structural, Hash)]
pub enum Type {
    Client,
    Server,
}

/// The event value that describes endpoint type `t`.
pub open spec fn spec_endpoint_type(t: Type) -> api::EndpointType {
    match t {
        Type::Client => api::EndpointType::Client {},
        Type::Server => api::EndpointType::Server {},
    }
}

impl IntoEvent<api::EndpointType> for Type {
    fn into_event(self) -> (r: api::EndpointType)
        ensures
            r == spec_endpoint_type(self),
    {
        match self {
            Self::Client => api::EndpointType::Client {},
            Self::Server => api::EndpointType::Server {},
        }
    }
}

/// The local or the remote endpoint of a connection.
#[derive(Clone, Copy, Debug, PartialEq, Eq, Structural, Hash)]
pub enum Location {
    Local,
    Remote,
}

/// The event value that describes location `l`.
pub open spec fn spec_location(l: Location) -> api::Location {
    match l {
        Location::Local => api::Location::Local {},
        Location::Remote => api::Location::Remote {},
    }
}

impl IntoEvent<api::Location> for Location {
    fn into_event(self) -> (r: api::Location)
        ensures
            r == spec_location(self),
    {
        match self {
            Self::Local => api::Location::Local {},
            Self::Remote => api::Location::Remote {},
        }
    }
}

} // verus!
