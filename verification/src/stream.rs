//! Stream identifiers' direction.
use crate::event::{builder, IntoEvent};
use vstd::prelude::*;

verus! {

/// Whether a stream carries data in both directions or only from its
/// initiator.
#[derive(Clone, Copy, Debug, PartialEq, Eq, Structural, Hash)]
pub enum StreamType {
    Bidirectional,
    Unidirectional,
}

/// The event value that describes stream type `t`.
pub open spec fn spec_stream_type_event(t: StreamType) -> builder::StreamType {
    match t {
        StreamType::Bidirectional => builder::StreamType::Bidirectional,
        StreamType::Unidirectional => builder::StreamType::Unidirectional,
    }
}

impl<'a> IntoEvent<builder::StreamType> for &'a StreamType {
    fn into_event(self) -> (r: builder::StreamType)
        ensures
            r == spec_stream_type_event(*self),
    {
        match self {
            StreamType::Bidirectional => builder::StreamType::Bidirectional,
            StreamType::Unidirectional => builder::StreamType::Unidirectional,
        }
    }
}

} // verus!
