//! The interface through which boolean metrics are recorded.
use super::info::Info;
use vstd::prelude::*;

verus! {

/// Records the values of a boolean metric.
pub trait BoolRecorder {
    fn record(&self, info: &Info, value: bool);
}

impl<A: BoolRecorder, B: BoolRecorder> BoolRecorder for (A, B) {
    /// Records the value with both recorders.
    fn record(&self, info: &Info, value: bool)
        ensures
            call_ensures(A::record, (&self.0, info, value), ()),
            call_ensures(B::record, (&self.1, info, value), ()),
    {
        self.0.record(info, value);
        self.1.record(info, value);
    }
}

impl<A: BoolRecorder> BoolRecorder for Option<A> {
    /// Records the value with the recorder, if there is one.
    fn record(&self, info: &Info, value: bool)
        ensures
            self is Some ==> call_ensures(A::record, (&self->0, info, value), ()),
    {
        if let Some(recorder) = self {
            recorder.record(info, value);
        }
    }
}

impl<R: BoolRecorder> BoolRecorder for std::sync::Arc<R> {
    /// Records the value with the shared recorder.
    fn record(&self, info: &Info, value: bool)
        ensures
            call_ensures(R::record, (&**self, info, value), ()),
    {
        (**self).record(info, value);
    }
}

} // verus!
