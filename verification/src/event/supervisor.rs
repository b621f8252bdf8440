//! What a connection supervisor decides about a connection, and what it
//! decides on.
use super::builder::SocketAddress;
use crate::application;
use core::time::Duration;
use vstd::prelude::*;

verus! {

/// The decision of a connection supervisor.
#[non_exhaustive]
#[derive(Clone, Debug, Eq, PartialEq)]
pub enum Outcome {
    /// Allow the connection to remain open
    Continue,
    /// Close the connection and notify the peer
    Close { error_code: application::Error },
    /// Close the connection without notifying the peer
    ImmediateClose { reason: &'static str },
}

impl Default for Outcome {
    /// A supervisor that decides nothing lets the connection go on.
    fn default() -> (r: Self)
        ensures
            r == Outcome::Continue,
    {
        Self::Continue
    }
}

/// The state of the endpoint and of a connection, as a supervisor sees it.
#[non_exhaustive]
#[derive(Debug)]
pub struct Context<'a> {
    /// Number of handshakes that have begun but not completed
    pub inflight_handshakes: usize,
    /// Number of open connections
    pub connection_count: usize,
    /// The address of the peer
    pub remote_address: SocketAddress<'a>,
    /// True if the connection is in the handshake state, false otherwise
    pub is_handshaking: bool,
}

impl<'a> Context<'a> {
    pub fn new(
        inflight_handshakes: usize,
        connection_count: usize,
        remote_address: SocketAddress<'a>,
        is_handshaking: bool,
    ) -> (r: Self)
        ensures
            r.inflight_handshakes == inflight_handshakes,
            r.connection_count == connection_count,
            r.remote_address == remote_address,
            r.is_handshaking == is_handshaking,
    {
        Self { inflight_handshakes, connection_count, remote_address, is_handshaking }
    }
}

/// The decision of two supervisors taken together: closing without notice
/// wins over closing with notice, which wins over going on. Where both
/// close the same way, the first one's reason or code is kept.
pub open spec fn spec_combine_outcomes(a: Outcome, b: Outcome) -> Outcome {
    match (a, b) {
        (Outcome::ImmediateClose { reason }, _) => Outcome::ImmediateClose { reason },
        (_, Outcome::ImmediateClose { reason }) => Outcome::ImmediateClose { reason },
        (Outcome::Close { error_code }, _) => Outcome::Close { error_code },
        (_, Outcome::Close { error_code }) => Outcome::Close { error_code },
        _ => Outcome::Continue,
    }
}

/// Two supervisors' decisions taken together let the connection go on only
/// when both do; if either closes it without notice, so does the combined
/// decision (with the first such reason); otherwise, if either closes it,
/// the combined decision closes it with the first such error code.
pub proof fn lemma_combine_outcomes(a: Outcome, b: Outcome)
    ensures
        (spec_combine_outcomes(a, b) is Continue) <==> (a is Continue && b is Continue),
        a is ImmediateClose ==> spec_combine_outcomes(a, b) == a,
        !(a is ImmediateClose) && b is ImmediateClose ==> spec_combine_outcomes(a, b) == b,
        !(a is ImmediateClose) && !(b is ImmediateClose) && a is Close ==> spec_combine_outcomes(
            a,
            b,
        ) == a,
        !(a is ImmediateClose) && !(b is ImmediateClose) && !(a is Close) && b is Close
            ==> spec_combine_outcomes(a, b) == b,
{
}

/// Combines the decisions of two supervisors that watch one connection.
pub fn combine_outcomes(a: Outcome, b: Outcome) -> (r: Outcome)
    ensures
        r == spec_combine_outcomes(a, b),
        (r is Continue) <==> (a is Continue && b is Continue),
        a is ImmediateClose ==> r == a,
        !(a is ImmediateClose) && b is ImmediateClose ==> r == b,
        !(a is ImmediateClose) && !(b is ImmediateClose) && a is Close ==> r == a,
        !(a is ImmediateClose) && !(b is ImmediateClose) && !(a is Close) && b is Close ==> r == b,
{
    match (a, b) {
        (Outcome::ImmediateClose { reason }, _) => Outcome::ImmediateClose { reason },
        (_, Outcome::ImmediateClose { reason }) => Outcome::ImmediateClose { reason },
        (Outcome::Close { error_code }, _) => Outcome::Close { error_code },
        (_, Outcome::Close { error_code }) => Outcome::Close { error_code },
        _ => Outcome::Continue,
    }
}

/// The smaller of two durations, as `Ord::min` from the standard library
/// gives it.
pub uninterp spec fn spec_duration_min(a: Duration, b: Duration) -> Duration;

/// `Ord::min` on durations from the standard library: the smaller of the two,
/// which is one of them.
#[verifier::external_body]
fn duration_min(a: Duration, b: Duration) -> (r: Duration)
    ensures
        r == spec_duration_min(a, b),
        r == a || r == b,
{
    a.min(b)
}

/// The timeout of two supervisors taken together: the earlier of the two,
/// or whichever one is set.
pub open spec fn spec_combine_timeouts(a: Option<Duration>, b: Option<Duration>) -> Option<Duration> {
    match (a, b) {
        (None, None) => None,
        (None, Some(t)) => Some(t),
        (Some(t), None) => Some(t),
        (Some(x), Some(y)) => Some(spec_duration_min(x, y)),
    }
}

/// Two supervisors' timeouts taken together: none exactly when neither
/// asks for one, the one that is asked for when only one is, and one of the
/// two (the smaller) when both are.
pub proof fn lemma_combine_timeouts(a: Option<Duration>, b: Option<Duration>)
    ensures
        (spec_combine_timeouts(a, b) is None) <==> (a is None && b is None),
        a is None ==> spec_combine_timeouts(a, b) == b,
        b is None ==> spec_combine_timeouts(a, b) == a,
        a is Some && b is Some ==> spec_combine_timeouts(a, b) == Some(
            spec_duration_min(a->0, b->0),
        ),
{
}

/// Combines the timeouts that two supervisors ask for.
pub fn combine_timeouts(a: Option<Duration>, b: Option<Duration>) -> (r: Option<Duration>)
    ensures
        r == spec_combine_timeouts(a, b),
        (r is None) <==> (a is None && b is None),
        a is None ==> r == b,
        b is None ==> r == a,
        a is Some && b is Some ==> r == a || r == b,
{
    match (a, b) {
        (None, None) => None,
        (None, Some(t)) => Some(t),
        (Some(t), None) => Some(t),
        (Some(x), Some(y)) => Some(duration_min(x, y)),
    }
}

} // verus!
