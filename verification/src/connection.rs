//! Why a connection ended.
use vstd::prelude::*;

verus! {

/// Why a connection was closed.
#[derive(Clone, Copy, Debug, PartialEq, Eq, Structural, Hash)]
pub enum Error {
    /// The connection was closed without an error.
    Closed,
    /// A QUIC transport error, with its code.
    Transport { code: u64 },
    /// An application error, with its code.
    Application { code: u64 },
    /// The connection was idle for longer than its idle timeout.
    IdleTimerExpired,
    /// The connection ended for a reason not listed here.
    Unspecified,
}

} // verus!
