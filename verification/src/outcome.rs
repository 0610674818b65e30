//! Outcome types shared by every operation of the unified transport: the
//! error taxonomy a transport reports to its caller, and the readiness
//! outcome of the cooperative (non-blocking) operations.

use vstd::prelude::*;

verus! {

/// The kinds of failure a transport operation reports.
///
/// `WouldBlock` is not a hard error: it is the retry signal of the
/// blocking-style operations. The cooperative operations never surface it as
/// an error; they answer `Async::NotReady` instead. Every other kind is a
/// genuine I/O failure, forwarded verbatim from the active transport;
/// secure-channel failures are surfaced as `Other`, not as a separate family.
#[derive(Clone, Copy, Debug, PartialEq, Eq, Structural)]
pub enum ErrorKind {
    /// The operation cannot complete right now; retry once woken.
    WouldBlock,
    /// The peer reset the connection.
    ConnectionReset,
    /// The local sending side was already shut down.
    BrokenPipe,
    /// Any other OS-level or secure-channel failure.
    Other,
}

/// Readiness outcome of a cooperative operation: either a value, or a
/// promise that the caller's task will be woken once the operation can make
/// progress.
#[derive(Debug, PartialEq, Eq)]
pub enum Async<T> {
    /// The operation completed with this value.
    Ready(T),
    /// Not ready yet; a wakeup has been registered.
    NotReady,
}

/// The kind of a cooperative outcome with its payload erased: what a caller
/// that never branches on the transport variant can observe.
#[derive(Clone, Copy, Debug, PartialEq, Eq, Structural)]
pub enum OutcomeKind {
    Ready,
    NotReady,
    Failed,
}

/// The kind of a cooperative outcome, payload erased.
pub open spec fn kind_of<T>(r: Result<Async<T>, ErrorKind>) -> OutcomeKind {
    match r {
        Ok(Async::Ready(_)) => OutcomeKind::Ready,
        Ok(Async::NotReady) => OutcomeKind::NotReady,
        Err(_) => OutcomeKind::Failed,
    }
}

/// Classifies a cooperative outcome by its kind alone.
pub fn outcome_kind<T>(r: &Result<Async<T>, ErrorKind>) -> (k: OutcomeKind)
    ensures
        k == kind_of::<T>(*r),
{
    match r {
        Ok(Async::Ready(_)) => OutcomeKind::Ready,
        Ok(Async::NotReady) => OutcomeKind::NotReady,
        Err(_) => OutcomeKind::Failed,
    }
}

/// The smaller of two naturals: how many bytes an operation moves when the
/// request and the available room differ.
pub open spec fn min_nat(a: nat, b: nat) -> nat {
    if a <= b {
        a
    } else {
        b
    }
}

} // verus!
