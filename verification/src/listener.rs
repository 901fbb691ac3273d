//! The decisions of the listener on a failed accept: a peer that gave up before
//! it was accepted is ignored, and any other error backs off, doubling the wait
//! up to a ceiling, until an accept succeeds again.
use crate::duration::{
    duration_as_nanos, duration_from_millis, duration_from_secs, duration_mul, duration_nanos,
    nanos_per_milli, nanos_per_sec,
};
use std::io::ErrorKind;
use std::time::Duration;
use vstd::arithmetic::power::lemma_pow0;
use vstd::arithmetic::power2::{lemma_pow2_unfold, pow2};
use vstd::prelude::*;

verus! {

#[verifier::external_type_specification]
#[verifier::external_body]
pub struct ExIoError(std::io::Error);

/// The kinds of `std::io::ErrorKind` that an accept on a listening socket can
/// report, one variant for each, and one for every other kind.
#[derive(PartialEq, Eq, Structural, Clone, Copy, Debug)]
pub enum IoErrorKind {
    PermissionDenied,
    ConnectionRefused,
    ConnectionReset,
    ConnectionAborted,
    NotConnected,
    AddrInUse,
    WouldBlock,
    InvalidInput,
    TimedOut,
    Interrupted,
    OutOfMemory,
    Other,
    /// Any other kind.
    Unlisted,
}

/// The kind of `err`, as `std::io::Error::kind` reports it. An error's kind is
/// fixed when the error is made, so it is a function of the error alone.
pub uninterp spec fn io_error_kind(err: std::io::Error) -> IoErrorKind;

/// `std::io::Error::kind`, converted variant for variant; the kinds that
/// `IoErrorKind` does not list become `Unlisted`.
#[verifier::external_body]
fn error_kind(err: &std::io::Error) -> (kind: IoErrorKind)
    ensures
        kind == io_error_kind(*err),
{
    match err.kind() {
        ErrorKind::PermissionDenied => IoErrorKind::PermissionDenied,
        ErrorKind::ConnectionRefused => IoErrorKind::ConnectionRefused,
        ErrorKind::ConnectionReset => IoErrorKind::ConnectionReset,
        ErrorKind::ConnectionAborted => IoErrorKind::ConnectionAborted,
        ErrorKind::NotConnected => IoErrorKind::NotConnected,
        ErrorKind::AddrInUse => IoErrorKind::AddrInUse,
        ErrorKind::WouldBlock => IoErrorKind::WouldBlock,
        ErrorKind::InvalidInput => IoErrorKind::InvalidInput,
        ErrorKind::TimedOut => IoErrorKind::TimedOut,
        ErrorKind::Interrupted => IoErrorKind::Interrupted,
        ErrorKind::OutOfMemory => IoErrorKind::OutOfMemory,
        ErrorKind::Other => IoErrorKind::Other,
        _ => IoErrorKind::Unlisted,
    }
}

/// Whether an error of this kind only concerns the one peer that was being
/// accepted, so that the listener goes straight on: the peer aborted, refused
/// or reset the connection, or the call was interrupted.
pub open spec fn is_transient_kind(kind: IoErrorKind) -> bool {
    ||| kind == IoErrorKind::ConnectionAborted
    ||| kind == IoErrorKind::ConnectionRefused
    ||| kind == IoErrorKind::ConnectionReset
    ||| kind == IoErrorKind::Interrupted
}

/// Whether an error of this kind only concerns the one peer that was being
/// accepted.
pub fn is_transient_error_kind(kind: IoErrorKind) -> (transient: bool)
    ensures
        transient == is_transient_kind(kind),
{
    match kind {
        IoErrorKind::ConnectionAborted => true,
        IoErrorKind::ConnectionRefused => true,
        IoErrorKind::ConnectionReset => true,
        IoErrorKind::Interrupted => true,
        _ => false,
    }
}

/// Whether a failed accept only concerns the one peer that was being accepted.
pub open spec fn is_transient(err: std::io::Error) -> bool {
    is_transient_kind(io_error_kind(err))
}

/// Whether a failed accept only concerns the one peer that was being accepted.
pub fn is_transient_accept_error(err: &std::io::Error) -> (transient: bool)
    ensures
        transient == is_transient(*err),
{
    is_transient_error_kind(error_kind(err))
}

/// The wait before the first retry, in nanoseconds: 50 ms.
pub open spec fn initial_backoff_nanos() -> nat {
    50 * nanos_per_milli()
}

/// The longest wait between retries, in nanoseconds: 1 s.
pub open spec fn maximum_backoff_nanos() -> nat {
    nanos_per_sec()
}

/// The wait that follows `delay` after another failure: twice as long, up to the
/// ceiling.
pub open spec fn next_backoff_nanos(delay: nat) -> nat {
    if 2 * delay < maximum_backoff_nanos() {
        2 * delay
    } else {
        maximum_backoff_nanos()
    }
}

/// The wait before retrying after `failures` failures in a row.
pub open spec fn backoff_after(failures: nat) -> nat
    decreases failures,
{
    if failures == 0 {
        initial_backoff_nanos()
    } else {
        next_backoff_nanos(backoff_after((failures - 1) as nat))
    }
}

/// How long the listener waits before it accepts again.
pub struct AcceptBackoff {
    delay: Duration,
}

impl AcceptBackoff {
    /// The wait, in nanoseconds.
    pub closed spec fn delay_nanos(&self) -> nat {
        duration_nanos(self.delay)
    }

    /// The wait stays between the initial one and the ceiling.
    pub open spec fn wf(&self) -> bool {
        initial_backoff_nanos() <= self.delay_nanos() <= maximum_backoff_nanos()
    }

    pub fn new() -> (backoff: Self)
        ensures
            backoff.wf(),
            backoff.delay_nanos() == initial_backoff_nanos(),
    {
        AcceptBackoff { delay: duration_from_millis(50) }
    }

    /// An accept succeeded: the next failure waits the initial time again.
    pub fn reset(&mut self)
        ensures
            final(self).wf(),
            final(self).delay_nanos() == initial_backoff_nanos(),
    {
        self.delay = duration_from_millis(50);
    }

    /// An accept failed. A transient failure is passed over at once; any other
    /// returns how long to wait before the next accept, and doubles the wait that
    /// follows, up to the ceiling.
    pub fn on_failure(&mut self, transient: bool) -> (wait: Option<Duration>)
        requires
            old(self).wf(),
        ensures
            final(self).wf(),
            transient ==> wait is None && final(self).delay_nanos() == old(self).delay_nanos(),
            !transient ==> (wait matches Some(d) && duration_nanos(d) == old(self).delay_nanos()
                && final(self).delay_nanos() == next_backoff_nanos(old(self).delay_nanos())),
    {
        if transient {
            return None;
        }
        let wait = self.delay;
        let doubled = duration_mul(self.delay, 2);
        let maximum = duration_from_secs(1);
        if duration_as_nanos(&doubled) < duration_as_nanos(&maximum) {
            self.delay = doubled;
        } else {
            self.delay = maximum;
        }
        Some(wait)
    }

    /// An accept failed with `err`: the listener goes straight on where the error
    /// is transient, and otherwise waits the time returned.
    pub fn on_accept_error(&mut self, err: &std::io::Error) -> (wait: Option<Duration>)
        requires
            old(self).wf(),
        ensures
            final(self).wf(),
            is_transient(*err) ==> wait is None && final(self).delay_nanos() == old(
                self,
            ).delay_nanos(),
            !is_transient(*err) ==> (wait matches Some(d) && duration_nanos(d) == old(
                self,
            ).delay_nanos() && final(self).delay_nanos() == next_backoff_nanos(
                old(self).delay_nanos(),
            )),
    {
        let transient = is_transient_accept_error(err);
        self.on_failure(transient)
    }
}

/// After `failures` failures in a row the listener waits
/// min(50 ms * 2^failures, 1 s).
pub proof fn backoff_doubles_to_ceiling(failures: nat)
    ensures
        backoff_after(failures) == if initial_backoff_nanos() * pow2(failures)
            < maximum_backoff_nanos() {
            initial_backoff_nanos() * pow2(failures)
        } else {
            maximum_backoff_nanos()
        },
    decreases failures,
{
    if failures == 0 {
        assert(pow2(0) == 1) by {
            lemma_pow0(2);
        }
    } else {
        backoff_doubles_to_ceiling((failures - 1) as nat);
        lemma_pow2_unfold(failures);
        let p = pow2((failures - 1) as nat);
        assert(initial_backoff_nanos() * pow2(failures) == 2 * (initial_backoff_nanos() * p)) by (
        nonlinear_arith)
            requires
                pow2(failures) == 2 * p,
        ;
    }
}

} // verus!
