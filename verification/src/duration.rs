//! Time spans as the library reasons about them: every `Duration` is measured by
//! its length in nanoseconds.
use std::time::Duration;
use vstd::prelude::*;

verus! {

/// The length of a `Duration` in nanoseconds, as `Duration::as_nanos` reports it.
pub uninterp spec fn duration_nanos(d: Duration) -> nat;

/// One second, in nanoseconds.
pub open spec fn nanos_per_sec() -> nat {
    1_000_000_000
}

/// One millisecond, in nanoseconds.
pub open spec fn nanos_per_milli() -> nat {
    1_000_000
}

/// `Duration::clone`: `Duration` is `Copy`, so its clone is the same span.
pub assume_specification[ <Duration as Clone>::clone ](d: &Duration) -> (c: Duration)
    ensures
        c == *d,
;

/// `Duration::from_secs`: a span of `secs` whole seconds.
#[verifier::external_body]
pub fn duration_from_secs(secs: u64) -> (d: Duration)
    ensures
        duration_nanos(d) == secs * nanos_per_sec(),
{
    Duration::from_secs(secs)
}

/// `Duration::from_millis`: a span of `millis` milliseconds.
#[verifier::external_body]
pub fn duration_from_millis(millis: u64) -> (d: Duration)
    ensures
        duration_nanos(d) == millis * nanos_per_milli(),
{
    Duration::from_millis(millis)
}

/// `Duration::from_nanos`: a span of `nanos` nanoseconds.
#[verifier::external_body]
pub fn duration_from_nanos(nanos: u64) -> (d: Duration)
    ensures
        duration_nanos(d) == nanos,
{
    Duration::from_nanos(nanos)
}

/// `Duration::as_nanos`: the length of `d` in nanoseconds.
#[verifier::external_body]
pub fn duration_as_nanos(d: &Duration) -> (n: u128)
    ensures
        n == duration_nanos(*d),
{
    d.as_nanos()
}

/// `Duration::saturating_sub`: `a - b`, or zero where `b` is the longer span.
#[verifier::external_body]
pub fn duration_saturating_sub(a: Duration, b: Duration) -> (d: Duration)
    ensures
        duration_nanos(d) == if duration_nanos(a) >= duration_nanos(b) {
            (duration_nanos(a) - duration_nanos(b)) as nat
        } else {
            0nat
        },
{
    a.saturating_sub(b)
}

/// `Duration::checked_sub`: `a - b`, or `None` where `b` is the longer span.
#[verifier::external_body]
pub fn duration_checked_sub(a: Duration, b: Duration) -> (d: Option<Duration>)
    ensures
        d is Some <==> duration_nanos(a) >= duration_nanos(b),
        d matches Some(r) ==> duration_nanos(r) == duration_nanos(a) - duration_nanos(b),
{
    a.checked_sub(b)
}

/// `Duration * u32` (`Mul::mul`): `d` taken `factor` times. The product must not
/// exceed `u64::MAX` seconds, where `Mul` panics; the `requires` keeps well inside it.
#[verifier::external_body]
pub fn duration_mul(d: Duration, factor: u32) -> (r: Duration)
    requires
        duration_nanos(d) * factor <= u64::MAX,
    ensures
        duration_nanos(r) == duration_nanos(d) * factor,
{
    d * factor
}

} // verus!
