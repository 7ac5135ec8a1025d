//! The mathematical reading of `std::time::Duration`.
//!
//! A `Duration` is opaque to the verifier. Its two components are given names
//! here, and the three functions of the standard library that the arithmetic
//! needs are specified over those names. Nothing in this file is proved: it
//! records what the documentation of `Duration` promises.

use std::time::Duration;
use vstd::prelude::*;

verus! {

/// The whole seconds that a `Duration` holds: what `Duration::as_secs` returns.
pub uninterp spec fn duration_secs(d: Duration) -> u64;

/// The fractional part of a `Duration` in nanoseconds: what
/// `Duration::subsec_nanos` returns.
pub uninterp spec fn duration_subsec_nanos(d: Duration) -> u32;

/// The nanoseconds in `secs` seconds and `nanos` nanoseconds.
pub open spec fn total_nanos(secs: u64, nanos: u32) -> nat {
    (secs as nat) * 1_000_000_000 + (nanos as nat)
}

/// The length of a `Duration` in nanoseconds.
pub open spec fn duration_nanos(d: Duration) -> nat {
    total_nanos(duration_secs(d), duration_subsec_nanos(d))
}

/// `Duration::as_secs` returns the whole seconds of the duration.
pub assume_specification[ Duration::as_secs ](d: &Duration) -> (r: u64)
    ensures
        r == duration_secs(*d),
;

/// `Duration::subsec_nanos` returns the fractional part of the duration in
/// nanoseconds, which is always less than one second.
pub assume_specification[ Duration::subsec_nanos ](d: &Duration) -> (r: u32)
    ensures
        r == duration_subsec_nanos(*d),
        r < 1_000_000_000,
;

/// `Duration::new` builds a duration from seconds and nanoseconds. Whole
/// seconds among the nanoseconds are carried over into the seconds; the call
/// panics if that carry overflows, which the precondition rules out.
pub assume_specification[ Duration::new ](secs: u64, nanos: u32) -> (r: Duration)
    requires
        secs + nanos / 1_000_000_000 <= u64::MAX,
    ensures
        duration_secs(r) == secs + nanos / 1_000_000_000,
        duration_subsec_nanos(r) == nanos % 1_000_000_000,
;

} // verus!
