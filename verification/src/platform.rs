//! The clock behind the instants, and the normalisation of raw clock
//! readings.
//!
//! A reading comes from the operating system in one of two shapes: a pair of
//! signed seconds and nanoseconds, or a count of intervals of one hundred
//! nanoseconds. Neither is trusted to be in range: each is brought into the
//! range of an instant before one is built from it. A program that reads
//! another clock than the one read here hands its reading to `from_timespec`
//! or `from_interrupt_time`.

use vstd::prelude::*;

use crate::instant::SuspendUnawareInstant;

verus! {

/// The length of one interval of the interrupt-time counter in nanoseconds.
pub const INTERVAL_SIZE_NS: u64 = 100;

/// The nanoseconds that a reading of signed seconds and nanoseconds stands
/// for: negative seconds count as zero, and so do nanoseconds that are
/// negative or do not stay below one second.
pub open spec fn timespec_nanos(tv_sec: i64, tv_nsec: i64) -> nat {
    let secs: nat = if tv_sec > 0 {
        tv_sec as nat
    } else {
        0
    };
    let nanos: nat = if 0 <= tv_nsec < 1_000_000_000 {
        tv_nsec as nat
    } else {
        0
    };
    secs * 1_000_000_000 + nanos
}

/// Reads `CLOCK_MONOTONIC` with `nix::time::clock_gettime` and hands back the
/// seconds and nanoseconds of the reading, or `None` where the system refused
/// the call. On Linux this clock does not count the time that the system
/// spends suspended. Nothing is claimed of the values: they depend on when
/// the call is made.
#[verifier::external_body]
fn read_monotonic_clock() -> (r: Option<(i64, i64)>) {
    match nix::time::clock_gettime(nix::time::ClockId::CLOCK_MONOTONIC) {
        Ok(t) => Some((i64::from(t.tv_sec()), i64::from(t.tv_nsec()))),
        Err(_) => None,
    }
}

/// Builds an instant from a reading of signed seconds and nanoseconds.
/// Negative values are raised to zero, and nanoseconds that reach one second
/// are dropped to zero.
pub fn from_timespec(tv_sec: i64, tv_nsec: i64) -> (r: SuspendUnawareInstant)
    ensures
        r.wf(),
        r@ == timespec_nanos(tv_sec, tv_nsec),
        r.spec_secs() == (if tv_sec > 0 { tv_sec } else { 0 }),
        r.spec_subsec_nanos() == (if 0 <= tv_nsec < 1_000_000_000 { tv_nsec } else { 0 }),
{
    let secs: u64 = if tv_sec > 0 {
        tv_sec as u64
    } else {
        0
    };
    let nanos: u32 = if 0 <= tv_nsec && tv_nsec < 1_000_000_000 {
        tv_nsec as u32
    } else {
        0
    };
    SuspendUnawareInstant::from_parts(secs, nanos)
}

/// Builds an instant from a count of intervals of one hundred nanoseconds.
pub fn from_interrupt_time(intervals: u64) -> (r: SuspendUnawareInstant)
    ensures
        r.wf(),
        r@ == intervals * 100,
        r.spec_secs() == intervals / 10_000_000,
        r.spec_subsec_nanos() == (intervals % 10_000_000) * 100,
{
    let nanos_per_second: u64 = 1_000_000_000;
    let secs: u64 = intervals / (nanos_per_second / INTERVAL_SIZE_NS);
    let nanos: u64 = ((intervals % nanos_per_second) * INTERVAL_SIZE_NS) % nanos_per_second;
    proof {
        lemma_interval_split(intervals as int);
    }
    SuspendUnawareInstant::from_parts(secs, nanos as u32)
}

/// A count of intervals of one hundred nanoseconds splits into seconds and
/// nanoseconds as the conversion computes them.
proof fn lemma_interval_split(n: int)
    requires
        0 <= n,
    ensures
        ((n % 1_000_000_000) * 100) % 1_000_000_000 == (n % 10_000_000) * 100,
        (n / 10_000_000) * 1_000_000_000 + (n % 10_000_000) * 100 == n * 100,
{
    let q = n / 10_000_000;
    let r = n % 10_000_000;
    let k = n / 1_000_000_000;
    let m = n % 1_000_000_000;
    assert(n == q * 10_000_000 + r);
    assert(n == k * 1_000_000_000 + m);
    assert(m * 100 == (q - k * 100) * 1_000_000_000 + r * 100);
    vstd::arithmetic::div_mod::lemma_fundamental_div_mod_converse(
        m * 100,
        1_000_000_000,
        q - k * 100,
        r * 100,
    );
}

/// The current instant, read from the monotonic clock. A reading that the
/// system refuses counts as the zero reading.
pub fn now() -> (r: SuspendUnawareInstant)
    ensures
        r.wf(),
{
    match read_monotonic_clock() {
        Some((tv_sec, tv_nsec)) => from_timespec(tv_sec, tv_nsec),
        None => from_timespec(0, 0),
    }
}

} // verus!
