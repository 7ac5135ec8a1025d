//! The decisions of a sleep and of a timeout that are measured against the
//! suspend-unaware clock.
//!
//! A scheduler's own timer may count the time that the machine spent
//! suspended, and so wake a task before its deadline on this clock. A sleep
//! is therefore a loop: after each wake-up the clock is read again, and the
//! task waits once more for what is left. The loop itself belongs to the
//! scheduler's side; what it decides at each turn is decided here.

use std::time::Duration;
use vstd::prelude::*;

use crate::duration::{duration_nanos, duration_secs, duration_subsec_nanos};
use crate::instant::{instant_limit, saturating_after, saturating_before, SuspendUnawareInstant};

verus! {

/// The deadline of a wait ran out before the awaited operation completed.
#[derive(Clone, Copy, Debug, PartialEq, Eq, Structural)]
pub struct TimedOutError;

impl TimedOutError {
    /// The text that describes the error.
    pub fn to_string(&self) -> (r: String)
        ensures
            r@ == "Timed out"@,
    {
        "Timed out".to_owned()
    }
}

/// What a sleeping task does next.
#[derive(Clone, Copy, Debug)]
pub enum SleepStep {
    /// The deadline lies ahead: wait for the given time, then read the clock
    /// again.
    Wait(Duration),
    /// The deadline is reached: the sleep is over.
    Done,
}

/// Which side of a timeout finished first.
#[derive(Debug)]
pub enum Finished<T> {
    /// The sleep reached its deadline before the operation completed.
    Sleep,
    /// The operation completed with the given output before the deadline.
    Operation(T),
}

/// Whether a sleep with the given deadline is over at `now`.
pub open spec fn deadline_reached(now: SuspendUnawareInstant, deadline: SuspendUnawareInstant) -> bool {
    deadline@ <= now@
}

/// The deadline of a sleep of `duration` that starts at `start`.
pub fn deadline_after(start: SuspendUnawareInstant, duration: Duration) -> (r: SuspendUnawareInstant)
    ensures
        r.wf(),
        r@ == saturating_after(start@, duration_nanos(duration)),
{
    start + duration
}

/// One turn of the sleep loop: given the clock's reading, either the sleep is
/// over, or the task waits for exactly the time that is left.
pub fn sleep_step(now: SuspendUnawareInstant, deadline: SuspendUnawareInstant) -> (r: SleepStep)
    ensures
        r is Done <==> deadline_reached(now, deadline),
        r matches SleepStep::Wait(d) ==> {
            &&& duration_nanos(d) == deadline@ - now@
            &&& duration_secs(d) == (deadline@ - now@) / 1_000_000_000
            &&& duration_subsec_nanos(d) == (deadline@ - now@) % 1_000_000_000
        },
{
    proof {
        use_type_invariant(now);
        use_type_invariant(deadline);
        crate::instant::lemma_order_matches_view(now, deadline);
    }
    if now < deadline {
        SleepStep::Wait(deadline - now)
    } else {
        SleepStep::Done
    }
}

/// The outcome of a timeout: the operation's output where the operation
/// finished first, the error where the sleep did.
pub fn timeout_result<T>(first: Finished<T>) -> (r: Result<T, TimedOutError>)
    ensures
        r == (match first {
            Finished::Sleep => Err::<T, TimedOutError>(TimedOutError),
            Finished::Operation(output) => Ok::<T, TimedOutError>(output),
        }),
{
    match first {
        Finished::Sleep => Err(TimedOutError),
        Finished::Operation(output) => Ok(output),
    }
}

/// A sleep does not end early: where the deadline was computed without
/// saturation from a start and a length, and the sleep is over at `now`, at
/// least that length has passed since the start.
pub proof fn lemma_sleep_not_early(
    start: SuspendUnawareInstant,
    length: nat,
    deadline: SuspendUnawareInstant,
    now: SuspendUnawareInstant,
)
    requires
        start@ + length < instant_limit(),
        deadline@ == saturating_after(start@, length),
        deadline_reached(now, deadline),
    ensures
        saturating_before(now@, start@) >= length,
{
}

/// A sleep goes on while the deadline lies ahead: then the step is to wait,
/// for a time that is not zero.
pub proof fn lemma_sleep_rearms(now: SuspendUnawareInstant, deadline: SuspendUnawareInstant)
    requires
        now@ < deadline@,
    ensures
        !deadline_reached(now, deadline),
        deadline@ - now@ > 0,
{
}

} // verus!
