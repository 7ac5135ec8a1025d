//! What holds between the operations on instants: the round trips of the
//! arithmetic and its behaviour at the ends of the range.

use std::time::Duration;
use vstd::prelude::*;
use vstd::std_specs::ops::{AddSpec, SubSpec};

use crate::duration::duration_nanos;
use crate::instant::{
    instant_limit, lemma_of_nanos_view, lemma_view_of_nanos, saturating_after, saturating_before,
    SuspendUnawareInstant,
};

verus! {

/// Adding to the earlier of two instants the time that passed between them
/// gives the later one.
pub proof fn lemma_difference_round_trip(
    a: SuspendUnawareInstant,
    b: SuspendUnawareInstant,
    difference: Duration,
)
    requires
        a.wf(),
        b.wf(),
        b@ <= a@,
        duration_nanos(difference) == saturating_before(a@, b@),
    ensures
        saturating_after(b@, saturating_before(a@, b@)) == a@,
        b.add_spec(difference) == a,
{
    lemma_view_of_nanos(a);
}

/// The time from a later instant to an earlier one is zero.
pub proof fn lemma_difference_inverted(a: SuspendUnawareInstant, b: SuspendUnawareInstant)
    requires
        a@ < b@,
    ensures
        saturating_before(a@, b@) == 0,
{
}

/// Subtracting a duration undoes adding it, where the sum did not pass the
/// limit.
pub proof fn lemma_add_then_sub(x: SuspendUnawareInstant, d: Duration)
    requires
        x.wf(),
        x@ + duration_nanos(d) < instant_limit(),
    ensures
        saturating_before(saturating_after(x@, duration_nanos(d)), duration_nanos(d)) == x@,
        x.add_spec(d).sub_spec(d) == x,
{
    lemma_view_of_nanos(x);
    lemma_of_nanos_view(saturating_after(x@, duration_nanos(d)));
}

/// A sum that passes the limit is the zero instant, and so is a difference
/// that would lie before it.
pub proof fn lemma_saturation(x: SuspendUnawareInstant, d: Duration)
    requires
        x.wf(),
    ensures
        x@ + duration_nanos(d) >= instant_limit() ==> x.add_spec(d) == SuspendUnawareInstant::of_nanos(0),
        duration_nanos(d) > x@ ==> x.sub_spec(d) == SuspendUnawareInstant::of_nanos(0),
{
}

} // verus!
