//! The instant type and its saturating arithmetic.

use std::cmp::Ordering;
use std::ops::{Add, Sub};
use std::time::Duration;
use vstd::prelude::*;
use vstd::std_specs::cmp::PartialOrdSpecImpl;
use vstd::std_specs::ops::{AddSpecImpl, SubSpecImpl};

use crate::duration::{duration_nanos, duration_secs, duration_subsec_nanos, total_nanos};

verus! {

/// The number of nanoseconds in one second.
pub const NANOS_PER_SECOND: u32 = 1_000_000_000;

/// The first number of nanoseconds that no instant can hold: `2^64` seconds.
pub open spec fn instant_limit() -> nat {
    0x1_0000_0000_0000_0000 * 1_000_000_000
}

/// `t` moved forward by `d` nanoseconds, or zero where no instant can hold
/// the sum.
pub open spec fn saturating_after(t: nat, d: nat) -> nat {
    if t + d < instant_limit() {
        t + d
    } else {
        0
    }
}

/// `t` moved back by `d` nanoseconds, or zero where `d` is the larger.
pub open spec fn saturating_before(t: nat, d: nat) -> nat {
    if d <= t {
        (t - d) as nat
    } else {
        0
    }
}

/// A point on a monotonic timeline that stands still while the machine is
/// suspended.
///
/// An instant is a number of whole seconds and a number of nanoseconds below
/// one second. Its view is the total in nanoseconds.
#[derive(Clone, Copy, Debug, PartialEq, Eq, Structural, Ord)]
pub struct SuspendUnawareInstant {
    secs: u64,
    nanos: u32,
}

impl View for SuspendUnawareInstant {
    type V = nat;

    open spec fn view(&self) -> nat {
        total_nanos(self.spec_secs(), self.spec_subsec_nanos())
    }
}

impl SuspendUnawareInstant {
    /// The whole seconds of the instant.
    pub closed spec fn spec_secs(self) -> u64 {
        self.secs
    }

    /// The nanoseconds of the instant beyond its whole seconds.
    pub closed spec fn spec_subsec_nanos(self) -> u32 {
        self.nanos
    }

    /// The nanoseconds stay below one second.
    #[verifier::type_invariant]
    pub open spec fn wf(self) -> bool {
        self.spec_subsec_nanos() < NANOS_PER_SECOND
    }

    /// The instant that holds `n` nanoseconds in all.
    pub closed spec fn of_nanos(n: nat) -> Self {
        SuspendUnawareInstant {
            secs: (n / 1_000_000_000) as u64,
            nanos: (n % 1_000_000_000) as u32,
        }
    }

    /// Builds an instant from its two parts. Nanoseconds that do not stay
    /// below one second are not carried: they count as zero.
    pub fn from_parts(secs: u64, nanos: u32) -> (r: Self)
        ensures
            r.wf(),
            r.spec_secs() == secs,
            r.spec_subsec_nanos() == (if nanos < NANOS_PER_SECOND { nanos } else { 0 }),
    {
        if nanos < NANOS_PER_SECOND {
            SuspendUnawareInstant { secs, nanos }
        } else {
            SuspendUnawareInstant { secs, nanos: 0 }
        }
    }

    /// The current instant.
    pub fn now() -> (r: Self)
        ensures
            r.wf(),
    {
        crate::platform::now()
    }

    /// The time that passed since this instant, or the zero duration where
    /// this instant lies ahead of the clock.
    pub fn elapsed(&self) -> (r: Duration)
        ensures
            exists|t: SuspendUnawareInstant|
                t.wf() && #[trigger] saturating_before(t@, self@) == duration_nanos(r),
            duration_subsec_nanos(r) < NANOS_PER_SECOND,
    {
        Self::now() - *self
    }

    /// The instant that lies `secs` seconds and `nanos` nanoseconds after
    /// this one. Where the sum would pass the last instant that can be held,
    /// the result is the zero instant.
    pub fn add_duration(self, secs: u64, nanos: u32) -> (r: Self)
        requires
            nanos < NANOS_PER_SECOND,
        ensures
            r.wf(),
            r@ == saturating_after(self@, total_nanos(secs, nanos)),
            self@ + total_nanos(secs, nanos) >= instant_limit() ==> r@ == 0,
    {
        proof {
            use_type_invariant(self);
        }
        match self.secs.checked_add(secs) {
            None => SuspendUnawareInstant { secs: 0, nanos: 0 },
            Some(sum_secs) => {
                let sum_nanos: u32 = self.nanos + nanos;
                let nanos_carry: u64 = (sum_nanos / NANOS_PER_SECOND) as u64;
                match sum_secs.checked_add(nanos_carry) {
                    None => SuspendUnawareInstant { secs: 0, nanos: 0 },
                    Some(carried_secs) => SuspendUnawareInstant {
                        secs: carried_secs,
                        nanos: sum_nanos % NANOS_PER_SECOND,
                    },
                }
            },
        }
    }

    /// The instant that lies `secs` seconds and `nanos` nanoseconds before
    /// this one. Where that is more than the time that this instant holds,
    /// the result is the zero instant.
    pub fn subtract_duration(self, secs: u64, nanos: u32) -> (r: Self)
        requires
            nanos < NANOS_PER_SECOND,
        ensures
            r.wf(),
            r@ == saturating_before(self@, total_nanos(secs, nanos)),
            total_nanos(secs, nanos) > self@ ==> r@ == 0,
    {
        proof {
            use_type_invariant(self);
        }
        match self.secs.checked_sub(secs) {
            None => SuspendUnawareInstant { secs: 0, nanos: 0 },
            Some(diff_secs) => {
                if nanos > self.nanos {
                    // With equal seconds, the larger nanoseconds reach below zero.
                    if diff_secs == 0 {
                        SuspendUnawareInstant { secs: 0, nanos: 0 }
                    } else {
                        SuspendUnawareInstant {
                            secs: diff_secs - 1,
                            nanos: (NANOS_PER_SECOND + self.nanos) - nanos,
                        }
                    }
                } else {
                    SuspendUnawareInstant { secs: diff_secs, nanos: self.nanos - nanos }
                }
            },
        }
    }

    /// The seconds and nanoseconds that passed from `earlier` to this
    /// instant, or zero of both where `earlier` is the later of the two.
    pub fn difference(self, earlier: Self) -> (r: (u64, u32))
        ensures
            r.1 < NANOS_PER_SECOND,
            total_nanos(r.0, r.1) == saturating_before(self@, earlier@),
            self@ < earlier@ ==> r.0 == 0 && r.1 == 0,
    {
        proof {
            use_type_invariant(self);
            use_type_invariant(earlier);
        }
        if earlier > self {
            (0, 0)
        } else {
            let diff_secs: u64 = self.secs - earlier.secs;
            if earlier.nanos > self.nanos {
                (diff_secs - 1, NANOS_PER_SECOND + self.nanos - earlier.nanos)
            } else {
                (diff_secs, self.nanos - earlier.nanos)
            }
        }
    }

    /// The whole seconds of the instant.
    pub fn secs(&self) -> (r: u64)
        ensures
            r == self.spec_secs(),
    {
        self.secs
    }

    /// The nanoseconds of the instant beyond its whole seconds.
    pub fn subsec_nanos(&self) -> (r: u32)
        ensures
            r == self.spec_subsec_nanos(),
            r < NANOS_PER_SECOND,
    {
        proof {
            use_type_invariant(self);
        }
        self.nanos
    }
}

/// What `+` means between an instant and a duration: the saturating sum of
/// their nanoseconds, on every pair.
impl AddSpecImpl<Duration> for SuspendUnawareInstant {
    open spec fn obeys_add_spec() -> bool {
        true
    }

    open spec fn add_req(self, rhs: Duration) -> bool {
        true
    }

    open spec fn add_spec(self, rhs: Duration) -> Self {
        Self::of_nanos(saturating_after(self@, duration_nanos(rhs)))
    }
}

impl Add<Duration> for SuspendUnawareInstant {
    type Output = SuspendUnawareInstant;

    /// The instant that lies `rhs` after this one. Where the sum would pass
    /// the last instant that can be held, the result is the zero instant.
    fn add(self, rhs: Duration) -> (r: SuspendUnawareInstant)
        ensures
            r.wf(),
            r@ == saturating_after(self@, duration_nanos(rhs)),
            self@ + duration_nanos(rhs) >= instant_limit() ==> r@ == 0,
    {
        self.add_duration(rhs.as_secs(), rhs.subsec_nanos())
    }
}

/// What `-` means between an instant and a duration: the saturating
/// difference of their nanoseconds, on every pair.
impl SubSpecImpl<Duration> for SuspendUnawareInstant {
    open spec fn obeys_sub_spec() -> bool {
        true
    }

    open spec fn sub_req(self, rhs: Duration) -> bool {
        true
    }

    open spec fn sub_spec(self, rhs: Duration) -> Self {
        Self::of_nanos(saturating_before(self@, duration_nanos(rhs)))
    }
}

impl Sub<Duration> for SuspendUnawareInstant {
    type Output = SuspendUnawareInstant;

    /// The instant that lies `rhs` before this one. Where `rhs` is longer
    /// than the time that this instant holds, the result is the zero instant.
    fn sub(self, rhs: Duration) -> (r: SuspendUnawareInstant)
        ensures
            r.wf(),
            r@ == saturating_before(self@, duration_nanos(rhs)),
            duration_nanos(rhs) > self@ ==> r@ == 0,
    {
        self.subtract_duration(rhs.as_secs(), rhs.subsec_nanos())
    }
}

/// `-` between two instants gives a `Duration`, which no specification can
/// write down as a value: what the difference holds is stated by the
/// `ensures` of `sub`, over the duration's seconds and nanoseconds.
impl SubSpecImpl<SuspendUnawareInstant> for SuspendUnawareInstant {
    open spec fn obeys_sub_spec() -> bool {
        false
    }

    open spec fn sub_req(self, rhs: SuspendUnawareInstant) -> bool {
        true
    }

    open spec fn sub_spec(self, rhs: SuspendUnawareInstant) -> Duration {
        arbitrary()
    }
}

impl Sub<SuspendUnawareInstant> for SuspendUnawareInstant {
    type Output = Duration;

    /// The time that passed from `rhs` to this instant, or the zero duration
    /// where `rhs` is the later of the two.
    fn sub(self, rhs: SuspendUnawareInstant) -> (r: Duration)
        ensures
            duration_nanos(r) == saturating_before(self@, rhs@),
            duration_secs(r) == saturating_before(self@, rhs@) / 1_000_000_000,
            duration_subsec_nanos(r) == saturating_before(self@, rhs@) % 1_000_000_000,
            self@ < rhs@ ==> duration_nanos(r) == 0,
    {
        let (secs, nanos) = self.difference(rhs);
        Duration::new(secs, nanos)
    }
}

/// The order of two instants: by their seconds first, then by their
/// nanoseconds.
pub open spec fn lexicographic(a: SuspendUnawareInstant, b: SuspendUnawareInstant) -> Ordering {
    if a.spec_secs() < b.spec_secs() {
        Ordering::Less
    } else if a.spec_secs() > b.spec_secs() {
        Ordering::Greater
    } else if a.spec_subsec_nanos() < b.spec_subsec_nanos() {
        Ordering::Less
    } else if a.spec_subsec_nanos() > b.spec_subsec_nanos() {
        Ordering::Greater
    } else {
        Ordering::Equal
    }
}

/// What `<`, `<=`, `>` and `>=` mean between two instants.
impl PartialOrdSpecImpl for SuspendUnawareInstant {
    open spec fn obeys_partial_cmp_spec() -> bool {
        true
    }

    open spec fn partial_cmp_spec(&self, other: &Self) -> Option<Ordering> {
        Some(lexicographic(*self, *other))
    }
}

/// The comparison itself, which orders as the derived `Ord` does: by the
/// fields in the order in which the struct declares them.
impl PartialOrd for SuspendUnawareInstant {
    fn partial_cmp(&self, other: &Self) -> (r: Option<Ordering>) {
        if self.secs < other.secs {
            Some(Ordering::Less)
        } else if self.secs > other.secs {
            Some(Ordering::Greater)
        } else if self.nanos < other.nanos {
            Some(Ordering::Less)
        } else if self.nanos > other.nanos {
            Some(Ordering::Greater)
        } else {
            Some(Ordering::Equal)
        }
    }
}

/// On valid instants the order agrees with the order of the views, and two
/// instants with one view are one instant.
pub proof fn lemma_order_matches_view(a: SuspendUnawareInstant, b: SuspendUnawareInstant)
    requires
        a.wf(),
        b.wf(),
    ensures
        lexicographic(a, b) == Ordering::Less <==> a@ < b@,
        lexicographic(a, b) == Ordering::Equal <==> a@ == b@,
        lexicographic(a, b) == Ordering::Greater <==> a@ > b@,
        a@ == b@ <==> a == b,
{
}

/// No instant comes before itself, and only equal instants compare as equal.
pub proof fn lemma_order_irreflexive(a: SuspendUnawareInstant, b: SuspendUnawareInstant)
    ensures
        lexicographic(a, a) == Ordering::Equal,
        lexicographic(a, b) == Ordering::Equal <==> a == b,
{
}

/// Of two instants exactly one comes first, unless they are equal; and what
/// one sees from the first, the other sees mirrored.
pub proof fn lemma_order_total(a: SuspendUnawareInstant, b: SuspendUnawareInstant)
    ensures
        lexicographic(a, b) == Ordering::Less <==> lexicographic(b, a) == Ordering::Greater,
        lexicographic(a, b) == Ordering::Equal <==> lexicographic(b, a) == Ordering::Equal,
        lexicographic(a, b) == Ordering::Less || a == b || lexicographic(b, a) == Ordering::Less,
        !(lexicographic(a, b) == Ordering::Less && lexicographic(b, a) == Ordering::Less),
{
}

/// The order is transitive.
pub proof fn lemma_order_transitive(
    a: SuspendUnawareInstant,
    b: SuspendUnawareInstant,
    c: SuspendUnawareInstant,
)
    requires
        lexicographic(a, b) == Ordering::Less,
        lexicographic(b, c) != Ordering::Greater,
    ensures
        lexicographic(a, c) == Ordering::Less,
{
}

/// A valid instant is told by its view, and stays below the limit.
pub proof fn lemma_view_of_nanos(a: SuspendUnawareInstant)
    requires
        a.wf(),
    ensures
        a@ < instant_limit(),
        SuspendUnawareInstant::of_nanos(a@) == a,
{
}

/// Below the limit, the instant of a number of nanoseconds is valid and has
/// that number as its view.
pub proof fn lemma_of_nanos_view(n: nat)
    requires
        n < instant_limit(),
    ensures
        SuspendUnawareInstant::of_nanos(n).wf(),
        SuspendUnawareInstant::of_nanos(n)@ == n,
{
}

} // verus!
