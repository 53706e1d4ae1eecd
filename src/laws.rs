use vstd::prelude::*;

use crate::days::{day_label, day_names, day_names_upto, has_day, RunningDays};
use crate::model::{classify, LiveRouteInfo, LiveStatus};

verus! {

/// The labels of the first `n` weekdays are empty exactly when `bits` holds
/// none of those days.
proof fn lemma_names_upto_empty(bits: u8, n: nat)
    requires
        n <= 7,
    ensures
        day_names_upto(bits, n).len() == 0 <==> forall|d: int| 0 <= d < n ==> !has_day(bits, d),
    decreases n,
{
    if n > 0 {
        lemma_names_upto_empty(bits, (n - 1) as nat);
        assert(day_label(n - 1).len() == 2);
    }
}

/// The display form of a 7-bit mask depends on the mask alone: two sets with
/// the same mask decode to the same string. It is empty exactly for the empty
/// mask, and Sunday with Saturday decode to "Su Sa".
pub proof fn lemma_running_days_decode(a: RunningDays, b: RunningDays, bits: u8)
    requires
        bits < 128,
        a@ == bits,
        b@ == bits,
    ensures
        day_names(a@) == day_names(b@),
        day_names(bits).len() == 0 <==> bits == 0,
        day_names(0) == Seq::<char>::empty(),
        day_names(65) == seq!['S', 'u', ' ', 'S', 'a'],
{
    assert(0u8 & 1u8 == 0u8 && 0u8 & 2u8 == 0u8 && 0u8 & 4u8 == 0u8 && 0u8 & 8u8 == 0u8)
        by (bit_vector);
    assert(0u8 & 16u8 == 0u8 && 0u8 & 32u8 == 0u8 && 0u8 & 64u8 == 0u8) by (bit_vector);
    assert(65u8 & 1u8 == 1u8 && 65u8 & 2u8 == 0u8 && 65u8 & 4u8 == 0u8 && 65u8 & 8u8 == 0u8)
        by (bit_vector);
    assert(65u8 & 16u8 == 0u8 && 65u8 & 32u8 == 0u8 && 65u8 & 64u8 == 64u8) by (bit_vector);
    lemma_names_upto_empty(bits, 7);
    let none = !has_day(bits, 0) && !has_day(bits, 1) && !has_day(bits, 2) && !has_day(bits, 3)
        && !has_day(bits, 4) && !has_day(bits, 5) && !has_day(bits, 6);
    assert(none <==> bits == 0) by {
        assert(bits < 128 ==> ((bits & 1u8 != 1u8 && bits & 2u8 != 2u8 && bits & 4u8 != 4u8
            && bits & 8u8 != 8u8 && bits & 16u8 != 16u8 && bits & 32u8 != 32u8 && bits & 64u8
            != 64u8) <==> bits == 0)) by (bit_vector);
    }
    assert(none ==> forall|d: int| 0 <= d < 7 ==> !has_day(bits, d));
    reveal_with_fuel(day_names_upto, 8);
    assert(day_names(0) =~= Seq::<char>::empty());
    assert(day_names_upto(65, 1) =~= seq!['S', 'u']);
    assert(day_names(65) =~= seq!['S', 'u', ' ', 'S', 'a']);
}

/// A stop that departed one second before the current time is departed,
/// whatever its arrival time.
pub proof fn lemma_departed_before_now(stop: LiveRouteInfo, now: u64)
    requires
        now >= 1,
        stop.actual_departure == Option::Some((now - 1) as u64),
    ensures
        classify(stop.status, stop.actual_arrival, stop.actual_departure, now)
            == LiveStatus::Departed,
{
}

/// A stop with no departure that arrived exactly at the current time is
/// arrived, not upcoming.
pub proof fn lemma_arrived_at_now(stop: LiveRouteInfo, now: u64)
    requires
        stop.actual_departure is None,
        stop.actual_arrival == Option::Some(now),
    ensures
        classify(stop.status, stop.actual_arrival, stop.actual_departure, now)
            == LiveStatus::Arrived,
{
}

/// A stop with no departure that arrives one second after the current time is
/// upcoming.
pub proof fn lemma_upcoming_after_now(stop: LiveRouteInfo, now: u64)
    requires
        now < u64::MAX,
        stop.actual_departure is None,
        stop.actual_arrival == Option::Some((now + 1) as u64),
    ensures
        classify(stop.status, stop.actual_arrival, stop.actual_departure, now)
            == LiveStatus::Upcoming,
{
}

/// A stop with neither actual time keeps its status: one not yet derived
/// stays unknown.
pub proof fn lemma_no_actual_times(stop: LiveRouteInfo, now: u64)
    requires
        stop.actual_departure is None,
        stop.actual_arrival is None,
    ensures
        classify(stop.status, stop.actual_arrival, stop.actual_departure, now) == stop.status,
        stop.status == LiveStatus::Unknown ==> classify(
            stop.status,
            stop.actual_arrival,
            stop.actual_departure,
            now,
        ) == LiveStatus::Unknown,
{
}

} // verus!
