//! What holds of every pass and every tick, proved from the contracts.

use vstd::prelude::*;
use crate::civil::display_of;
use crate::civil::lemma_display_shifted;
use crate::civil::shift_text;
use crate::civil::text_minute;
use crate::clock_model::all_show;
use crate::clock_model::marks_only;
use crate::clock_model::refusal;
use crate::clock_model::same_cities;
use crate::clock_model::two_homes;
use crate::clock_model::no_home;
use crate::clock_model::LocationSpec;
use crate::scheduler::RefreshPolicy;
use crate::scheduler::SchedulerState;
use crate::scheduler::NANOS_PER_SECOND;
use crate::city::offset_wall;
use crate::city::TimeSource;
use crate::city::WorldTimeView;

verus! {

/// After a pass, a city `ahead` hours ahead of the home city's clock shows the
/// time of a city `base` hours ahead of it, moved on by `ahead - base` hours,
/// modulo 24 hours.
pub proof fn lemma_offset_cities_agree(
    cities: Seq<WorldTimeView>,
    now: int,
    local_offset: int,
    i: int,
    j: int,
    base: i32,
    ahead: i32,
)
    requires
        all_show(cities, now, local_offset),
        0 <= i < cities.len(),
        0 <= j < cities.len(),
        cities[i].source == TimeSource::Offset(base),
        cities[j].source == TimeSource::Offset(ahead),
    ensures
        cities[j].time == shift_text(cities[i].time, ahead - base),
{
    lemma_display_shifted(offset_wall(now, base as int), ahead - base);
    assert(offset_wall(now, ahead as int) == offset_wall(now, base as int) + 3_600 * (ahead
        - base));
}

/// After a pass under the offset strategy, every city shows the home city's
/// time plus its own offset in hours, modulo 24 hours. The home city's own
/// offset is zero, or a whole number of days.
pub proof fn lemma_offset_cities_follow_home(
    cities: Seq<WorldTimeView>,
    now: int,
    local_offset: int,
    home: int,
    other: int,
    base: i32,
    ahead: i32,
)
    requires
        all_show(cities, now, local_offset),
        0 <= home < cities.len(),
        0 <= other < cities.len(),
        cities[home].is_home,
        cities[home].source == TimeSource::Offset(base),
        base % 24 == 0,
        cities[other].source == TimeSource::Offset(ahead),
    ensures
        cities[other].time == shift_text(cities[home].time, ahead as int),
{
    lemma_offset_cities_agree(cities, now, local_offset, home, other, base, ahead);
    let minute = text_minute(cities[home].time);
    let days = base as int / 24;
    assert(base == 24 * days);
    assert(minute + 60 * (ahead - base) == minute + 60 * ahead + 1_440 * (-days));
    vstd::arithmetic::div_mod::lemma_mod_multiples_vanish(-days, minute + 60 * ahead, 1_440);
}

/// A city that does not fall back on the machine's local zone shows the same
/// time whatever that zone is: a city on the offset strategy follows the home
/// city's clock, and a city in a zone that the database knows shows that
/// zone's civil time.
pub proof fn lemma_shown_time_ignores_local_zone(
    city: WorldTimeView,
    now: int,
    local_a: int,
    local_b: int,
)
    requires
        !city.falls_back(now),
    ensures
        city.shown_at(now, local_a) == city.shown_at(now, local_b),
        city.source == TimeSource::Zone ==> city.shown_at(now, local_a) == display_of(
            now + city.zone_offset(now).unwrap(),
        ),
{
}

/// A city whose identifier names no zone shows the machine's local time.
pub proof fn lemma_unknown_zone_shows_local_time(city: WorldTimeView, now: int, local_offset: int)
    requires
        city.falls_back(now),
    ensures
        city.shown_at(now, local_offset) == display_of(now + local_offset),
{
}

/// A second pass at the same instant changes nothing, the machine's local
/// zone being what it was at the first pass, or no city falling back on it.
pub proof fn lemma_recompute_idempotent(
    first: Seq<WorldTimeView>,
    second: Seq<WorldTimeView>,
    now: int,
    local_first: int,
    local_second: int,
)
    requires
        all_show(first, now, local_first),
        same_cities(first, second),
        all_show(second, now, local_second),
        local_first == local_second || forall|i: int|
            0 <= i < first.len() ==> !(#[trigger] first[i]).falls_back(now),
    ensures
        second == first,
{
    assert forall|i: int| 0 <= i < first.len() implies second[i] == first[i] by {
        assert(second[i] == first[i].with_time(second[i].time));
        assert(first[i].time == first[i].shown_at(now, local_first));
        assert(second[i].time == second[i].shown_at(now, local_second));
        if local_first != local_second {
            lemma_shown_time_ignores_local_zone(first[i], now, local_first, local_second);
        }
    }
    assert(second =~= first);
}

/// A set of cities is accepted exactly where one city, and no other, is
/// marked as home.
pub proof fn lemma_accepted_iff_one_home(specs: Seq<LocationSpec>)
    ensures
        refusal(specs).is_none() <==> exists|r: int| #[trigger] marks_only(specs, r),
{
    if refusal(specs).is_none() {
        assert(!no_home(specs));
        let r = choose|r: int| 0 <= r < specs.len() && (#[trigger] specs[r]).is_home;
        assert forall|j: int| 0 <= j < specs.len() implies ((#[trigger] specs[j]).is_home <==> j
            == r) by {
            if specs[j].is_home && j != r {
                if j < r {
                    assert(specs[j].is_home && specs[r].is_home);
                } else {
                    assert(specs[r].is_home && specs[j].is_home);
                }
                assert(two_homes(specs));
            }
        }
        assert(marks_only(specs, r));
    }
    if exists|r: int| #[trigger] marks_only(specs, r) {
        let r = choose|r: int| #[trigger] marks_only(specs, r);
        assert(specs[r].is_home);
        assert(!no_home(specs));
        if two_homes(specs) {
            let (i, j) = choose|i: int, j: int|
                0 <= i < j < specs.len() && (#[trigger] specs[i]).is_home && (
                #[trigger] specs[j]).is_home;
            assert(i == r && j == r);
        }
    }
}

/// Under the throttled policy a tick less than 60 seconds after the last
/// refresh does nothing; a tick at 60 seconds or later refreshes and moves
/// the last refresh to its own reading, so that a second tick at that reading,
/// or at any reading less than 60 seconds later, does nothing.
pub proof fn lemma_throttled_refreshes_once(state: SchedulerState, now: int, later: int)
    requires
        state.policy == RefreshPolicy::Throttled,
        now <= later < now + 60 * NANOS_PER_SECOND,
    ensures
        now < state.last_update + 60 * NANOS_PER_SECOND ==> !state.due(now) && state.after_tick(
            now,
        ) == state,
        now >= state.last_update + 60 * NANOS_PER_SECOND ==> state.due(now) && state.after_tick(
            now,
        ).last_update == now && !state.after_tick(now).due(later),
        state.after_tick(now).policy == RefreshPolicy::Throttled,
{
}

/// Under the unthrottled policy every tick refreshes.
pub proof fn lemma_unthrottled_always_refreshes(state: SchedulerState, now: int)
    requires
        state.policy == RefreshPolicy::Unthrottled,
    ensures
        state.due(now),
        state.after_tick(now) == (SchedulerState {
            policy: RefreshPolicy::Unthrottled,
            last_update: now,
        }),
{
}

} // verus!
