//! The cities together with their refresh rule: what the host's loop drives.

use vstd::prelude::*;
use crate::clock_model::all_show;
use crate::clock_model::built_from;
use crate::clock_model::exactly_one_home;
use crate::clock_model::refusal;
use crate::clock_model::same_cities;
use crate::clock_model::ClockModel;
use crate::clock_model::ConfigError;
use crate::clock_model::DisplayEntry;
use crate::clock_model::LocationSpec;
use crate::instant::Timestamp;
use crate::scheduler::RefreshPolicy;
use crate::scheduler::RefreshScheduler;
use crate::scheduler::SchedulerState;
use crate::city::WorldTimeView;

verus! {

/// The cities on display and the scheduler that refreshes them.
#[derive(Debug)]
pub struct WorldClock {
    model: ClockModel,
    scheduler: RefreshScheduler,
}

impl WorldClock {
    /// The cities, in order.
    pub closed spec fn cities(&self) -> Seq<WorldTimeView> {
        self.model@
    }

    /// The scheduler's state.
    pub closed spec fn schedule(&self) -> SchedulerState {
        self.scheduler@
    }

    /// Builds the cities that `specs` describe, their times computed for the
    /// instant `now`, with a scheduler whose last refresh is the monotonic
    /// reading `reading`.
    pub fn new(
        specs: Vec<LocationSpec>,
        policy: RefreshPolicy,
        reading: u128,
        now: Timestamp,
    ) -> (result: Result<WorldClock, ConfigError>)
        ensures
            match result {
                Ok(clock) => {
                    &&& refusal(specs@).is_none()
                    &&& exactly_one_home(clock.cities())
                    &&& built_from(specs@, clock.cities())
                    &&& clock.schedule() == (SchedulerState {
                        policy,
                        last_update: reading as int,
                    })
                    &&& exists|local_offset: int|
                        -86_400 < local_offset < 86_400 && #[trigger] all_show(
                            clock.cities(),
                            now@,
                            local_offset,
                        )
                },
                Err(error) => refusal(specs@) == Some(error),
            },
    {
        match ClockModel::initialize(specs, now) {
            Ok(model) => Ok(WorldClock { model, scheduler: RefreshScheduler::new(policy, reading) }),
            Err(error) => Err(error),
        }
    }

    /// One iteration of the host's loop, at the monotonic reading `reading`
    /// and the instant `now`. Where the scheduler finds a refresh due, every
    /// city's time is computed again for `now` and the result is `true`: the
    /// display is to be redrawn. Otherwise nothing changes.
    pub fn tick(&mut self, reading: u128, now: Timestamp) -> (redraw: bool)
        ensures
            redraw == old(self).schedule().due(reading as int),
            final(self).schedule() == old(self).schedule().after_tick(reading as int),
            same_cities(old(self).cities(), final(self).cities()),
            !redraw ==> final(self).cities() == old(self).cities(),
            redraw ==> exists|local_offset: int|
                -86_400 < local_offset < 86_400 && #[trigger] all_show(
                    final(self).cities(),
                    now@,
                    local_offset,
                ),
    {
        let redraw = self.scheduler.tick(reading);
        if redraw {
            self.model.recompute_all(now);
        }
        redraw
    }

    /// What the presentation layer shows: one entry for each city, in order.
    pub fn get_display_snapshot(&self) -> (entries: Vec<DisplayEntry>)
        ensures
            entries.len() == self.cities().len(),
            forall|i: int|
                0 <= i < self.cities().len() ==> (#[trigger] entries[i]).reports(self.cities()[i]),
    {
        self.model.get_display_snapshot()
    }

    /// The cities.
    pub fn model(&self) -> (model: &ClockModel)
        ensures
            model@ == self.cities(),
    {
        &self.model
    }

    /// The scheduler.
    pub fn scheduler(&self) -> (scheduler: &RefreshScheduler)
        ensures
            scheduler@ == self.schedule(),
    {
        &self.scheduler
    }
}

} // verus!
