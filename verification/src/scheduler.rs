//! The rule that decides, tick by tick, whether the times are computed again.

use vstd::prelude::*;

verus! {

/// Nanoseconds in one second.
pub const NANOS_PER_SECOND: u128 = 1_000_000_000;

/// The least time between two refreshes under the throttled policy: 60 seconds.
pub const REFRESH_INTERVAL_NANOS: u128 = 60_000_000_000;

/// When the times are computed again.
#[derive(Clone, Copy, Debug, PartialEq, Eq, Structural)]
pub enum RefreshPolicy {
    /// Once 60 seconds have passed since the last refresh, and not before.
    Throttled,
    /// On every tick.
    Unthrottled,
}

/// What a [`RefreshScheduler`] holds.
pub struct SchedulerState {
    /// The policy, fixed when the scheduler is made.
    pub policy: RefreshPolicy,
    /// The monotonic clock's reading, in nanoseconds, at the last refresh.
    pub last_update: int,
}

/// Whether a tick at the reading `now` refreshes, the last refresh having
/// been at the reading `last_update`.
pub open spec fn refresh_due(policy: RefreshPolicy, last_update: int, now: int) -> bool {
    match policy {
        RefreshPolicy::Throttled => now - last_update >= REFRESH_INTERVAL_NANOS,
        RefreshPolicy::Unthrottled => true,
    }
}

impl SchedulerState {
    /// Whether a tick at the reading `now` refreshes.
    pub open spec fn due(self, now: int) -> bool {
        refresh_due(self.policy, self.last_update, now)
    }

    /// The state after a tick at the reading `now`: a tick that refreshes
    /// moves the last refresh to `now`, any other changes nothing.
    pub open spec fn after_tick(self, now: int) -> SchedulerState {
        if self.due(now) {
            SchedulerState { policy: self.policy, last_update: now }
        } else {
            self
        }
    }
}

/// Decides when the times are computed again. Readings are those of a
/// monotonic clock, in nanoseconds since an origin that the caller fixes.
#[derive(Clone, Copy, Debug)]
pub struct RefreshScheduler {
    policy: RefreshPolicy,
    last_update: u128,
}

impl View for RefreshScheduler {
    type V = SchedulerState;

    closed spec fn view(&self) -> SchedulerState {
        SchedulerState { policy: self.policy, last_update: self.last_update as int }
    }
}

impl RefreshScheduler {
    /// A scheduler whose last refresh was at the reading `now`.
    pub fn new(policy: RefreshPolicy, now: u128) -> (scheduler: Self)
        ensures
            scheduler@ == (SchedulerState { policy, last_update: now as int }),
    {
        RefreshScheduler { policy, last_update: now }
    }

    /// Whether a tick at the reading `now` would refresh.
    pub fn is_due(&self, now: u128) -> (due: bool)
        ensures
            due == self@.due(now as int),
    {
        match self.policy {
            RefreshPolicy::Throttled => now >= self.last_update && now - self.last_update
                >= REFRESH_INTERVAL_NANOS,
            RefreshPolicy::Unthrottled => true,
        }
    }

    /// One tick at the reading `now`. Returns whether the times are to be
    /// computed again and the display redrawn; if so, the last refresh moves
    /// to `now`.
    pub fn tick(&mut self, now: u128) -> (redraw: bool)
        ensures
            redraw == old(self)@.due(now as int),
            final(self)@ == old(self)@.after_tick(now as int),
    {
        let due = self.is_due(now);
        if due {
            self.last_update = now;
        }
        due
    }

    /// The policy.
    pub fn policy(&self) -> (policy: RefreshPolicy)
        ensures
            policy == self@.policy,
    {
        self.policy
    }

    /// The reading at the last refresh.
    pub fn last_update(&self) -> (reading: u128)
        ensures
            reading == self@.last_update,
    {
        self.last_update
    }
}

} // verus!
