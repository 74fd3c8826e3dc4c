//! One city and the time it shows.

use vstd::prelude::*;
use crate::calendar::local_offset_seconds;
use crate::calendar::zone_offset_at;
use crate::calendar::zone_offset_seconds;
use crate::calendar::MAX_UNIX_SECONDS;
use crate::civil::display_of;
use crate::civil::display_text;
use crate::civil::is_clock_text;
use crate::civil::SECONDS_PER_HOUR;
use crate::instant::Timestamp;

verus! {

/// The home city's offset from UTC in whole hours: Austin, taken as UTC-6 the
/// year round. Times on the offset strategy are exact to this rule and do not
/// follow daylight saving; a city that is to follow it uses
/// [`TimeSource::Zone`].
pub const HOME_UTC_OFFSET_HOURS: i64 = -6;

/// How a city's wall-clock time is derived from an instant.
#[derive(Clone, Copy, Debug, PartialEq, Eq, Structural)]
pub enum TimeSource {
    /// A fixed number of whole hours ahead of the home city's clock.
    Offset(i32),
    /// The civil time of the zone that the city's zone identifier names,
    /// and the machine's local time where the identifier names no zone.
    Zone,
}

impl TimeSource {
    /// Whether a city on this strategy shows the machine's local time, the
    /// database having given `zone_offset` for its identifier.
    pub open spec fn falls_back_on(self, zone_offset: Option<i32>) -> bool {
        self == TimeSource::Zone && zone_offset.is_none()
    }

    /// Whether a city on this strategy shows the machine's local time, the
    /// database having given `zone_offset` for its identifier.
    pub fn needs_local(self, zone_offset: Option<i32>) -> (needed: bool)
        ensures
            needed == self.falls_back_on(zone_offset),
    {
        match self {
            TimeSource::Zone => zone_offset.is_none(),
            TimeSource::Offset(_) => false,
        }
    }
}

/// The home city's wall clock at the instant `now`, in seconds.
pub open spec fn home_wall(now: int) -> int {
    now + 3_600 * HOME_UTC_OFFSET_HOURS
}

/// The wall clock `diff_hours` whole hours ahead of the home city's.
pub open spec fn offset_wall(now: int, diff_hours: int) -> int {
    home_wall(now) + 3_600 * diff_hours
}

/// The wall clock of a zone that is `zone_offset` seconds east of UTC, and the
/// local wall clock, `local_offset` seconds east, where the zone is unknown.
pub open spec fn zone_wall(now: int, zone_offset: Option<i32>, local_offset: int) -> int {
    match zone_offset {
        Some(offset) => now + offset,
        None => now + local_offset,
    }
}

/// The wall clock that `source` gives at the instant `now`.
pub open spec fn source_wall(
    source: TimeSource,
    now: int,
    zone_offset: Option<i32>,
    local_offset: int,
) -> int {
    match source {
        TimeSource::Offset(diff_hours) => offset_wall(now, diff_hours as int),
        TimeSource::Zone => zone_wall(now, zone_offset, local_offset),
    }
}

/// A city, the way its time is derived, and the time it showed when last computed.
#[derive(Debug)]
pub struct WorldTime {
    name: String,
    time: String,
    source: TimeSource,
    is_home: bool,
    timezone_id: String,
}

/// What a [`WorldTime`] holds, as mathematical values.
pub struct WorldTimeView {
    /// The display label.
    pub name: Seq<char>,
    /// The time last computed, as `HH:MM`.
    pub time: Seq<char>,
    /// How the time is derived.
    pub source: TimeSource,
    /// Whether this is the home city.
    pub is_home: bool,
    /// The zone identifier, such as `Europe/Berlin`.
    pub timezone_id: Seq<char>,
}

impl WorldTimeView {
    /// The offset that the time-zone database gives for this city at `now`.
    pub open spec fn zone_offset(self, now: int) -> Option<i32> {
        zone_offset_at(self.timezone_id, now)
    }

    /// Whether this city shows the machine's local time at `now`: it follows
    /// a zone, and the database knows no zone of its identifier.
    pub open spec fn falls_back(self, now: int) -> bool {
        self.source.falls_back_on(self.zone_offset(now))
    }

    /// The text this city shows at the instant `now` on a machine whose local
    /// zone is `local_offset` seconds east of UTC.
    pub open spec fn shown_at(self, now: int, local_offset: int) -> Seq<char> {
        display_of(source_wall(self.source, now, self.zone_offset(now), local_offset))
    }

    /// The same city with another time on display.
    pub open spec fn with_time(self, time: Seq<char>) -> WorldTimeView {
        WorldTimeView { time, ..self }
    }
}

impl View for WorldTime {
    type V = WorldTimeView;

    closed spec fn view(&self) -> WorldTimeView {
        WorldTimeView {
            name: self.name@,
            time: self.time@,
            source: self.source,
            is_home: self.is_home,
            timezone_id: self.timezone_id@,
        }
    }
}

impl Clone for WorldTime {
    /// A second city with the same label, zone, strategy and time on display.
    fn clone(&self) -> (copy: Self)
        ensures
            copy@ == self@,
    {
        proof {
            use_type_invariant(self);
        }
        WorldTime {
            name: self.name.clone(),
            time: self.time.clone(),
            source: self.source,
            is_home: self.is_home,
            timezone_id: self.timezone_id.clone(),
        }
    }
}

impl WorldTime {
    /// The time on display is the `HH:MM` text of some minute of the day.
    /// This is the type's invariant.
    #[verifier::type_invariant]
    pub open spec fn wf(&self) -> bool {
        is_clock_text(self@.time)
    }

    /// The home city's wall clock now, in seconds.
    pub fn get_austin_time() -> (wall: i64)
        ensures
            exists|now: int| 0 <= now <= MAX_UNIX_SECONDS && wall == #[trigger] home_wall(now),
    {
        let now = Timestamp::now();
        let wall = Self::austin_time_at(now);
        assert(wall == home_wall(now@));
        wall
    }

    /// The home city's wall clock at the instant `now`, in seconds.
    pub fn austin_time_at(now: Timestamp) -> (wall: i64)
        ensures
            wall == home_wall(now@),
    {
        now.unix_seconds() + HOME_UTC_OFFSET_HOURS * SECONDS_PER_HOUR
    }

    /// The time now, `austin_offset` whole hours ahead of the home city's clock.
    pub fn calculate_time_from_austin(austin_offset: i32) -> (text: String)
        ensures
            exists|now: int|
                0 <= now <= MAX_UNIX_SECONDS && text@ == display_of(
                    #[trigger] offset_wall(now, austin_offset as int),
                ),
            is_clock_text(text@),
    {
        let now = Timestamp::now();
        let text = Self::time_from_austin_at(now, austin_offset);
        assert(text@ == display_of(offset_wall(now@, austin_offset as int)));
        text
    }

    /// The time at the instant `now`, `austin_offset` whole hours ahead of the
    /// home city's clock.
    pub fn time_from_austin_at(now: Timestamp, austin_offset: i32) -> (text: String)
        ensures
            text@ == display_of(offset_wall(now@, austin_offset as int)),
            is_clock_text(text@),
    {
        let ahead: i64 = HOME_UTC_OFFSET_HOURS + austin_offset as i64;
        display_text(now.unix_seconds() + ahead * SECONDS_PER_HOUR)
    }

    /// The time at the instant `now` in a zone that is `zone_offset` seconds
    /// east of UTC, and the local time, `local_offset` seconds east, where
    /// `zone_offset` is `None`.
    pub fn zone_time_from(now: Timestamp, zone_offset: Option<i32>, local_offset: i32) -> (text:
        String)
        ensures
            text@ == display_of(zone_wall(now@, zone_offset, local_offset as int)),
            is_clock_text(text@),
    {
        let east: i64 = match zone_offset {
            Some(offset) => offset as i64,
            None => local_offset as i64,
        };
        display_text(now.unix_seconds() + east)
    }

    /// The time at the instant `now` of a city whose time is derived by
    /// `source`, in a zone `zone_offset` seconds east of UTC, on a machine
    /// whose local zone is `local_offset` seconds east.
    pub fn source_time_from(
        source: TimeSource,
        now: Timestamp,
        zone_offset: Option<i32>,
        local_offset: i32,
    ) -> (text: String)
        ensures
            text@ == display_of(source_wall(source, now@, zone_offset, local_offset as int)),
            is_clock_text(text@),
    {
        match source {
            TimeSource::Offset(diff_hours) => Self::time_from_austin_at(now, diff_hours),
            TimeSource::Zone => Self::zone_time_from(now, zone_offset, local_offset),
        }
    }

    /// A city a fixed number of hours ahead of the home city, showing the
    /// system clock's time.
    pub fn new(name: &str, timezone_id: &str, is_home: bool, home_offset: i32) -> (city: Self)
        ensures
            city@.name == name@,
            city@.timezone_id == timezone_id@,
            city@.is_home == is_home,
            city@.source == TimeSource::Offset(home_offset),
            exists|now: int|
                0 <= now <= MAX_UNIX_SECONDS && city@.time == display_of(
                    #[trigger] offset_wall(now, home_offset as int),
                ),
    {
        let now = Timestamp::now();
        let city = Self::new_at(name, timezone_id, is_home, home_offset, now);
        assert(city@.time == display_of(offset_wall(now@, home_offset as int)));
        city
    }

    /// A city a fixed number of hours ahead of the home city, showing its
    /// time at the instant `now`.
    pub fn new_at(
        name: &str,
        timezone_id: &str,
        is_home: bool,
        home_offset: i32,
        now: Timestamp,
    ) -> (city: Self)
        ensures
            city@ == (WorldTimeView {
                name: name@,
                time: display_of(offset_wall(now@, home_offset as int)),
                source: TimeSource::Offset(home_offset),
                is_home,
                timezone_id: timezone_id@,
            }),
    {
        Self::from_source(name, timezone_id, is_home, TimeSource::Offset(home_offset), now, None, 0)
    }

    /// A city that follows the zone named `timezone_id`, showing its time at
    /// the instant `now`. An identifier that names no zone is no failure: the
    /// city then shows the machine's local time.
    pub fn in_zone(name: &str, timezone_id: &str, is_home: bool, now: Timestamp) -> (city: Self)
        ensures
            city@.name == name@,
            city@.timezone_id == timezone_id@,
            city@.is_home == is_home,
            city@.source == TimeSource::Zone,
            !city@.falls_back(now@) ==> city@.time == city@.shown_at(now@, 0),
            exists|local_offset: int|
                -86_400 < local_offset < 86_400 && city@.time == #[trigger] city@.shown_at(
                    now@,
                    local_offset,
                ),
    {
        let zone_offset = Self::lookup(TimeSource::Zone, timezone_id, now);
        let local_offset: i32 = match zone_offset {
            Some(_) => 0,
            None => local_offset_seconds(now.unix_seconds()),
        };
        let city = Self::from_source(
            name,
            timezone_id,
            is_home,
            TimeSource::Zone,
            now,
            zone_offset,
            local_offset,
        );
        assert(city@.time == city@.shown_at(now@, local_offset as int));
        city
    }

    /// A city whose time is derived by `source`, showing its time at the
    /// instant `now`, the database having given `zone_offset` for its
    /// identifier, on a machine whose local zone is `local_offset` seconds
    /// east of UTC.
    pub fn from_source(
        name: &str,
        timezone_id: &str,
        is_home: bool,
        source: TimeSource,
        now: Timestamp,
        zone_offset: Option<i32>,
        local_offset: i32,
    ) -> (city: Self)
        ensures
            city@ == (WorldTimeView {
                name: name@,
                time: display_of(source_wall(source, now@, zone_offset, local_offset as int)),
                source,
                is_home,
                timezone_id: timezone_id@,
            }),
    {
        WorldTime {
            name: name.to_owned(),
            time: Self::source_time_from(source, now, zone_offset, local_offset),
            source,
            is_home,
            timezone_id: timezone_id.to_owned(),
        }
    }

    /// What the time-zone database gives at the instant `now` for a city on
    /// the strategy `source` with the identifier `timezone_id`. A city on the
    /// offset strategy asks nothing of the database.
    pub fn lookup(source: TimeSource, timezone_id: &str, now: Timestamp) -> (zone_offset: Option<
        i32,
    >)
        ensures
            zone_offset == match source {
                TimeSource::Zone => zone_offset_at(timezone_id@, now@),
                TimeSource::Offset(_) => None,
            },
    {
        match source {
            TimeSource::Zone => zone_offset_seconds(timezone_id, now.unix_seconds()),
            TimeSource::Offset(_) => None,
        }
    }

    /// Computes the time again from the system clock.
    pub fn update_time(&mut self)
        ensures
            final(self)@ == old(self)@.with_time(final(self)@.time),
            exists|now: int, local_offset: int|
                0 <= now <= MAX_UNIX_SECONDS && -86_400 < local_offset < 86_400 && final(self)@.time
                    == #[trigger] old(self)@.shown_at(now, local_offset),
    {
        let now = Timestamp::now();
        self.update_time_at(now);
    }

    /// Computes the time again for the instant `now`. A city that follows a
    /// zone shows the zone's civil time, and the machine's local time where the
    /// database has no zone of its identifier; this never fails.
    pub fn update_time_at(&mut self, now: Timestamp)
        ensures
            final(self)@ == old(self)@.with_time(final(self)@.time),
            !old(self)@.falls_back(now@) ==> final(self)@.time == old(self)@.shown_at(now@, 0),
            exists|local_offset: int|
                -86_400 < local_offset < 86_400 && final(self)@.time == #[trigger] old(
                    self,
                )@.shown_at(now@, local_offset),
    {
        let zone_offset = self.resolve(now);
        let local_offset: i32 = if self.source.needs_local(zone_offset) {
            local_offset_seconds(now.unix_seconds())
        } else {
            0
        };
        self.update_time_from(now, zone_offset, local_offset);
        assert(self@.time == old(self)@.shown_at(now@, local_offset as int));
    }

    /// Computes the time again for the instant `now`, from what the database
    /// gave for this city's zone and from the machine's local offset.
    pub fn update_time_from(&mut self, now: Timestamp, zone_offset: Option<i32>, local_offset: i32)
        ensures
            final(self)@ == old(self)@.with_time(
                display_of(
                    source_wall(old(self)@.source, now@, zone_offset, local_offset as int),
                ),
            ),
    {
        let text = Self::source_time_from(self.source, now, zone_offset, local_offset);
        self.show(text);
    }

    /// Puts `text` on display.
    pub(crate) fn show(&mut self, text: String)
        requires
            is_clock_text(text@),
        ensures
            final(self)@ == old(self)@.with_time(text@),
        no_unwind
    {
        self.time = text;
    }

    /// What the time-zone database gives for this city at the instant `now`.
    /// A city on the offset strategy asks nothing of the database.
    pub fn resolve(&self, now: Timestamp) -> (zone_offset: Option<i32>)
        ensures
            zone_offset == match self@.source {
                TimeSource::Zone => self@.zone_offset(now@),
                TimeSource::Offset(_) => None,
            },
    {
        Self::lookup(self.source, self.timezone_id.as_str(), now)
    }

    /// The display label.
    pub fn name(&self) -> (name: &str)
        ensures
            name@ == self@.name,
    {
        self.name.as_str()
    }

    /// The time last computed, as zero-padded 24-hour `HH:MM`.
    pub fn time(&self) -> (time: &str)
        ensures
            time@ == self@.time,
            is_clock_text(time@),
    {
        proof {
            use_type_invariant(self);
        }
        self.time.as_str()
    }

    /// How the time is derived.
    pub fn source(&self) -> (source: TimeSource)
        ensures
            source == self@.source,
    {
        self.source
    }

    /// The whole hours ahead of the home city, for a city on the offset
    /// strategy; `None` for one that follows a zone.
    pub fn diff_hours(&self) -> (diff_hours: Option<i32>)
        ensures
            diff_hours == match self@.source {
                TimeSource::Offset(hours) => Some(hours),
                TimeSource::Zone => None,
            },
    {
        match self.source {
            TimeSource::Offset(hours) => Some(hours),
            TimeSource::Zone => None,
        }
    }

    /// Whether this is the home city.
    pub fn is_home(&self) -> (is_home: bool)
        ensures
            is_home == self@.is_home,
    {
        self.is_home
    }

    /// The zone identifier, such as `Europe/Berlin`.
    pub fn timezone_id(&self) -> (timezone_id: &str)
        ensures
            timezone_id@ == self@.timezone_id,
    {
        self.timezone_id.as_str()
    }
}

} // verus!
