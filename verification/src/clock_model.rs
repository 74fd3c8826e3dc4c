//! The fixed, ordered set of cities and the pass that computes their times.

use vstd::prelude::*;
use crate::calendar::local_offset_seconds;
use crate::civil::is_clock_text;
use crate::instant::Timestamp;
use crate::city::TimeSource;
use crate::city::WorldTime;
use crate::city::WorldTimeView;

verus! {

/// Why a set of cities was refused.
#[derive(Clone, Copy, Debug, PartialEq, Eq, Structural)]
pub enum ConfigError {
    /// No city was given.
    NoLocations,
    /// Cities were given, none of them marked as home.
    NoReference,
    /// More than one city was marked as home.
    MultipleReferences,
}

/// One city as the caller describes it.
#[derive(Debug)]
pub struct LocationSpec {
    /// The display label.
    pub name: String,
    /// The zone identifier, such as `Europe/Berlin`.
    pub timezone_id: String,
    /// Whether this is the home city.
    pub is_home: bool,
    /// How the city's time is derived.
    pub source: TimeSource,
}

/// One city as the presentation layer reads it.
#[derive(Debug)]
pub struct DisplayEntry {
    /// The display label.
    pub name: String,
    /// The time last computed, as zero-padded 24-hour `HH:MM`.
    pub display_time: String,
    /// Whole hours ahead of the home city; `None` for a city that follows a zone.
    pub diff_hours: Option<i32>,
    /// Whether this is the home city.
    pub is_reference: bool,
    /// The zone identifier, shown as a label.
    pub zone_label: String,
}

impl Clone for LocationSpec {
    fn clone(&self) -> (copy: Self)
        ensures
            copy == *self,
    {
        LocationSpec {
            name: self.name.clone(),
            timezone_id: self.timezone_id.clone(),
            is_home: self.is_home,
            source: self.source,
        }
    }
}

impl Clone for DisplayEntry {
    fn clone(&self) -> (copy: Self)
        ensures
            copy == *self,
    {
        DisplayEntry {
            name: self.name.clone(),
            display_time: self.display_time.clone(),
            diff_hours: self.diff_hours,
            is_reference: self.is_reference,
            zone_label: self.zone_label.clone(),
        }
    }
}

impl LocationSpec {
    /// The city this describes, with `time` on display.
    pub open spec fn city(self, time: Seq<char>) -> WorldTimeView {
        WorldTimeView {
            name: self.name@,
            time,
            source: self.source,
            is_home: self.is_home,
            timezone_id: self.timezone_id@,
        }
    }
}

impl DisplayEntry {
    /// Whether this entry reports `city` field for field.
    pub open spec fn reports(self, city: WorldTimeView) -> bool {
        &&& self.name@ == city.name
        &&& self.display_time@ == city.time
        &&& self.diff_hours == match city.source {
            TimeSource::Offset(hours) => Some(hours),
            TimeSource::Zone => None,
        }
        &&& self.is_reference == city.is_home
        &&& self.zone_label@ == city.timezone_id
    }
}

/// Exactly one of `cities` is the home city.
pub open spec fn exactly_one_home(cities: Seq<WorldTimeView>) -> bool {
    exists|r: int| #[trigger] only_home(cities, r)
}

/// The city at `r`, and no other, is the home city.
pub open spec fn only_home(cities: Seq<WorldTimeView>, r: int) -> bool {
    &&& 0 <= r < cities.len()
    &&& forall|j: int| 0 <= j < cities.len() ==> ((#[trigger] cities[j]).is_home <==> j == r)
}

/// Every one of `cities` shows its time at the instant `now`, on a machine
/// whose local zone is `local_offset` seconds east of UTC.
pub open spec fn all_show(cities: Seq<WorldTimeView>, now: int, local_offset: int) -> bool {
    forall|i: int|
        0 <= i < cities.len() ==> (#[trigger] cities[i]).time == cities[i].shown_at(
            now,
            local_offset,
        )
}

/// `after` holds the cities of `before`, in the same order, with nothing but
/// the displayed times changed.
pub open spec fn same_cities(before: Seq<WorldTimeView>, after: Seq<WorldTimeView>) -> bool {
    &&& after.len() == before.len()
    &&& forall|i: int|
        0 <= i < before.len() ==> #[trigger] after[i] == before[i].with_time(after[i].time)
}

/// `cities` are the cities that `specs` describe, in the same order.
pub open spec fn built_from(specs: Seq<LocationSpec>, cities: Seq<WorldTimeView>) -> bool {
    &&& cities.len() == specs.len()
    &&& forall|i: int|
        0 <= i < specs.len() ==> #[trigger] cities[i] == specs[i].city(cities[i].time)
}

/// No city among `specs` is marked as home.
pub open spec fn no_home(specs: Seq<LocationSpec>) -> bool {
    forall|j: int| 0 <= j < specs.len() ==> !(#[trigger] specs[j]).is_home
}

/// Two different cities among `specs` are marked as home.
pub open spec fn two_homes(specs: Seq<LocationSpec>) -> bool {
    exists|i: int, j: int|
        0 <= i < j < specs.len() && (#[trigger] specs[i]).is_home && (#[trigger] specs[j]).is_home
}

/// The city at `r`, and no other among `specs`, is marked as home.
pub open spec fn marks_only(specs: Seq<LocationSpec>, r: int) -> bool {
    &&& 0 <= r < specs.len()
    &&& forall|j: int| 0 <= j < specs.len() ==> ((#[trigger] specs[j]).is_home <==> j == r)
}

/// Why `specs` is refused as a set of cities, and `None` where it is
/// accepted: where exactly one city is marked as home.
pub open spec fn refusal(specs: Seq<LocationSpec>) -> Option<ConfigError> {
    if specs.len() == 0 {
        Some(ConfigError::NoLocations)
    } else if no_home(specs) {
        Some(ConfigError::NoReference)
    } else if two_homes(specs) {
        Some(ConfigError::MultipleReferences)
    } else {
        None
    }
}

/// Finds the home city among `specs`.
///
/// Succeeds with its index where exactly one city is marked as home, and
/// otherwise says what is wrong with the set.
pub fn find_reference(specs: &Vec<LocationSpec>) -> (result: Result<usize, ConfigError>)
    ensures
        match result {
            Ok(r) => refusal(specs@).is_none() && marks_only(specs@, r as int),
            Err(error) => refusal(specs@) == Some(error),
        },
{
    if specs.len() == 0 {
        return Err(ConfigError::NoLocations);
    }
    let mut found: Option<usize> = None;
    let mut i: usize = 0;
    while i < specs.len()
        invariant
            i <= specs.len(),
            specs.len() > 0,
            match found {
                Some(r) => r < i && forall|j: int|
                    0 <= j < i ==> ((#[trigger] specs[j]).is_home <==> j == r),
                None => forall|j: int| 0 <= j < i ==> !(#[trigger] specs[j]).is_home,
            },
        decreases specs.len() - i,
    {
        if specs[i].is_home {
            match found {
                Some(r) => {
                    assert(specs[r as int].is_home && specs[i as int].is_home);
                    assert(two_homes(specs@));
                    assert(!no_home(specs@));
                    return Err(ConfigError::MultipleReferences);
                },
                None => {
                    found = Some(i);
                },
            }
        }
        i += 1;
    }
    match found {
        Some(r) => {
            assert(specs[r as int].is_home);
            assert(marks_only(specs@, r as int));
            Ok(r)
        },
        None => {
            assert(no_home(specs@));
            Err(ConfigError::NoReference)
        },
    }
}

/// What `cities` hold, as mathematical values.
spec fn views(cities: Seq<WorldTime>) -> Seq<WorldTimeView> {
    cities.map_values(|city: WorldTime| city@)
}

/// The machine's local offset as a pass holds it: `read` is what the pass has
/// read so far, `None` before its first reading. Reads the offset where a city
/// needs it and the pass has none yet, so that one reading serves the pass.
fn local_offset_once(read: Option<i32>, needed: bool, now: Timestamp) -> (held: Option<i32>)
    requires
        -86_400 < read.unwrap_or(0) < 86_400,
    ensures
        -86_400 < held.unwrap_or(0) < 86_400,
        read.is_some() ==> held == read,
        needed ==> held.is_some(),
        !needed ==> held == read,
{
    if needed && read.is_none() {
        Some(local_offset_seconds(now.unix_seconds()))
    } else {
        read
    }
}

/// Builds the cities that `specs` describe, each showing its time at the
/// instant `now`.
fn build_cities(specs: &Vec<LocationSpec>, now: Timestamp) -> (cities: Vec<WorldTime>)
    ensures
        built_from(specs@, views(cities@)),
        exists|local_offset: int|
            -86_400 < local_offset < 86_400 && #[trigger] all_show(
                views(cities@),
                now@,
                local_offset,
            ),
{
    let mut cities: Vec<WorldTime> = Vec::new();
    let mut local: Option<i32> = None;
    let mut i: usize = 0;
    while i < specs.len()
        invariant
            i <= specs.len(),
            cities.len() == i,
            forall|j: int| 0 <= j < i ==> (#[trigger] cities[j])@ == specs[j].city(cities[j]@.time),
            forall|j: int|
                0 <= j < i ==> (#[trigger] cities[j])@.time == cities[j]@.shown_at(
                    now@,
                    local.unwrap_or(0) as int,
                ),
            local.is_none() ==> forall|j: int|
                0 <= j < i ==> !(#[trigger] cities[j])@.falls_back(now@),
            -86_400 < local.unwrap_or(0) < 86_400,
        decreases specs.len() - i,
    {
        let spec = &specs[i];
        let zone_offset = WorldTime::lookup(spec.source, spec.timezone_id.as_str(), now);
        local = local_offset_once(local, spec.source.needs_local(zone_offset), now);
        let city = WorldTime::from_source(
            spec.name.as_str(),
            spec.timezone_id.as_str(),
            spec.is_home,
            spec.source,
            now,
            zone_offset,
            local.unwrap_or(0),
        );
        cities.push(city);
        i += 1;
    }
    proof {
        let built = views(cities@);
        assert forall|j: int| 0 <= j < specs.len() implies #[trigger] built[j] == specs[j].city(
            built[j].time,
        ) by {
            assert(built[j] == cities[j]@);
        }
        assert(all_show(built, now@, local.unwrap_or(0) as int)) by {
            assert forall|j: int| 0 <= j < built.len() implies (#[trigger] built[j]).time
                == built[j].shown_at(now@, local.unwrap_or(0) as int) by {
                assert(built[j] == cities[j]@);
            }
        }
    }
    cities
}

/// Puts `text` on display for the city at `index`, leaving the others as they are.
fn put_on_display(cities: &mut Vec<WorldTime>, index: usize, text: String)
    requires
        index < old(cities).len(),
        is_clock_text(text@),
    ensures
        views(final(cities)@) == views(old(cities)@).update(
            index as int,
            views(old(cities)@)[index as int].with_time(text@),
        ),
        same_cities(views(old(cities)@), views(final(cities)@)),
        exactly_one_home(views(old(cities)@)) ==> exactly_one_home(views(final(cities)@)),
    no_unwind
{
    cities[index].show(text);
    proof {
        let before = views(old(cities)@);
        let after = views(cities@);
        assert(after =~= before.update(index as int, before[index as int].with_time(text@)));
        lemma_same_cities_keep_home(before, after);
    }
}

/// Changing nothing but displayed times keeps the home city where it is.
pub proof fn lemma_same_cities_keep_home(before: Seq<WorldTimeView>, after: Seq<WorldTimeView>)
    requires
        same_cities(before, after),
    ensures
        forall|r: int| only_home(before, r) <==> only_home(after, r),
        exactly_one_home(before) <==> exactly_one_home(after),
{
    assert forall|r: int| only_home(before, r) <==> only_home(after, r) by {
        assert forall|j: int| 0 <= j < before.len() implies before[j].is_home == after[j].is_home by {
            assert(after[j] == before[j].with_time(after[j].time));
        }
    }
    if exactly_one_home(before) {
        let r = choose|r: int| only_home(before, r);
        assert(only_home(after, r));
    }
    if exactly_one_home(after) {
        let r = choose|r: int| only_home(after, r);
        assert(only_home(before, r));
    }
}

/// The cities on display.
#[derive(Debug)]
pub struct ClockModel {
    locations: Vec<WorldTime>,
}

impl View for ClockModel {
    type V = Seq<WorldTimeView>;

    closed spec fn view(&self) -> Seq<WorldTimeView> {
        views(self.locations@)
    }
}

impl ClockModel {
    /// Exactly one city is the home city. This is the type's invariant: it
    /// holds of every model in a running program.
    #[verifier::type_invariant]
    pub open spec fn wf(&self) -> bool {
        exactly_one_home(self@)
    }

    /// Builds the set of cities that `specs` describe and computes each
    /// city's time for the instant `now`.
    ///
    /// Refuses a set that does not mark exactly one city as home, before any
    /// time is computed. An identifier that names no zone is no failure.
    pub fn initialize(specs: Vec<LocationSpec>, now: Timestamp) -> (result: Result<
        ClockModel,
        ConfigError,
    >)
        ensures
            match result {
                Ok(model) => {
                    &&& refusal(specs@).is_none()
                    &&& model.wf()
                    &&& built_from(specs@, model@)
                    &&& exists|local_offset: int|
                        -86_400 < local_offset < 86_400 && #[trigger] all_show(
                            model@,
                            now@,
                            local_offset,
                        )
                },
                Err(error) => refusal(specs@) == Some(error),
            },
    {
        match find_reference(&specs) {
            Ok(home) => {
                let locations = build_cities(&specs, now);
                proof {
                    let cities = views(locations@);
                    assert(only_home(cities, home as int)) by {
                        assert forall|j: int| 0 <= j < cities.len() implies ((
                        #[trigger] cities[j]).is_home <==> j == home) by {
                            assert(cities[j] == specs[j].city(cities[j].time));
                            assert(specs[j].is_home <==> j == home);
                        }
                    }
                }
                let model = ClockModel { locations };
                Ok(model)
            },
            Err(error) => Err(error),
        }
    }

    /// Computes every city's time again for the instant `now`.
    ///
    /// One reading of `now` and at most one reading of the machine's local
    /// offset serve the whole pass: every city shows its time at the same
    /// instant. Nothing but the displayed times changes.
    pub fn recompute_all(&mut self, now: Timestamp)
        ensures
            final(self).wf(),
            same_cities(old(self)@, final(self)@),
            exists|local_offset: int|
                -86_400 < local_offset < 86_400 && #[trigger] all_show(
                    final(self)@,
                    now@,
                    local_offset,
                ),
    {
        proof {
            use_type_invariant(&*self);
        }
        let mut local: Option<i32> = None;
        let mut i: usize = 0;
        while i < self.locations.len()
            invariant
                i <= self.locations.len(),
                exactly_one_home(old(self)@),
                same_cities(old(self)@, self@),
                forall|j: int|
                    0 <= j < i ==> (#[trigger] self@[j]).time == self@[j].shown_at(
                        now@,
                        local.unwrap_or(0) as int,
                    ),
                local.is_none() ==> forall|j: int|
                    0 <= j < i ==> !(#[trigger] self@[j]).falls_back(now@),
                -86_400 < local.unwrap_or(0) < 86_400,
            decreases self.locations.len() - i,
        {
            let ghost before = self@;
            let source = self.locations[i].source();
            let zone_offset = self.locations[i].resolve(now);
            local = local_offset_once(local, source.needs_local(zone_offset), now);
            let text = WorldTime::source_time_from(source, now, zone_offset, local.unwrap_or(0));
            proof {
                assert(before[i as int] == self.locations[i as int]@);
                lemma_same_cities_keep_home(old(self)@, before);
            }
            put_on_display(&mut self.locations, i, text);
            i += 1;
        }
        proof {
            assert(all_show(self@, now@, local.unwrap_or(0) as int));
            lemma_same_cities_keep_home(old(self)@, self@);
        }
    }

    /// What the presentation layer shows: one entry for each city, in order.
    pub fn get_display_snapshot(&self) -> (entries: Vec<DisplayEntry>)
        ensures
            self.wf(),
            entries.len() == self@.len(),
            forall|i: int| 0 <= i < self@.len() ==> (#[trigger] entries[i]).reports(self@[i]),
    {
        proof {
            use_type_invariant(self);
        }
        let mut entries: Vec<DisplayEntry> = Vec::new();
        let mut i: usize = 0;
        while i < self.locations.len()
            invariant
                i <= self.locations.len(),
                entries.len() == i,
                forall|j: int| 0 <= j < i ==> (#[trigger] entries[j]).reports(self@[j]),
            decreases self.locations.len() - i,
        {
            let city = &self.locations[i];
            entries.push(
                DisplayEntry {
                    name: city.name().to_owned(),
                    display_time: city.time().to_owned(),
                    diff_hours: city.diff_hours(),
                    is_reference: city.is_home(),
                    zone_label: city.timezone_id().to_owned(),
                },
            );
            i += 1;
        }
        entries
    }

    /// The index of the home city.
    pub fn home_index(&self) -> (home: usize)
        ensures
            only_home(self@, home as int),
    {
        proof {
            use_type_invariant(self);
        }
        let ghost r = choose|r: int| only_home(self@, r);
        let mut i: usize = 0;
        while i < self.locations.len()
            invariant
                i <= r < self.locations.len(),
                only_home(self@, r),
            decreases self.locations.len() - i,
        {
            if self.locations[i].is_home() {
                assert(self@[i as int].is_home);
                return i;
            }
            assert(!self@[i as int].is_home);
            i += 1;
        }
        i
    }

    /// The number of cities.
    pub fn len(&self) -> (count: usize)
        ensures
            count == self@.len(),
    {
        self.locations.len()
    }

    /// The city at `index`, or `None` past the end.
    pub fn location(&self, index: usize) -> (city: Option<&WorldTime>)
        ensures
            index < self@.len() ==> city.is_some() && city.unwrap()@ == self@[index as int],
            index >= self@.len() ==> city.is_none(),
    {
        if index < self.locations.len() {
            Some(&self.locations[index])
        } else {
            None
        }
    }
}

} // verus!
