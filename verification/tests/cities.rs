use chrono::TimeZone;
use world_time::TimeSource;
use world_time::Timestamp;
use world_time::WorldTime;

fn instant(unix_seconds: i64) -> Timestamp {
    Timestamp::from_unix_seconds(unix_seconds).expect("an instant the calendar can hold")
}

fn civil_time_in(zone: chrono_tz::Tz, unix_seconds: i64) -> String {
    zone.timestamp_opt(unix_seconds, 0).unwrap().format("%H:%M").to_string()
}

fn local_time_at(unix_seconds: i64) -> String {
    chrono::Local.timestamp_opt(unix_seconds, 0).unwrap().format("%H:%M").to_string()
}

fn is_hh_mm(text: &str) -> bool {
    let bytes = text.as_bytes();
    bytes.len() == 5
        && bytes[2] == b':'
        && [0usize, 1, 3, 4].iter().all(|&i| bytes[i].is_ascii_digit())
        && (bytes[0] - b'0') * 10 + (bytes[1] - b'0') < 24
        && (bytes[3] - b'0') * 10 + (bytes[4] - b'0') < 60
}

#[test]
fn new_at_keeps_what_it_was_given() {
    let city = WorldTime::new_at("Berlin", "Europe/Berlin", false, 7, instant(1_719_864_000));
    assert_eq!(city.name(), "Berlin");
    assert_eq!(city.timezone_id(), "Europe/Berlin");
    assert!(!city.is_home());
    assert_eq!(city.source(), TimeSource::Offset(7));
    assert_eq!(city.diff_hours(), Some(7));
    assert_eq!(city.time(), "21:00");
}

#[test]
fn new_at_for_the_home_city() {
    let city = WorldTime::new_at("Austin", "America/Chicago", true, 0, instant(1_719_864_000));
    assert!(city.is_home());
    assert_eq!(city.diff_hours(), Some(0));
    assert_eq!(city.time(), "14:00");
}

#[test]
fn new_at_ignores_the_zone_identifier() {
    let now = instant(1_719_864_000);
    let a = WorldTime::new_at("A", "Europe/London", false, 6, now);
    let b = WorldTime::new_at("B", "Not/AZone", false, 6, now);
    assert_eq!(a.time(), "20:00");
    assert_eq!(b.time(), "20:00");
}

#[test]
fn update_time_at_moves_an_offset_city_with_the_instant() {
    let mut city = WorldTime::new_at("London", "Europe/London", false, 6, instant(1_719_864_000));
    assert_eq!(city.time(), "20:00");
    city.update_time_at(instant(1_719_864_000 + 61));
    assert_eq!(city.time(), "20:01");
    city.update_time_at(instant(1_719_864_000 + 5 * 3_600));
    assert_eq!(city.time(), "01:00");
    assert_eq!(city.name(), "London");
    assert_eq!(city.timezone_id(), "Europe/London");
    assert_eq!(city.source(), TimeSource::Offset(6));
    assert!(!city.is_home());
}

#[test]
fn update_time_from_uses_what_it_is_handed() {
    let now = instant(1_719_835_200);
    let mut zoned = WorldTime::from_source(
        "Delhi",
        "Asia/Kolkata",
        false,
        TimeSource::Zone,
        now,
        Some(19_800),
        0,
    );
    assert_eq!(zoned.time(), "17:30");
    zoned.update_time_from(instant(1_719_835_200 + 1_800), Some(19_800), 0);
    assert_eq!(zoned.time(), "18:00");
    zoned.update_time_from(instant(1_719_835_200), None, 7_200);
    assert_eq!(zoned.time(), "14:00");
    assert_eq!(zoned.source(), TimeSource::Zone);
    assert_eq!(zoned.diff_hours(), None);

    let mut fixed = WorldTime::new_at("NYC", "America/New_York", false, 1, now);
    assert_eq!(fixed.time(), "07:00");
    fixed.update_time_from(instant(1_719_835_200 + 3_600), Some(19_800), 7_200);
    assert_eq!(fixed.time(), "08:00");
}

#[test]
fn source_time_from_picks_the_strategy() {
    let now = instant(1_719_835_200);
    assert_eq!(WorldTime::source_time_from(TimeSource::Offset(8), now, Some(3_600), 60), "14:00");
    assert_eq!(WorldTime::source_time_from(TimeSource::Zone, now, Some(3_600), 60), "13:00");
    assert_eq!(WorldTime::source_time_from(TimeSource::Zone, now, None, 60), "12:01");
}

#[test]
fn from_source_builds_either_kind_of_city() {
    let now = instant(1_719_835_200);
    let fixed =
        WorldTime::from_source("NYC", "America/New_York", false, TimeSource::Offset(1), now, None, 0);
    assert_eq!(fixed.time(), "07:00");
    assert_eq!(fixed.diff_hours(), Some(1));
    assert_eq!(fixed.name(), "NYC");
    assert_eq!(fixed.timezone_id(), "America/New_York");
    let ignores = WorldTime::from_source(
        "NYC",
        "America/New_York",
        true,
        TimeSource::Offset(1),
        now,
        Some(-14_400),
        3_600,
    );
    assert_eq!(ignores.time(), "07:00");
    assert!(ignores.is_home());
    let zoned = WorldTime::from_source(
        "NYC",
        "America/New_York",
        false,
        TimeSource::Zone,
        now,
        Some(-14_400),
        3_600,
    );
    assert_eq!(zoned.time(), "08:00");
    assert_eq!(zoned.diff_hours(), None);
    let local =
        WorldTime::from_source("NYC", "America/New_York", false, TimeSource::Zone, now, None, 3_600);
    assert_eq!(local.time(), "13:00");
}

#[test]
fn lookup_asks_the_database_only_for_the_zone_strategy() {
    let now = instant(1_719_835_200);
    assert_eq!(WorldTime::lookup(TimeSource::Zone, "Europe/Berlin", now), Some(7_200));
    assert_eq!(WorldTime::lookup(TimeSource::Zone, "Asia/Kolkata", now), Some(19_800));
    assert_eq!(WorldTime::lookup(TimeSource::Zone, "Not/AZone", now), None);
    assert_eq!(WorldTime::lookup(TimeSource::Offset(7), "Europe/Berlin", now), None);
}

#[test]
fn only_an_unresolved_zone_city_needs_the_local_zone() {
    assert!(TimeSource::Zone.needs_local(None));
    assert!(!TimeSource::Zone.needs_local(Some(0)));
    assert!(!TimeSource::Zone.needs_local(Some(-18_000)));
    assert!(!TimeSource::Offset(0).needs_local(None));
    assert!(!TimeSource::Offset(6).needs_local(Some(3_600)));
}

#[test]
fn a_clone_is_the_same_city() {
    let city = WorldTime::new_at("Berlin", "Europe/Berlin", false, 7, instant(1_719_864_000));
    let copy = city.clone();
    assert_eq!(copy.name(), city.name());
    assert_eq!(copy.time(), "21:00");
    assert_eq!(copy.timezone_id(), "Europe/Berlin");
    assert_eq!(copy.source(), TimeSource::Offset(7));
    assert_eq!(copy.is_home(), city.is_home());
}

#[test]
fn resolve_asks_the_database_only_for_zone_cities() {
    let now = instant(1_719_835_200);
    let fixed = WorldTime::new_at("London", "Europe/London", false, 6, now);
    assert_eq!(fixed.resolve(now), None);
    let london = WorldTime::in_zone("London", "Europe/London", false, now);
    assert_eq!(london.resolve(now), Some(3_600));
    assert_eq!(london.resolve(instant(1_705_320_000)), Some(0));
    let kathmandu = WorldTime::in_zone("Kathmandu", "Asia/Kathmandu", false, now);
    assert_eq!(kathmandu.resolve(now), Some(20_700));
    let chicago = WorldTime::in_zone("Austin", "America/Chicago", true, now);
    assert_eq!(chicago.resolve(now), Some(-18_000));
    assert_eq!(chicago.resolve(instant(1_705_320_000)), Some(-21_600));
    let nowhere = WorldTime::in_zone("Nowhere", "Not/AZone", false, now);
    assert_eq!(nowhere.resolve(now), None);
    let lower = WorldTime::in_zone("London", "europe/london", false, now);
    assert_eq!(lower.resolve(now), None);
    let empty = WorldTime::in_zone("Blank", "", false, now);
    assert_eq!(empty.resolve(now), None);
}

#[test]
fn zone_city_shows_the_zones_civil_time() {
    let zones = [
        ("America/Chicago", chrono_tz::America::Chicago),
        ("America/New_York", chrono_tz::America::New_York),
        ("Europe/London", chrono_tz::Europe::London),
        ("Europe/Berlin", chrono_tz::Europe::Berlin),
        ("Europe/Bucharest", chrono_tz::Europe::Bucharest),
        ("Asia/Kolkata", chrono_tz::Asia::Kolkata),
        ("Asia/Kathmandu", chrono_tz::Asia::Kathmandu),
        ("Australia/Lord_Howe", chrono_tz::Australia::Lord_Howe),
        ("Pacific/Kiritimati", chrono_tz::Pacific::Kiritimati),
        ("UTC", chrono_tz::UTC),
    ];
    let instants = [
        0i64,
        1_705_320_000,
        1_710_113_400,
        1_711_846_799,
        1_711_846_800,
        1_719_835_200,
        1_762_063_199,
        1_762_063_200,
        -1_000_000_000,
    ];
    for (id, zone) in zones {
        for unix_seconds in instants {
            let city = WorldTime::in_zone("City", id, false, instant(unix_seconds));
            assert_eq!(city.time(), civil_time_in(zone, unix_seconds));
        }
    }
}

#[test]
fn zone_city_follows_daylight_saving() {
    // Europe/London: GMT in January, one hour ahead in July.
    let winter = WorldTime::in_zone("London", "Europe/London", false, instant(1_705_320_000));
    assert_eq!(winter.time(), "12:00");
    let summer = WorldTime::in_zone("London", "Europe/London", false, instant(1_719_835_200));
    assert_eq!(summer.time(), "13:00");
    // The clocks go forward at 01:00 UTC on 31 March 2024.
    let before = WorldTime::in_zone("London", "Europe/London", false, instant(1_711_846_799));
    assert_eq!(before.time(), "00:59");
    let after = WorldTime::in_zone("London", "Europe/London", false, instant(1_711_846_800));
    assert_eq!(after.time(), "02:00");
}

#[test]
fn zone_city_update_time_at() {
    let mut city = WorldTime::in_zone("Berlin", "Europe/Berlin", false, instant(1_705_320_000));
    assert_eq!(city.time(), "13:00");
    city.update_time_at(instant(1_719_835_200));
    assert_eq!(city.time(), "14:00");
    assert_eq!(city.name(), "Berlin");
    assert_eq!(city.timezone_id(), "Europe/Berlin");
    assert_eq!(city.source(), TimeSource::Zone);
    assert_eq!(city.diff_hours(), None);
}

#[test]
fn unknown_zone_falls_back_on_local_time() {
    for unix_seconds in [0i64, 1_705_320_000, 1_719_835_200, 1_762_063_200] {
        let mut city = WorldTime::in_zone("Nowhere", "Not/AZone", false, instant(unix_seconds));
        assert_eq!(city.time(), local_time_at(unix_seconds));
        assert!(is_hh_mm(city.time()));
        city.update_time_at(instant(unix_seconds + 3_660));
        assert_eq!(city.time(), local_time_at(unix_seconds + 3_660));
        assert_eq!(city.timezone_id(), "Not/AZone");
    }
}

#[test]
fn new_reads_the_system_clock() {
    let before = chrono::Utc::now().timestamp();
    let city = WorldTime::new("London", "Europe/London", false, 6);
    let after = chrono::Utc::now().timestamp();
    assert_eq!(city.name(), "London");
    assert_eq!(city.timezone_id(), "Europe/London");
    assert_eq!(city.diff_hours(), Some(6));
    assert!(!city.is_home());
    assert!(is_hh_mm(city.time()));
    let candidates: Vec<String> = (before..=after)
        .map(|t| WorldTime::time_from_austin_at(instant(t), 6))
        .collect();
    assert!(candidates.iter().any(|c| c == city.time()));
}

#[test]
fn update_time_reads_the_system_clock() {
    let mut city = WorldTime::new_at("Bucharest", "Europe/Bucharest", false, 8, instant(0));
    assert_eq!(city.time(), "02:00");
    let before = chrono::Utc::now().timestamp();
    city.update_time();
    let after = chrono::Utc::now().timestamp();
    let candidates: Vec<String> = (before..=after)
        .map(|t| WorldTime::time_from_austin_at(instant(t), 8))
        .collect();
    assert!(candidates.iter().any(|c| c == city.time()));
    assert_eq!(city.name(), "Bucharest");
}

#[test]
fn get_austin_time_is_the_clock_less_six_hours() {
    let before = chrono::Utc::now().timestamp();
    let wall = WorldTime::get_austin_time();
    let after = chrono::Utc::now().timestamp();
    assert!(before - 21_600 <= wall && wall <= after - 21_600);
}

#[test]
fn calculate_time_from_austin_reads_the_system_clock() {
    let before = chrono::Utc::now().timestamp();
    let text = WorldTime::calculate_time_from_austin(-3);
    let after = chrono::Utc::now().timestamp();
    assert!(is_hh_mm(&text));
    let candidates: Vec<String> = (before..=after)
        .map(|t| WorldTime::time_from_austin_at(instant(t), -3))
        .collect();
    assert!(candidates.contains(&text));
}

#[test]
fn timestamp_now_is_the_system_clock() {
    let before = chrono::Utc::now().timestamp();
    let now = Timestamp::now().unix_seconds();
    let after = chrono::Utc::now().timestamp();
    assert!(before <= now && now <= after);
}
