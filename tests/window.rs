use chrono::{Local, TimeZone, Utc};
use ess_dispatch::smart_ess::window::{RateTime, RateWindow, RateWindowAbsolute, Weekday};
use std::str::FromStr;

fn all_weekdays() -> Vec<Weekday> {
    vec![
        Weekday::Monday,
        Weekday::Tuesday,
        Weekday::Wednesday,
        Weekday::Thursday,
        Weekday::Friday,
        Weekday::Saturday,
        Weekday::Sunday,
    ]
}

fn local(y: i32, mo: u32, d: u32, h: u32, mi: u32, s: u32) -> i64 {
    Local.with_ymd_and_hms(y, mo, d, h, mi, s).unwrap().timestamp()
}

fn utc(y: i32, mo: u32, d: u32, h: u32, mi: u32, s: u32) -> i64 {
    Utc.with_ymd_and_hms(y, mo, d, h, mi, s).unwrap().timestamp()
}

fn window(start: &str, end: &str, days: Vec<Weekday>) -> RateWindow {
    RateWindow {
        start: RateTime::from_str(start).unwrap(),
        end: RateTime::from_str(end).unwrap(),
        days,
    }
}

#[test]
fn rate_time_from_str() {
    let nine_am = RateTime::new(9, 59).unwrap();

    let test_nine_am = RateTime::from_str("09:59").unwrap();
    assert_eq!(&nine_am, &test_nine_am);

    assert_eq!(RateTime::from_str("24:00").is_err(), true);
    assert_eq!(RateTime::from_str("00:60").is_err(), true);
}

#[test]
#[should_panic]
fn rate_time_from_str_bad() {
    RateTime::from_str("hello").unwrap();
    RateTime::from_str("24").unwrap();
    RateTime::from_str("a:1").unwrap();
}

#[test]
fn rate_next_from() {
    let a_monday = local(2022, 4, 18, 8, 0, 0);
    let a_saturday = local(2022, 4, 16, 8, 0, 0);
    let a_friday = local(2022, 4, 22, 8, 59, 59);
    let a_sunday_inside = local(2022, 4, 24, 16, 0, 0);

    let rate = window("09:00", "16:59", vec![Weekday::Sunday, Weekday::Friday]);

    let sch = rate.schedule(a_monday);
    let next = sch.first().unwrap();
    assert_eq!(local(2022, 4, 22, 9, 0, 0), next.start);
    assert_eq!(local(2022, 4, 22, 16, 59, 0), next.end);

    let sch = rate.schedule(a_saturday);
    let next = sch.first().unwrap();
    assert_eq!(local(2022, 4, 17, 9, 0, 0), next.start);

    let sch = rate.schedule(a_friday);
    let next = sch.first().unwrap();
    assert_eq!(local(2022, 4, 22, 9, 0, 0), next.start, "same day before schedule");

    let sch = rate.schedule(a_sunday_inside);
    let next = sch.first().unwrap();
    assert_eq!(local(2022, 4, 24, 9, 0, 0), next.start);
}

#[test]
fn rate_never() {
    let rate = window("09:00", "16:59", vec![]);

    let sch = rate.schedule(Utc::now().timestamp());
    assert_eq!(None, sch.first());
}

#[test]
fn rate_period() {
    let rate = window("00:00", "00:01", vec![]);
    assert_eq!(1, rate.period());

    let rate = window("23:00", "02:00", vec![]);
    assert_eq!(180, rate.period());

    let rate = window("00:00", "23:59", vec![]);
    assert_eq!(23 * 60 + 59, rate.period());
}

#[test]
fn rate_cross() {
    let rate = window("23:00", "08:59", all_weekdays());

    let from = local(2022, 5, 3, 2, 0, 0);
    let sch = rate.schedule(from);
    let next = sch.first().unwrap();

    assert_eq!(next.start, local(2022, 5, 2, 23, 0, 0));
}

#[test]
fn weekday_days_from() {
    assert_eq!(Weekday::days_from(&Weekday::Monday, &Weekday::Tuesday), 1);
    assert_eq!(Weekday::days_from(&Weekday::Sunday, &Weekday::Monday), 1);
    assert_eq!(Weekday::days_from(&Weekday::Monday, &Weekday::Sunday), 6);
    assert_eq!(Weekday::days_from(&Weekday::Wednesday, &Weekday::Tuesday), 6);
    assert_eq!(Weekday::days_from(&Weekday::Sunday, &Weekday::Sunday), 0);
}

#[test]
fn cross_midnight_occurrence_at_fixed_offset() {
    // 2022-05-03 was a Tuesday; at 02:00 the window begun on Monday 23:00 is in effect
    let rate = window("23:00", "08:59", all_weekdays());
    let from = utc(2022, 5, 3, 2, 0, 0);
    let sch = rate.schedule_at(from, 0);
    assert_eq!(sch.len(), 7);
    assert_eq!(sch[0], RateWindowAbsolute { start: utc(2022, 5, 2, 23, 0, 0), end: utc(2022, 5, 3, 8, 59, 0) });
    assert_eq!(sch[0].end - sch[0].start, 599 * 60);
    assert_eq!(sch[6].start, utc(2022, 5, 8, 23, 0, 0));
}

#[test]
fn occurrences_strictly_ascending_with_window_duration() {
    let rate = window("23:00", "16:59", vec![Weekday::Friday, Weekday::Monday, Weekday::Wednesday]);
    assert_eq!(rate.period(), 1079);
    let from = utc(2022, 4, 20, 12, 0, 0);
    let sch = rate.schedule_at(from, 0);
    assert_eq!(sch.len(), 3);
    for i in 0..sch.len() {
        assert_eq!(sch[i].end - sch[i].start, 1079 * 60);
        if i > 0 {
            assert!(sch[i - 1].start < sch[i].start);
        }
    }
    // Tuesday 19th 23:00 is no listed day; the Wednesday occurrence comes first
    assert_eq!(sch[0].start, utc(2022, 4, 20, 23, 0, 0));
    assert_eq!(sch[1].start, utc(2022, 4, 22, 23, 0, 0));
    assert_eq!(sch[2].start, utc(2022, 4, 25, 23, 0, 0));
}

#[test]
fn repeated_days_give_one_occurrence_each() {
    let rate = window("09:00", "10:00", vec![Weekday::Monday, Weekday::Monday]);
    let sch = rate.schedule_at(utc(2022, 4, 18, 8, 0, 0), 0);
    assert_eq!(sch, vec![RateWindowAbsolute { start: utc(2022, 4, 18, 9, 0, 0), end: utc(2022, 4, 18, 10, 0, 0) }]);
}

#[test]
fn empty_day_set_at_any_instant() {
    let rate = window("00:00", "23:59", vec![]);
    assert!(rate.schedule_at(0, 0).is_empty());
    assert!(rate.schedule_at(utc(2022, 5, 3, 2, 0, 0), 3600).is_empty());
}

#[test]
fn active_occurrence_kept_and_ends_inclusive() {
    let rate = window("09:00", "16:59", vec![Weekday::Monday]);
    // inside the occurrence
    let sch = rate.schedule_at(utc(2022, 4, 18, 12, 0, 0), 0);
    assert_eq!(sch[0].start, utc(2022, 4, 18, 9, 0, 0));
    // exactly at its end it is still in effect
    let sch = rate.schedule_at(utc(2022, 4, 18, 16, 59, 0), 0);
    assert_eq!(sch[0].start, utc(2022, 4, 18, 9, 0, 0));
    // one second later it is over, and the next Monday is too far ahead
    let sch = rate.schedule_at(utc(2022, 4, 18, 16, 59, 1), 0);
    assert!(sch.is_empty());
    assert!(sch.iter().all(|o| !o.is_inside(utc(2022, 4, 18, 16, 59, 1))));
}

#[test]
fn resolving_twice_gives_the_same() {
    let rate = window("23:00", "08:59", all_weekdays());
    let from = utc(2022, 5, 3, 2, 0, 0);
    assert_eq!(rate.schedule_at(from, 7200), rate.schedule_at(from, 7200));
}

#[test]
fn offset_moves_occurrences() {
    // two hours ahead of UTC: local 09:00 is 07:00 UTC
    let rate = window("09:00", "10:00", all_weekdays());
    let sch = rate.schedule_at(utc(2022, 4, 18, 6, 0, 0), 7200);
    assert_eq!(sch[0].start, utc(2022, 4, 18, 7, 0, 0));
    // before the epoch
    let sch = rate.schedule_at(utc(1969, 12, 31, 8, 0, 0), 0);
    assert_eq!(sch[0].start, utc(1969, 12, 31, 9, 0, 0));
}

#[test]
fn rate_time_parse_forms() {
    assert_eq!(RateTime::parse("9:5").unwrap().minute_of_day(), 545);
    assert_eq!(RateTime::parse("+9:05").unwrap().hour(), 9);
    assert_eq!(RateTime::parse("23:59:30").unwrap().minute(), 59);
    assert_eq!(RateTime::parse("0009:00").unwrap().hour(), 9);
    assert!(RateTime::parse("256:00").is_err());
    assert!(RateTime::parse(":").is_err());
    assert!(RateTime::parse("9:").is_err());
    assert!(RateTime::parse("-1:00").is_err());
    assert!(RateTime::parse(" 9:00").is_err());
    assert!(RateTime::parse("0900").is_err());
    assert!(RateTime::new(23, 59).is_ok());
    assert!(RateTime::new(24, 0).is_err());
    assert!(RateTime::new(0, 60).is_err());
    assert_eq!(RateTime::new(24, 0).unwrap_err().0, "Invalid time range");
}

#[test]
fn time_of_day_of_instant() {
    let t = RateTime::of_instant(utc(2022, 5, 3, 17, 42, 59));
    assert_eq!((t.hour(), t.minute()), (17, 42));
    let t = RateTime::of_instant(utc(1969, 12, 31, 23, 59, 0));
    assert_eq!((t.hour(), t.minute()), (23, 59));
    let t = RateTime::of_instant(-1);
    assert_eq!(t.minute_of_day(), 1439);
    assert_eq!(RateTime::of_instant(0).minute_of_day(), 0);
}

#[test]
fn times_of_day_ordered_by_minutes() {
    let a = RateTime::from_str("08:59").unwrap();
    let b = RateTime::from_str("09:00").unwrap();
    assert!(a < b);
    assert!(b > a);
    assert!(a <= RateTime::new(8, 59).unwrap());
    assert_eq!(a.partial_cmp(&b), Some(std::cmp::Ordering::Less));
    assert_eq!(b.partial_cmp(&RateTime::from_str("9:0").unwrap()), Some(std::cmp::Ordering::Equal));
}
