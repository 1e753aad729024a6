use chrono::{Local, TimeZone, Utc};
use ess_dispatch::smart_ess::rate::{ChargeMode, Rate, RateCharge, RateDischarge};
use ess_dispatch::smart_ess::window::{RateTime, RateWindow, RateWindowAbsolute, Weekday};
use ess_dispatch::smart_ess::{Controller, ControllerInputState, MAX_GRID_IMPORT};
use std::str::FromStr;

fn all_weekdays() -> Vec<Weekday> {
    vec![
        Weekday::Monday,
        Weekday::Tuesday,
        Weekday::Wednesday,
        Weekday::Thursday,
        Weekday::Friday,
        Weekday::Saturday,
        Weekday::Sunday,
    ]
}

fn local(y: i32, mo: u32, d: u32, h: u32, mi: u32, s: u32) -> i64 {
    Local.with_ymd_and_hms(y, mo, d, h, mi, s).unwrap().timestamp()
}

fn utc(y: i32, mo: u32, d: u32, h: u32, mi: u32, s: u32) -> i64 {
    Utc.with_ymd_and_hms(y, mo, d, h, mi, s).unwrap().timestamp()
}

fn rate(name: &str, start: &str, end: &str, discharge: RateDischarge, mode: ChargeMode, reserve: u32) -> Rate {
    Rate {
        name: name.to_owned(),
        unit_cost: 0,
        windows: vec![RateWindow {
            start: RateTime::from_str(start).unwrap(),
            end: RateTime::from_str(end).unwrap(),
            days: all_weekdays(),
        }],
        discharge,
        charge: RateCharge { mode, unit_limit: 0 },
        reserve,
    }
}

fn get_controller() -> Controller {
    Controller::new(
        vec![
            rate("Day", "09:00", "16:59", RateDischarge::Spread, ChargeMode::Disabled, 0),
            rate("Peak", "17:00", "18:59", RateDischarge::Capacity(1000), ChargeMode::Disabled, 0),
            rate("Night", "23:00", "08:59", RateDischarge::Disabled, ChargeMode::Capacity(1000), 0),
        ],
        900,
    )
}

fn input(soc: u16) -> ControllerInputState {
    ControllerInputState { system_load: 1000, soc, capacity: 4000, voltage: 0 }
}

#[test]
fn schedule() {
    let controller = get_controller();
    let from = local(2022, 5, 3, 2, 0, 0);
    let sch = controller.get_schedule(from);
    let next = sch.get(0).unwrap();

    assert_eq!(next.window.start, local(2022, 5, 2, 23, 0, 0));
}

#[test]
fn min_soc() {
    let controller = get_controller();
    let from = local(2022, 5, 3, 17, 30, 0);

    let state_at_dod = controller
        .desired_state(
            from,
            ControllerInputState { system_load: 1000, soc: 1000 - controller.dod, capacity: 4000, voltage: 0 },
        )
        .unwrap();

    assert_eq!(state_at_dod.current_rate.rate.discharge, RateDischarge::Capacity(1000), "Is peak discharge");
    assert_eq!(state_at_dod.disable_feed_in, true, "Disable feed-in when at min state of charge {:?}", state_at_dod);

    let state_above_dod = controller
        .desired_state(
            from,
            ControllerInputState { system_load: 1000, soc: 1100 - controller.dod, capacity: 4000, voltage: 0 },
        )
        .unwrap();

    assert_eq!(state_above_dod.disable_feed_in, false, "Above DoD {:?}", state_above_dod);
}

#[test]
fn next_from() {
    let rate = Rate {
        name: "test".to_owned(),
        unit_cost: 200,
        windows: vec![
            RateWindow {
                start: RateTime::from_str("09:00").unwrap(),
                end: RateTime::from_str("9:59").unwrap(),
                days: all_weekdays(),
            },
            RateWindow {
                start: RateTime::from_str("11:00").unwrap(),
                end: RateTime::from_str("11:59").unwrap(),
                days: all_weekdays(),
            },
        ],
        charge: RateCharge { mode: ChargeMode::Capacity(1000), unit_limit: 0 },
        discharge: RateDischarge::Disabled,
        reserve: 0,
    };

    let next = rate.schedule_at(utc(2022, 4, 18, 8, 0, 0), 0);
    assert_eq!(utc(2022, 4, 18, 9, 0, 0), next[0].start);
    assert_eq!(utc(2022, 4, 18, 11, 0, 0), next[1].start);

    let next = rate.schedule_at(utc(2022, 4, 18, 9, 0, 0), 0);
    assert_eq!(utc(2022, 4, 18, 9, 0, 0), next[0].start);
    assert_eq!(utc(2022, 4, 18, 11, 0, 0), next[1].start);

    let next = rate.schedule_at(utc(2022, 4, 18, 10, 0, 0), 0);
    assert_eq!(utc(2022, 4, 18, 11, 0, 0), next[0].start);
    assert_eq!(utc(2022, 4, 19, 9, 0, 0), next[1].start);
}

#[test]
fn merged_schedule_night_first_and_ordered() {
    let controller = get_controller();
    let sch = controller.get_schedule_at(utc(2022, 5, 3, 2, 0, 0), 0);
    assert_eq!(sch[0].rate.name, "Night");
    assert_eq!(sch[0].window, RateWindowAbsolute { start: utc(2022, 5, 2, 23, 0, 0), end: utc(2022, 5, 3, 8, 59, 0) });
    assert_eq!(sch[1].rate.name, "Day");
    assert_eq!(sch[2].rate.name, "Peak");
    assert_eq!(sch[3].rate.name, "Night");
    for i in 1..sch.len() {
        assert!(sch[i - 1].window.start < sch[i].window.start);
    }
    // seven Night occurrences (the one in effect included), six each of Day and Peak
    assert_eq!(sch.len(), 19);
}

#[test]
fn merged_schedule_keeps_overlapping_rates() {
    let controller = Controller::new(
        vec![
            rate("A", "10:00", "11:00", RateDischarge::Disabled, ChargeMode::Disabled, 0),
            rate("B", "10:00", "10:30", RateDischarge::Disabled, ChargeMode::Disabled, 0),
        ],
        900,
    );
    let sch = controller.get_schedule_at(utc(2022, 5, 3, 9, 0, 0), 0);
    // both overlapping occurrences are there; which comes first is not promised
    let mut first_two: Vec<&str> = sch[..2].iter().map(|s| s.rate.name.as_str()).collect();
    first_two.sort();
    assert_eq!(first_two, vec!["A", "B"]);
    assert_eq!(sch[0].window.start, sch[1].window.start);
    assert_eq!(sch[0].window.start, utc(2022, 5, 3, 10, 0, 0));
}

#[test]
fn tariff_schedule_merges_windows() {
    let mut r = rate("x", "12:00", "13:00", RateDischarge::Disabled, ChargeMode::Disabled, 0);
    r.windows.push(RateWindow {
        start: RateTime::from_str("08:00").unwrap(),
        end: RateTime::from_str("09:00").unwrap(),
        days: vec![Weekday::Tuesday],
    });
    let sch = r.schedule_at(utc(2022, 5, 3, 7, 0, 0), 0);
    assert_eq!(sch[0].start, utc(2022, 5, 3, 8, 0, 0));
    assert_eq!(sch[1].start, utc(2022, 5, 3, 12, 0, 0));
    assert_eq!(sch[2].start, utc(2022, 5, 4, 12, 0, 0));
    assert_eq!(sch.len(), 7);
}

#[test]
fn next_charge_is_first_charging_entry() {
    let controller = get_controller();
    let nc = controller.next_charge_at(utc(2022, 5, 3, 12, 0, 0), 0).unwrap();
    assert_eq!(nc.rate.name, "Night");
    assert_eq!(nc.window.start, utc(2022, 5, 3, 23, 0, 0));

    let none = Controller::new(vec![rate("Day", "09:00", "16:59", RateDischarge::Spread, ChargeMode::Disabled, 0)], 900);
    assert_eq!(none.next_charge_at(utc(2022, 5, 3, 12, 0, 0), 0).unwrap_err().0, "No rate found!");
}

#[test]
fn charging_regime() {
    let controller = get_controller();
    let out = controller.desired_state_at(utc(2022, 5, 3, 2, 0, 0), 0, input(500)).unwrap();
    assert_eq!(out.disable_charge, false);
    assert_eq!(out.disable_feed_in, true);
    assert_eq!(out.battery_load, 0);
    assert_eq!(out.grid_load, MAX_GRID_IMPORT);
    assert_eq!(out.using_capacity, 0);
    assert_eq!(out.reserve_capacity, 0);
    assert_eq!(out.soc, 500);
    assert_eq!(out.current_rate.rate.name, "Night");
    assert_eq!(out.next_rate.rate.name, "Day");
    assert_eq!(out.next_charge.window, out.current_rate.window);
}

#[test]
fn spread_at_floor_and_above() {
    let controller = get_controller();
    let from = utc(2022, 5, 3, 12, 0, 0);
    let at = controller.desired_state_at(from, 0, input(100)).unwrap();
    assert_eq!(at.current_rate.rate.name, "Day");
    assert_eq!(at.using_capacity, 0);
    assert_eq!(at.disable_feed_in, true);
    assert_eq!(at.battery_load, 0);
    assert_eq!(at.grid_load, 1000);

    let above = controller.desired_state_at(from, 0, input(200)).unwrap();
    assert_eq!(above.disable_charge, true);
    assert_eq!(above.soc, 100);
    // 400 Wh over the 660 minutes to 23:00
    assert_eq!(above.using_capacity, 400);
    assert_eq!(above.battery_load, 400 * 60 / 660);
    assert_eq!(above.grid_load, 1000 - 36);
    assert_eq!(above.disable_feed_in, false);
    assert_eq!(above.next_charge.rate.name, "Night");
}

#[test]
fn proportional_discharge_and_reserve() {
    let controller = Controller::new(
        vec![
            rate("Day", "09:00", "16:59", RateDischarge::Capacity(500), ChargeMode::Disabled, 0),
            rate("Peak", "17:00", "18:59", RateDischarge::Capacity(1000), ChargeMode::Disabled, 300),
            rate("Night", "23:00", "08:59", RateDischarge::Disabled, ChargeMode::Capacity(1000), 0),
        ],
        900,
    );
    let out = controller.desired_state_at(utc(2022, 5, 3, 12, 0, 0), 0, ControllerInputState {
        system_load: 1500,
        soc: 400,
        capacity: 10_000,
        voltage: 5200,
    })
    .unwrap();
    // Peak comes before the next charge and is not in effect: its reserve is kept
    assert_eq!(out.reserve_capacity, 300);
    assert_eq!(out.soc, 300);
    assert_eq!(out.using_capacity, 3000 - 300);
    assert_eq!(out.battery_load, 750);
    assert_eq!(out.grid_load, 750);
    assert_eq!(out.disable_feed_in, false);

    // a reserve larger than what is usable leaves nothing
    let out = controller.desired_state_at(utc(2022, 5, 3, 12, 0, 0), 0, ControllerInputState {
        system_load: 1500,
        soc: 120,
        capacity: 10_000,
        voltage: 0,
    })
    .unwrap();
    assert_eq!(out.using_capacity, 0);
    assert_eq!(out.disable_feed_in, true);
    assert_eq!(out.battery_load, 750);

    // a negative load never makes a negative battery or grid load
    let out = controller.desired_state_at(utc(2022, 5, 3, 12, 0, 0), 0, ControllerInputState {
        system_load: -200,
        soc: 400,
        capacity: 10_000,
        voltage: 0,
    })
    .unwrap();
    assert_eq!(out.battery_load, 0);
    assert_eq!(out.grid_load, 0);
    assert_eq!(out.disable_feed_in, true);
}

#[test]
fn dispatch_errors() {
    let empty = Controller::new(vec![], 900);
    assert_eq!(empty.desired_state_at(0, 0, input(500)).unwrap_err().0, "No current rate Found");

    let no_charge = Controller::new(vec![rate("Day", "09:00", "16:59", RateDischarge::Spread, ChargeMode::Disabled, 0)], 900);
    assert_eq!(no_charge.desired_state_at(0, 0, input(500)).unwrap_err().0, "No next charge rate Found");

    let mut single = rate("Night", "23:00", "08:59", RateDischarge::Disabled, ChargeMode::Capacity(1000), 0);
    single.windows[0].days = vec![Weekday::Monday];
    let one = Controller::new(vec![single], 900);
    let from = utc(2022, 5, 2, 12, 0, 0);
    assert_eq!(one.get_schedule_at(from, 0).len(), 1);
    assert_eq!(one.desired_state_at(from, 0, input(500)).unwrap_err().0, "No next rate found");
}

#[test]
fn charge_enabled_follows_mode() {
    assert!(!RateCharge { mode: ChargeMode::Disabled, unit_limit: 0 }.charge_enabled());
    assert!(RateCharge { mode: ChargeMode::Capacity(0), unit_limit: 5 }.charge_enabled());
}
