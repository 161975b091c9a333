use chrono::{Datelike, NaiveDate, TimeZone};
use madrid_cita_previa::calendar::{AppointmentDay, AppointmentSlot, MAX_YEAR, MIN_YEAR};

#[test]
fn year_range_is_that_of_chrono() {
    assert_eq!(NaiveDate::MIN.year(), MIN_YEAR);
    assert_eq!(NaiveDate::MAX.year(), MAX_YEAR);
    assert!(AppointmentDay::from_ymd(MIN_YEAR, 1, 1).is_some());
    assert!(AppointmentDay::from_ymd(MAX_YEAR, 12, 31).is_some());
    assert!(AppointmentDay::from_ymd(MIN_YEAR - 1, 12, 31).is_none());
    assert!(AppointmentDay::from_ymd(MAX_YEAR + 1, 1, 1).is_none());
    assert!(AppointmentDay::from_ymd(i32::MIN, 1, 1).is_none());
    assert!(AppointmentDay::from_ymd(i32::MAX, 1, 1).is_none());
}

#[test]
fn from_ymd_agrees_with_chrono() {
    let years = [
        MIN_YEAR - 1, MIN_YEAR, -400, -101, -100, -5, -4, -1, 0, 1, 4, 100, 400, 1900, 1999, 2000,
        2023, 2024, 2100, 9999, 10000, MAX_YEAR, MAX_YEAR + 1,
    ];
    for year in years {
        for month in 0..=14u8 {
            for day in 0..=33u8 {
                let ours = AppointmentDay::from_ymd(year, month, day)
                    .map(|d| (d.year(), d.month() as u32, d.day() as u32));
                let theirs = NaiveDate::from_ymd_opt(year, month as u32, day as u32)
                    .map(|d| (d.year(), d.month(), d.day()));
                assert_eq!(ours, theirs, "{}-{}-{}", year, month, day);
            }
        }
    }
    assert!(AppointmentDay::from_ymd(2024, 255, 1).is_none());
    assert!(AppointmentDay::from_ymd(2024, 1, 255).is_none());
}

#[test]
fn leap_days() {
    assert!(AppointmentDay::from_ymd(2024, 2, 29).is_some());
    assert!(AppointmentDay::from_ymd(2023, 2, 29).is_none());
    assert!(AppointmentDay::from_ymd(2000, 2, 29).is_some());
    assert!(AppointmentDay::from_ymd(1900, 2, 29).is_none());
    assert!(AppointmentDay::from_ymd(2024, 4, 31).is_none());
    assert!(AppointmentDay::from_ymd(2024, 4, 30).is_some());
}

#[test]
fn query_text_is_day_month_year() {
    let text = |y, m, d| AppointmentDay::from_ymd(y, m, d).unwrap().query_text();
    assert_eq!(text(2024, 6, 5), "05/06/2024");
    assert_eq!(text(2024, 12, 31), "31/12/2024");
    assert_eq!(text(999, 1, 1), "01/01/0999");
    assert_eq!(text(5, 10, 20), "20/10/0005");
    assert_eq!(text(0, 1, 1), "01/01/0000");
    assert_eq!(text(9999, 1, 1), "01/01/9999");
    assert_eq!(text(10000, 1, 1), "01/01/+10000");
    assert_eq!(text(-1, 1, 1), "01/01/-0001");
    assert_eq!(text(-12345, 1, 1), "01/01/-12345");
    assert_eq!(text(MAX_YEAR, 12, 31), "31/12/+262142");
    assert_eq!(text(MIN_YEAR, 1, 1), "01/01/-262143");
}

#[test]
fn texts_agree_with_chrono() {
    for year in [MIN_YEAR, -10000, -9999, -1000, -999, -1, 0, 7, 99, 100, 999, 1000, 2024, 9999, 10000, MAX_YEAR] {
        for (month, day) in [(1u8, 1u8), (2, 28), (6, 5), (10, 9), (12, 31)] {
            let ours = AppointmentDay::from_ymd(year, month, day).unwrap();
            let theirs = NaiveDate::from_ymd_opt(year, month as u32, day as u32).unwrap();
            assert_eq!(ours.query_text(), theirs.format("%d/%m/%Y").to_string());
            assert_eq!(ours.iso_text(), theirs.to_string());
        }
    }
}

#[test]
fn iso_text_is_year_month_day() {
    assert_eq!(AppointmentDay::from_ymd(2024, 6, 5).unwrap().iso_text(), "2024-06-05");
    assert_eq!(AppointmentDay::from_ymd(-1, 12, 31).unwrap().iso_text(), "-0001-12-31");
}

#[test]
fn slot_holds_civil_time_and_instant() {
    let day = AppointmentDay::from_ymd(2024, 6, 5).unwrap();
    let slot = AppointmentSlot::at(day, 9, 30).unwrap();
    assert_eq!(slot.day(), day);
    assert_eq!(slot.hour(), 9);
    assert_eq!(slot.minute(), 30);
    assert_eq!(slot.timestamp(), 1717572600);
    let winter = AppointmentSlot::at(AppointmentDay::from_ymd(2024, 12, 5).unwrap(), 9, 30).unwrap();
    assert_eq!(winter.timestamp(), 1733387400);
}

#[test]
fn slot_needs_a_time_of_day() {
    let day = AppointmentDay::from_ymd(2024, 6, 5).unwrap();
    assert!(AppointmentSlot::at(day, 24, 0).is_none());
    assert!(AppointmentSlot::at(day, 0, 60).is_none());
    assert!(AppointmentSlot::at(day, 255, 255).is_none());
    assert!(AppointmentSlot::at(day, 0, 0).is_some());
    assert!(AppointmentSlot::at(day, 23, 59).is_some());
}

#[test]
fn slot_agrees_with_chrono_tz() {
    for (year, month, d) in [(2024, 3, 30), (2024, 3, 31), (2024, 10, 27), (2024, 7, 1), (1970, 1, 1), (1940, 3, 16), (2037, 10, 25)] {
        let day = AppointmentDay::from_ymd(year, month, d).unwrap();
        for hour in 0..24u8 {
            for minute in [0u8, 29, 30, 59] {
                let local = NaiveDate::from_ymd_opt(year, month as u32, d as u32)
                    .unwrap()
                    .and_hms_opt(hour as u32, minute as u32, 0)
                    .unwrap();
                let theirs =
                    chrono_tz::Europe::Madrid.from_local_datetime(&local).single().map(|t| t.timestamp());
                let ours = AppointmentSlot::at(day, hour, minute).map(|s| s.timestamp());
                assert_eq!(ours, theirs, "{} {}:{}", local, hour, minute);
            }
        }
    }
}

#[test]
fn slots_at_the_ends_of_the_calendar_do_not_fail() {
    for (year, month, d) in [(MIN_YEAR, 1, 1), (MAX_YEAR, 12, 31), (0, 1, 1), (-1, 12, 31)] {
        let day = AppointmentDay::from_ymd(year, month, d).unwrap();
        for (hour, minute) in [(0u8, 0u8), (12, 0), (23, 59)] {
            let local = NaiveDate::from_ymd_opt(year, month as u32, d as u32)
                .unwrap()
                .and_hms_opt(hour as u32, minute as u32, 0)
                .unwrap();
            let theirs = chrono_tz::Europe::Madrid
                .from_local_datetime(&local)
                .single()
                .map(|t| t.timestamp());
            assert_eq!(AppointmentSlot::at(day, hour, minute).map(|s| s.timestamp()), theirs);
        }
    }
}
