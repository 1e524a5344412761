use chrono::{Local, TimeZone, Timelike};
use daylight_extender::clock::LocalDateTime;
use daylight_extender::error::CustomError;
use daylight_extender::Controller;

fn at(hour: u32, minute: u32, second: u32) -> LocalDateTime {
    LocalDateTime { year: 2023, month: 12, day: 20, hour, minute, second }
}

fn expected_timespec(timestamp: i64) -> String {
    let local = Local.timestamp_opt(timestamp, 0).unwrap();
    format!("{} {} {} * * 0,1,2,3,4,5,6", local.second(), local.minute(), local.hour())
}

#[test]
fn format_timespec_second_minute_hour() {
    assert_eq!("59 28 0 * * 0,1,2,3,4,5,6", Controller::format_timespec(&at(0, 28, 59)));
    assert_eq!("0 0 1 * * 0,1,2,3,4,5,6", Controller::format_timespec(&at(1, 0, 0)));
    assert_eq!("0 1 2 * * 0,1,2,3,4,5,6", Controller::format_timespec(&at(2, 1, 0)));
    assert_eq!("1 0 1 * * 0,1,2,3,4,5,6", Controller::format_timespec(&at(1, 0, 1)));
    assert_eq!("1 0 0 * * 0,1,2,3,4,5,6", Controller::format_timespec(&at(0, 0, 1)));
    assert_eq!("59 59 23 * * 0,1,2,3,4,5,6", Controller::format_timespec(&at(23, 59, 59)));
}

#[test]
fn format_timespec_without_padding() {
    assert_eq!("0 0 0 * * 0,1,2,3,4,5,6", Controller::format_timespec(&at(0, 0, 0)));
    assert_eq!("5 7 9 * * 0,1,2,3,4,5,6", Controller::format_timespec(&at(9, 7, 5)));
    assert_eq!("10 20 13 * * 0,1,2,3,4,5,6", Controller::format_timespec(&at(13, 20, 10)));
}

#[test]
fn format_timespec_ignores_the_date() {
    let one = LocalDateTime { year: 1970, month: 1, day: 1, hour: 6, minute: 30, second: 15 };
    let other = LocalDateTime { year: 2038, month: 2, day: 28, hour: 6, minute: 30, second: 15 };
    assert_eq!(Controller::format_timespec(&one), Controller::format_timespec(&other));
}

#[test]
fn get_timespec_parametrized() {
    let timestamps: Vec<i64> =
        vec![1703114939, 946684800, 1280534460, 2235254401, 2235250801, 33481897199];
    for timestamp in timestamps {
        let result = Controller::get_timespec(timestamp);
        assert!(result.is_ok(), "Expected Ok is Error");
        assert_eq!(expected_timespec(timestamp), result.expect("Unexpected"));
    }
}

#[test]
fn get_timespec_begins_with_local_time_of_day() {
    let timestamp: i64 = 1703040804;
    let local = Local.timestamp_opt(timestamp, 0).unwrap();
    let head = format!("{} {} {}", local.second(), local.minute(), local.hour());
    let timespec = Controller::get_timespec(timestamp).expect("Unexpected");
    assert!(timespec.starts_with(head.as_str()));
    assert!(timespec.ends_with(" * * 0,1,2,3,4,5,6"));
    assert_eq!(head.len() + " * * 0,1,2,3,4,5,6".len(), timespec.len());
}

#[test]
fn get_timespec_of_the_sentinel() {
    let result = Controller::get_timespec(-1);
    assert_eq!(Ok(expected_timespec(-1)), result);
}

#[test]
fn get_timespec_out_of_range() {
    assert_eq!(Err(CustomError::TimeConversionError), Controller::get_timespec(i64::MAX));
    assert_eq!(Err(CustomError::TimeConversionError), Controller::get_timespec(i64::MIN));
    assert_eq!(
        Err(CustomError::TimeConversionError),
        Controller::get_timespec(9_000_000_000_000)
    );
}
