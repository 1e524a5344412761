use chrono::{Local, TimeZone, Timelike};
use daylight_extender::clock::LocalDateTime;
use daylight_extender::error::CustomError;
use daylight_extender::shelly::data::CallParams;
use daylight_extender::Controller;

fn expected_timespec(timestamp: i64) -> String {
    let local = Local.timestamp_opt(timestamp, 0).unwrap();
    format!("{} {} {} * * 0,1,2,3,4,5,6", local.second(), local.minute(), local.hour())
}

#[test]
fn call_switch_on_sets_the_switch() {
    let call = Controller::call_switch_on(0, 15655);
    assert_eq!("switch.set", call.method);
    match call.params {
        Some(CallParams::SwitchSet { on, toggle_after, id }) => {
            assert!(on);
            assert_eq!(15655, toggle_after);
            assert_eq!(0, id);
        }
        other => panic!("unexpected params {:?}", other),
    }
}

#[test]
fn schedule_job_holds_one_call() {
    let job = Controller::schedule_job("1 2 3 * * 0,1,2,3,4,5,6".to_string(), 4, -9545, Some(23), false);
    assert_eq!(Some(23), job.id);
    assert!(!job.enable);
    assert_eq!("1 2 3 * * 0,1,2,3,4,5,6", job.timespec);
    assert_eq!(1, job.calls.len());
    assert_eq!("switch.set", job.calls[0].method);
    match &job.calls[0].params {
        Some(CallParams::SwitchSet { on, toggle_after, id }) => {
            assert!(*on);
            assert_eq!(-9545, *toggle_after);
            assert_eq!(4, *id);
        }
        other => panic!("unexpected params {:?}", other),
    }
}

#[test]
fn schedule_job_at_time_of_day() {
    let time = LocalDateTime { year: 2023, month: 12, day: 20, hour: 3, minute: 53, second: 24 };
    let job = Controller::schedule_job_at(&time, 0, 15655, None, true);
    assert_eq!(None, job.id);
    assert!(job.enable);
    assert_eq!("24 53 3 * * 0,1,2,3,4,5,6", job.timespec);
    assert_eq!(1, job.calls.len());
}

#[test]
fn new_schedule_job_for_create_has_no_id() {
    let job = Controller::new_schedule_job_for_create(1703040804, 0, 15655, true).expect("Unexpected");
    assert_eq!(None, job.id);
    assert!(job.enable);
    assert_eq!(expected_timespec(1703040804), job.timespec);
    assert_eq!(1, job.calls.len());
}

#[test]
fn new_schedule_job_for_update_keeps_the_id() {
    let job =
        Controller::new_schedule_job_for_update(1703040804, 0, 15655, 17, false).expect("Unexpected");
    assert_eq!(Some(17), job.id);
    assert!(!job.enable);
    assert_eq!(expected_timespec(1703040804), job.timespec);
}

#[test]
fn new_schedule_job_out_of_range() {
    let job = Controller::new_schedule_job(i64::MAX, 0, 15655, None, true);
    assert_eq!(Some(CustomError::TimeConversionError), job.err());
}
