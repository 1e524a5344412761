//! The job that switches the light: one call that turns the switch on and
//! lets it fall back after a delay.

use crate::clock::{spec_has_local_time, LocalDateTime};
use crate::error::CustomError;
use crate::shelly::data::{
    CallParams, CallParamsView, ScheduleJobMethod, ScheduleJobMethodView, ScheduleJobView,
    ScheduleJobWithOptionalId,
};
use crate::timespec::spec_timespec_at;
use crate::Controller;
use vstd::prelude::*;

verus! {

/// The relay's method that sets a switch.
pub const SWITCH_SET: &'static str = "switch.set";

/// The switch that the light hangs on.
pub const SWITCH_ID: u8 = 0;

/// The call that turns switch `id` on and lets it fall back after
/// `toggle_after` seconds.
pub open spec fn spec_switch_on(id: u8, toggle_after: i64) -> ScheduleJobMethodView {
    ScheduleJobMethodView {
        method: SWITCH_SET@,
        params: Some(CallParamsView::SwitchSet { on: true, toggle_after, id }),
    }
}

/// The job that fires at `timespec` and makes one call: switch on, fall back
/// after `toggle_after` seconds.
pub open spec fn spec_schedule_job(
    timespec: Seq<char>,
    switch_id: u8,
    toggle_after: i64,
    job_id: Option<u32>,
    enable: bool,
) -> ScheduleJobView {
    ScheduleJobView {
        id: job_id,
        enable,
        timespec,
        calls: seq![spec_switch_on(switch_id, toggle_after)],
    }
}

impl<'a> Controller<'a> {
    /// The call that turns switch `id` on and lets it fall back after
    /// `toggle_after` seconds.
    pub fn call_switch_on(id: u8, toggle_after: i64) -> (call: ScheduleJobMethod)
        ensures
            call@ == spec_switch_on(id, toggle_after),
    {
        ScheduleJobMethod {
            method: String::from_str(SWITCH_SET),
            params: Some(CallParams::SwitchSet { on: true, toggle_after, id }),
        }
    }

    /// The job that fires at `timespec`.
    pub fn schedule_job(
        timespec: String,
        switch_id: u8,
        toggle_after: i64,
        job_id: Option<u32>,
        enable: bool,
    ) -> (job: ScheduleJobWithOptionalId)
        ensures
            job@ == spec_schedule_job(timespec@, switch_id, toggle_after, job_id, enable),
    {
        let mut calls: Vec<ScheduleJobMethod> = Vec::new();
        calls.push(Self::call_switch_on(switch_id, toggle_after));
        let job = ScheduleJobWithOptionalId { id: job_id, enable, timespec, calls };
        assert(job@.calls =~= seq![spec_switch_on(switch_id, toggle_after)]);
        job
    }

    /// The job that fires every day at the time of day of `time`.
    pub fn schedule_job_at(
        time: &LocalDateTime,
        switch_id: u8,
        toggle_after: i64,
        job_id: Option<u32>,
        enable: bool,
    ) -> (job: ScheduleJobWithOptionalId)
        ensures
            job@ == spec_schedule_job(
                spec_timespec_at(*time),
                switch_id,
                toggle_after,
                job_id,
                enable,
            ),
    {
        Self::schedule_job(Self::format_timespec(time), switch_id, toggle_after, job_id, enable)
    }

    /// The job that fires every day at the local time of day of `light_on`.
    /// It fails where `light_on` has no local time.
    pub fn new_schedule_job(
        light_on: i64,
        switch_id: u8,
        toggle_after: i64,
        job_id: Option<u32>,
        enable: bool,
    ) -> (job: Result<ScheduleJobWithOptionalId, CustomError>)
        ensures
            job is Ok <==> spec_has_local_time(light_on as int),
            job matches Ok(j) ==> exists|time: LocalDateTime|
                time.wf() && j@ == spec_schedule_job(
                    #[trigger] spec_timespec_at(time),
                    switch_id,
                    toggle_after,
                    job_id,
                    enable,
                ),
            job matches Err(e) ==> e == CustomError::TimeConversionError,
    {
        match Self::get_timespec(light_on) {
            Ok(timespec) => Ok(
                Self::schedule_job(timespec, switch_id, toggle_after, job_id, enable),
            ),
            Err(e) => Err(e),
        }
    }

    /// The job that replaces job `job_id` of the relay.
    pub fn new_schedule_job_for_update(
        light_on: i64,
        switch_id: u8,
        toggle_after: i64,
        job_id: u32,
        enable: bool,
    ) -> (job: Result<ScheduleJobWithOptionalId, CustomError>)
        ensures
            job is Ok <==> spec_has_local_time(light_on as int),
            job matches Ok(j) ==> exists|time: LocalDateTime|
                time.wf() && j@ == spec_schedule_job(
                    #[trigger] spec_timespec_at(time),
                    switch_id,
                    toggle_after,
                    Some(job_id),
                    enable,
                ),
            job matches Err(e) ==> e == CustomError::TimeConversionError,
    {
        Self::new_schedule_job(light_on, switch_id, toggle_after, Some(job_id), enable)
    }

    /// The job that the relay is asked to create.
    pub fn new_schedule_job_for_create(
        light_on: i64,
        switch_id: u8,
        toggle_after: i64,
        enable: bool,
    ) -> (job: Result<ScheduleJobWithOptionalId, CustomError>)
        ensures
            job is Ok <==> spec_has_local_time(light_on as int),
            job matches Ok(j) ==> exists|time: LocalDateTime|
                time.wf() && j@ == spec_schedule_job(
                    #[trigger] spec_timespec_at(time),
                    switch_id,
                    toggle_after,
                    None,
                    enable,
                ),
            job matches Err(e) ==> e == CustomError::TimeConversionError,
    {
        Self::new_schedule_job(light_on, switch_id, toggle_after, None, enable)
    }
}

} // verus!
