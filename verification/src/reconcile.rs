//! The reconciliation of the relay's schedule with the planned window, as a
//! state machine: each step takes the reply to the last request and gives
//! the next request, or the end of the run.

use crate::clock::{local_date_time, spec_has_local_time, LocalDateTime};
use crate::decimal::{parse_u32, spec_decimal, spec_parse_u32, unsigned_decimal};
use crate::error::{ControllerError, ControllerErrorView, CustomError};
use crate::job::{spec_schedule_job, SWITCH_ID};
use crate::shelly::data::{
    ScheduleCreateResponse, ScheduleCreateResponseView, ScheduleJobView,
    ScheduleJobWithOptionalId, ScheduleListResponse, ScheduleListResponseView,
    ScheduleUpdateResponse, ScheduleUpdateResponseView,
};
use crate::shelly::error::{ShellyRpcError, ShellyRpcErrorView};
use crate::timespec::spec_timespec_at;
use crate::window::{spec_desired_enabled, spec_plan, window_fits};
use crate::{Controller, SCHEDULE_JOB_ID};
use vstd::prelude::*;

verus! {

/// How far a run has come: which reply it waits for, and what it has to
/// remember until then.
#[derive(Debug, Clone, Copy, PartialEq, Eq, Structural)]
pub enum State {
    /// Waiting for the relay's location.
    Location { day_length: i64 },
    /// Waiting for the relay's time.
    Time { day_length: i64 },
    /// Waiting for sunrise and sunset at the relay's location.
    SunriseSunset { day_length: i64 },
    /// Waiting for the stored id of the job.
    StoredJobId { light_on: i64, toggle_after: i64 },
    /// Waiting for the list of the relay's jobs.
    JobList { light_on: i64, toggle_after: i64, job_id: u32 },
    /// Waiting for the relay to create the job.
    Created,
    /// Waiting for the relay to store the id of the job it created at
    /// revision `rev`.
    Persisted { rev: u32 },
    /// Waiting for the relay to update the job.
    Updated,
}

/// What the controller asks for next.
#[derive(Debug, Clone)]
pub enum Request {
    /// The relay's location.
    GetLocation,
    /// The relay's time.
    GetTime,
    /// Sunrise and sunset on a calendar day at the relay's location.
    SunriseSunset { year: i32, month: u32, day: u32 },
    /// The value that the relay stores under `key`.
    GetValue { key: String },
    /// The relay's jobs.
    ListSchedule,
    /// The creation of `job`.
    CreateSchedule { job: ScheduleJobWithOptionalId },
    /// The storing of `value` under `key`.
    SetValue { key: String, value: String },
    /// The replacement of the job that has the id of `job`.
    UpdateSchedule { job: ScheduleJobWithOptionalId },
    /// The disabling of job `job_id`, which is otherwise left as it is.
    DisableSchedule { job_id: u32 },
}

/// The mathematical content of a `Request`.
pub enum RequestView {
    GetLocation,
    GetTime,
    SunriseSunset { year: i32, month: u32, day: u32 },
    GetValue { key: Seq<char> },
    ListSchedule,
    CreateSchedule { job: ScheduleJobView },
    SetValue { key: Seq<char>, value: Seq<char> },
    UpdateSchedule { job: ScheduleJobView },
    DisableSchedule { job_id: u32 },
}

impl View for Request {
    type V = RequestView;

    open spec fn view(&self) -> RequestView {
        match self {
            Request::GetLocation => RequestView::GetLocation,
            Request::GetTime => RequestView::GetTime,
            Request::SunriseSunset { year, month, day } => RequestView::SunriseSunset {
                year: *year,
                month: *month,
                day: *day,
            },
            Request::GetValue { key } => RequestView::GetValue { key: key@ },
            Request::ListSchedule => RequestView::ListSchedule,
            Request::CreateSchedule { job } => RequestView::CreateSchedule { job: job@ },
            Request::SetValue { key, value } => RequestView::SetValue { key: key@, value: value@ },
            Request::UpdateSchedule { job } => RequestView::UpdateSchedule { job: job@ },
            Request::DisableSchedule { job_id } => RequestView::DisableSchedule { job_id: *job_id },
        }
    }
}

impl RequestView {
    /// Whether the request changes what the relay holds.
    pub open spec fn is_mutating(self) -> bool {
        match self {
            RequestView::CreateSchedule { .. } => true,
            RequestView::SetValue { .. } => true,
            RequestView::UpdateSchedule { .. } => true,
            RequestView::DisableSchedule { .. } => true,
            _ => false,
        }
    }
}

/// What came back for a request.
#[derive(Debug)]
pub enum Reply {
    /// The relay's location is known, or could not be had.
    Location(Result<(), ShellyRpcError>),
    /// The relay's time.
    Time(Result<i64, ShellyRpcError>),
    /// Sunrise and sunset, as unix timestamps.
    SunriseSunset { sunrise: i64, sunset: i64 },
    /// The value stored under the key.
    Value(Result<String, ShellyRpcError>),
    /// The relay's jobs.
    JobList(Result<ScheduleListResponse, ShellyRpcError>),
    /// The relay's answer to the creation of a job.
    Created(Result<ScheduleCreateResponse, ShellyRpcError>),
    /// The store's revision after the value was stored.
    ValueSet(Result<u32, ShellyRpcError>),
    /// The relay's answer to the update or the disabling of a job.
    Updated(Result<ScheduleUpdateResponse, ShellyRpcError>),
}

/// The mathematical content of a `Reply`.
pub enum ReplyView {
    Location(Result<(), ShellyRpcErrorView>),
    Time(Result<i64, ShellyRpcErrorView>),
    SunriseSunset { sunrise: i64, sunset: i64 },
    Value(Result<Seq<char>, ShellyRpcErrorView>),
    JobList(Result<ScheduleListResponseView, ShellyRpcErrorView>),
    Created(Result<ScheduleCreateResponseView, ShellyRpcErrorView>),
    ValueSet(Result<u32, ShellyRpcErrorView>),
    Updated(Result<ScheduleUpdateResponseView, ShellyRpcErrorView>),
}

impl View for Reply {
    type V = ReplyView;

    open spec fn view(&self) -> ReplyView {
        match self {
            Reply::Location(r) => ReplyView::Location(
                match r {
                    Ok(_) => Ok(()),
                    Err(e) => Err(e@),
                },
            ),
            Reply::Time(r) => ReplyView::Time(
                match r {
                    Ok(t) => Ok(*t),
                    Err(e) => Err(e@),
                },
            ),
            Reply::SunriseSunset { sunrise, sunset } => ReplyView::SunriseSunset {
                sunrise: *sunrise,
                sunset: *sunset,
            },
            Reply::Value(r) => ReplyView::Value(
                match r {
                    Ok(v) => Ok(v@),
                    Err(e) => Err(e@),
                },
            ),
            Reply::JobList(r) => ReplyView::JobList(
                match r {
                    Ok(v) => Ok(v@),
                    Err(e) => Err(e@),
                },
            ),
            Reply::Created(r) => ReplyView::Created(
                match r {
                    Ok(v) => Ok(v@),
                    Err(e) => Err(e@),
                },
            ),
            Reply::ValueSet(r) => ReplyView::ValueSet(
                match r {
                    Ok(v) => Ok(*v),
                    Err(e) => Err(e@),
                },
            ),
            Reply::Updated(r) => ReplyView::Updated(
                match r {
                    Ok(v) => Ok(v@),
                    Err(e) => Err(e@),
                },
            ),
        }
    }
}

/// Where a step leads: to the next request, or to the end of the run.
#[derive(Debug)]
pub enum Transition {
    /// The run goes on: `request` is to be made, and its reply handed back
    /// together with `state`.
    Next { state: State, request: Request },
    /// The run is over, with the revision that the relay reported last, or
    /// with the failure that ended it.
    Finished(Result<u32, ControllerError>),
}

/// The mathematical content of a `Transition`.
pub enum TransitionView {
    Next { state: State, request: RequestView },
    Finished(Result<u32, ControllerErrorView>),
}

impl View for Transition {
    type V = TransitionView;

    open spec fn view(&self) -> TransitionView {
        match self {
            Transition::Next { state, request } => TransitionView::Next {
                state: *state,
                request: request@,
            },
            Transition::Finished(r) => TransitionView::Finished(
                match r {
                    Ok(rev) => Ok(*rev),
                    Err(e) => Err(e@),
                },
            ),
        }
    }
}

/// A number of hours, in seconds.
pub open spec fn spec_hours_in_seconds(hours: u8) -> i64 {
    (hours * 3600) as i64
}

/// What a run does about the job.
#[derive(Debug, Clone, Copy, PartialEq, Eq, Structural)]
pub enum Action {
    /// Create the job and store its id.
    Create,
    /// Replace the job by the planned one.
    Update,
    /// Disable the job and leave the rest of it as it is.
    Disable,
    /// Leave the relay as it is.
    NoOp,
}

/// Whether `jobs[i]` is the first job with id `job_id`.
pub open spec fn spec_first_match(jobs: Seq<ScheduleJobView>, job_id: u32, i: int) -> bool {
    &&& 0 <= i < jobs.len()
    &&& jobs[i].id == Some(job_id)
    &&& forall|j: int| 0 <= j < i ==> (#[trigger] jobs[j]).id != Some(job_id)
}

/// The first job in `jobs` that has id `job_id`, if there is one.
pub open spec fn spec_find_job(jobs: Seq<ScheduleJobView>, job_id: u32) -> Option<
    ScheduleJobView,
> {
    if exists|i: int| spec_first_match(jobs, job_id, i) {
        Some(jobs[choose|i: int| spec_first_match(jobs, job_id, i)])
    } else {
        None
    }
}

/// There is one first job with a given id at most.
pub proof fn lemma_first_match_unique(jobs: Seq<ScheduleJobView>, job_id: u32, i: int, k: int)
    requires
        spec_first_match(jobs, job_id, i),
        spec_first_match(jobs, job_id, k),
    ensures
        i == k,
{
    if i < k {
        assert(jobs[i].id != Some(job_id));
    } else if k < i {
        assert(jobs[k].id != Some(job_id));
    }
}

/// What is to be done, given the stored id of the job, whether the planned
/// window asks for an enabled job, and the job as the relay lists it.
///
/// Without a stored id the job is created, whatever the window asks for.
/// With one, an enabled job is always sent again; a job that is to be
/// disabled is left alone where the relay lists it as disabled, disabled
/// where it lists it as enabled, and sent again where it does not list it.
pub open spec fn spec_decide(
    stored_id: Option<u32>,
    desired_enabled: bool,
    remote_job: Option<ScheduleJobView>,
) -> Action {
    match stored_id {
        None => Action::Create,
        Some(_) => if desired_enabled {
            Action::Update
        } else {
            match remote_job {
                Some(job) => if job.enable {
                    Action::Disable
                } else {
                    Action::NoOp
                },
                None => Action::Update,
            }
        },
    }
}

/// The end of a run in which an exchange with the relay failed.
pub open spec fn spec_failed(e: ShellyRpcErrorView) -> TransitionView {
    TransitionView::Finished(Err(ControllerErrorView::Rpc(e)))
}

/// The step that sends the planned job: as a new job where `job_id` is
/// `None`, else in place of job `job_id`. The job fires at the time of day
/// of `local`; without a local time the run ends.
pub open spec fn spec_send_job(
    light_on: i64,
    toggle_after: i64,
    job_id: Option<u32>,
    local: Option<LocalDateTime>,
) -> TransitionView {
    match local {
        None => TransitionView::Finished(
            Err(ControllerErrorView::Custom(CustomError::TimeConversionError)),
        ),
        Some(time) => {
            let job = spec_schedule_job(
                spec_timespec_at(time),
                SWITCH_ID,
                toggle_after,
                job_id,
                spec_desired_enabled(light_on as int),
            );
            match job_id {
                None => TransitionView::Next {
                    state: State::Created,
                    request: RequestView::CreateSchedule { job },
                },
                Some(_) => TransitionView::Next {
                    state: State::Updated,
                    request: RequestView::UpdateSchedule { job },
                },
            }
        },
    }
}

/// Whether `reply` is a reply that a run in `state` can take: it answers the
/// request that led to `state`, sunrise and sunset leave the planner's
/// arithmetic within 64 bits, and a stored id is an unsigned 32-bit number
/// in decimal.
pub open spec fn spec_accepts(state: State, reply: ReplyView) -> bool {
    match (state, reply) {
        (State::Location { .. }, ReplyView::Location(_)) => true,
        (State::Time { .. }, ReplyView::Time(_)) => true,
        (
            State::SunriseSunset { day_length },
            ReplyView::SunriseSunset { sunrise, sunset },
        ) => window_fits(sunrise as int, sunset as int, day_length as int),
        (State::StoredJobId { .. }, ReplyView::Value(r)) => r matches Ok(text) ==> spec_parse_u32(
            text,
        ) is Some,
        (State::JobList { .. }, ReplyView::JobList(_)) => true,
        (State::Created, ReplyView::Created(_)) => true,
        (State::Persisted { .. }, ReplyView::ValueSet(_)) => true,
        (State::Updated, ReplyView::Updated(_)) => true,
        _ => false,
    }
}

/// The timestamp whose local date and time the step from `state` on `reply`
/// depends on, if it depends on one: the relay's time, for the calendar day
/// of sunrise and sunset; the activation time, where the planned job is
/// sent.
pub open spec fn spec_localized(state: State, reply: ReplyView) -> Option<i64> {
    match (state, reply) {
        (State::Time { .. }, ReplyView::Time(Ok(timestamp))) => Some(timestamp),
        (State::StoredJobId { light_on, .. }, ReplyView::Value(Ok(_))) => if spec_desired_enabled(
            light_on as int,
        ) {
            Some(light_on)
        } else {
            None
        },
        (State::StoredJobId { light_on, .. }, ReplyView::Value(Err(e))) => if e.is_key_not_found() {
            Some(light_on)
        } else {
            None
        },
        (State::JobList { light_on, job_id, .. }, ReplyView::JobList(Ok(list))) => if spec_decide(
            Some(job_id),
            spec_desired_enabled(light_on as int),
            spec_find_job(list.result.jobs, job_id),
        ) == Action::Update {
            Some(light_on)
        } else {
            None
        },
        _ => None,
    }
}

/// The step from `state` on `reply`, where `local` is the local date and
/// time of `spec_localized(state, reply)`, if it has one.
pub open spec fn spec_resume(
    state: State,
    reply: ReplyView,
    local: Option<LocalDateTime>,
) -> TransitionView {
    match (state, reply) {
        (State::Location { day_length }, ReplyView::Location(r)) => match r {
            Ok(_) => TransitionView::Next {
                state: State::Time { day_length },
                request: RequestView::GetTime,
            },
            Err(e) => spec_failed(e),
        },
        (State::Time { day_length }, ReplyView::Time(r)) => match r {
            Ok(_) => match local {
                Some(time) => TransitionView::Next {
                    state: State::SunriseSunset { day_length },
                    request: RequestView::SunriseSunset {
                        year: time.year,
                        month: time.month,
                        day: time.day,
                    },
                },
                None => TransitionView::Finished(
                    Err(ControllerErrorView::Custom(CustomError::TimeConversionError)),
                ),
            },
            Err(e) => spec_failed(e),
        },
        (
            State::SunriseSunset { day_length },
            ReplyView::SunriseSunset { sunrise, sunset },
        ) => match spec_plan(sunrise as int, sunset as int, day_length as int) {
            Ok((light_on, toggle_after)) => TransitionView::Next {
                state: State::StoredJobId {
                    light_on: light_on as i64,
                    toggle_after: toggle_after as i64,
                },
                request: RequestView::GetValue { key: SCHEDULE_JOB_ID@ },
            },
            Err(e) => TransitionView::Finished(Err(ControllerErrorView::Custom(e))),
        },
        (State::StoredJobId { light_on, toggle_after }, ReplyView::Value(r)) => match r {
            Ok(text) => {
                let job_id = spec_parse_u32(text).unwrap();
                if spec_desired_enabled(light_on as int) {
                    spec_send_job(light_on, toggle_after, Some(job_id), local)
                } else {
                    TransitionView::Next {
                        state: State::JobList { light_on, toggle_after, job_id },
                        request: RequestView::ListSchedule,
                    }
                }
            },
            Err(e) => if e.is_key_not_found() {
                spec_send_job(light_on, toggle_after, None, local)
            } else {
                spec_failed(e)
            },
        },
        (State::JobList { light_on, toggle_after, job_id }, ReplyView::JobList(r)) => match r {
            Ok(list) => match spec_decide(
                Some(job_id),
                spec_desired_enabled(light_on as int),
                spec_find_job(list.result.jobs, job_id),
            ) {
                Action::NoOp => TransitionView::Finished(Ok(list.result.rev)),
                Action::Disable => TransitionView::Next {
                    state: State::Updated,
                    request: RequestView::DisableSchedule { job_id },
                },
                _ => spec_send_job(light_on, toggle_after, Some(job_id), local),
            },
            Err(e) => spec_failed(e),
        },
        (State::Created, ReplyView::Created(r)) => match r {
            Ok(created) => TransitionView::Next {
                state: State::Persisted { rev: created.result.rev },
                request: RequestView::SetValue {
                    key: SCHEDULE_JOB_ID@,
                    value: spec_decimal(created.result.id as nat),
                },
            },
            Err(e) => spec_failed(e),
        },
        (State::Persisted { rev }, ReplyView::ValueSet(r)) => match r {
            Ok(_) => TransitionView::Finished(Ok(rev)),
            Err(e) => spec_failed(e),
        },
        (State::Updated, ReplyView::Updated(r)) => match r {
            Ok(updated) => TransitionView::Finished(Ok(updated.result.rev)),
            Err(e) => spec_failed(e),
        },
        _ => arbitrary(),
    }
}

impl<'a> Controller<'a> {
    /// What is to be done, given the stored id of the job, whether the
    /// planned window asks for an enabled job, and the job as the relay
    /// lists it.
    pub fn decide(
        stored_id: Option<u32>,
        desired_enabled: bool,
        remote_job: Option<&ScheduleJobWithOptionalId>,
    ) -> (action: Action)
        ensures
            action == spec_decide(
                stored_id,
                desired_enabled,
                match remote_job {
                    Some(job) => Some(job@),
                    None => None,
                },
            ),
    {
        match stored_id {
            None => Action::Create,
            Some(_) => {
                if desired_enabled {
                    Action::Update
                } else {
                    match remote_job {
                        Some(job) => {
                            if job.enable {
                                Action::Disable
                            } else {
                                Action::NoOp
                            }
                        },
                        None => Action::Update,
                    }
                }
            },
        }
    }

    /// The place in `jobs` of the first job with id `job_id`, if there is
    /// one.
    pub fn find_job(jobs: &Vec<ScheduleJobWithOptionalId>, job_id: u32) -> (found: Option<usize>)
        ensures
            match found {
                Some(i) => spec_first_match(
                    jobs@.map_values(|job: ScheduleJobWithOptionalId| job@),
                    job_id,
                    i as int,
                ),
                None => spec_find_job(
                    jobs@.map_values(|job: ScheduleJobWithOptionalId| job@),
                    job_id,
                ) is None,
            },
    {
        let ghost views = jobs@.map_values(|job: ScheduleJobWithOptionalId| job@);
        let mut i: usize = 0;
        while i < jobs.len()
            invariant
                i <= jobs.len(),
                views == jobs@.map_values(|job: ScheduleJobWithOptionalId| job@),
                forall|j: int| 0 <= j < i ==> (#[trigger] views[j]).id != Some(job_id),
            decreases jobs.len() - i,
        {
            let found: bool = match jobs[i].id {
                Some(id) => id == job_id,
                None => false,
            };
            if found {
                assert(views[i as int] == jobs@[i as int]@);
                return Some(i);
            }
            assert(views[i as int] == jobs@[i as int]@);
            i = i + 1;
        }
        assert forall|k: int| !spec_first_match(views, job_id, k) by {
            if 0 <= k < views.len() {
                assert(views[k].id != Some(job_id));
            }
        }
        None
    }

    /// Starts a run for a day of `day_length_hours` hours: the first request
    /// is for the relay's location.
    pub fn execute(&self, day_length_hours: u8) -> (first: Transition)
        ensures
            first@ == (TransitionView::Next {
                state: State::Location { day_length: spec_hours_in_seconds(day_length_hours) },
                request: RequestView::GetLocation,
            }),
    {
        let day_length_seconds: i64 = (day_length_hours as i64) * 60 * 60;
        Transition::Next {
            state: State::Location { day_length: day_length_seconds },
            request: Request::GetLocation,
        }
    }

    /// Whether a run in `state` can take `reply`.
    pub fn accepts(&self, state: &State, reply: &Reply) -> (accepted: bool)
        ensures
            accepted == spec_accepts(*state, reply@),
    {
        match (state, reply) {
            (State::Location { .. }, Reply::Location(_)) => true,
            (State::Time { .. }, Reply::Time(_)) => true,
            (State::SunriseSunset { day_length }, Reply::SunriseSunset { sunrise, sunset }) => {
                if *sunrise < *sunset && *day_length >= 0 {
                    match sunset.checked_sub(*day_length) {
                        Some(light_on) => sunrise.checked_sub(light_on).is_some(),
                        None => false,
                    }
                } else {
                    true
                }
            },
            (State::StoredJobId { .. }, Reply::Value(r)) => match r {
                Ok(text) => parse_u32(text.as_str()).is_some(),
                Err(_) => true,
            },
            (State::JobList { .. }, Reply::JobList(_)) => true,
            (State::Created, Reply::Created(_)) => true,
            (State::Persisted { .. }, Reply::ValueSet(_)) => true,
            (State::Updated, Reply::Updated(_)) => true,
            _ => false,
        }
    }

    /// The timestamp whose local date and time the step from `state` on
    /// `reply` depends on, if it depends on one.
    pub fn localized(&self, state: &State, reply: &Reply) -> (timestamp: Option<i64>)
        ensures
            timestamp == spec_localized(*state, reply@),
    {
        match (state, reply) {
            (State::Time { .. }, Reply::Time(Ok(timestamp))) => Some(*timestamp),
            (State::StoredJobId { light_on, .. }, Reply::Value(Ok(_))) => {
                if Self::desired_enabled(*light_on) {
                    Some(*light_on)
                } else {
                    None
                }
            },
            (State::StoredJobId { light_on, .. }, Reply::Value(Err(e))) => {
                if e.is_key_not_found() {
                    Some(*light_on)
                } else {
                    None
                }
            },
            (State::JobList { light_on, job_id, .. }, Reply::JobList(Ok(list))) => {
                let action: Action = Self::decide_listed(*light_on, *job_id, list);
                if action == Action::Update {
                    Some(*light_on)
                } else {
                    None
                }
            },
            _ => None,
        }
    }

    /// What is to be done about job `job_id`, given the relay's list of
    /// jobs.
    pub fn decide_listed(light_on: i64, job_id: u32, list: &ScheduleListResponse) -> (action:
        Action)
        ensures
            action == spec_decide(
                Some(job_id),
                spec_desired_enabled(light_on as int),
                spec_find_job(list@.result.jobs, job_id),
            ),
    {
        let ghost views = list@.result.jobs;
        match Self::find_job(&list.result.jobs, job_id) {
            Some(i) => {
                proof {
                    let k = choose|k: int| spec_first_match(views, job_id, k);
                    lemma_first_match_unique(views, job_id, i as int, k);
                }
                Self::decide(
                    Some(job_id),
                    Self::desired_enabled(light_on),
                    Some(&list.result.jobs[i]),
                )
            },
            None => Self::decide(Some(job_id), Self::desired_enabled(light_on), None),
        }
    }
}

impl<'a> Controller<'a> {
    /// The end of a run that could not find the local time it needed.
    fn no_local_time() -> (end: Transition)
        ensures
            end@ == TransitionView::Finished(
                Err(ControllerErrorView::Custom(CustomError::TimeConversionError)),
            ),
    {
        Transition::Finished(Err(ControllerError::Custom(CustomError::TimeConversionError)))
    }

    /// The end of a run in which an exchange with the relay failed.
    fn failed(e: ShellyRpcError) -> (end: Transition)
        ensures
            end@ == spec_failed(e@),
    {
        Transition::Finished(Err(ControllerError::Rpc(e)))
    }

    /// The step that sends the planned job: as a new job where `job_id` is
    /// `None`, else in place of job `job_id`.
    pub fn send_job(
        light_on: i64,
        toggle_after: i64,
        job_id: Option<u32>,
        local: Option<LocalDateTime>,
    ) -> (step: Transition)
        ensures
            step@ == spec_send_job(light_on, toggle_after, job_id, local),
    {
        match local {
            None => Self::no_local_time(),
            Some(time) => {
                let job: ScheduleJobWithOptionalId = Self::schedule_job_at(
                    &time,
                    SWITCH_ID,
                    toggle_after,
                    job_id,
                    Self::desired_enabled(light_on),
                );
                match job_id {
                    None => Transition::Next {
                        state: State::Created,
                        request: Request::CreateSchedule { job },
                    },
                    Some(_) => Transition::Next {
                        state: State::Updated,
                        request: Request::UpdateSchedule { job },
                    },
                }
            },
        }
    }

    /// The step from `state` on `reply`, where `local` is the local date and
    /// time of the timestamp that the step depends on, if it has one.
    pub fn resume_with(&self, state: State, reply: Reply, local: Option<LocalDateTime>) -> (step:
        Transition)
        requires
            spec_accepts(state, reply@),
        ensures
            step@ == spec_resume(state, reply@, local),
    {
        match (state, reply) {
            (State::Location { day_length }, Reply::Location(r)) => match r {
                Ok(_) => Transition::Next {
                    state: State::Time { day_length },
                    request: Request::GetTime,
                },
                Err(e) => Self::failed(e),
            },
            (State::Time { day_length }, Reply::Time(r)) => match r {
                Ok(_) => match local {
                    Some(time) => Transition::Next {
                        state: State::SunriseSunset { day_length },
                        request: Request::SunriseSunset {
                            year: time.year,
                            month: time.month,
                            day: time.day,
                        },
                    },
                    None => Self::no_local_time(),
                },
                Err(e) => Self::failed(e),
            },
            (State::SunriseSunset { day_length }, Reply::SunriseSunset { sunrise, sunset }) => {
                match Self::light_on_toggle_after(sunrise, sunset, day_length) {
                    Ok((light_on, toggle_after)) => Transition::Next {
                        state: State::StoredJobId { light_on, toggle_after },
                        request: Request::GetValue { key: String::from_str(SCHEDULE_JOB_ID) },
                    },
                    Err(e) => Transition::Finished(Err(ControllerError::Custom(e))),
                }
            },
            (State::StoredJobId { light_on, toggle_after }, Reply::Value(r)) => match r {
                Ok(text) => {
                    match parse_u32(text.as_str()) {
                        Some(job_id) => {
                            if Self::desired_enabled(light_on) {
                                Self::send_job(light_on, toggle_after, Some(job_id), local)
                            } else {
                                Transition::Next {
                                    state: State::JobList { light_on, toggle_after, job_id },
                                    request: Request::ListSchedule,
                                }
                            }
                        },
                        None => {
                            proof {
                                assert(false);
                            }
                            Self::no_local_time()
                        },
                    }
                },
                Err(e) => {
                    if e.is_key_not_found() {
                        Self::send_job(light_on, toggle_after, None, local)
                    } else {
                        Self::failed(e)
                    }
                },
            },
            (State::JobList { light_on, toggle_after, job_id }, Reply::JobList(r)) => match r {
                Ok(list) => {
                    match Self::decide_listed(light_on, job_id, &list) {
                        Action::NoOp => Transition::Finished(Ok(list.result.rev)),
                        Action::Disable => Transition::Next {
                            state: State::Updated,
                            request: Request::DisableSchedule { job_id },
                        },
                        _ => Self::send_job(light_on, toggle_after, Some(job_id), local),
                    }
                },
                Err(e) => Self::failed(e),
            },
            (State::Created, Reply::Created(r)) => match r {
                Ok(created) => Transition::Next {
                    state: State::Persisted { rev: created.result.rev },
                    request: Request::SetValue {
                        key: String::from_str(SCHEDULE_JOB_ID),
                        value: unsigned_decimal(created.result.id as u64),
                    },
                },
                Err(e) => Self::failed(e),
            },
            (State::Persisted { rev }, Reply::ValueSet(r)) => match r {
                Ok(_) => Transition::Finished(Ok(rev)),
                Err(e) => Self::failed(e),
            },
            (State::Updated, Reply::Updated(r)) => match r {
                Ok(updated) => Transition::Finished(Ok(updated.result.rev)),
                Err(e) => Self::failed(e),
            },
            _ => {
                proof {
                    assert(false);
                }
                Self::no_local_time()
            },
        }
    }

    /// The step from `state` on `reply`. Where the step depends on the local
    /// date and time of a timestamp, it asks the machine's time zone for it.
    pub fn resume(&self, state: State, reply: Reply) -> (step: Transition)
        requires
            spec_accepts(state, reply@),
        ensures
            match spec_localized(state, reply@) {
                Some(timestamp) => exists|local: Option<LocalDateTime>|
                    {
                        &&& local is Some == spec_has_local_time(timestamp as int)
                        &&& local matches Some(time) ==> time.wf()
                        &&& step@ == #[trigger] spec_resume(state, reply@, local)
                    },
                None => step@ == spec_resume(state, reply@, None),
            },
    {
        let local: Option<LocalDateTime> = match self.localized(&state, &reply) {
            Some(timestamp) => local_date_time(timestamp),
            None => None,
        };
        self.resume_with(state, reply, local)
    }
}

} // verus!
