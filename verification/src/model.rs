//! A model of the relay, and what a run of the reconciliation does to it.
//! All of it is specification: it states what holds of the steps in
//! `reconcile` when a relay of this kind answers them.

use crate::clock::LocalDateTime;
use crate::decimal::{lemma_parse_decimal_round_trip, spec_decimal, spec_parse_u32};
use crate::error::ControllerErrorView;
use crate::reconcile::{
    spec_accepts, spec_find_job, spec_first_match, spec_resume, ReplyView, RequestView, State,
    TransitionView,
};
use crate::shelly::data::{
    ScheduleCreateResponseResult, ScheduleCreateResponseView, ScheduleJobView,
    ScheduleListResponseResultView, ScheduleListResponseView, ScheduleUpdateResponseResult,
    ScheduleUpdateResponseView, ShellyErrorView, KEY_NOT_FOUND,
};
use crate::shelly::error::ShellyRpcErrorView;
use crate::job::{spec_schedule_job, SWITCH_ID};
use crate::reconcile::spec_send_job;
use crate::timespec::spec_timespec_at;
use crate::window::spec_desired_enabled;
use crate::SCHEDULE_JOB_ID;
use vstd::prelude::*;

verus! {

/// What a relay holds, as far as a run can tell: the value stored under the
/// key of the job id, and its jobs.
pub struct Device {
    pub stored: Option<Seq<char>>,
    pub jobs: Seq<ScheduleJobView>,
}

/// What a relay decides for itself when it answers: the name it gives
/// itself, the revision it reports, the id it gives a new job, and its
/// words for a key or a job that it does not have.
pub struct Answers {
    pub src: Seq<char>,
    pub rev: u32,
    pub fresh_id: u32,
    pub key_not_found: ShellyErrorView,
    pub job_not_found: ShellyErrorView,
}

impl Device {
    /// Whether the relay has a job with id `job_id`.
    pub open spec fn has_job(self, job_id: u32) -> bool {
        exists|i: int| 0 <= i < self.jobs.len() && (#[trigger] self.jobs[i]).id == Some(job_id)
    }

    /// The jobs after `job` has taken the place of every job with its id.
    pub open spec fn replaced(self, job: ScheduleJobView) -> Seq<ScheduleJobView> {
        Seq::new(
            self.jobs.len(),
            |i: int|
                if self.jobs[i].id == job.id {
                    job
                } else {
                    self.jobs[i]
                },
        )
    }

    /// The jobs after every job with id `job_id` has been disabled.
    pub open spec fn disabled(self, job_id: u32) -> Seq<ScheduleJobView> {
        Seq::new(
            self.jobs.len(),
            |i: int|
                if self.jobs[i].id == Some(job_id) {
                    ScheduleJobView { enable: false, ..self.jobs[i] }
                } else {
                    self.jobs[i]
                },
        )
    }

    /// What the relay holds after `request`, and its reply. A request that
    /// is not for the relay leaves it as it is.
    pub open spec fn serve(self, request: RequestView, answers: Answers) -> (Device, ReplyView) {
        match request {
            RequestView::GetValue { key } => (
                self,
                ReplyView::Value(
                    match self.stored {
                        Some(value) => Ok(value),
                        None => Err(ShellyRpcErrorView::HttpApiError(answers.key_not_found)),
                    },
                ),
            ),
            RequestView::ListSchedule => (
                self,
                ReplyView::JobList(
                    Ok(
                        ScheduleListResponseView {
                            id: 1,
                            src: answers.src,
                            result: ScheduleListResponseResultView {
                                jobs: self.jobs,
                                rev: answers.rev,
                            },
                        },
                    ),
                ),
            ),
            RequestView::CreateSchedule { job } => (
                Device {
                    jobs: self.jobs.push(
                        ScheduleJobView { id: Some(answers.fresh_id), ..job },
                    ),
                    ..self
                },
                ReplyView::Created(
                    Ok(
                        ScheduleCreateResponseView {
                            id: 1,
                            src: answers.src,
                            result: ScheduleCreateResponseResult {
                                id: answers.fresh_id,
                                rev: answers.rev,
                            },
                        },
                    ),
                ),
            ),
            RequestView::SetValue { key, value } => (
                Device { stored: Some(value), ..self },
                ReplyView::ValueSet(Ok(answers.rev)),
            ),
            RequestView::UpdateSchedule { job } => if job.id is Some && self.has_job(job.id->0) {
                (
                    Device { jobs: self.replaced(job), ..self },
                    ReplyView::Updated(
                        Ok(
                            ScheduleUpdateResponseView {
                                id: 1,
                                src: answers.src,
                                result: ScheduleUpdateResponseResult { rev: answers.rev },
                            },
                        ),
                    ),
                )
            } else {
                (
                    self,
                    ReplyView::Updated(
                        Err(ShellyRpcErrorView::HttpApiError(answers.job_not_found)),
                    ),
                )
            },
            RequestView::DisableSchedule { job_id } => if self.has_job(job_id) {
                (
                    Device { jobs: self.disabled(job_id), ..self },
                    ReplyView::Updated(
                        Ok(
                            ScheduleUpdateResponseView {
                                id: 1,
                                src: answers.src,
                                result: ScheduleUpdateResponseResult { rev: answers.rev },
                            },
                        ),
                    ),
                )
            } else {
                (
                    self,
                    ReplyView::Updated(
                        Err(ShellyRpcErrorView::HttpApiError(answers.job_not_found)),
                    ),
                )
            },
            _ => (self, ReplyView::Location(Ok(()))),
        }
    }
}

/// How a run went: whether it came to its end, what the relay holds after
/// it, what the run returned, the requests it made, in their order, and how
/// many of them were to change what the relay holds.
pub struct Outcome {
    pub finished: bool,
    pub device: Device,
    pub result: Result<u32, ControllerErrorView>,
    pub requests: Seq<RequestView>,
    pub mutations: nat,
}

/// The run that makes `request` in `state` and goes on from the relay's
/// replies for `steps` more requests at most. A run that would go on after
/// that, or that gets a reply it cannot take, is cut short and counts as not
/// finished.
pub open spec fn spec_drive(
    device: Device,
    state: State,
    request: RequestView,
    local: Option<LocalDateTime>,
    answers: Answers,
    steps: nat,
) -> Outcome
    decreases steps,
{
    let (device, reply) = device.serve(request, answers);
    let mutation: nat = if request.is_mutating() {
        1
    } else {
        0
    };
    let made = request;
    let cut_short = Outcome {
        finished: false,
        device,
        result: Ok(0),
        requests: seq![made],
        mutations: mutation,
    };
    if !spec_accepts(state, reply) {
        cut_short
    } else {
        match spec_resume(state, reply, local) {
            TransitionView::Finished(result) => Outcome { finished: true, result, ..cut_short },
            TransitionView::Next { state, request } => if steps == 0 {
                cut_short
            } else {
                let rest = spec_drive(device, state, request, local, answers, (steps - 1) as nat);
                Outcome {
                    requests: seq![made] + rest.requests,
                    mutations: mutation + rest.mutations,
                    ..rest
                }
            },
        }
    }
}

/// The run that brings the relay in line with the planned window: it starts
/// by asking for the stored id of the job, and makes three requests at
/// most. `local` is the local date and time of `light_on`, if it has one.
pub open spec fn spec_reconcile(
    device: Device,
    light_on: i64,
    toggle_after: i64,
    local: Option<LocalDateTime>,
    answers: Answers,
) -> Outcome {
    spec_drive(
        device,
        State::StoredJobId { light_on, toggle_after },
        RequestView::GetValue { key: SCHEDULE_JOB_ID@ },
        local,
        answers,
        2,
    )
}

/// Whether a run can be made on `device` with the answers `answers`: a
/// stored id is an unsigned 32-bit number in decimal, the relay reports a
/// missing key with the code for it, and the id that it would give a new job
/// is not that of a job it has.
pub open spec fn spec_can_reconcile(device: Device, answers: Answers) -> bool {
    &&& device.stored matches Some(text) ==> spec_parse_u32(text) is Some
    &&& answers.key_not_found.error.code == KEY_NOT_FOUND
    &&& !device.has_job(answers.fresh_id)
}

/// Where some job has id `job_id`, one of them is the first.
pub proof fn lemma_first_match_exists(jobs: Seq<ScheduleJobView>, job_id: u32, i: int)
    requires
        0 <= i < jobs.len(),
        jobs[i].id == Some(job_id),
    ensures
        exists|m: int| spec_first_match(jobs, job_id, m),
    decreases i,
{
    if forall|j: int| 0 <= j < i ==> (#[trigger] jobs[j]).id != Some(job_id) {
        assert(spec_first_match(jobs, job_id, i));
    } else {
        let j = choose|j: int| 0 <= j < i && (#[trigger] jobs[j]).id == Some(job_id);
        lemma_first_match_exists(jobs, job_id, j);
    }
}

/// The job found for an id is the first with that id, and one is found
/// exactly where the relay has a job with that id.
pub proof fn lemma_find_job(device: Device, job_id: u32)
    ensures
        spec_find_job(device.jobs, job_id) is Some <==> device.has_job(job_id),
        spec_find_job(device.jobs, job_id) matches Some(job) ==> exists|m: int|
            spec_first_match(device.jobs, job_id, m) && device.jobs[m] == job,
{
    if device.has_job(job_id) {
        let i = choose|i: int|
            0 <= i < device.jobs.len() && (#[trigger] device.jobs[i]).id == Some(job_id);
        lemma_first_match_exists(device.jobs, job_id, i);
    }
    if spec_find_job(device.jobs, job_id) is Some {
        let m = choose|m: int| spec_first_match(device.jobs, job_id, m);
        assert(device.jobs[m].id == Some(job_id));
    }
}

/// The first job with a given id is the job found for that id.
pub proof fn lemma_find_first_match(jobs: Seq<ScheduleJobView>, job_id: u32, m: int)
    requires
        spec_first_match(jobs, job_id, m),
    ensures
        spec_find_job(jobs, job_id) == Some(jobs[m]),
{
    let k = choose|k: int| spec_first_match(jobs, job_id, k);
    if k < m {
        assert(jobs[k].id != Some(job_id));
    } else if m < k {
        assert(jobs[m].id != Some(job_id));
    }
}

/// Every run comes to its end: each reply of the relay is one that the run
/// can take, and it makes three requests at most, two of them at most to
/// change what the relay holds.
pub proof fn lemma_reconcile_finishes(
    device: Device,
    light_on: i64,
    toggle_after: i64,
    local: Option<LocalDateTime>,
    answers: Answers,
)
    requires
        device.stored matches Some(text) ==> spec_parse_u32(text) is Some,
        answers.key_not_found.error.code == KEY_NOT_FOUND,
    ensures
        ({
            let run = spec_reconcile(device, light_on, toggle_after, local, answers);
            &&& run.finished
            &&& 1 <= run.requests.len() <= 3
            &&& run.requests[0] == RequestView::GetValue { key: SCHEDULE_JOB_ID@ }
            &&& run.mutations <= 2
        }),
{
    reveal_with_fuel(spec_drive, 3);
}

/// Reconciling is idempotent: a second run for the same window, on what the
/// first run left, comes to its end as the first did, leaves the relay as it
/// found it, asks for no more changes than the first run did, and for one at
/// most.
pub proof fn lemma_reconcile_idempotent(
    device: Device,
    light_on: i64,
    toggle_after: i64,
    local: Option<LocalDateTime>,
    first: Answers,
    second: Answers,
)
    requires
        spec_can_reconcile(device, first),
        second.key_not_found.error.code == KEY_NOT_FOUND,
    ensures
        ({
            let one = spec_reconcile(device, light_on, toggle_after, local, first);
            let two = spec_reconcile(one.device, light_on, toggle_after, local, second);
            &&& one.finished && two.finished
            &&& two.device == one.device
            &&& two.mutations <= one.mutations
            &&& two.mutations <= 1
            &&& one.result is Ok ==> two.result is Ok
        }),
{
    reveal_with_fuel(spec_drive, 3);
    let one = spec_reconcile(device, light_on, toggle_after, local, first);
    let two = spec_reconcile(one.device, light_on, toggle_after, local, second);
    let enable = spec_desired_enabled(light_on as int);
    match device.stored {
        None => {
            match local {
                None => {
                    assert(one.device == device);
                },
                Some(time) => {
                    let fresh = first.fresh_id;
                    let job = spec_schedule_job(
                        spec_timespec_at(time),
                        SWITCH_ID,
                        toggle_after,
                        Some(fresh),
                        enable,
                    );
                    let jobs = device.jobs.push(job);
                    let after = Device { stored: Some(spec_decimal(fresh as nat)), jobs };
                    assert(one.device == after);
                    assert(one.mutations == 2);
                    lemma_parse_decimal_round_trip(fresh);
                    let last = device.jobs.len() as int;
                    assert(jobs[last] == job);
                    assert(after.has_job(fresh));
                    assert(spec_first_match(jobs, fresh, last)) by {
                        assert forall|j: int| 0 <= j < last implies (#[trigger] jobs[j]).id
                            != Some(fresh) by {
                            assert(jobs[j] == device.jobs[j]);
                        }
                    }
                    lemma_find_first_match(jobs, fresh, last);
                    if enable {
                        assert(after.replaced(job) =~= jobs) by {
                            assert forall|j: int| 0 <= j < jobs.len() implies after.replaced(
                                job,
                            )[j] == jobs[j] by {
                                if j < last {
                                    assert(jobs[j] == device.jobs[j]);
                                    assert(device.jobs[j].id != Some(fresh));
                                }
                            }
                        }
                    }
                },
            }
        },
        Some(text) => {
            let job_id = spec_parse_u32(text).unwrap();
            lemma_find_job(device, job_id);
            if enable {
                lemma_update_twice(device, light_on, toggle_after, job_id, local);
            } else {
                match spec_find_job(device.jobs, job_id) {
                    Some(found) => {
                        let m = choose|m: int|
                            spec_first_match(device.jobs, job_id, m) && device.jobs[m] == found;
                        if found.enable {
                            let jobs = device.disabled(job_id);
                            let after = Device { jobs, ..device };
                            assert(one.device == after);
                            assert(spec_first_match(jobs, job_id, m));
                            lemma_find_first_match(jobs, job_id, m);
                        } else {
                            assert(one.device == device);
                        }
                    },
                    None => {
                        lemma_update_twice(device, light_on, toggle_after, job_id, local);
                    },
                }
            }
        },
    }
}

/// Sending the planned job in place of job `job_id` a second time changes
/// nothing.
proof fn lemma_update_twice(
    device: Device,
    light_on: i64,
    toggle_after: i64,
    job_id: u32,
    local: Option<LocalDateTime>,
)
    ensures
        ({
            let step = spec_send_job(light_on, toggle_after, Some(job_id), local);
            step matches TransitionView::Next { state, request } ==> {
                let job = request->UpdateSchedule_job;
                let after = Device { jobs: device.replaced(job), ..device };
                &&& request is UpdateSchedule
                &&& state == State::Updated
                &&& job.id == Some(job_id)
                &&& device.has_job(job_id) ==> after.has_job(job_id) && after.replaced(job)
                    == after.jobs
            }
        }),
{
    let step = spec_send_job(light_on, toggle_after, Some(job_id), local);
    if let TransitionView::Next { state, request } = step {
        let job = request->UpdateSchedule_job;
        let after = Device { jobs: device.replaced(job), ..device };
        if device.has_job(job_id) {
            let i = choose|i: int|
                0 <= i < device.jobs.len() && (#[trigger] device.jobs[i]).id == Some(job_id);
            assert(after.jobs[i].id == Some(job_id));
            assert(after.replaced(job) =~= after.jobs);
        }
    }
}

/// The job that a run plans for a window: it fires at the time of day of
/// `time` and carries the id `job_id`.
pub open spec fn spec_planned_job(
    light_on: i64,
    toggle_after: i64,
    job_id: Option<u32>,
    time: LocalDateTime,
) -> ScheduleJobView {
    spec_schedule_job(
        spec_timespec_at(time),
        SWITCH_ID,
        toggle_after,
        job_id,
        spec_desired_enabled(light_on as int),
    )
}

/// The request for the stored id of the job, with which every run starts.
pub open spec fn spec_get_stored_id() -> RequestView {
    RequestView::GetValue { key: SCHEDULE_JOB_ID@ }
}

/// Without a stored id, the run creates the planned job, whether the window
/// asks for an enabled job or not, stores the id that the relay gave it, and
/// returns the revision that the relay reported for the creation.
pub proof fn lemma_reconcile_creates(
    device: Device,
    light_on: i64,
    toggle_after: i64,
    time: LocalDateTime,
    answers: Answers,
)
    requires
        device.stored is None,
        answers.key_not_found.error.code == KEY_NOT_FOUND,
    ensures
        ({
            let run = spec_reconcile(device, light_on, toggle_after, Some(time), answers);
            let id = spec_decimal(answers.fresh_id as nat);
            &&& run.requests == seq![
                spec_get_stored_id(),
                RequestView::CreateSchedule {
                    job: spec_planned_job(light_on, toggle_after, None, time),
                },
                RequestView::SetValue { key: SCHEDULE_JOB_ID@, value: id },
            ]
            &&& run.result == Ok::<u32, ControllerErrorView>(answers.rev)
            &&& run.device.stored == Some(id)
            &&& run.device.jobs == device.jobs.push(
                spec_planned_job(light_on, toggle_after, Some(answers.fresh_id), time),
            )
        }),
{
    reveal_with_fuel(spec_drive, 3);
    let run = spec_reconcile(device, light_on, toggle_after, Some(time), answers);
    assert(run.requests =~= seq![
        spec_get_stored_id(),
        RequestView::CreateSchedule { job: spec_planned_job(light_on, toggle_after, None, time) },
        RequestView::SetValue {
            key: SCHEDULE_JOB_ID@,
            value: spec_decimal(answers.fresh_id as nat),
        },
    ]);
}

/// With a stored id and a window that asks for an enabled job, the run
/// sends the planned job under the stored id, asks for nothing else, and
/// returns what the relay answered: its revision, or its refusal where it
/// has no job with that id.
pub proof fn lemma_reconcile_updates(
    device: Device,
    light_on: i64,
    toggle_after: i64,
    time: LocalDateTime,
    answers: Answers,
)
    requires
        device.stored matches Some(text) && spec_parse_u32(text) is Some,
        spec_desired_enabled(light_on as int),
    ensures
        ({
            let run = spec_reconcile(device, light_on, toggle_after, Some(time), answers);
            let job_id = spec_parse_u32(device.stored->0)->0;
            let job = spec_planned_job(light_on, toggle_after, Some(job_id), time);
            &&& run.requests == seq![
                spec_get_stored_id(),
                RequestView::UpdateSchedule { job },
            ]
            &&& run.device.stored == device.stored
            &&& if device.has_job(job_id) {
                &&& run.result == Ok::<u32, ControllerErrorView>(answers.rev)
                &&& run.device.jobs == device.replaced(job)
            } else {
                &&& run.result == Err::<u32, ControllerErrorView>(
                    ControllerErrorView::Rpc(
                        ShellyRpcErrorView::HttpApiError(answers.job_not_found),
                    ),
                )
                &&& run.device == device
            }
        }),
{
    reveal_with_fuel(spec_drive, 3);
    let run = spec_reconcile(device, light_on, toggle_after, Some(time), answers);
    let job_id = spec_parse_u32(device.stored->0)->0;
    let job = spec_planned_job(light_on, toggle_after, Some(job_id), time);
    assert(run.requests =~= seq![spec_get_stored_id(), RequestView::UpdateSchedule { job }]);
}

/// With a stored id, a window that asks for a disabled job, and the job
/// listed as enabled, the run disables the job, sends nothing else of it,
/// stores nothing, and returns the revision that the relay reported for the
/// disabling.
pub proof fn lemma_reconcile_disables(
    device: Device,
    light_on: i64,
    toggle_after: i64,
    local: Option<LocalDateTime>,
    answers: Answers,
)
    requires
        device.stored matches Some(text) && spec_parse_u32(text) is Some,
        !spec_desired_enabled(light_on as int),
        spec_find_job(device.jobs, spec_parse_u32(device.stored->0)->0) matches Some(job)
            && job.enable,
    ensures
        ({
            let run = spec_reconcile(device, light_on, toggle_after, local, answers);
            let job_id = spec_parse_u32(device.stored->0)->0;
            &&& run.requests == seq![
                spec_get_stored_id(),
                RequestView::ListSchedule,
                RequestView::DisableSchedule { job_id },
            ]
            &&& run.result == Ok::<u32, ControllerErrorView>(answers.rev)
            &&& run.device.stored == device.stored
            &&& run.device.jobs == device.disabled(job_id)
            &&& run.mutations == 1
        }),
{
    reveal_with_fuel(spec_drive, 3);
    let run = spec_reconcile(device, light_on, toggle_after, local, answers);
    let job_id = spec_parse_u32(device.stored->0)->0;
    lemma_find_job(device, job_id);
    assert(run.requests =~= seq![
        spec_get_stored_id(),
        RequestView::ListSchedule,
        RequestView::DisableSchedule { job_id },
    ]);
}

/// With a stored id, a window that asks for a disabled job, and the job
/// listed as disabled, the run asks for no change and returns the revision
/// that the relay reported with its list.
pub proof fn lemma_reconcile_leaves_alone(
    device: Device,
    light_on: i64,
    toggle_after: i64,
    local: Option<LocalDateTime>,
    answers: Answers,
)
    requires
        device.stored matches Some(text) && spec_parse_u32(text) is Some,
        !spec_desired_enabled(light_on as int),
        spec_find_job(device.jobs, spec_parse_u32(device.stored->0)->0) matches Some(job)
            && !job.enable,
    ensures
        ({
            let run = spec_reconcile(device, light_on, toggle_after, local, answers);
            &&& run.requests == seq![spec_get_stored_id(), RequestView::ListSchedule]
            &&& run.result == Ok::<u32, ControllerErrorView>(answers.rev)
            &&& run.device == device
            &&& run.mutations == 0
        }),
{
    reveal_with_fuel(spec_drive, 3);
    let run = spec_reconcile(device, light_on, toggle_after, local, answers);
    assert(run.requests =~= seq![spec_get_stored_id(), RequestView::ListSchedule]);
}

/// With a stored id that no listed job has, and a window that asks for a
/// disabled job, the run sends the planned job under the stored id all the
/// same, and what the relay answers to that is what the run returns.
pub proof fn lemma_reconcile_stale_reference(
    device: Device,
    light_on: i64,
    toggle_after: i64,
    time: LocalDateTime,
    answers: Answers,
)
    requires
        device.stored matches Some(text) && spec_parse_u32(text) is Some,
        !spec_desired_enabled(light_on as int),
        spec_find_job(device.jobs, spec_parse_u32(device.stored->0)->0) is None,
    ensures
        ({
            let run = spec_reconcile(device, light_on, toggle_after, Some(time), answers);
            let job_id = spec_parse_u32(device.stored->0)->0;
            &&& run.requests == seq![
                spec_get_stored_id(),
                RequestView::ListSchedule,
                RequestView::UpdateSchedule {
                    job: spec_planned_job(light_on, toggle_after, Some(job_id), time),
                },
            ]
            &&& run.result == Err::<u32, ControllerErrorView>(
                ControllerErrorView::Rpc(ShellyRpcErrorView::HttpApiError(answers.job_not_found)),
            )
            &&& run.device == device
        }),
{
    reveal_with_fuel(spec_drive, 3);
    let run = spec_reconcile(device, light_on, toggle_after, Some(time), answers);
    let job_id = spec_parse_u32(device.stored->0)->0;
    lemma_find_job(device, job_id);
    assert(run.requests =~= seq![
        spec_get_stored_id(),
        RequestView::ListSchedule,
        RequestView::UpdateSchedule {
            job: spec_planned_job(light_on, toggle_after, Some(job_id), time),
        },
    ]);
}

} // verus!
