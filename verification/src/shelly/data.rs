//! The values exchanged with the relay, and their mathematical views.

use vstd::prelude::*;

verus! {

//------------------------------
// Schedule endpoint
//------------------------------
/// The methods of the schedule service.
#[derive(Debug, Clone, Copy, PartialEq, Eq, Structural)]
pub enum ScheduleMethod {
    Create,
    Update,
    List,
}

impl ScheduleMethod {
    /// The method's name on the wire.
    pub open spec fn spec_name(self) -> Seq<char> {
        match self {
            ScheduleMethod::Create => "Schedule.Create"@,
            ScheduleMethod::Update => "Schedule.Update"@,
            ScheduleMethod::List => "Schedule.List"@,
        }
    }

    /// The method's name on the wire.
    pub fn name(&self) -> (name: &'static str)
        ensures
            name@ == self.spec_name(),
    {
        match self {
            ScheduleMethod::Create => "Schedule.Create",
            ScheduleMethod::Update => "Schedule.Update",
            ScheduleMethod::List => "Schedule.List",
        }
    }
}

/// The relay's answer to the creation of a job.
#[derive(Debug, Clone)]
pub struct ScheduleCreateResponse {
    pub id: u8,
    pub src: String,
    pub result: ScheduleCreateResponseResult,
}

/// The mathematical content of a `ScheduleCreateResponse`.
pub struct ScheduleCreateResponseView {
    pub id: u8,
    pub src: Seq<char>,
    pub result: ScheduleCreateResponseResult,
}

impl View for ScheduleCreateResponse {
    type V = ScheduleCreateResponseView;

    open spec fn view(&self) -> ScheduleCreateResponseView {
        ScheduleCreateResponseView { id: self.id, src: self.src@, result: self.result }
    }
}

/// The id given to a new job, and the schedule's revision after it.
#[derive(Debug, Clone, Copy, PartialEq, Eq, Structural)]
pub struct ScheduleCreateResponseResult {
    pub id: u32,
    pub rev: u32,
}

/// The relay's answer to the update of a job.
#[derive(Debug, Clone)]
pub struct ScheduleUpdateResponse {
    pub id: u8,
    pub src: String,
    pub result: ScheduleUpdateResponseResult,
}

/// The mathematical content of a `ScheduleUpdateResponse`.
pub struct ScheduleUpdateResponseView {
    pub id: u8,
    pub src: Seq<char>,
    pub result: ScheduleUpdateResponseResult,
}

impl View for ScheduleUpdateResponse {
    type V = ScheduleUpdateResponseView;

    open spec fn view(&self) -> ScheduleUpdateResponseView {
        ScheduleUpdateResponseView { id: self.id, src: self.src@, result: self.result }
    }
}

/// The schedule's revision after an update.
#[derive(Debug, Clone, Copy, PartialEq, Eq, Structural)]
pub struct ScheduleUpdateResponseResult {
    pub rev: u32,
}

/// The relay's answer to a listing of its jobs.
#[derive(Debug, Clone)]
pub struct ScheduleListResponse {
    pub id: u8,
    pub src: String,
    pub result: ScheduleListResponseResult,
}

/// The mathematical content of a `ScheduleListResponse`.
pub struct ScheduleListResponseView {
    pub id: u8,
    pub src: Seq<char>,
    pub result: ScheduleListResponseResultView,
}

impl View for ScheduleListResponse {
    type V = ScheduleListResponseView;

    open spec fn view(&self) -> ScheduleListResponseView {
        ScheduleListResponseView { id: self.id, src: self.src@, result: self.result@ }
    }
}

/// The jobs of the relay, in the relay's order, and the schedule's revision.
#[derive(Debug, Clone)]
pub struct ScheduleListResponseResult {
    pub jobs: Vec<ScheduleJobWithOptionalId>,
    pub rev: u32,
}

/// The mathematical content of a `ScheduleListResponseResult`.
pub struct ScheduleListResponseResultView {
    pub jobs: Seq<ScheduleJobView>,
    pub rev: u32,
}

impl View for ScheduleListResponseResult {
    type V = ScheduleListResponseResultView;

    open spec fn view(&self) -> ScheduleListResponseResultView {
        ScheduleListResponseResultView {
            jobs: self.jobs@.map_values(|job: ScheduleJobWithOptionalId| job@),
            rev: self.rev,
        }
    }
}

/// A recurring job. It has no id until the relay has created it.
#[derive(Debug, Clone)]
pub struct ScheduleJobWithOptionalId {
    pub id: Option<u32>,
    pub enable: bool,
    pub timespec: String,
    pub calls: Vec<ScheduleJobMethod>,
}

/// The mathematical content of a `ScheduleJobWithOptionalId`.
pub struct ScheduleJobView {
    pub id: Option<u32>,
    pub enable: bool,
    pub timespec: Seq<char>,
    pub calls: Seq<ScheduleJobMethodView>,
}

impl View for ScheduleJobWithOptionalId {
    type V = ScheduleJobView;

    open spec fn view(&self) -> ScheduleJobView {
        ScheduleJobView {
            id: self.id,
            enable: self.enable,
            timespec: self.timespec@,
            calls: self.calls@.map_values(|call: ScheduleJobMethod| call@),
        }
    }
}

/// One call that a job makes when it fires.
#[derive(Debug, Clone)]
pub struct ScheduleJobMethod {
    pub method: String,
    pub params: Option<CallParams>,
}

/// The mathematical content of a `ScheduleJobMethod`.
pub struct ScheduleJobMethodView {
    pub method: Seq<char>,
    pub params: Option<CallParamsView>,
}

impl View for ScheduleJobMethod {
    type V = ScheduleJobMethodView;

    open spec fn view(&self) -> ScheduleJobMethodView {
        ScheduleJobMethodView {
            method: self.method@,
            params: match self.params {
                Some(params) => Some(params@),
                None => None,
            },
        }
    }
}

/// The parameters of a call.
#[derive(Debug, Clone)]
pub enum CallParams {
    /// Those of `switch.set`: the switch, its new state, and the seconds
    /// after which it flips back.
    SwitchSet { on: bool, toggle_after: i64, id: u8 },
    /// Any other parameters, as JSON text.
    Other(String),
}

/// The mathematical content of `CallParams`.
pub enum CallParamsView {
    SwitchSet { on: bool, toggle_after: i64, id: u8 },
    Other(Seq<char>),
}

impl View for CallParams {
    type V = CallParamsView;

    open spec fn view(&self) -> CallParamsView {
        match self {
            CallParams::SwitchSet { on, toggle_after, id } => CallParamsView::SwitchSet {
                on: *on,
                toggle_after: *toggle_after,
                id: *id,
            },
            CallParams::Other(text) => CallParamsView::Other(text@),
        }
    }
}

//------------------------------
// KVS endpoint
//------------------------------
/// The methods of the key/value store.
#[derive(Debug, Clone, Copy, PartialEq, Eq, Structural)]
pub enum KeyValueStoreMethod {
    SetValue,
    Get,
}

impl KeyValueStoreMethod {
    /// The method's name on the wire.
    pub open spec fn spec_name(self) -> Seq<char> {
        match self {
            KeyValueStoreMethod::SetValue => "KVS.Set"@,
            KeyValueStoreMethod::Get => "KVS.Get"@,
        }
    }

    /// The method's name on the wire.
    pub fn name(&self) -> (name: &'static str)
        ensures
            name@ == self.spec_name(),
    {
        match self {
            KeyValueStoreMethod::SetValue => "KVS.Set",
            KeyValueStoreMethod::Get => "KVS.Get",
        }
    }
}

/// The relay's answer to the reading of a key.
#[derive(Debug, Clone)]
pub struct KeyValueStoreGetResponse {
    pub id: u8,
    pub src: String,
    pub result: KeyValueStoreGetResponseResult,
}

/// The relay's answer to the writing of a key.
#[derive(Debug, Clone)]
pub struct KeyValueStoreSetResponse {
    pub id: u8,
    pub src: String,
    pub result: KeyValueStoreSetResponseResult,
}

/// The value found under a key.
#[derive(Debug, Clone)]
pub struct KeyValueStoreGetResponseResult {
    pub etag: String,
    pub value: String,
}

/// The store's revision after a write.
#[derive(Debug, Clone)]
pub struct KeyValueStoreSetResponseResult {
    pub etag: String,
    pub rev: u32,
}

//------------------------------
// System endpoint
//------------------------------
/// The methods of the system service.
#[derive(Debug, Clone, Copy, PartialEq, Eq, Structural)]
pub enum SysMethod {
    GetConfig,
    GetStatus,
}

impl SysMethod {
    /// The method's name on the wire.
    pub open spec fn spec_name(self) -> Seq<char> {
        match self {
            SysMethod::GetConfig => "Sys.GetConfig"@,
            SysMethod::GetStatus => "Sys.GetStatus"@,
        }
    }

    /// The method's name on the wire.
    pub fn name(&self) -> (name: &'static str)
        ensures
            name@ == self.spec_name(),
    {
        match self {
            SysMethod::GetConfig => "Sys.GetConfig",
            SysMethod::GetStatus => "Sys.GetStatus",
        }
    }
}

/// The relay's answer to a query of its status.
#[derive(Debug, Clone)]
pub struct SysGetStatusResponse {
    pub id: u8,
    pub src: String,
    pub result: SysGetStatusResponseResult,
}

/// The relay's clock: the wall-clock time as `HH:MM`, and the unix time
/// where the relay knows it.
#[derive(Debug, Clone)]
pub struct SysGetStatusResponseResult {
    pub time: String,
    pub unixtime: Option<i64>,
}

//------------------------------
// Generic error type
//------------------------------
/// The relay's answer where it refuses a request.
#[derive(Debug, Clone)]
pub struct ShellyError {
    pub id: u8,
    pub src: String,
    pub error: ShellyErrorCodeWithMessage,
}

/// The mathematical content of a `ShellyError`.
pub struct ShellyErrorView {
    pub id: u8,
    pub src: Seq<char>,
    pub error: ShellyErrorCodeWithMessageView,
}

impl View for ShellyError {
    type V = ShellyErrorView;

    open spec fn view(&self) -> ShellyErrorView {
        ShellyErrorView { id: self.id, src: self.src@, error: self.error@ }
    }
}

/// The relay's reason for a refusal.
#[derive(Debug, Clone)]
pub struct ShellyErrorCodeWithMessage {
    pub code: i8,
    pub message: String,
}

/// The mathematical content of a `ShellyErrorCodeWithMessage`.
pub struct ShellyErrorCodeWithMessageView {
    pub code: i8,
    pub message: Seq<char>,
}

impl View for ShellyErrorCodeWithMessage {
    type V = ShellyErrorCodeWithMessageView;

    open spec fn view(&self) -> ShellyErrorCodeWithMessageView {
        ShellyErrorCodeWithMessageView { code: self.code, message: self.message@ }
    }
}

/// The code with which the key/value store reports a key it does not hold.
pub const KEY_NOT_FOUND: i8 = -105;

} // verus!
