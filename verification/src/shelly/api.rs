//! The client of one relay: the requests it makes, and what it makes of the
//! relay's answers. It sends nothing itself.

use crate::clock::{
    device_time, parse_clock, spec_device_time, spec_parse_clock, utc_now, TIMESTAMP_LIMIT,
};
use crate::shelly::data::{
    KeyValueStoreGetResponse, KeyValueStoreMethod, KeyValueStoreSetResponse, ScheduleJobView,
    ScheduleJobWithOptionalId, ScheduleMethod, ShellyError, SysGetStatusResponse, SysMethod,
};
use crate::shelly::error::{ShellyRpcError, ShellyRpcErrorView};
use vstd::prelude::*;

verus! {

/// The id that every request carries.
pub const REQUEST_ID: u8 = 1;

/// A method of the relay.
#[derive(Debug, Clone, Copy, PartialEq, Eq, Structural)]
pub enum RpcMethod {
    Schedule(ScheduleMethod),
    KeyValueStore(KeyValueStoreMethod),
    Sys(SysMethod),
}

impl RpcMethod {
    /// The method's name on the wire.
    pub open spec fn spec_name(self) -> Seq<char> {
        match self {
            RpcMethod::Schedule(m) => m.spec_name(),
            RpcMethod::KeyValueStore(m) => m.spec_name(),
            RpcMethod::Sys(m) => m.spec_name(),
        }
    }

    /// The method's name on the wire.
    pub fn name(&self) -> (name: &'static str)
        ensures
            name@ == self.spec_name(),
    {
        match self {
            RpcMethod::Schedule(m) => m.name(),
            RpcMethod::KeyValueStore(m) => m.name(),
            RpcMethod::Sys(m) => m.name(),
        }
    }
}

/// The parameters of a request.
#[derive(Debug, Clone)]
pub enum RpcParams {
    /// A whole job.
    Job(ScheduleJobWithOptionalId),
    /// The id of a job and its new `enable` flag, and nothing else of it.
    Enable { id: u32, enable: bool },
    /// A key of the key/value store.
    Key { key: String },
    /// A key of the key/value store and the value to store under it.
    KeyValue { key: String, value: String },
}

/// The mathematical content of `RpcParams`.
pub enum RpcParamsView {
    Job(ScheduleJobView),
    Enable { id: u32, enable: bool },
    Key { key: Seq<char> },
    KeyValue { key: Seq<char>, value: Seq<char> },
}

impl View for RpcParams {
    type V = RpcParamsView;

    open spec fn view(&self) -> RpcParamsView {
        match self {
            RpcParams::Job(job) => RpcParamsView::Job(job@),
            RpcParams::Enable { id, enable } => RpcParamsView::Enable { id: *id, enable: *enable },
            RpcParams::Key { key } => RpcParamsView::Key { key: key@ },
            RpcParams::KeyValue { key, value } => RpcParamsView::KeyValue {
                key: key@,
                value: value@,
            },
        }
    }
}

/// A request as it goes to the relay: an id, a method, and the method's
/// parameters where it takes any.
#[derive(Debug, Clone)]
pub struct RpcRequest {
    pub id: u8,
    pub method: RpcMethod,
    pub params: Option<RpcParams>,
}

/// The mathematical content of an `RpcRequest`.
pub struct RpcRequestView {
    pub id: u8,
    pub method: RpcMethod,
    pub params: Option<RpcParamsView>,
}

impl View for RpcRequest {
    type V = RpcRequestView;

    open spec fn view(&self) -> RpcRequestView {
        RpcRequestView {
            id: self.id,
            method: self.method,
            params: match self.params {
                Some(params) => Some(params@),
                None => None,
            },
        }
    }
}

/// The request for `method` with `params`.
pub open spec fn spec_request(method: RpcMethod, params: Option<RpcParamsView>) -> RpcRequestView {
    RpcRequestView { id: REQUEST_ID, method, params }
}

/// The address to which the requests for the relay at `address` are posted.
pub open spec fn spec_endpoint(address: Seq<char>) -> Seq<char> {
    "http://"@ + address + "/rpc"@
}

/// What an exchange amounts to. `answer` is the relay's answer read as the
/// expected result, or the failure to read it so; `refusal` is the same
/// answer read as a refusal, or the failure to read it so.
pub open spec fn spec_execute_rpc<R>(
    answer: Result<R, Seq<char>>,
    refusal: Result<ShellyError, Seq<char>>,
) -> Result<R, ShellyRpcErrorView> {
    match answer {
        Ok(result) => Ok(result),
        Err(outer) => match refusal {
            Ok(e) => Err(ShellyRpcErrorView::HttpApiError(e@)),
            Err(inner) => Err(ShellyRpcErrorView::SerdeJsonBiError(outer, inner)),
        },
    }
}

/// The client of the relay at one address.
#[derive(Debug)]
pub struct Gen2DeviceClient<'a> {
    pub address: &'a str,
}

impl<'a> Gen2DeviceClient<'a> {
    /// A client for the relay at `address` (a host, or a host and a port).
    pub fn new(address: &'a str) -> (client: Self)
        ensures
            client.address@ == address@,
    {
        Self { address }
    }

    /// The address to which the requests are posted.
    pub fn endpoint(&self) -> (url: String)
        ensures
            url@ == spec_endpoint(self.address@),
    {
        let mut url: String = String::from_str("http://");
        url.append(self.address);
        url.append("/rpc");
        url
    }

    /// The request that creates `job`.
    pub fn create_schedule(&self, job: ScheduleJobWithOptionalId) -> (request: RpcRequest)
        ensures
            request@ == spec_request(
                RpcMethod::Schedule(ScheduleMethod::Create),
                Some(RpcParamsView::Job(job@)),
            ),
    {
        RpcRequest {
            id: REQUEST_ID,
            method: RpcMethod::Schedule(ScheduleMethod::Create),
            params: Some(RpcParams::Job(job)),
        }
    }

    /// The request that replaces the job with the id of `job`.
    pub fn update_schedule(&self, job: ScheduleJobWithOptionalId) -> (request: RpcRequest)
        ensures
            request@ == spec_request(
                RpcMethod::Schedule(ScheduleMethod::Update),
                Some(RpcParamsView::Job(job@)),
            ),
    {
        RpcRequest {
            id: REQUEST_ID,
            method: RpcMethod::Schedule(ScheduleMethod::Update),
            params: Some(RpcParams::Job(job)),
        }
    }

    /// The request that disables job `job_id` and sends nothing else of it.
    pub fn disable_schedule(&self, job_id: u32) -> (request: RpcRequest)
        ensures
            request@ == spec_request(
                RpcMethod::Schedule(ScheduleMethod::Update),
                Some(RpcParamsView::Enable { id: job_id, enable: false }),
            ),
    {
        RpcRequest {
            id: REQUEST_ID,
            method: RpcMethod::Schedule(ScheduleMethod::Update),
            params: Some(RpcParams::Enable { id: job_id, enable: false }),
        }
    }

    /// The request for the relay's jobs.
    pub fn list_schedule(&self) -> (request: RpcRequest)
        ensures
            request@ == spec_request(RpcMethod::Schedule(ScheduleMethod::List), None),
    {
        RpcRequest {
            id: REQUEST_ID,
            method: RpcMethod::Schedule(ScheduleMethod::List),
            params: None,
        }
    }

    /// The request for the relay's status, which holds its time.
    pub fn get_time(&self) -> (request: RpcRequest)
        ensures
            request@ == spec_request(RpcMethod::Sys(SysMethod::GetStatus), None),
    {
        RpcRequest { id: REQUEST_ID, method: RpcMethod::Sys(SysMethod::GetStatus), params: None }
    }

    /// The request for the relay's configuration, which holds its location.
    pub fn get_location(&self) -> (request: RpcRequest)
        ensures
            request@ == spec_request(RpcMethod::Sys(SysMethod::GetConfig), None),
    {
        RpcRequest { id: REQUEST_ID, method: RpcMethod::Sys(SysMethod::GetConfig), params: None }
    }

    /// The request for the value stored under `key`.
    pub fn get_value(&self, key: &str) -> (request: RpcRequest)
        ensures
            request@ == spec_request(
                RpcMethod::KeyValueStore(KeyValueStoreMethod::Get),
                Some(RpcParamsView::Key { key: key@ }),
            ),
    {
        RpcRequest {
            id: REQUEST_ID,
            method: RpcMethod::KeyValueStore(KeyValueStoreMethod::Get),
            params: Some(RpcParams::Key { key: String::from_str(key) }),
        }
    }

    /// The request that stores `value` under `key`.
    pub fn set_value(&self, key: &str, value: &str) -> (request: RpcRequest)
        ensures
            request@ == spec_request(
                RpcMethod::KeyValueStore(KeyValueStoreMethod::SetValue),
                Some(RpcParamsView::KeyValue { key: key@, value: value@ }),
            ),
    {
        RpcRequest {
            id: REQUEST_ID,
            method: RpcMethod::KeyValueStore(KeyValueStoreMethod::SetValue),
            params: Some(
                RpcParams::KeyValue { key: String::from_str(key), value: String::from_str(value) },
            ),
        }
    }

    /// What an exchange amounts to: the expected result where the answer
    /// holds it; else the relay's refusal where the answer holds one; else
    /// both failures to read the answer.
    pub fn execute_rpc<R>(answer: Result<R, String>, refusal: Result<ShellyError, String>) -> (outcome:
        Result<R, ShellyRpcError>)
        ensures
            match outcome {
                Ok(result) => Ok::<R, ShellyRpcErrorView>(result),
                Err(e) => Err::<R, ShellyRpcErrorView>(e@),
            } == spec_execute_rpc(
                match answer {
                    Ok(result) => Ok::<R, Seq<char>>(result),
                    Err(outer) => Err::<R, Seq<char>>(outer@),
                },
                match refusal {
                    Ok(e) => Ok::<ShellyError, Seq<char>>(e),
                    Err(inner) => Err::<ShellyError, Seq<char>>(inner@),
                },
            ),
    {
        match answer {
            Ok(result) => Ok(result),
            Err(outer) => match refusal {
                Ok(e) => Err(ShellyRpcError::HttpApiError(e)),
                Err(inner) => Err(ShellyRpcError::SerdeJsonBiError(outer, inner)),
            },
        }
    }

    /// The time that the relay's status stands for: its unix time where it
    /// has one; else its wall-clock time, where chrono reads one, on today's
    /// UTC calendar day; else the current time.
    pub fn time_of_status(&self, status: &SysGetStatusResponse) -> (time: i64)
        ensures
            match status.result.unixtime {
                Some(unixtime) => time == unixtime,
                None => exists|now: int|
                    0 <= now < TIMESTAMP_LIMIT && time == #[trigger] spec_device_time(
                        None,
                        spec_parse_clock(status.result.time@),
                        now,
                    ),
            },
    {
        match status.result.unixtime {
            Some(unixtime) => unixtime,
            None => {
                let now: i64 = utc_now();
                let clock: Option<u32> = parse_clock(status.result.time.as_str());
                device_time(None, clock, now)
            },
        }
    }

    /// The value that the relay's answer holds.
    pub fn value_of(&self, answer: KeyValueStoreGetResponse) -> (value: String)
        ensures
            value@ == answer.result.value@,
    {
        answer.result.value
    }

    /// The revision that the relay's answer holds.
    pub fn revision_of(&self, answer: &KeyValueStoreSetResponse) -> (rev: u32)
        ensures
            rev == answer.result.rev,
    {
        answer.result.rev
    }
}

} // verus!
