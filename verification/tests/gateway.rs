use chrono::{NaiveTime, Utc};
use daylight_extender::clock::device_time;
use daylight_extender::error::{ControllerError, CustomError};
use daylight_extender::shelly::api::{Gen2DeviceClient, RpcMethod, RpcParams, REQUEST_ID};
use daylight_extender::shelly::data::{
    KeyValueStoreGetResponse, KeyValueStoreGetResponseResult, KeyValueStoreMethod,
    KeyValueStoreSetResponse, KeyValueStoreSetResponseResult, ScheduleMethod, ShellyError,
    ShellyErrorCodeWithMessage, SysGetStatusResponse, SysGetStatusResponseResult, SysMethod,
    KEY_NOT_FOUND,
};
use daylight_extender::shelly::error::ShellyRpcError;
use daylight_extender::Controller;

fn status(time: &str, unixtime: Option<i64>) -> SysGetStatusResponse {
    SysGetStatusResponse {
        id: 1,
        src: "shellyplus2pm-a8032ab636ec".to_string(),
        result: SysGetStatusResponseResult { time: time.to_string(), unixtime },
    }
}

fn refusal(code: i8, message: &str) -> ShellyError {
    ShellyError {
        id: 1,
        src: "shellyplus1-a8032abe54dc".to_string(),
        error: ShellyErrorCodeWithMessage { code, message: message.to_string() },
    }
}

#[test]
fn endpoint_of_address() {
    assert_eq!("http://192.168.0.232/rpc", Gen2DeviceClient::new("192.168.0.232").endpoint());
    assert_eq!("http://localhost:8080/rpc", Gen2DeviceClient::new("localhost:8080").endpoint());
}

#[test]
fn method_names() {
    assert_eq!("Schedule.Create", ScheduleMethod::Create.name());
    assert_eq!("Schedule.Update", ScheduleMethod::Update.name());
    assert_eq!("Schedule.List", ScheduleMethod::List.name());
    assert_eq!("KVS.Set", KeyValueStoreMethod::SetValue.name());
    assert_eq!("KVS.Get", KeyValueStoreMethod::Get.name());
    assert_eq!("Sys.GetConfig", SysMethod::GetConfig.name());
    assert_eq!("Sys.GetStatus", SysMethod::GetStatus.name());
    assert_eq!("Schedule.List", RpcMethod::Schedule(ScheduleMethod::List).name());
    assert_eq!("KVS.Get", RpcMethod::KeyValueStore(KeyValueStoreMethod::Get).name());
    assert_eq!("Sys.GetStatus", RpcMethod::Sys(SysMethod::GetStatus).name());
}

#[test]
fn get_time() {
    let unix_timestamp: i64 = 1654694407;
    let uut = Gen2DeviceClient::new("localhost");

    let request = uut.get_time();
    assert_eq!(REQUEST_ID, request.id);
    assert_eq!(1, request.id);
    assert_eq!(RpcMethod::Sys(SysMethod::GetStatus), request.method);
    assert!(request.params.is_none());

    let result = uut.time_of_status(&status("16:20", Some(unix_timestamp)));
    assert_eq!(unix_timestamp, result);
}

#[test]
fn get_time_falls_back_to_wall_clock() {
    let uut = Gen2DeviceClient::new("localhost");
    let clock = NaiveTime::parse_from_str("16:20", "%H:%M").unwrap();
    let before = Utc::now().date_naive().and_time(clock).and_utc().timestamp();
    let result = uut.time_of_status(&status("16:20", None));
    let after = Utc::now().date_naive().and_time(clock).and_utc().timestamp();
    assert!(result == before || result == after);
    assert_eq!(16 * 3600 + 20 * 60, result.rem_euclid(86_400));
}

#[test]
fn get_time_falls_back_to_system_clock() {
    let uut = Gen2DeviceClient::new("localhost");
    let before = Utc::now().timestamp();
    let result = uut.time_of_status(&status("not a time", None));
    let after = Utc::now().timestamp();
    assert!(before <= result && result <= after);
}

#[test]
fn get_time_refuses_impossible_wall_clock() {
    let uut = Gen2DeviceClient::new("localhost");
    let before = Utc::now().timestamp();
    let result = uut.time_of_status(&status("24:00", None));
    let after = Utc::now().timestamp();
    assert!(before <= result && result <= after);
}

#[test]
fn device_time_prefers_unix_time() {
    assert_eq!(1654694407, device_time(Some(1654694407), Some(58800), 1703085600));
    assert_eq!(-5, device_time(Some(-5), None, 1703085600));
}

#[test]
fn device_time_on_the_day_of_now() {
    // 20 December 2023 16:20:00 UTC; midnight of that day is 1703030400.
    assert_eq!(1703030400 + 58800, device_time(None, Some(58800), 1703085600));
    assert_eq!(1703030400, device_time(None, Some(0), 1703085600));
    assert_eq!(1703030400 + 86399, device_time(None, Some(86399), 1703030400));
    assert_eq!(1703030400 + 60, device_time(None, Some(60), 1703030400 + 86399));
}

#[test]
fn device_time_before_the_epoch() {
    assert_eq!(-86400 + 3600, device_time(None, Some(3600), -1));
    assert_eq!(-86400, device_time(None, Some(0), -86400));
}

#[test]
fn device_time_without_any_clock() {
    assert_eq!(1703085600, device_time(None, None, 1703085600));
}

#[test]
fn get_location() {
    let uut = Gen2DeviceClient::new("localhost");
    let request = uut.get_location();
    assert_eq!(1, request.id);
    assert_eq!(RpcMethod::Sys(SysMethod::GetConfig), request.method);
    assert_eq!("Sys.GetConfig", request.method.name());
    assert!(request.params.is_none());
}

#[test]
fn get_value() {
    let key = "test.key";
    let value = "42";
    let uut = Gen2DeviceClient::new("localhost");

    let request = uut.get_value(key);
    assert_eq!(1, request.id);
    assert_eq!("KVS.Get", request.method.name());
    match request.params {
        Some(RpcParams::Key { key: sent }) => assert_eq!(key, sent),
        other => panic!("unexpected params {:?}", other),
    }

    let answer = KeyValueStoreGetResponse {
        id: 1,
        src: "shellyplus1-a8032abe54dc".to_string(),
        result: KeyValueStoreGetResponseResult {
            etag: "0DWty8HwCB".to_string(),
            value: value.to_string(),
        },
    };
    assert_eq!(value, uut.value_of(answer));
}

#[test]
fn set_value() {
    let key = "test.key";
    let value = r#"{ "object": { "id": 0, items: [ "cats", "vans", "bags"] } }"#;
    let rev: u32 = 2733;
    let uut = Gen2DeviceClient::new("localhost");

    let request = uut.set_value(key, value);
    assert_eq!(1, request.id);
    assert_eq!("KVS.Set", request.method.name());
    match request.params {
        Some(RpcParams::KeyValue { key: sent_key, value: sent_value }) => {
            assert_eq!(key, sent_key);
            assert_eq!(value, sent_value);
        }
        other => panic!("unexpected params {:?}", other),
    }

    let answer = KeyValueStoreSetResponse {
        id: 1,
        src: "shellyplus1-a8032abe54dc".to_string(),
        result: KeyValueStoreSetResponseResult { etag: "0DWty8HwCB".to_string(), rev },
    };
    assert_eq!(rev, uut.revision_of(&answer));
}

#[test]
fn schedule_requests() {
    let uut = Gen2DeviceClient::new("localhost");

    let list = uut.list_schedule();
    assert_eq!("Schedule.List", list.method.name());
    assert!(list.params.is_none());

    let disable = uut.disable_schedule(23);
    assert_eq!("Schedule.Update", disable.method.name());
    match disable.params {
        Some(RpcParams::Enable { id, enable }) => {
            assert_eq!(23, id);
            assert!(!enable);
        }
        other => panic!("unexpected params {:?}", other),
    }

    let job = Controller::schedule_job("4 5 6 * * 0,1,2,3,4,5,6".to_string(), 0, 15655, None, true);
    let create = uut.create_schedule(job);
    assert_eq!("Schedule.Create", create.method.name());
    match create.params {
        Some(RpcParams::Job(sent)) => {
            assert_eq!(None, sent.id);
            assert_eq!("4 5 6 * * 0,1,2,3,4,5,6", sent.timespec);
        }
        other => panic!("unexpected params {:?}", other),
    }

    let job = Controller::schedule_job("4 5 6 * * 0,1,2,3,4,5,6".to_string(), 0, 15655, Some(9), true);
    let update = uut.update_schedule(job);
    assert_eq!("Schedule.Update", update.method.name());
    match update.params {
        Some(RpcParams::Job(sent)) => assert_eq!(Some(9), sent.id),
        other => panic!("unexpected params {:?}", other),
    }
}

#[test]
fn execute_rpc_passes_the_result_on() {
    let outcome =
        Gen2DeviceClient::execute_rpc::<u32>(Ok(7), Err("missing field `error`".to_string()));
    assert_eq!(Some(7), outcome.ok());
}

#[test]
fn key_too_long() {
    let message = "Invalid argument 'key': length should be less than 42!";
    let result = Gen2DeviceClient::execute_rpc::<KeyValueStoreGetResponse>(
        Err("missing field `result`".to_string()),
        Ok(refusal(-103, message)),
    );
    assert!(result.is_err(), "Expected Error is Ok");
    let error = result.err().unwrap();
    assert!(!error.is_key_not_found());
    assert_eq!(
        "Shelly API error: (code: -103, message: Invalid argument 'key': length should be less than 42!)",
        error.message()
    );
}

#[test]
fn key_not_found() {
    let message = "Argument 'key', value 'item1' not found !";
    let result = Gen2DeviceClient::execute_rpc::<KeyValueStoreGetResponse>(
        Err("missing field `result`".to_string()),
        Ok(refusal(-105, message)),
    );
    assert!(result.is_err(), "Expected Error is Ok");
    let error = result.err().unwrap();
    assert!(error.is_key_not_found());
    assert_eq!(-105, KEY_NOT_FOUND);
    assert_eq!(
        "Shelly API error: (code: -105, message: Argument 'key', value 'item1' not found !)",
        error.message()
    );
}

#[test]
fn execute_rpc_neither_result_nor_refusal() {
    let result = Gen2DeviceClient::execute_rpc::<u32>(
        Err("expected value at line 1 column 1".to_string()),
        Err("EOF while parsing".to_string()),
    );
    let error = result.err().unwrap();
    assert!(!error.is_key_not_found());
    assert_eq!(
        "serde_json error: (outer: expected value at line 1 column 1, inner: EOF while parsing)",
        error.message()
    );
}

#[test]
fn connection_refused() {
    let error = ShellyRpcError::ReqwestError("error sending request".to_string());
    assert!(!error.is_key_not_found());
    assert_eq!("Reqwest error: error sending request", error.message());
}

#[test]
fn error_messages() {
    let error = ShellyRpcError::SerdeJsonError("key must be a string".to_string());
    assert_eq!("serde_json error: key must be a string", error.message());

    let error = ShellyRpcError::from(refusal(0, "fine"));
    assert_eq!("Shelly API error: (code: 0, message: fine)", error.message());
    let error = ShellyRpcError::from(refusal(127, ""));
    assert_eq!("Shelly API error: (code: 127, message: )", error.message());
    let error = ShellyRpcError::from(refusal(-128, "x"));
    assert_eq!("Shelly API error: (code: -128, message: x)", error.message());

    let error = ControllerError::Custom(CustomError::InvalidWindow);
    assert_eq!("It's the end of the world", error.message());
    let error = ControllerError::Rpc(ShellyRpcError::ReqwestError("timed out".to_string()));
    assert_eq!("Reqwest error: timed out", error.message());
}
