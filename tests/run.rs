use astarte_e2e::add;
use astarte_e2e::api::{bearer, device_path, interface_path, is_error_status, trim_leading_slashes, websocket_scheme};
use astarte_e2e::codec::{encode, CheckError};
use astarte_e2e::datastream::{
    check_incoming, check, CustomDeviceDatastream, DeviceDatastream,
    DeviceDatastreamOverflow, Phase, Validation, ValidationError, Variant, BEYOND_DOUBLE_PRECISION,
};
use astarte_e2e::event::IncomingData;
use astarte_e2e::interfaces::{additional_interfaces, base_interfaces, interfaces_present, InterfaceData};
use astarte_e2e::retry::{Retry, RetryStep};
use astarte_e2e::telemetry::TelemetryValue;
use astarte_e2e::wire::WireValue;

#[test]
fn it_works() {
    let result = add(2, 2);
    assert_eq!(result, 4);
}

fn incoming(interface: &str, path: &str, value: WireValue) -> IncomingData {
    IncomingData { interface: interface.to_string(), path: path.to_string(), value }
}

#[test]
fn integer_event_must_match_interface_and_path() {
    let v = TelemetryValue::Integer(1);
    let ok = incoming("X", "/integer_endpoint", WireValue::PosInt(1));
    assert_eq!(check_incoming("X", "/integer_endpoint", &v, &ok), Ok(()));
    let other_path = incoming("X", "/integer", WireValue::PosInt(1));
    assert_eq!(check_incoming("X", "/integer_endpoint", &v, &other_path), Err(ValidationError::PathMismatch));
    let other_iface = incoming("Y", "/integer_endpoint", WireValue::PosInt(1));
    assert_eq!(check_incoming("X", "/integer_endpoint", &v, &other_iface), Err(ValidationError::InterfaceMismatch));
    let other_value = incoming("X", "/integer_endpoint", WireValue::PosInt(2));
    assert_eq!(
        check_incoming("X", "/integer_endpoint", &v, &other_value),
        Err(ValidationError::Value(CheckError::Mismatch))
    );
}

#[test]
fn validation_runs_one_round_per_value() {
    let mut val = Variant::DeviceDatastreamOverflow.validation();
    assert_eq!(val.interface(), "org.astarte-platform.e2e.DeviceDatastream");
    let mut rounds = 0;
    while val.phase() == Phase::Sending {
        let (path, value) = val.current().unwrap();
        let event = incoming(val.interface(), path, encode(value));
        val.sent();
        assert_eq!(val.phase(), Phase::AwaitingEvent);
        val.on_event(&event).unwrap();
        rounds += 1;
    }
    assert_eq!(rounds, 2);
    assert_eq!(val.phase(), Phase::Done);
    assert!(val.current().is_none());
}

#[test]
fn validation_stops_at_first_failure() {
    let mut val = Validation::of::<CustomDeviceDatastream>();
    let (path, _) = val.current().unwrap();
    assert_eq!(path, "/volatileUnreliable");
    val.sent();
    let event = incoming("org.astarte-platform.e2e.CustomDeviceDatastream", "/volatileUnreliable", WireValue::PosInt(41));
    assert_eq!(val.on_event(&event), Err(ValidationError::Value(CheckError::Mismatch)));
    assert_eq!(val.phase(), Phase::Failed);
    let empty = Validation::new("I".to_string(), vec![]);
    assert_eq!(empty.phase(), Phase::Done);
}

#[test]
fn fixtures() {
    assert_eq!(DeviceDatastream::interface(), "org.astarte-platform.e2e.DeviceDatastream");
    let data = DeviceDatastream::data();
    assert_eq!(data.len(), 14);
    assert_eq!(data[0].0, "/double_endpoint");
    assert!(matches!(data[0].1, TelemetryValue::Double(b) if f64::from_bits(b) == 4.35));
    assert_eq!(data[13].0, "/datetimearray_endpoint");
    let overflow = DeviceDatastreamOverflow::data();
    assert!(matches!(overflow[0].1, TelemetryValue::LongInteger(n) if n == 2i64.pow(55)));
    assert_eq!(BEYOND_DOUBLE_PRECISION, 2i64.pow(55));
    let custom = CustomDeviceDatastream::data();
    assert_eq!(custom.len(), 6);
    assert!(matches!(custom[2].1, TelemetryValue::Double(b) if f64::from_bits(b) == 35.2));
    assert_eq!(
        check(),
        vec![Variant::DeviceDatastream, Variant::DeviceDatastreamOverflow, Variant::CustomDeviceDatastream]
    );
}

/// Drives a poll the way the runner does, without the pause.
fn poll(times: usize, mut probe: impl FnMut() -> Result<u32, String>) -> (usize, Result<u32, Option<String>>) {
    let mut retry = Retry::new(times);
    let mut calls = 0;
    while retry.can_attempt() {
        calls += 1;
        match retry.record(probe()) {
            RetryStep::Succeeded(v) => return (calls, Ok(v)),
            RetryStep::Pause => {}
            RetryStep::Exhausted(e) => return (calls, Err(Some(e))),
        }
    }
    (calls, Err(None))
}

#[test]
fn retry_succeeds_on_third_attempt() {
    let mut n = 0;
    let (calls, r) = poll(5, || {
        n += 1;
        if n < 3 { Err(format!("fail {n}")) } else { Ok(n) }
    });
    assert_eq!(calls, 3);
    assert_eq!(r, Ok(3));
}

#[test]
fn retry_exhausts_with_last_error() {
    let mut n = 0;
    let (calls, r) = poll(3, || {
        n += 1;
        Err(format!("fail {n}"))
    });
    assert_eq!(calls, 3);
    assert_eq!(r, Err(Some("fail 3".to_string())));
    assert_eq!(poll(0, || Ok(1)), (0, Err(None)));
}

#[test]
fn interface_sets() {
    let base = base_interfaces();
    let extra = additional_interfaces();
    let mut all = base.clone();
    all.extend(extra.clone());
    assert!(interfaces_present(&base, &all));
    assert!(!interfaces_present(&all, &base));
    assert!(interfaces_present(&vec![], &vec![]));
    assert!(interfaces_present(&extra, &all));
    assert_eq!(extra[0], "org.astarte-platform.e2e.DeviceProperty");
}

#[test]
fn endpoint_paths() {
    assert!(is_error_status(404));
    assert!(is_error_status(500));
    assert!(!is_error_status(399));
    assert!(!is_error_status(600));
    assert!(!is_error_status(200));
    assert_eq!(device_path("test", "dev1", "/interfaces"), "/appengine/v1/test/devices/dev1/interfaces");
    assert_eq!(interface_path("I", "//a/b"), "/interfaces/I/a/b");
    assert_eq!(interface_path("I", "a"), "/interfaces/I/a");
    assert_eq!(trim_leading_slashes("///"), "");
    assert_eq!(websocket_scheme("http").as_deref(), Some("ws"));
    assert_eq!(websocket_scheme("https").as_deref(), Some("wss"));
    assert_eq!(websocket_scheme("ftp"), None);
    assert_eq!(bearer("abc"), "Bearer abc");
}
