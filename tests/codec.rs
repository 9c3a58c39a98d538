use astarte_e2e::codec::{check_value, decode, encode, CheckError, Malformation};
use astarte_e2e::datastream::BEYOND_DOUBLE_PRECISION;
use astarte_e2e::interfaces::all_type_data;
use astarte_e2e::telemetry::{TelemetryValue, ValueKind};
use astarte_e2e::timestamp::Timestamp;
use astarte_e2e::wire::WireValue;

fn text(s: &str) -> WireValue {
    WireValue::String(s.to_string())
}

fn bits(f: f64) -> u64 {
    f.to_bits()
}

#[test]
fn every_fixture_value_round_trips() {
    for (name, value) in all_type_data() {
        let wire = encode(&value);
        assert_eq!(check_value(&value, &wire), Ok(()), "{name}");
    }
}

#[test]
fn long_integer_beyond_double_precision_round_trips() {
    let v = TelemetryValue::LongInteger(BEYOND_DOUBLE_PRECISION);
    let wire = encode(&v);
    assert!(matches!(wire, WireValue::PosInt(36028797018963968)));
    assert_eq!(check_value(&v, &wire), Ok(()));
    assert_eq!(check_value(&v, &WireValue::PosInt(36028797018963969)), Err(CheckError::Mismatch));
    let arr = TelemetryValue::LongIntegerArray(vec![BEYOND_DOUBLE_PRECISION; 4]);
    assert_eq!(check_value(&arr, &encode(&arr)), Ok(()));
}

#[test]
fn integer_one_encodes_as_one() {
    let v = TelemetryValue::Integer(1);
    assert!(matches!(encode(&v), WireValue::PosInt(1)));
    assert_eq!(check_value(&v, &WireValue::PosInt(1)), Ok(()));
    assert_eq!(check_value(&v, &WireValue::PosInt(2)), Err(CheckError::Mismatch));
    assert_eq!(check_value(&TelemetryValue::Integer(-7), &WireValue::NegInt(-7)), Ok(()));
    assert!(matches!(encode(&TelemetryValue::Integer(-7)), WireValue::NegInt(-7)));
}

#[test]
fn hello_blob_is_base64() {
    let v = TelemetryValue::BinaryBlob(b"hello".to_vec());
    match encode(&v) {
        WireValue::String(s) => assert_eq!(s, "aGVsbG8="),
        other => panic!("unexpected {other:?}"),
    }
    assert_eq!(check_value(&v, &text("aGVsbG8=")), Ok(()));
    assert_eq!(check_value(&v, &text("aGVsbG9=")), Err(CheckError::Malformed(Malformation::Base64)));
    assert_eq!(check_value(&v, &text("d29ybGQ=")), Err(CheckError::Mismatch));
    assert_eq!(check_value(&v, &text("not base64!")), Err(CheckError::Malformed(Malformation::Base64)));
    assert_eq!(check_value(&v, &WireValue::PosInt(1)), Err(CheckError::Mismatch));
}

#[test]
fn datetime_is_rfc3339() {
    let t = Timestamp::from_parts(1632937608, 0).unwrap();
    let v = TelemetryValue::DateTime(t);
    match encode(&v) {
        WireValue::String(s) => assert_eq!(s, "2021-09-29T17:46:48+00:00"),
        other => panic!("unexpected {other:?}"),
    }
    assert_eq!(check_value(&v, &text("2021-09-29T17:46:48.000Z")), Ok(()));
    assert_eq!(check_value(&v, &text("2021-09-29T19:46:48+02:00")), Ok(()));
    assert_eq!(check_value(&v, &text("2021-09-29T17:46:49Z")), Err(CheckError::Mismatch));
    assert_eq!(
        check_value(&v, &text("yesterday")),
        Err(CheckError::Malformed(Malformation::Timestamp))
    );
}

#[test]
fn timestamp_range() {
    assert!(Timestamp::from_parts(-62167219200, 0).is_some());
    assert!(Timestamp::from_parts(-62167219201, 0).is_none());
    assert!(Timestamp::from_parts(253402300799, 999_999_999).is_some());
    assert!(Timestamp::from_parts(0, 1_000_000_000).is_none());
}

#[test]
fn doubles_compare_exactly() {
    let v = TelemetryValue::Double(bits(4.35));
    assert!(matches!(encode(&v), WireValue::Float(b) if b == bits(4.35)));
    assert_eq!(check_value(&v, &WireValue::Float(bits(4.35))), Ok(()));
    assert_eq!(check_value(&v, &WireValue::Float(bits(4.3500001))), Err(CheckError::Mismatch));
    let four = TelemetryValue::Double(bits(4.0));
    assert_eq!(check_value(&four, &WireValue::PosInt(4)), Ok(()));
    assert_eq!(check_value(&four, &WireValue::PosInt(5)), Err(CheckError::Mismatch));
    let neg = TelemetryValue::Double(bits(-1024.0));
    assert_eq!(check_value(&neg, &WireValue::NegInt(-1024)), Ok(()));
    let zero = TelemetryValue::Double(bits(0.0));
    assert_eq!(check_value(&zero, &WireValue::Float(bits(-0.0))), Ok(()));
    assert_eq!(check_value(&zero, &WireValue::PosInt(0)), Ok(()));
    let big = TelemetryValue::Double(bits(36028797018963968.0));
    assert_eq!(check_value(&big, &WireValue::PosInt(36028797018963968)), Ok(()));
    assert_eq!(check_value(&v, &WireValue::Float(f64::NAN.to_bits())), Err(CheckError::Mismatch));
    assert_eq!(check_value(&v, &text("4.35")), Err(CheckError::Mismatch));
}

#[test]
fn scalar_of_wrong_type_is_a_mismatch() {
    assert_eq!(check_value(&TelemetryValue::Boolean(true), &WireValue::Bool(true)), Ok(()));
    assert_eq!(check_value(&TelemetryValue::Boolean(true), &WireValue::Bool(false)), Err(CheckError::Mismatch));
    assert_eq!(check_value(&TelemetryValue::Boolean(true), &WireValue::Null), Err(CheckError::Mismatch));
    assert_eq!(check_value(&TelemetryValue::String("Hello".into()), &text("Hello")), Ok(()));
    assert_eq!(check_value(&TelemetryValue::String("Hello".into()), &text("hello")), Err(CheckError::Mismatch));
    assert_eq!(check_value(&TelemetryValue::LongInteger(5), &WireValue::Float(bits(5.0))), Err(CheckError::Mismatch));
    assert_eq!(check_value(&TelemetryValue::LongInteger(-1), &WireValue::PosInt(u64::MAX)), Err(CheckError::Mismatch));
}

#[test]
fn arrays_check_shape_then_values() {
    let ints = TelemetryValue::IntegerArray(vec![-4, 123, -2222, 30]);
    let good = WireValue::Array(vec![
        WireValue::NegInt(-4),
        WireValue::PosInt(123),
        WireValue::NegInt(-2222),
        WireValue::PosInt(30),
    ]);
    assert_eq!(check_value(&ints, &good), Ok(()));
    let short = WireValue::Array(vec![WireValue::NegInt(-4)]);
    assert_eq!(check_value(&ints, &short), Err(CheckError::Mismatch));
    let float = WireValue::Array(vec![WireValue::Float(bits(1.5))]);
    assert_eq!(check_value(&ints, &float), Err(CheckError::Malformed(Malformation::Shape)));
    let too_big = WireValue::Array(vec![WireValue::PosInt(1 << 40)]);
    assert_eq!(check_value(&ints, &too_big), Err(CheckError::Malformed(Malformation::Shape)));
    assert_eq!(check_value(&ints, &WireValue::PosInt(1)), Err(CheckError::Malformed(Malformation::Shape)));
    let empty = TelemetryValue::BooleanArray(vec![]);
    assert_eq!(check_value(&empty, &WireValue::Array(vec![])), Ok(()));
    let doubles = TelemetryValue::DoubleArray(vec![bits(43.5), bits(2.0)]);
    let mixed = WireValue::Array(vec![WireValue::Float(bits(43.5)), WireValue::PosInt(2)]);
    assert_eq!(check_value(&doubles, &mixed), Ok(()));
}

#[test]
fn blob_and_instant_arrays_decode_every_element() {
    let blobs = TelemetryValue::BinaryBlobArray(vec![b"hello".to_vec(), b"hello".to_vec()]);
    let good = WireValue::Array(vec![text("aGVsbG8="), text("aGVsbG8=")]);
    assert_eq!(check_value(&blobs, &good), Ok(()));
    let bad_tail = WireValue::Array(vec![text("d29ybGQ="), text("%%%")]);
    assert_eq!(check_value(&blobs, &bad_tail), Err(CheckError::Malformed(Malformation::Base64)));
    let not_text = WireValue::Array(vec![text("%%%"), WireValue::PosInt(1)]);
    assert_eq!(check_value(&blobs, &not_text), Err(CheckError::Malformed(Malformation::Shape)));
    let instants = TelemetryValue::DateTimeArray(vec![
        Timestamp::from_parts(1635011208, 0).unwrap(),
        Timestamp::from_parts(1636652808, 0).unwrap(),
    ]);
    let good = WireValue::Array(vec![text("2021-10-23T17:46:48.000Z"), text("2021-11-11T17:46:48.000Z")]);
    assert_eq!(check_value(&instants, &good), Ok(()));
    let swapped = WireValue::Array(vec![text("2021-11-11T17:46:48.000Z"), text("2021-10-23T17:46:48.000Z")]);
    assert_eq!(check_value(&instants, &swapped), Err(CheckError::Mismatch));
    let bad = WireValue::Array(vec![text("2021-11-11T17:46:48.000Z"), text("soon")]);
    assert_eq!(check_value(&instants, &bad), Err(CheckError::Malformed(Malformation::Timestamp)));
}

#[test]
fn decode_reads_back_every_fixture_value() {
    for (name, value) in all_type_data() {
        let wire = encode(&value);
        let back = decode(value.kind(), &wire).unwrap();
        assert_eq!(encode_text(&back), encode_text(&value), "{name}");
        assert_eq!(back.kind(), value.kind());
    }
}

fn encode_text(v: &TelemetryValue) -> String {
    format!("{:?}", encode(v))
}

#[test]
fn decode_keeps_large_long_integers() {
    let v = TelemetryValue::LongInteger(BEYOND_DOUBLE_PRECISION);
    match decode(ValueKind::LongInteger, &encode(&v)) {
        Some(TelemetryValue::LongInteger(n)) => assert_eq!(n, 1i64 << 55),
        other => panic!("unexpected {other:?}"),
    }
    let arr = TelemetryValue::LongIntegerArray(vec![BEYOND_DOUBLE_PRECISION; 4]);
    match decode(ValueKind::LongIntegerArray, &encode(&arr)) {
        Some(TelemetryValue::LongIntegerArray(v)) => assert_eq!(v, vec![1i64 << 55; 4]),
        other => panic!("unexpected {other:?}"),
    }
}

#[test]
fn decode_rejects_wrong_shapes() {
    match decode(ValueKind::BinaryBlob, &text("aGVsbG8=")) {
        Some(TelemetryValue::BinaryBlob(b)) => assert_eq!(b, b"hello".to_vec()),
        other => panic!("unexpected {other:?}"),
    }
    match decode(ValueKind::DateTime, &text("2021-09-29T17:46:48.000Z")) {
        Some(TelemetryValue::DateTime(t)) => assert_eq!((t.secs, t.nanos), (1632937608, 0)),
        other => panic!("unexpected {other:?}"),
    }
    assert!(decode(ValueKind::BinaryBlob, &text("%%%")).is_none());
    assert!(decode(ValueKind::DateTime, &text("now")).is_none());
    assert!(decode(ValueKind::Integer, &WireValue::PosInt(1 << 40)).is_none());
    assert!(decode(ValueKind::Double, &WireValue::PosInt(4)).is_none());
    assert!(decode(ValueKind::Double, &WireValue::Float(f64::INFINITY.to_bits())).is_none());
    assert!(decode(ValueKind::IntegerArray, &WireValue::PosInt(1)).is_none());
    assert!(decode(ValueKind::BooleanArray, &WireValue::Array(vec![WireValue::Bool(true), WireValue::Null])).is_none());
    match decode(ValueKind::StringArray, &WireValue::Array(vec![])) {
        Some(TelemetryValue::StringArray(v)) => assert!(v.is_empty()),
        other => panic!("unexpected {other:?}"),
    }
}

#[test]
fn well_formedness() {
    assert!(TelemetryValue::Double(bits(1.0)).is_well_formed());
    assert!(!TelemetryValue::Double(f64::NAN.to_bits()).is_well_formed());
    assert!(!TelemetryValue::DoubleArray(vec![bits(1.0), f64::INFINITY.to_bits()]).is_well_formed());
    assert!(!TelemetryValue::DateTimeArray(vec![Timestamp { secs: i64::MAX, nanos: 0 }]).is_well_formed());
    assert!(TelemetryValue::String("x".into()).is_well_formed());
}
