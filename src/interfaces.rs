//! The interfaces that the validation run sends on, and the values it sends.
use crate::telemetry::TelemetryValue;
use crate::timestamp::Timestamp;
use vstd::prelude::*;
use vstd::string::StringExecFns;

verus! {

/// The values of a fixture are all well formed.
pub open spec fn fixture_wf(es: Seq<(String, TelemetryValue)>) -> bool {
    forall|i: int| 0 <= i < es.len() ==> (#[trigger] es[i]).1.wf()
}

/// An interface and the values to send on it, by path.
pub trait InterfaceData {
    spec fn interface_spec() -> Seq<char>;

    spec fn data_spec(es: Seq<(String, TelemetryValue)>) -> bool;

    /// The name of the interface.
    fn interface() -> (r: String)
        ensures
            r@ == Self::interface_spec(),
    ;

    /// The paths and the values to send on them, in order.
    fn data() -> (r: Vec<(String, TelemetryValue)>)
        ensures
            Self::data_spec(r@),
            fixture_wf(r@),
    ;
}

/// An interface that groups values as one object under a base path.
pub trait InterfaceDataObject: InterfaceData {
    /// The path the object is sent on.
    fn base_path() -> (r: String)
        ensures
            r@ == "/sensor_1"@,
    {
        String::from_str("/sensor_1")
    }

    /// The fields of the object and their values, in order.
    fn object_data() -> (r: Vec<(String, TelemetryValue)>)
        ensures
            is_all_type_data(r@, ""@),
    {
        type_data("")
    }
}

fn entry(prefix: &str, name: &str, v: TelemetryValue) -> (r: (String, TelemetryValue))
    ensures
        r.0@ == prefix@ + name@,
        r.1 == v,
{
    let mut key = String::from_str(prefix);
    key.append(name);
    (key, v)
}

/// A value of every type, each named after its type, with `prefix` before
/// each name.
pub open spec fn is_all_type_data(es: Seq<(String, TelemetryValue)>, prefix: Seq<char>) -> bool {
    &&& es.len() == 14
    &&& es[0].0@ == prefix + "double_endpoint"@
    &&& es[0].1 == TelemetryValue::Double(0x4011666666666666)
    &&& es[1].0@ == prefix + "integer_endpoint"@
    &&& es[1].1 == TelemetryValue::Integer(1)
    &&& es[2].0@ == prefix + "boolean_endpoint"@
    &&& es[2].1 == TelemetryValue::Boolean(true)
    &&& es[3].0@ == prefix + "longinteger_endpoint"@
    &&& es[3].1 == TelemetryValue::LongInteger(45543543534)
    &&& es[4].0@ == prefix + "string_endpoint"@
    &&& es[4].1 is String && es[4].1->String_0@ == "Hello"@
    &&& es[5].0@ == prefix + "binaryblob_endpoint"@
    &&& es[5].1 is BinaryBlob && es[5].1->BinaryBlob_0@ == hello_bytes()
    &&& es[6].0@ == prefix + "datetime_endpoint"@
    &&& es[6].1 == TelemetryValue::DateTime(Timestamp { secs: 1632937608, nanos: 0 })
    &&& es[7].0@ == prefix + "doublearray_endpoint"@
    &&& es[7].1 is DoubleArray && es[7].1->DoubleArray_0@ == seq![
        0x4045c00000000000u64,
        0x4025000000000000u64,
        0x4027cccccccccccdu64,
    ]
    &&& es[8].0@ == prefix + "integerarray_endpoint"@
    &&& es[8].1 is IntegerArray && es[8].1->IntegerArray_0@ == seq![-4i32, 123i32, -2222i32, 30i32]
    &&& es[9].0@ == prefix + "booleanarray_endpoint"@
    &&& es[9].1 is BooleanArray && es[9].1->BooleanArray_0@ == seq![true, false]
    &&& es[10].0@ == prefix + "longintegerarray_endpoint"@
    &&& es[10].1 is LongIntegerArray && es[10].1->LongIntegerArray_0@ == seq![
        53267895478i64,
        53267895428i64,
        53267895118i64,
    ]
    &&& es[11].0@ == prefix + "stringarray_endpoint"@
    &&& es[11].1 is StringArray && es[11].1->StringArray_0@.len() == 2
        && es[11].1->StringArray_0@[0]@ == "Test "@ && es[11].1->StringArray_0@[1]@ == "String"@
    &&& es[12].0@ == prefix + "binaryblobarray_endpoint"@
    &&& es[12].1 is BinaryBlobArray && es[12].1->BinaryBlobArray_0@.len() == 2
        && es[12].1->BinaryBlobArray_0@[0]@ == hello_bytes()
        && es[12].1->BinaryBlobArray_0@[1]@ == hello_bytes()
    &&& es[13].0@ == prefix + "datetimearray_endpoint"@
    &&& es[13].1 is DateTimeArray && es[13].1->DateTimeArray_0@ == seq![
        Timestamp { secs: 1635011208, nanos: 0 },
        Timestamp { secs: 1636652808, nanos: 0 },
    ]
}

/// The bytes of `hello`.
pub open spec fn hello_bytes() -> Seq<u8> {
    seq![104u8, 101u8, 108u8, 108u8, 111u8]
}

fn hello() -> (r: Vec<u8>)
    ensures
        r@ == hello_bytes(),
{
    let mut b: Vec<u8> = Vec::new();
    b.push(104);
    b.push(101);
    b.push(108);
    b.push(108);
    b.push(111);
    assert(b@ =~= hello_bytes());
    b
}

pub(crate) fn type_data(prefix: &str) -> (r: Vec<(String, TelemetryValue)>)
    ensures
        is_all_type_data(r@, prefix@),
        fixture_wf(r@),
{
    let mut doubles: Vec<u64> = Vec::new();
    doubles.push(0x4045c00000000000);
    doubles.push(0x4025000000000000);
    doubles.push(0x4027cccccccccccd);
    let mut ints: Vec<i32> = Vec::new();
    ints.push(-4);
    ints.push(123);
    ints.push(-2222);
    ints.push(30);
    let mut bools: Vec<bool> = Vec::new();
    bools.push(true);
    bools.push(false);
    let mut longs: Vec<i64> = Vec::new();
    longs.push(53267895478);
    longs.push(53267895428);
    longs.push(53267895118);
    let mut texts: Vec<String> = Vec::new();
    texts.push(String::from_str("Test "));
    texts.push(String::from_str("String"));
    let mut blobs: Vec<Vec<u8>> = Vec::new();
    blobs.push(hello());
    blobs.push(hello());
    let mut instants: Vec<Timestamp> = Vec::new();
    instants.push(Timestamp { secs: 1635011208, nanos: 0 });
    instants.push(Timestamp { secs: 1636652808, nanos: 0 });
    assert(doubles@ =~= seq![0x4045c00000000000u64, 0x4025000000000000u64, 0x4027cccccccccccdu64]);
    assert(ints@ =~= seq![-4i32, 123i32, -2222i32, 30i32]);
    assert(bools@ =~= seq![true, false]);
    assert(longs@ =~= seq![53267895478i64, 53267895428i64, 53267895118i64]);
    assert(instants@ =~= seq![
        Timestamp { secs: 1635011208, nanos: 0 },
        Timestamp { secs: 1636652808, nanos: 0 },
    ]);

    let mut es: Vec<(String, TelemetryValue)> = Vec::new();
    es.push(entry(prefix, "double_endpoint", TelemetryValue::Double(0x4011666666666666)));
    es.push(entry(prefix, "integer_endpoint", TelemetryValue::Integer(1)));
    es.push(entry(prefix, "boolean_endpoint", TelemetryValue::Boolean(true)));
    es.push(entry(prefix, "longinteger_endpoint", TelemetryValue::LongInteger(45543543534)));
    es.push(entry(prefix, "string_endpoint", TelemetryValue::String(String::from_str("Hello"))));
    es.push(entry(prefix, "binaryblob_endpoint", TelemetryValue::BinaryBlob(hello())));
    es.push(
        entry(
            prefix,
            "datetime_endpoint",
            TelemetryValue::DateTime(Timestamp { secs: 1632937608, nanos: 0 }),
        ),
    );
    es.push(entry(prefix, "doublearray_endpoint", TelemetryValue::DoubleArray(doubles)));
    es.push(entry(prefix, "integerarray_endpoint", TelemetryValue::IntegerArray(ints)));
    es.push(entry(prefix, "booleanarray_endpoint", TelemetryValue::BooleanArray(bools)));
    es.push(entry(prefix, "longintegerarray_endpoint", TelemetryValue::LongIntegerArray(longs)));
    es.push(entry(prefix, "stringarray_endpoint", TelemetryValue::StringArray(texts)));
    es.push(entry(prefix, "binaryblobarray_endpoint", TelemetryValue::BinaryBlobArray(blobs)));
    es.push(entry(prefix, "datetimearray_endpoint", TelemetryValue::DateTimeArray(instants)));
    proof {
        vstd::arithmetic::power2::lemma2_to64();
    }
    es
}

/// A value of every type, each named after its type.
pub fn all_type_data() -> (r: Vec<(String, TelemetryValue)>)
    ensures
        is_all_type_data(r@, ""@),
        fixture_wf(r@),
{
    type_data("")
}

/// Every name of `expected` is among the names of `observed`.
pub open spec fn names_present(expected: Seq<String>, observed: Seq<String>) -> bool {
    forall|i: int|
        0 <= i < expected.len() ==> exists|j: int|
            0 <= j < observed.len() && (#[trigger] observed[j])@ == (#[trigger] expected[i])@
}

/// Whether every expected interface is among the observed ones.
pub fn interfaces_present(expected: &Vec<String>, observed: &Vec<String>) -> (r: bool)
    ensures
        r == names_present(expected@, observed@),
{
    let mut i: usize = 0;
    while i < expected.len()
        invariant
            i <= expected@.len(),
            names_present(expected@.subrange(0, i as int), observed@),
        decreases expected@.len() - i,
    {
        let mut j: usize = 0;
        let mut found = false;
        while j < observed.len() && !found
            invariant
                i < expected@.len(),
                j <= observed@.len(),
                found ==> exists|k: int|
                    0 <= k < observed@.len() && (#[trigger] observed@[k])@ == expected@[i as int]@,
                !found ==> forall|k: int| 0 <= k < j ==> (#[trigger] observed@[k])@ != expected@[i as int]@,
            decreases observed@.len() - j + (if found { 0int } else { 1int }),
        {
            if observed[j] == expected[i] {
                found = true;
            } else {
                j = j + 1;
            }
        }
        if !found {
            assert(!names_present(expected@, observed@)) by {
                if names_present(expected@, observed@) {
                    let e = expected@[i as int];
                    let k = choose|k: int| 0 <= k < observed@.len() && (#[trigger] observed@[k])@ == e@;
                    assert(observed@[k]@ != e@);
                }
            }
            return false;
        }
        assert forall|a: int| 0 <= a < i + 1 implies exists|k: int|
            0 <= k < observed@.len() && (#[trigger] observed@[k])@ == (
            #[trigger] expected@.subrange(0, i + 1)[a])@ by {
            if a < i {
                assert(expected@.subrange(0, i + 1)[a] == expected@.subrange(0, i as int)[a]);
            }
        }
        i = i + 1;
    }
    assert(expected@.subrange(0, expected@.len() as int) =~= expected@);
    true
}

fn names(a: &str, b: &str, c: &str) -> (r: Vec<String>)
    ensures
        r@.len() == 3,
        r@[0]@ == a@,
        r@[1]@ == b@,
        r@[2]@ == c@,
{
    let mut v: Vec<String> = Vec::new();
    v.push(String::from_str(a));
    v.push(String::from_str(b));
    v.push(String::from_str(c));
    v
}

/// The interfaces that the device declares from the start.
pub fn base_interfaces() -> (r: Vec<String>)
    ensures
        r@.len() == 3,
        r@[0]@ == "org.astarte-platform.e2e.DeviceAggregate"@,
        r@[1]@ == "org.astarte-platform.e2e.DeviceDatastream"@,
        r@[2]@ == "org.astarte-platform.e2e.ServerAggregate"@,
{
    names(
        "org.astarte-platform.e2e.DeviceAggregate",
        "org.astarte-platform.e2e.DeviceDatastream",
        "org.astarte-platform.e2e.ServerAggregate",
    )
}

/// The interfaces that the run adds to the device, and then removes.
pub fn additional_interfaces() -> (r: Vec<String>)
    ensures
        r@.len() == 3,
        r@[0]@ == "org.astarte-platform.e2e.DeviceProperty"@,
        r@[1]@ == "org.astarte-platform.e2e.ServerDatastream"@,
        r@[2]@ == "org.astarte-platform.e2e.ServerProperty"@,
{
    names(
        "org.astarte-platform.e2e.DeviceProperty",
        "org.astarte-platform.e2e.ServerDatastream",
        "org.astarte-platform.e2e.ServerProperty",
    )
}

/// Polls for interface convergence allow this many attempts.
pub const CONVERGENCE_ATTEMPTS: usize = 20;

} // verus!
