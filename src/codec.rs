//! The wire encoding of telemetry values and the comparison of a value with
//! the wire form that the platform hands back.
use crate::blob::{base64_decodable, base64_decode, base64_encode, base64_text};
use crate::double::{
    denotes_int, denotes_int_exec, double_eq, double_eq_bits, finite_bits, is_finite,
};
use crate::telemetry::{same_value, TelemetryValue, ValueKind};
use crate::timestamp::{format_rfc3339, instant_valid, parse_utc, rfc3339_text, utc_instant, Timestamp};
use crate::wire::{i64_of, int_wire, WireValue};
use vstd::prelude::*;

verus! {

/// The wire form of a string.
pub open spec fn text_wire(w: WireValue, s: Seq<char>) -> bool {
    w is String && w->String_0@ == s
}

/// The wire form of an instant.
pub open spec fn instant_text(t: Timestamp) -> Seq<char> {
    rfc3339_text(t.secs as int, t.nanos as int)
}

/// `w` is the wire form of `v`: numbers map to numbers, blobs to their
/// base64 text, instants to their RFC 3339 text, arrays element-wise.
pub open spec fn encodes(v: TelemetryValue, w: WireValue) -> bool {
    match v {
        TelemetryValue::Double(b) => w == WireValue::Float(b),
        TelemetryValue::Integer(n) => int_wire(w, n as int),
        TelemetryValue::Boolean(x) => w == WireValue::Bool(x),
        TelemetryValue::LongInteger(n) => int_wire(w, n as int),
        TelemetryValue::String(s) => text_wire(w, s@),
        TelemetryValue::BinaryBlob(b) => text_wire(w, base64_text(b@)),
        TelemetryValue::DateTime(t) => text_wire(w, instant_text(t)),
        _ => w is Array && {
            let items = w->Array_0@;
            items.len() == array_len(v) && forall|i: int|
                0 <= i < items.len() ==> encodes_item(v, i, #[trigger] items[i])
        },
    }
}

/// The number of elements of an array value.
pub open spec fn array_len(v: TelemetryValue) -> int {
    match v {
        TelemetryValue::DoubleArray(e) => e@.len() as int,
        TelemetryValue::IntegerArray(e) => e@.len() as int,
        TelemetryValue::BooleanArray(e) => e@.len() as int,
        TelemetryValue::LongIntegerArray(e) => e@.len() as int,
        TelemetryValue::StringArray(e) => e@.len() as int,
        TelemetryValue::BinaryBlobArray(e) => e@.len() as int,
        TelemetryValue::DateTimeArray(e) => e@.len() as int,
        _ => 0,
    }
}

/// `w` is the wire form of element `i` of an array value.
pub open spec fn encodes_item(v: TelemetryValue, i: int, w: WireValue) -> bool {
    match v {
        TelemetryValue::DoubleArray(e) => w == WireValue::Float(e@[i]),
        TelemetryValue::IntegerArray(e) => int_wire(w, e@[i] as int),
        TelemetryValue::BooleanArray(e) => w == WireValue::Bool(e@[i]),
        TelemetryValue::LongIntegerArray(e) => int_wire(w, e@[i] as int),
        TelemetryValue::StringArray(e) => text_wire(w, e@[i]@),
        TelemetryValue::BinaryBlobArray(e) => text_wire(w, base64_text(e@[i]@)),
        TelemetryValue::DateTimeArray(e) => text_wire(w, instant_text(e@[i])),
        _ => false,
    }
}

/// Converts a value to its wire form.
pub fn encode(v: &TelemetryValue) -> (w: WireValue)
    requires
        v.wf(),
    ensures
        encodes(*v, w),
{
    match v {
        TelemetryValue::Double(b) => WireValue::Float(*b),
        TelemetryValue::Integer(n) => WireValue::from_i64(*n as i64),
        TelemetryValue::Boolean(x) => WireValue::Bool(*x),
        TelemetryValue::LongInteger(n) => WireValue::from_i64(*n),
        TelemetryValue::String(s) => WireValue::String(s.clone()),
        TelemetryValue::BinaryBlob(b) => WireValue::String(base64_encode(b.as_slice())),
        TelemetryValue::DateTime(t) => WireValue::String(format_rfc3339(t)),
        _ => WireValue::Array(encode_items(v)),
    }
}

fn encode_item(v: &TelemetryValue, i: usize) -> (w: WireValue)
    requires
        v.wf(),
        0 <= i < array_len(*v),
    ensures
        encodes_item(*v, i as int, w),
{
    match v {
        TelemetryValue::DoubleArray(e) => WireValue::Float(e[i]),
        TelemetryValue::IntegerArray(e) => WireValue::from_i64(e[i] as i64),
        TelemetryValue::BooleanArray(e) => WireValue::Bool(e[i]),
        TelemetryValue::LongIntegerArray(e) => WireValue::from_i64(e[i]),
        TelemetryValue::StringArray(e) => WireValue::String(e[i].clone()),
        TelemetryValue::BinaryBlobArray(e) => WireValue::String(base64_encode(e[i].as_slice())),
        TelemetryValue::DateTimeArray(e) => WireValue::String(format_rfc3339(&e[i])),
        _ => WireValue::Null,
    }
}

fn length_of(v: &TelemetryValue) -> (n: usize)
    ensures
        n == array_len(*v),
{
    match v {
        TelemetryValue::DoubleArray(e) => e.len(),
        TelemetryValue::IntegerArray(e) => e.len(),
        TelemetryValue::BooleanArray(e) => e.len(),
        TelemetryValue::LongIntegerArray(e) => e.len(),
        TelemetryValue::StringArray(e) => e.len(),
        TelemetryValue::BinaryBlobArray(e) => e.len(),
        TelemetryValue::DateTimeArray(e) => e.len(),
        _ => 0,
    }
}

fn encode_items(v: &TelemetryValue) -> (items: Vec<WireValue>)
    requires
        v.wf(),
    ensures
        items@.len() == array_len(*v),
        forall|i: int| 0 <= i < items@.len() ==> encodes_item(*v, i, #[trigger] items@[i]),
{
    let n = length_of(v);
    let mut items: Vec<WireValue> = Vec::new();
    let mut i: usize = 0;
    while i < n
        invariant
            v.wf(),
            n == array_len(*v),
            i <= n,
            items@.len() == i,
            forall|j: int| 0 <= j < i ==> encodes_item(*v, j, #[trigger] items@[j]),
        decreases n - i,
    {
        items.push(encode_item(v, i));
        i = i + 1;
    }
    items
}

/// Why a wire value could not be read as the expected type.
#[derive(Clone, Copy, Debug, PartialEq, Eq, Structural)]
pub enum Malformation {
    /// The JSON has the wrong shape for the expected array type.
    Shape,
    /// A text is not valid base64.
    Base64,
    /// A text is not an RFC 3339 instant.
    Timestamp,
}

/// The outcome of a failed comparison.
#[derive(Clone, Copy, Debug, PartialEq, Eq, Structural)]
pub enum CheckError {
    /// The wire value was read, and differs from the expected value.
    Mismatch,
    /// The wire value could not be read as the expected type.
    Malformed(Malformation),
}

pub open spec fn verdict(eq: bool) -> Result<(), CheckError> {
    if eq {
        Ok(())
    } else {
        Err(CheckError::Mismatch)
    }
}

/// A JSON number, read as a double, equals the expected double.
pub open spec fn double_matches(exp: u64, w: WireValue) -> bool {
    match w {
        WireValue::Float(b) => double_eq(b, exp),
        WireValue::PosInt(u) => denotes_int(exp, u as int),
        WireValue::NegInt(n) => denotes_int(exp, n as int),
        _ => false,
    }
}

/// The element can be read as an element of the array type of `v`.
pub open spec fn item_readable(v: TelemetryValue, w: WireValue) -> bool {
    match v {
        TelemetryValue::DoubleArray(_) => w is PosInt || w is NegInt || w is Float,
        TelemetryValue::IntegerArray(_) => i64_of(w) is Some && i32::MIN <= i64_of(w)->Some_0
            <= i32::MAX,
        TelemetryValue::BooleanArray(_) => w is Bool,
        TelemetryValue::LongIntegerArray(_) => i64_of(w) is Some,
        _ => w is String,
    }
}

/// Element `i` of the array value `v` equals the element `w` read off the wire.
pub open spec fn item_matches(v: TelemetryValue, i: int, w: WireValue) -> bool {
    match v {
        TelemetryValue::DoubleArray(e) => double_matches(e@[i], w),
        TelemetryValue::IntegerArray(e) => i64_of(w) == Some(e@[i] as int),
        TelemetryValue::BooleanArray(e) => w == WireValue::Bool(e@[i]),
        TelemetryValue::LongIntegerArray(e) => i64_of(w) == Some(e@[i] as int),
        TelemetryValue::StringArray(e) => text_wire(w, e@[i]@),
        TelemetryValue::BinaryBlobArray(e) => text_wire(w, base64_text(e@[i]@)),
        TelemetryValue::DateTimeArray(e) => w is String && utc_instant(w->String_0@) == Some(
            (e@[i].secs as int, e@[i].nanos as int),
        ),
        _ => false,
    }
}

/// A string element fails to decode as an element of the array type of `v`.
pub open spec fn item_undecodable(v: TelemetryValue, s: Seq<char>) -> bool {
    match v {
        TelemetryValue::BinaryBlobArray(_) => !base64_decodable(s),
        TelemetryValue::DateTimeArray(_) => utc_instant(s) is None,
        _ => false,
    }
}

/// The error for an element that is a string but does not decode.
pub open spec fn decode_failure(v: TelemetryValue) -> Malformation {
    match v {
        TelemetryValue::BinaryBlobArray(_) => Malformation::Base64,
        _ => Malformation::Timestamp,
    }
}

/// Comparison of an array value with a wire value. Every element is read
/// first: a wire value that is not an array, or an element of the wrong
/// type, is malformed; then blobs and instants are decoded; then the arrays
/// are compared.
pub open spec fn array_outcome(v: TelemetryValue, w: WireValue) -> Result<(), CheckError> {
    if !(w is Array) {
        Err(CheckError::Malformed(Malformation::Shape))
    } else {
        let items = w->Array_0@;
        if exists|i: int| 0 <= i < items.len() && !item_readable(v, #[trigger] items[i]) {
            Err(CheckError::Malformed(Malformation::Shape))
        } else if exists|i: int|
            0 <= i < items.len() && item_undecodable(v, (#[trigger] items[i])->String_0@) {
            Err(CheckError::Malformed(decode_failure(v)))
        } else {
            verdict(
                items.len() == array_len(v) && forall|i: int|
                    0 <= i < items.len() ==> item_matches(v, i, #[trigger] items[i]),
            )
        }
    }
}

/// Comparison of a value with a wire value. A scalar of the wrong JSON type
/// is a mismatch; a blob or an instant whose text does not decode is
/// malformed.
pub open spec fn check_spec(v: TelemetryValue, w: WireValue) -> Result<(), CheckError> {
    match v {
        TelemetryValue::Double(e) => verdict(double_matches(e, w)),
        TelemetryValue::Integer(e) => verdict(i64_of(w) == Some(e as int)),
        TelemetryValue::Boolean(e) => verdict(w == WireValue::Bool(e)),
        TelemetryValue::LongInteger(e) => verdict(i64_of(w) == Some(e as int)),
        TelemetryValue::String(e) => verdict(text_wire(w, e@)),
        TelemetryValue::BinaryBlob(e) => if !(w is String) {
            Err(CheckError::Mismatch)
        } else if !base64_decodable(w->String_0@) {
            Err(CheckError::Malformed(Malformation::Base64))
        } else {
            verdict(w->String_0@ == base64_text(e@))
        },
        TelemetryValue::DateTime(e) => if !(w is String) {
            Err(CheckError::Mismatch)
        } else {
            match utc_instant(w->String_0@) {
                None => Err(CheckError::Malformed(Malformation::Timestamp)),
                Some(p) => verdict(p == (e.secs as int, e.nanos as int)),
            }
        },
        _ => array_outcome(v, w),
    }
}

fn double_matches_exec(exp: u64, w: &WireValue) -> (r: bool)
    ensures
        r == double_matches(exp, *w),
{
    match w {
        WireValue::Float(b) => double_eq_bits(*b, exp),
        WireValue::PosInt(u) => denotes_int_exec(exp, *u as i128),
        WireValue::NegInt(n) => denotes_int_exec(exp, *n as i128),
        _ => false,
    }
}

fn i64_equals(w: &WireValue, n: i64) -> (r: bool)
    ensures
        r == (i64_of(*w) == Some(n as int)),
{
    match w.as_i64() {
        Some(m) => m == n,
        None => false,
    }
}

fn text_of(w: &WireValue) -> (r: Option<&String>)
    ensures
        r is Some <==> w is String,
        r is Some ==> r->Some_0 == w->String_0,
{
    match w {
        WireValue::String(s) => Some(s),
        _ => None,
    }
}

/// Compares a blob with a text that should hold its base64 form.
fn blob_check(e: &Vec<u8>, s: &String) -> (r: Result<(), CheckError>)
    ensures
        r == (if !base64_decodable(s@) {
            Err(CheckError::Malformed(Malformation::Base64))
        } else {
            verdict(s@ == base64_text(e@))
        }),
{
    match base64_decode(s.as_str()) {
        Ok(b) => {
            let eq = bytes_eq(&b, e);
            if !eq {
                assert(s@ != base64_text(e@));
            }
            if eq {
                Ok(())
            } else {
                Err(CheckError::Mismatch)
            }
        },
        Err(_) => {
            assert(!base64_decodable(s@));
            Err(CheckError::Malformed(Malformation::Base64))
        },
    }
}

fn bytes_eq(a: &Vec<u8>, b: &Vec<u8>) -> (r: bool)
    ensures
        r == (a@ == b@),
{
    if a.len() != b.len() {
        return false;
    }
    let mut i: usize = 0;
    while i < a.len()
        invariant
            a@.len() == b@.len(),
            i <= a@.len(),
            forall|j: int| 0 <= j < i ==> a@[j] == b@[j],
        decreases a@.len() - i,
    {
        if a[i] != b[i] {
            return false;
        }
        i = i + 1;
    }
    assert(a@ =~= b@);
    true
}

/// Compares an instant with a text that should hold it.
fn instant_check(e: &Timestamp, s: &String) -> (r: Result<(), CheckError>)
    ensures
        r == match utc_instant(s@) {
            None => Err(CheckError::Malformed(Malformation::Timestamp)),
            Some(p) => verdict(p == (e.secs as int, e.nanos as int)),
        },
        e.wf() && s@ == instant_text(*e) ==> r is Ok,
{
    match parse_utc(s.as_str()) {
        Ok(p) => if p.0 == e.secs && p.1 == e.nanos {
            Ok(())
        } else {
            Err(CheckError::Mismatch)
        },
        Err(_) => Err(CheckError::Malformed(Malformation::Timestamp)),
    }
}

fn item_readable_exec(v: &TelemetryValue, w: &WireValue) -> (r: bool)
    ensures
        r == item_readable(*v, *w),
{
    match v {
        TelemetryValue::DoubleArray(_) => w.is_number(),
        TelemetryValue::IntegerArray(_) => match w.as_i64() {
            Some(n) => i32::MIN as i64 <= n && n <= i32::MAX as i64,
            None => false,
        },
        TelemetryValue::BooleanArray(_) => match w {
            WireValue::Bool(_) => true,
            _ => false,
        },
        TelemetryValue::LongIntegerArray(_) => w.as_i64().is_some(),
        _ => text_of(w).is_some(),
    }
}

fn item_undecodable_exec(v: &TelemetryValue, w: &WireValue) -> (r: bool)
    requires
        item_readable(*v, *w),
    ensures
        r == item_undecodable(*v, w->String_0@),
        forall|k: int|
            0 <= k < array_len(*v) && v.wf() && #[trigger] encodes_item(*v, k, *w) ==> !r,
{
    match v {
        TelemetryValue::BinaryBlobArray(_) => match w {
            WireValue::String(s) => match base64_decode(s.as_str()) {
                Ok(_) => false,
                Err(_) => true,
            },
            _ => false,
        },
        TelemetryValue::DateTimeArray(e) => match w {
            WireValue::String(s) => {
                let r = parse_utc(s.as_str()).is_err();
                assert forall|k: int|
                    0 <= k < array_len(*v) && v.wf() && #[trigger] encodes_item(*v, k, *w) implies !r by {
                    assert(e@[k].wf());
                    assert(instant_valid(e@[k].secs as int, e@[k].nanos as int));
                }
                r
            },
            _ => false,
        },
        _ => false,
    }
}

fn item_matches_exec(v: &TelemetryValue, i: usize, w: &WireValue) -> (r: bool)
    requires
        0 <= i < array_len(*v),
    ensures
        r == item_matches(*v, i as int, *w),
        v.wf() && encodes_item(*v, i as int, *w) ==> r,
{
    match v {
        TelemetryValue::DoubleArray(e) => double_matches_exec(e[i], w),
        TelemetryValue::IntegerArray(e) => i64_equals(w, e[i] as i64),
        TelemetryValue::BooleanArray(e) => match w {
            WireValue::Bool(x) => *x == e[i],
            _ => false,
        },
        TelemetryValue::LongIntegerArray(e) => i64_equals(w, e[i]),
        TelemetryValue::StringArray(e) => match w {
            WireValue::String(s) => *s == e[i],
            _ => false,
        },
        TelemetryValue::BinaryBlobArray(e) => match w {
            WireValue::String(s) => match blob_check(&e[i], s) {
                Ok(()) => true,
                Err(_) => false,
            },
            _ => false,
        },
        TelemetryValue::DateTimeArray(e) => match w {
            WireValue::String(s) => match instant_check(&e[i], s) {
                Ok(()) => true,
                Err(_) => false,
            },
            _ => false,
        },
        _ => false,
    }
}

fn array_check(v: &TelemetryValue, w: &WireValue) -> (r: Result<(), CheckError>)
    ensures
        r == array_outcome(*v, *w),
        v.wf() && encodes(*v, *w) && !(v is Double || v is Integer || v is Boolean
            || v is LongInteger || v is String || v is BinaryBlob || v is DateTime) ==> r is Ok,
{
    let items = match w {
        WireValue::Array(items) => items,
        _ => {
            return Err(CheckError::Malformed(Malformation::Shape));
        },
    };
    let ghost round_trip = v.wf() && encodes(*v, *w) && !(v is Double || v is Integer
        || v is Boolean || v is LongInteger || v is String || v is BinaryBlob || v is DateTime);
    let mut i: usize = 0;
    while i < items.len()
        invariant
            round_trip == (v.wf() && encodes(*v, *w) && !(v is Double || v is Integer
                || v is Boolean || v is LongInteger || v is String || v is BinaryBlob
                || v is DateTime)),
            *w == WireValue::Array(*items),
            i <= items@.len(),
            forall|j: int| 0 <= j < i ==> item_readable(*v, #[trigger] items@[j]),
        decreases items@.len() - i,
    {
        if !item_readable_exec(v, &items[i]) {
            proof {
                if round_trip {
                    assert(encodes_item(*v, i as int, items@[i as int]));
                }
            }
            return Err(CheckError::Malformed(Malformation::Shape));
        }
        i = i + 1;
    }
    let mut i: usize = 0;
    while i < items.len()
        invariant
            round_trip == (v.wf() && encodes(*v, *w) && !(v is Double || v is Integer
                || v is Boolean || v is LongInteger || v is String || v is BinaryBlob
                || v is DateTime)),
            *w == WireValue::Array(*items),
            i <= items@.len(),
            forall|j: int| 0 <= j < items@.len() ==> item_readable(*v, #[trigger] items@[j]),
            forall|j: int| 0 <= j < i ==> !item_undecodable(*v, (#[trigger] items@[j])->String_0@),
        decreases items@.len() - i,
    {
        if item_undecodable_exec(v, &items[i]) {
            proof {
                if round_trip {
                    assert(encodes_item(*v, i as int, items@[i as int]));
                }
            }
            return Err(CheckError::Malformed(decode_failure_of(v)));
        }
        i = i + 1;
    }
    let n = length_of(v);
    if items.len() != n {
        return Err(CheckError::Mismatch);
    }
    let mut i: usize = 0;
    while i < n
        invariant
            round_trip == (v.wf() && encodes(*v, *w) && !(v is Double || v is Integer
                || v is Boolean || v is LongInteger || v is String || v is BinaryBlob
                || v is DateTime)),
            *w == WireValue::Array(*items),
            n == items@.len() == array_len(*v),
            forall|j: int| 0 <= j < items@.len() ==> item_readable(*v, #[trigger] items@[j]),
            forall|j: int|
                0 <= j < items@.len() ==> !item_undecodable(*v, (#[trigger] items@[j])->String_0@),
            i <= n,
            forall|j: int| 0 <= j < i ==> item_matches(*v, j, #[trigger] items@[j]),
        decreases n - i,
    {
        if !item_matches_exec(v, i, &items[i]) {
            proof {
                if round_trip {
                    assert(encodes_item(*v, i as int, items@[i as int]));
                }
            }
            return Err(CheckError::Mismatch);
        }
        i = i + 1;
    }
    Ok(())
}

fn decode_failure_of(v: &TelemetryValue) -> (m: Malformation)
    ensures
        m == decode_failure(*v),
{
    match v {
        TelemetryValue::BinaryBlobArray(_) => Malformation::Base64,
        _ => Malformation::Timestamp,
    }
}

/// Compares a value with the wire form the platform handed back. Holds
/// the round trip: the wire form of a value compares equal to it.
pub fn check_value(v: &TelemetryValue, w: &WireValue) -> (r: Result<(), CheckError>)
    ensures
        r == check_spec(*v, *w),
        v.wf() && encodes(*v, *w) ==> r is Ok,
{
    match v {
        TelemetryValue::Double(e) => if double_matches_exec(*e, w) {
            Ok(())
        } else {
            Err(CheckError::Mismatch)
        },
        TelemetryValue::Integer(e) => if i64_equals(w, *e as i64) {
            Ok(())
        } else {
            Err(CheckError::Mismatch)
        },
        TelemetryValue::Boolean(e) => match w {
            WireValue::Bool(x) if *x == *e => Ok(()),
            _ => Err(CheckError::Mismatch),
        },
        TelemetryValue::LongInteger(e) => if i64_equals(w, *e) {
            Ok(())
        } else {
            Err(CheckError::Mismatch)
        },
        TelemetryValue::String(e) => match w {
            WireValue::String(s) if *s == *e => Ok(()),
            _ => Err(CheckError::Mismatch),
        },
        TelemetryValue::BinaryBlob(e) => match w {
            WireValue::String(s) => blob_check(e, s),
            _ => Err(CheckError::Mismatch),
        },
        TelemetryValue::DateTime(e) => match w {
            WireValue::String(s) => instant_check(e, s),
            _ => Err(CheckError::Mismatch),
        },
        _ => array_check(v, w),
    }
}

/// Element `i` of an array value, as a scalar value.
pub open spec fn element_of(v: TelemetryValue, i: int) -> TelemetryValue {
    match v {
        TelemetryValue::DoubleArray(e) => TelemetryValue::Double(e@[i]),
        TelemetryValue::IntegerArray(e) => TelemetryValue::Integer(e@[i]),
        TelemetryValue::BooleanArray(e) => TelemetryValue::Boolean(e@[i]),
        TelemetryValue::LongIntegerArray(e) => TelemetryValue::LongInteger(e@[i]),
        TelemetryValue::StringArray(e) => TelemetryValue::String(e@[i]),
        TelemetryValue::BinaryBlobArray(e) => TelemetryValue::BinaryBlob(e@[i]),
        TelemetryValue::DateTimeArray(e) => TelemetryValue::DateTime(e@[i]),
        _ => v,
    }
}

pub open spec fn is_array_kind(k: ValueKind) -> bool {
    !(k == ValueKind::Double || k == ValueKind::Integer || k == ValueKind::Boolean || k
        == ValueKind::LongInteger || k == ValueKind::String || k == ValueKind::BinaryBlob || k
        == ValueKind::DateTime)
}

/// The type of the elements of an array type.
pub open spec fn element_kind(k: ValueKind) -> ValueKind {
    match k {
        ValueKind::DoubleArray => ValueKind::Double,
        ValueKind::IntegerArray => ValueKind::Integer,
        ValueKind::BooleanArray => ValueKind::Boolean,
        ValueKind::LongIntegerArray => ValueKind::LongInteger,
        ValueKind::StringArray => ValueKind::String,
        ValueKind::BinaryBlobArray => ValueKind::BinaryBlob,
        ValueKind::DateTimeArray => ValueKind::DateTime,
        _ => k,
    }
}

/// The scalar `v` is what the wire value `w` reads as.
pub open spec fn decodes_scalar(w: WireValue, v: TelemetryValue) -> bool {
    match v {
        TelemetryValue::Double(b) => w == WireValue::Float(b) && is_finite(b),
        TelemetryValue::Integer(n) => i64_of(w) == Some(n as int),
        TelemetryValue::Boolean(x) => w == WireValue::Bool(x),
        TelemetryValue::LongInteger(n) => i64_of(w) == Some(n as int),
        TelemetryValue::String(s) => text_wire(w, s@),
        TelemetryValue::BinaryBlob(b) => text_wire(w, base64_text(b@)),
        TelemetryValue::DateTime(t) => t.wf() && w is String && utc_instant(w->String_0@) == Some(
            (t.secs as int, t.nanos as int),
        ),
        _ => false,
    }
}

/// The value `v` is what the wire value `w` reads as: a scalar directly, an
/// array element by element.
pub open spec fn decodes(w: WireValue, v: TelemetryValue) -> bool {
    if is_array_kind(v.kind_spec()) {
        &&& w is Array
        &&& w->Array_0@.len() == array_len(v)
        &&& forall|i: int|
            0 <= i < array_len(v) ==> decodes_scalar(#[trigger] w->Array_0@[i], element_of(v, i))
    } else {
        decodes_scalar(w, v)
    }
}

/// Some value of type `k` reads as `w`.
pub open spec fn decodable(k: ValueKind, w: WireValue) -> bool {
    exists|v: TelemetryValue| v.kind_spec() == k && decodes(w, v)
}

/// `v` is a well-formed value of type `k` whose wire form is `w`.
pub open spec fn encoded_of_kind(k: ValueKind, w: WireValue, v: TelemetryValue) -> bool {
    v.kind_spec() == k && v.wf() && encodes(v, w)
}

fn decode_scalar(kind: ValueKind, w: &WireValue) -> (r: Option<TelemetryValue>)
    requires
        !is_array_kind(kind),
    ensures
        r is Some <==> decodable(kind, *w),
        r is Some ==> r->Some_0.kind_spec() == kind && decodes(*w, r->Some_0),
        forall|u: TelemetryValue|
            #[trigger] encoded_of_kind(kind, *w, u) ==> r is Some && same_value(r->Some_0, u),
{
    match kind {
        ValueKind::Double => match w {
            WireValue::Float(b) => if finite_bits(*b) {
                Some(TelemetryValue::Double(*b))
            } else {
                None
            },
            _ => None,
        },
        ValueKind::Integer => match w.as_i64() {
            Some(n) => if i32::MIN as i64 <= n && n <= i32::MAX as i64 {
                Some(TelemetryValue::Integer(n as i32))
            } else {
                None
            },
            None => None,
        },
        ValueKind::Boolean => match w {
            WireValue::Bool(x) => Some(TelemetryValue::Boolean(*x)),
            _ => None,
        },
        ValueKind::LongInteger => match w.as_i64() {
            Some(n) => Some(TelemetryValue::LongInteger(n)),
            None => None,
        },
        ValueKind::String => match w {
            WireValue::String(s) => Some(TelemetryValue::String(s.clone())),
            _ => None,
        },
        ValueKind::BinaryBlob => match w {
            WireValue::String(s) => match base64_decode(s.as_str()) {
                Ok(b) => Some(TelemetryValue::BinaryBlob(b)),
                Err(_) => None,
            },
            _ => None,
        },
        _ => match w {
            WireValue::String(s) => match parse_utc(s.as_str()) {
                Ok(p) => match Timestamp::from_parts(p.0, p.1) {
                    Some(t) => Some(TelemetryValue::DateTime(t)),
                    None => None,
                },
                Err(_) => None,
            },
            _ => None,
        },
    }
}

fn empty_array(kind: ValueKind) -> (r: TelemetryValue)
    requires
        is_array_kind(kind),
    ensures
        r.kind_spec() == kind,
        array_len(r) == 0,
{
    match kind {
        ValueKind::DoubleArray => TelemetryValue::DoubleArray(Vec::new()),
        ValueKind::IntegerArray => TelemetryValue::IntegerArray(Vec::new()),
        ValueKind::BooleanArray => TelemetryValue::BooleanArray(Vec::new()),
        ValueKind::LongIntegerArray => TelemetryValue::LongIntegerArray(Vec::new()),
        ValueKind::StringArray => TelemetryValue::StringArray(Vec::new()),
        ValueKind::BinaryBlobArray => TelemetryValue::BinaryBlobArray(Vec::new()),
        _ => TelemetryValue::DateTimeArray(Vec::new()),
    }
}

fn element_kind_of(kind: ValueKind) -> (r: ValueKind)
    ensures
        r == element_kind(kind),
{
    match kind {
        ValueKind::DoubleArray => ValueKind::Double,
        ValueKind::IntegerArray => ValueKind::Integer,
        ValueKind::BooleanArray => ValueKind::Boolean,
        ValueKind::LongIntegerArray => ValueKind::LongInteger,
        ValueKind::StringArray => ValueKind::String,
        ValueKind::BinaryBlobArray => ValueKind::BinaryBlob,
        ValueKind::DateTimeArray => ValueKind::DateTime,
        _ => kind,
    }
}

fn is_array_kind_exec(kind: ValueKind) -> (r: bool)
    ensures
        r == is_array_kind(kind),
{
    match kind {
        ValueKind::Double | ValueKind::Integer | ValueKind::Boolean | ValueKind::LongInteger
        | ValueKind::String | ValueKind::BinaryBlob | ValueKind::DateTime => false,
        _ => true,
    }
}

/// Appends a scalar to an array value of the matching type.
fn push_element(acc: TelemetryValue, elem: TelemetryValue) -> (r: TelemetryValue)
    requires
        is_array_kind(acc.kind_spec()),
        elem.kind_spec() == element_kind(acc.kind_spec()),
    ensures
        r.kind_spec() == acc.kind_spec(),
        array_len(r) == array_len(acc) + 1,
        forall|j: int| 0 <= j < array_len(acc) ==> #[trigger] element_of(r, j) == element_of(acc, j),
        element_of(r, array_len(acc)) == elem,
{
    match (acc, elem) {
        (TelemetryValue::DoubleArray(mut v), TelemetryValue::Double(x)) => {
            v.push(x);
            TelemetryValue::DoubleArray(v)
        },
        (TelemetryValue::IntegerArray(mut v), TelemetryValue::Integer(x)) => {
            v.push(x);
            TelemetryValue::IntegerArray(v)
        },
        (TelemetryValue::BooleanArray(mut v), TelemetryValue::Boolean(x)) => {
            v.push(x);
            TelemetryValue::BooleanArray(v)
        },
        (TelemetryValue::LongIntegerArray(mut v), TelemetryValue::LongInteger(x)) => {
            v.push(x);
            TelemetryValue::LongIntegerArray(v)
        },
        (TelemetryValue::StringArray(mut v), TelemetryValue::String(x)) => {
            v.push(x);
            TelemetryValue::StringArray(v)
        },
        (TelemetryValue::BinaryBlobArray(mut v), TelemetryValue::BinaryBlob(x)) => {
            v.push(x);
            TelemetryValue::BinaryBlobArray(v)
        },
        (TelemetryValue::DateTimeArray(mut v), TelemetryValue::DateTime(x)) => {
            v.push(x);
            TelemetryValue::DateTimeArray(v)
        },
        (acc, _) => acc,
    }
}

proof fn lemma_same_elements(a: TelemetryValue, b: TelemetryValue)
    requires
        is_array_kind(a.kind_spec()),
        a.kind_spec() == b.kind_spec(),
        array_len(a) == array_len(b),
        forall|j: int| 0 <= j < array_len(a) ==> same_value(#[trigger] element_of(a, j), element_of(b, j)),
    ensures
        same_value(a, b),
{
    match (a, b) {
        (TelemetryValue::DoubleArray(x), TelemetryValue::DoubleArray(y)) => {
            assert forall|j: int| 0 <= j < x@.len() implies x@[j] == y@[j] by {
                assert(same_value(element_of(a, j), element_of(b, j)));
            }
            assert(x@ =~= y@);
        },
        (TelemetryValue::IntegerArray(x), TelemetryValue::IntegerArray(y)) => {
            assert forall|j: int| 0 <= j < x@.len() implies x@[j] == y@[j] by {
                assert(same_value(element_of(a, j), element_of(b, j)));
            }
            assert(x@ =~= y@);
        },
        (TelemetryValue::BooleanArray(x), TelemetryValue::BooleanArray(y)) => {
            assert forall|j: int| 0 <= j < x@.len() implies x@[j] == y@[j] by {
                assert(same_value(element_of(a, j), element_of(b, j)));
            }
            assert(x@ =~= y@);
        },
        (TelemetryValue::LongIntegerArray(x), TelemetryValue::LongIntegerArray(y)) => {
            assert forall|j: int| 0 <= j < x@.len() implies x@[j] == y@[j] by {
                assert(same_value(element_of(a, j), element_of(b, j)));
            }
            assert(x@ =~= y@);
        },
        (TelemetryValue::StringArray(x), TelemetryValue::StringArray(y)) => {
            assert forall|j: int| 0 <= j < x@.len() implies (#[trigger] x@[j])@ == y@[j]@ by {
                assert(same_value(element_of(a, j), element_of(b, j)));
            }
        },
        (TelemetryValue::BinaryBlobArray(x), TelemetryValue::BinaryBlobArray(y)) => {
            assert forall|j: int| 0 <= j < x@.len() implies (#[trigger] x@[j])@ == y@[j]@ by {
                assert(same_value(element_of(a, j), element_of(b, j)));
            }
        },
        (TelemetryValue::DateTimeArray(x), TelemetryValue::DateTimeArray(y)) => {
            assert forall|j: int| 0 <= j < x@.len() implies x@[j] == y@[j] by {
                assert(same_value(element_of(a, j), element_of(b, j)));
            }
            assert(x@ =~= y@);
        },
        _ => {},
    }
}

/// Reads a wire value as a value of type `kind`. Holds the round trip: the
/// wire form of a value reads back as that value.
pub fn decode(kind: ValueKind, w: &WireValue) -> (r: Option<TelemetryValue>)
    ensures
        r is Some <==> decodable(kind, *w),
        r is Some ==> r->Some_0.kind_spec() == kind && decodes(*w, r->Some_0),
        forall|u: TelemetryValue|
            #[trigger] encoded_of_kind(kind, *w, u) ==> r is Some && same_value(r->Some_0, u),
{
    if !is_array_kind_exec(kind) {
        return decode_scalar(kind, w);
    }
    let items = match w {
        WireValue::Array(items) => items,
        _ => {
            assert forall|u: TelemetryValue| #[trigger] encoded_of_kind(kind, *w, u) implies false by {
                assert(encodes(u, *w));
            }
            return None;
        },
    };
    let ek = element_kind_of(kind);
    let mut acc = empty_array(kind);
    let mut i: usize = 0;
    while i < items.len()
        invariant
            *w == WireValue::Array(*items),
            is_array_kind(kind),
            ek == element_kind(kind),
            acc.kind_spec() == kind,
            i <= items@.len(),
            array_len(acc) == i,
            forall|j: int| 0 <= j < i ==> decodes_scalar(#[trigger] items@[j], element_of(acc, j)),
            forall|u: TelemetryValue|
                #[trigger] encoded_of_kind(kind, *w, u) ==> forall|j: int|
                    0 <= j < i ==> same_value(#[trigger] element_of(acc, j), element_of(u, j)),
        decreases items@.len() - i,
    {
        let e = match decode_scalar(ek, &items[i]) {
            Some(e) => e,
            None => {
                proof {
                    if decodable(kind, *w) {
                        let v = choose|v: TelemetryValue| v.kind_spec() == kind && decodes(*w, v);
                        assert(decodes_scalar(items@[i as int], element_of(v, i as int)));
                        assert(element_of(v, i as int).kind_spec() == ek);
                        assert(decodable(ek, items@[i as int]));
                    }
                    assert forall|u: TelemetryValue| #[trigger]
                        encoded_of_kind(kind, *w, u) implies false by {
                        assert(encodes_item(u, i as int, items@[i as int]));
                        assert(encoded_of_kind(ek, items@[i as int], element_of(u, i as int)));
                    }
                }
                return None;
            },
        };
        proof {
            assert forall|u: TelemetryValue| #[trigger] encoded_of_kind(kind, *w, u) implies same_value(
                e,
                element_of(u, i as int),
            ) by {
                assert(encodes_item(u, i as int, items@[i as int]));
                assert(encoded_of_kind(ek, items@[i as int], element_of(u, i as int)));
            }
        }
        acc = push_element(acc, e);
        i = i + 1;
    }
    proof {
        assert(decodes(*w, acc));
        assert forall|u: TelemetryValue| #[trigger] encoded_of_kind(kind, *w, u) implies same_value(acc, u) by {
            lemma_same_elements(acc, u);
        }
    }
    Some(acc)
}

} // verus!
