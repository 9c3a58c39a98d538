//! Typed telemetry values, as a device sends them.
use crate::double::{finite_bits, is_finite};
use crate::timestamp::Timestamp;
use vstd::prelude::*;

verus! {

/// A telemetry value: a scalar or an array of one scalar type. A double is
/// held as its IEEE-754 bit pattern.
#[derive(Clone, Debug)]
pub enum TelemetryValue {
    Double(u64),
    Integer(i32),
    Boolean(bool),
    LongInteger(i64),
    String(String),
    BinaryBlob(Vec<u8>),
    DateTime(Timestamp),
    DoubleArray(Vec<u64>),
    IntegerArray(Vec<i32>),
    BooleanArray(Vec<bool>),
    LongIntegerArray(Vec<i64>),
    StringArray(Vec<String>),
    BinaryBlobArray(Vec<Vec<u8>>),
    DateTimeArray(Vec<Timestamp>),
}

/// The type of a telemetry value.
#[derive(Clone, Copy, Debug, PartialEq, Eq, Structural)]
pub enum ValueKind {
    Double,
    Integer,
    Boolean,
    LongInteger,
    String,
    BinaryBlob,
    DateTime,
    DoubleArray,
    IntegerArray,
    BooleanArray,
    LongIntegerArray,
    StringArray,
    BinaryBlobArray,
    DateTimeArray,
}

/// The two values are equal: the same type, and the same contents.
pub open spec fn same_value(a: TelemetryValue, b: TelemetryValue) -> bool {
    match (a, b) {
        (TelemetryValue::Double(x), TelemetryValue::Double(y)) => x == y,
        (TelemetryValue::Integer(x), TelemetryValue::Integer(y)) => x == y,
        (TelemetryValue::Boolean(x), TelemetryValue::Boolean(y)) => x == y,
        (TelemetryValue::LongInteger(x), TelemetryValue::LongInteger(y)) => x == y,
        (TelemetryValue::String(x), TelemetryValue::String(y)) => x@ == y@,
        (TelemetryValue::BinaryBlob(x), TelemetryValue::BinaryBlob(y)) => x@ == y@,
        (TelemetryValue::DateTime(x), TelemetryValue::DateTime(y)) => x == y,
        (TelemetryValue::DoubleArray(x), TelemetryValue::DoubleArray(y)) => x@ == y@,
        (TelemetryValue::IntegerArray(x), TelemetryValue::IntegerArray(y)) => x@ == y@,
        (TelemetryValue::BooleanArray(x), TelemetryValue::BooleanArray(y)) => x@ == y@,
        (TelemetryValue::LongIntegerArray(x), TelemetryValue::LongIntegerArray(y)) => x@ == y@,
        (TelemetryValue::StringArray(x), TelemetryValue::StringArray(y)) => x@.len() == y@.len()
            && forall|i: int| 0 <= i < x@.len() ==> (#[trigger] x@[i])@ == y@[i]@,
        (TelemetryValue::BinaryBlobArray(x), TelemetryValue::BinaryBlobArray(y)) => x@.len()
            == y@.len() && forall|i: int| 0 <= i < x@.len() ==> (#[trigger] x@[i])@ == y@[i]@,
        (TelemetryValue::DateTimeArray(x), TelemetryValue::DateTimeArray(y)) => x@ == y@,
        _ => false,
    }
}

impl TelemetryValue {
    pub open spec fn kind_spec(self) -> ValueKind {
        match self {
            TelemetryValue::Double(_) => ValueKind::Double,
            TelemetryValue::Integer(_) => ValueKind::Integer,
            TelemetryValue::Boolean(_) => ValueKind::Boolean,
            TelemetryValue::LongInteger(_) => ValueKind::LongInteger,
            TelemetryValue::String(_) => ValueKind::String,
            TelemetryValue::BinaryBlob(_) => ValueKind::BinaryBlob,
            TelemetryValue::DateTime(_) => ValueKind::DateTime,
            TelemetryValue::DoubleArray(_) => ValueKind::DoubleArray,
            TelemetryValue::IntegerArray(_) => ValueKind::IntegerArray,
            TelemetryValue::BooleanArray(_) => ValueKind::BooleanArray,
            TelemetryValue::LongIntegerArray(_) => ValueKind::LongIntegerArray,
            TelemetryValue::StringArray(_) => ValueKind::StringArray,
            TelemetryValue::BinaryBlobArray(_) => ValueKind::BinaryBlobArray,
            TelemetryValue::DateTimeArray(_) => ValueKind::DateTimeArray,
        }
    }

    /// The type of the value.
    pub fn kind(&self) -> (r: ValueKind)
        ensures
            r == self.kind_spec(),
    {
        match self {
            TelemetryValue::Double(_) => ValueKind::Double,
            TelemetryValue::Integer(_) => ValueKind::Integer,
            TelemetryValue::Boolean(_) => ValueKind::Boolean,
            TelemetryValue::LongInteger(_) => ValueKind::LongInteger,
            TelemetryValue::String(_) => ValueKind::String,
            TelemetryValue::BinaryBlob(_) => ValueKind::BinaryBlob,
            TelemetryValue::DateTime(_) => ValueKind::DateTime,
            TelemetryValue::DoubleArray(_) => ValueKind::DoubleArray,
            TelemetryValue::IntegerArray(_) => ValueKind::IntegerArray,
            TelemetryValue::BooleanArray(_) => ValueKind::BooleanArray,
            TelemetryValue::LongIntegerArray(_) => ValueKind::LongIntegerArray,
            TelemetryValue::StringArray(_) => ValueKind::StringArray,
            TelemetryValue::BinaryBlobArray(_) => ValueKind::BinaryBlobArray,
            TelemetryValue::DateTimeArray(_) => ValueKind::DateTimeArray,
        }
    }

    /// Doubles are finite and instants lie in the supported range.
    pub open spec fn wf(self) -> bool {
        match self {
            TelemetryValue::Double(b) => is_finite(b),
            TelemetryValue::DateTime(t) => t.wf(),
            TelemetryValue::DoubleArray(v) => forall|i: int|
                0 <= i < v@.len() ==> is_finite(#[trigger] v@[i]),
            TelemetryValue::DateTimeArray(v) => forall|i: int|
                0 <= i < v@.len() ==> (#[trigger] v@[i]).wf(),
            _ => true,
        }
    }

    /// Whether the value is well formed: the check to make before encoding
    /// a value that did not come from a fixture.
    pub fn is_well_formed(&self) -> (r: bool)
        ensures
            r == self.wf(),
    {
        match self {
            TelemetryValue::Double(b) => finite_bits(*b),
            TelemetryValue::DateTime(t) => t.is_valid(),
            TelemetryValue::DoubleArray(v) => {
                let mut i: usize = 0;
                while i < v.len()
                    invariant
                        *self == TelemetryValue::DoubleArray(*v),
                        i <= v@.len(),
                        forall|j: int| 0 <= j < i ==> is_finite(#[trigger] v@[j]),
                    decreases v@.len() - i,
                {
                    if !finite_bits(v[i]) {
                        assert(self->DoubleArray_0@ == v@);
                        assert(!is_finite(self->DoubleArray_0@[i as int]));
                        assert(!self.wf());
                        return false;
                    }
                    i = i + 1;
                }
                true
            },
            TelemetryValue::DateTimeArray(v) => {
                let mut i: usize = 0;
                while i < v.len()
                    invariant
                        *self == TelemetryValue::DateTimeArray(*v),
                        i <= v@.len(),
                        forall|j: int| 0 <= j < i ==> (#[trigger] v@[j]).wf(),
                    decreases v@.len() - i,
                {
                    if !v[i].is_valid() {
                        assert(self->DateTimeArray_0@ == v@);
                        assert(!self->DateTimeArray_0@[i as int].wf());
                        assert(!self.wf());
                        return false;
                    }
                    i = i + 1;
                }
                true
            },
            _ => true,
        }
    }
}

} // verus!
