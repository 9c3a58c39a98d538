//! The loosely typed wire form of a value: a JSON document.
use vstd::prelude::*;

verus! {

/// A JSON value. Numbers keep the three forms a JSON reader tells apart:
/// a non-negative integer, a negative integer and a double (by its bits).
#[derive(Debug)]
pub enum WireValue {
    Null,
    Bool(bool),
    PosInt(u64),
    NegInt(i64),
    Float(u64),
    String(String),
    Array(Vec<WireValue>),
    Object(Vec<(String, WireValue)>),
}

/// The wire form of the integer `n`.
pub open spec fn int_wire(w: WireValue, n: int) -> bool {
    if n >= 0 {
        w is PosInt && w->PosInt_0 == n
    } else {
        w is NegInt && w->NegInt_0 == n
    }
}

/// What a JSON reader gives for the value as a 64-bit signed integer.
pub open spec fn i64_of(w: WireValue) -> Option<int> {
    match w {
        WireValue::PosInt(u) => if u <= i64::MAX {
            Some(u as int)
        } else {
            None
        },
        WireValue::NegInt(i) => Some(i as int),
        _ => None,
    }
}

impl WireValue {
    /// The wire form of a signed integer.
    pub fn from_i64(n: i64) -> (r: WireValue)
        ensures
            int_wire(r, n as int),
    {
        if n >= 0 {
            WireValue::PosInt(n as u64)
        } else {
            WireValue::NegInt(n)
        }
    }

    /// The value as a 64-bit signed integer, if it is one.
    pub fn as_i64(&self) -> (r: Option<i64>)
        ensures
            i64_of(*self) == match r {
                Some(n) => Some(n as int),
                None => None::<int>,
            },
    {
        match self {
            WireValue::PosInt(u) => if *u <= i64::MAX as u64 {
                Some(*u as i64)
            } else {
                None
            },
            WireValue::NegInt(i) => Some(*i),
            _ => None,
        }
    }

    /// Whether the value is a number.
    pub fn is_number(&self) -> (r: bool)
        ensures
            r == (self is PosInt || self is NegInt || self is Float),
    {
        match self {
            WireValue::PosInt(_) | WireValue::NegInt(_) | WireValue::Float(_) => true,
            _ => false,
        }
    }
}

} // verus!
