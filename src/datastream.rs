//! Individual datastream checks: the fixtures that each check sends, and
//! the validation of each value against the event that the platform pushes.
use crate::codec::{check_spec, check_value, CheckError};
use crate::event::IncomingData;
use crate::interfaces::{fixture_wf, is_all_type_data, type_data, InterfaceData};
use crate::telemetry::TelemetryValue;
use crate::text::text_eq;
use vstd::prelude::*;
use vstd::string::StringExecFns;

verus! {

/// Two to the 55th: beyond the integers that a double holds exactly.
pub const BEYOND_DOUBLE_PRECISION: i64 = 36028797018963968;

/// Every type of value on the device datastream interface.
#[derive(Clone, Copy, Debug, PartialEq, Eq, Structural)]
pub struct DeviceDatastream {}

/// Long integers beyond the precision of a double on the device datastream
/// interface.
#[derive(Clone, Copy, Debug, PartialEq, Eq, Structural)]
pub struct DeviceDatastreamOverflow {}

/// Values on the interface with custom reliability and retention.
#[derive(Clone, Copy, Debug, PartialEq, Eq, Structural)]
pub struct CustomDeviceDatastream {}

impl InterfaceData for DeviceDatastream {
    open spec fn interface_spec() -> Seq<char> {
        "org.astarte-platform.e2e.DeviceDatastream"@
    }

    open spec fn data_spec(es: Seq<(String, TelemetryValue)>) -> bool {
        is_all_type_data(es, "/"@)
    }

    fn interface() -> (r: String) {
        String::from_str("org.astarte-platform.e2e.DeviceDatastream")
    }

    fn data() -> (r: Vec<(String, TelemetryValue)>) {
        type_data("/")
    }
}

impl InterfaceData for DeviceDatastreamOverflow {
    open spec fn interface_spec() -> Seq<char> {
        "org.astarte-platform.e2e.DeviceDatastream"@
    }

    open spec fn data_spec(es: Seq<(String, TelemetryValue)>) -> bool {
        &&& es.len() == 2
        &&& es[0].0@ == "/longinteger_endpoint"@
        &&& es[0].1 == TelemetryValue::LongInteger(BEYOND_DOUBLE_PRECISION)
        &&& es[1].0@ == "/longintegerarray_endpoint"@
        &&& es[1].1 is LongIntegerArray && es[1].1->LongIntegerArray_0@ == seq![
            BEYOND_DOUBLE_PRECISION,
            BEYOND_DOUBLE_PRECISION,
            BEYOND_DOUBLE_PRECISION,
            BEYOND_DOUBLE_PRECISION,
        ]
    }

    fn interface() -> (r: String) {
        String::from_str("org.astarte-platform.e2e.DeviceDatastream")
    }

    fn data() -> (r: Vec<(String, TelemetryValue)>) {
        let mut longs: Vec<i64> = Vec::new();
        longs.push(BEYOND_DOUBLE_PRECISION);
        longs.push(BEYOND_DOUBLE_PRECISION);
        longs.push(BEYOND_DOUBLE_PRECISION);
        longs.push(BEYOND_DOUBLE_PRECISION);
        assert(longs@ =~= seq![
            BEYOND_DOUBLE_PRECISION,
            BEYOND_DOUBLE_PRECISION,
            BEYOND_DOUBLE_PRECISION,
            BEYOND_DOUBLE_PRECISION,
        ]);
        let mut es: Vec<(String, TelemetryValue)> = Vec::new();
        es.push(
            (
                String::from_str("/longinteger_endpoint"),
                TelemetryValue::LongInteger(BEYOND_DOUBLE_PRECISION),
            ),
        );
        es.push(
            (
                String::from_str("/longintegerarray_endpoint"),
                TelemetryValue::LongIntegerArray(longs),
            ),
        );
        es
    }
}

impl InterfaceData for CustomDeviceDatastream {
    open spec fn interface_spec() -> Seq<char> {
        "org.astarte-platform.e2e.CustomDeviceDatastream"@
    }

    open spec fn data_spec(es: Seq<(String, TelemetryValue)>) -> bool {
        &&& es.len() == 6
        &&& es[0].0@ == "/volatileUnreliable"@
        &&& es[0].1 == TelemetryValue::LongInteger(42)
        &&& es[1].0@ == "/volatileGuaranteed"@
        &&& es[1].1 == TelemetryValue::Boolean(false)
        &&& es[2].0@ == "/volatileUnique"@
        &&& es[2].1 == TelemetryValue::Double(0x404199999999999a)
        &&& es[3].0@ == "/storedUnreliable"@
        &&& es[3].1 == TelemetryValue::LongInteger(42)
        &&& es[4].0@ == "/storedGuaranteed"@
        &&& es[4].1 == TelemetryValue::Boolean(false)
        &&& es[5].0@ == "/storedUnique"@
        &&& es[5].1 == TelemetryValue::Double(0x404199999999999a)
    }

    fn interface() -> (r: String) {
        String::from_str("org.astarte-platform.e2e.CustomDeviceDatastream")
    }

    fn data() -> (r: Vec<(String, TelemetryValue)>) {
        let mut es: Vec<(String, TelemetryValue)> = Vec::new();
        es.push((String::from_str("/volatileUnreliable"), TelemetryValue::LongInteger(42)));
        es.push((String::from_str("/volatileGuaranteed"), TelemetryValue::Boolean(false)));
        es.push((String::from_str("/volatileUnique"), TelemetryValue::Double(0x404199999999999a)));
        es.push((String::from_str("/storedUnreliable"), TelemetryValue::LongInteger(42)));
        es.push((String::from_str("/storedGuaranteed"), TelemetryValue::Boolean(false)));
        es.push((String::from_str("/storedUnique"), TelemetryValue::Double(0x404199999999999a)));
        es
    }
}

/// Why a round of a validation failed.
#[derive(Clone, Copy, Debug, PartialEq, Eq, Structural)]
pub enum ValidationError {
    /// The event is for another interface.
    InterfaceMismatch,
    /// The event is for another path.
    PathMismatch,
    /// The value differs, or could not be read.
    Value(CheckError),
}

/// The outcome of one round: the event must name the interface and the
/// path exactly, and carry the value sent.
pub open spec fn round_outcome(
    interface: Seq<char>,
    path: Seq<char>,
    expected: TelemetryValue,
    data: IncomingData,
) -> Result<(), ValidationError> {
    if data.interface@ != interface {
        Err(ValidationError::InterfaceMismatch)
    } else if data.path@ != path {
        Err(ValidationError::PathMismatch)
    } else {
        match check_spec(expected, data.value) {
            Ok(()) => Ok(()),
            Err(e) => Err(ValidationError::Value(e)),
        }
    }
}

/// Checks the data event that followed sending `expected` on `path` of
/// `interface`.
pub fn check_incoming(
    interface: &str,
    path: &str,
    expected: &TelemetryValue,
    data: &IncomingData,
) -> (r: Result<(), ValidationError>)
    ensures
        r == round_outcome(interface@, path@, *expected, *data),
{
    if !text_eq(data.interface.as_str(), interface) {
        return Err(ValidationError::InterfaceMismatch);
    }
    if !text_eq(data.path.as_str(), path) {
        return Err(ValidationError::PathMismatch);
    }
    match check_value(expected, &data.value) {
        Ok(()) => Ok(()),
        Err(e) => Err(ValidationError::Value(e)),
    }
}

/// Where a validation stands.
#[derive(Clone, Copy, Debug, PartialEq, Eq, Structural)]
pub enum Phase {
    /// The current value is to be sent.
    Sending,
    /// The current value was sent; its event is awaited.
    AwaitingEvent,
    /// Every value was validated.
    Done,
    /// A round failed; the validation stops there.
    Failed,
}

/// A validation of the values of one interface, one round per value, in
/// order: send, await the data event, compare.
#[derive(Debug)]
pub struct Validation {
    interface: String,
    entries: Vec<(String, TelemetryValue)>,
    index: usize,
    phase: Phase,
}

impl Validation {
    pub closed spec fn interface_spec(&self) -> Seq<char> {
        self.interface@
    }

    pub closed spec fn entries_spec(&self) -> Seq<(String, TelemetryValue)> {
        self.entries@
    }

    /// The number of rounds that passed.
    pub closed spec fn index_spec(&self) -> int {
        self.index as int
    }

    pub closed spec fn phase_spec(&self) -> Phase {
        self.phase
    }

    /// The round lies within the fixture, a validation that did not fail is
    /// done exactly after the last one, and every value can be encoded.
    #[verifier::type_invariant]
    closed spec fn inv(&self) -> bool {
        &&& self.index <= self.entries@.len()
        &&& self.phase != Phase::Failed ==> ((self.phase == Phase::Done) == (self.index
            == self.entries@.len()))
        &&& fixture_wf(self.entries@)
    }

    pub closed spec fn wf(&self) -> bool {
        self.inv()
    }

    /// A validation of `entries` on `interface`, at its first round.
    pub fn new(interface: String, entries: Vec<(String, TelemetryValue)>) -> (r: Validation)
        requires
            fixture_wf(entries@),
        ensures
            r.wf(),
            r.interface_spec() == interface@,
            r.entries_spec() == entries@,
            r.index_spec() == 0,
            r.phase_spec() == if entries@.len() == 0 {
                Phase::Done
            } else {
                Phase::Sending
            },
    {
        let phase = if entries.len() == 0 {
            Phase::Done
        } else {
            Phase::Sending
        };
        Validation { interface, entries, index: 0, phase }
    }

    /// A validation of the fixture of `T`.
    pub fn of<T: InterfaceData>() -> (r: Validation)
        ensures
            r.wf(),
            r.interface_spec() == T::interface_spec(),
            T::data_spec(r.entries_spec()),
            r.index_spec() == 0,
    {
        Validation::new(T::interface(), T::data())
    }

    pub fn phase(&self) -> (r: Phase)
        ensures
            r == self.phase_spec(),
    {
        self.phase
    }

    pub fn interface(&self) -> (r: &str)
        ensures
            r@ == self.interface_spec(),
    {
        self.interface.as_str()
    }

    /// The path and the value of the current round, while one is to be sent
    /// or awaited.
    pub fn current(&self) -> (r: Option<(&str, &TelemetryValue)>)
        ensures
            r is Some <==> (self.phase_spec() == Phase::Sending || self.phase_spec()
                == Phase::AwaitingEvent),
            r is Some ==> r->Some_0.0@ == self.entries_spec()[self.index_spec()].0@ && *r->Some_0.1
                == self.entries_spec()[self.index_spec()].1,
            r is Some ==> r->Some_0.1.wf(),
    {
        proof {
            use_type_invariant(self);
        }
        match self.phase {
            Phase::Sending | Phase::AwaitingEvent => {
                let e = &self.entries[self.index];
                Some((e.0.as_str(), &e.1))
            },
            _ => None,
        }
    }

    /// Records that the current value was sent.
    pub fn sent(&mut self)
        requires
            old(self).phase_spec() == Phase::Sending,
        ensures
            final(self).phase_spec() == Phase::AwaitingEvent,
            final(self).index_spec() == old(self).index_spec(),
            final(self).entries_spec() == old(self).entries_spec(),
            final(self).interface_spec() == old(self).interface_spec(),
    {
        proof {
            use_type_invariant(&*self);
        }
        self.phase = Phase::AwaitingEvent;
    }

    /// Compares the data event with the current value. A pass moves to the
    /// next round, or ends the validation after the last; a failure ends it.
    pub fn on_event(&mut self, data: &IncomingData) -> (r: Result<(), ValidationError>)
        requires
            old(self).phase_spec() == Phase::AwaitingEvent,
        ensures
            final(self).entries_spec() == old(self).entries_spec(),
            final(self).interface_spec() == old(self).interface_spec(),
            r == round_outcome(
                old(self).interface_spec(),
                old(self).entries_spec()[old(self).index_spec()].0@,
                old(self).entries_spec()[old(self).index_spec()].1,
                *data,
            ),
            r is Ok ==> final(self).index_spec() == old(self).index_spec() + 1,
            r is Ok ==> final(self).phase_spec() == (if final(self).index_spec()
                == final(self).entries_spec().len() {
                Phase::Done
            } else {
                Phase::Sending
            }),
            r is Err ==> final(self).index_spec() == old(self).index_spec()
                && final(self).phase_spec() == Phase::Failed,
    {
        proof {
            use_type_invariant(&*self);
        }
        let i = self.index;
        let n = self.entries.len();
        assert(i < n);
        let r = check_incoming(self.interface.as_str(), self.entries[i].0.as_str(), &self.entries[i].1, data);
        match r {
            Ok(()) => {
                self.phase = Phase::Failed;
                self.index = i + 1;
                self.phase = if self.index == self.entries.len() {
                    Phase::Done
                } else {
                    Phase::Sending
                };
            },
            Err(_) => {
                self.phase = Phase::Failed;
            },
        }
        r
    }
}

/// The check that a run performs.
#[derive(Clone, Copy, Debug, PartialEq, Eq, Structural)]
pub enum Variant {
    /// Every type of value: `default`.
    DeviceDatastream,
    /// Custom reliability and retention: `custom`.
    CustomDeviceDatastream,
    /// Long integers beyond a double's precision: `overflow`.
    DeviceDatastreamOverflow,
}

impl Variant {
    /// The validation that the check runs.
    pub fn validation(&self) -> (r: Validation)
        ensures
            r.wf(),
            r.index_spec() == 0,
            *self == Variant::DeviceDatastream ==> r.interface_spec()
                == DeviceDatastream::interface_spec() && DeviceDatastream::data_spec(
                r.entries_spec(),
            ),
            *self == Variant::CustomDeviceDatastream ==> r.interface_spec()
                == CustomDeviceDatastream::interface_spec() && CustomDeviceDatastream::data_spec(
                r.entries_spec(),
            ),
            *self == Variant::DeviceDatastreamOverflow ==> r.interface_spec()
                == DeviceDatastreamOverflow::interface_spec() && DeviceDatastreamOverflow::data_spec(
                r.entries_spec(),
            ),
    {
        match self {
            Variant::DeviceDatastream => Validation::of::<DeviceDatastream>(),
            Variant::CustomDeviceDatastream => Validation::of::<CustomDeviceDatastream>(),
            Variant::DeviceDatastreamOverflow => Validation::of::<DeviceDatastreamOverflow>(),
        }
    }
}

/// The checks that a full individual datastream run performs, in order.
pub fn check() -> (r: Vec<Variant>)
    ensures
        r@ == seq![
            Variant::DeviceDatastream,
            Variant::DeviceDatastreamOverflow,
            Variant::CustomDeviceDatastream,
        ],
{
    let mut v: Vec<Variant> = Vec::new();
    v.push(Variant::DeviceDatastream);
    v.push(Variant::DeviceDatastreamOverflow);
    v.push(Variant::CustomDeviceDatastream);
    assert(v@ =~= seq![
        Variant::DeviceDatastream,
        Variant::DeviceDatastreamOverflow,
        Variant::CustomDeviceDatastream,
    ]);
    v
}

} // verus!
