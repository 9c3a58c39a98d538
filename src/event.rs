//! Events that the platform pushes over the realtime channel.
use crate::timestamp::Timestamp;
use crate::wire::WireValue;
use vstd::prelude::*;

verus! {

/// Conditions on data that a data trigger can fire on.
#[derive(Clone, Copy, Debug, PartialEq, Eq, Structural)]
pub enum DataTriggerCondition {
    IncomingData,
    ValueChange,
    ValueChangeApplied,
    PathCreated,
    PathRemoved,
    ValueStored,
}

/// Conditions on a device that a device trigger can fire on.
#[derive(Clone, Copy, Debug, PartialEq, Eq, Structural)]
pub enum DeviceTriggerCondition {
    DeviceConnected,
    DeviceDisconnected,
    DeviceEmptyCacheReceived,
    DeviceError,
    IncomingIntrospection,
    InterfaceAdded,
    InterfaceRemoved,
    InterfaceMinorUpdated,
    DeviceRegistered,
    DeviceDeletionStarted,
    DeviceDeletionFinished,
}

/// An event pushed for one device, with the time the platform saw it.
#[derive(Debug)]
pub struct SimpleEvent {
    pub device_id: String,
    pub timestamp: Timestamp,
    pub event: Event,
}

/// The kinds of pushed events.
#[derive(Debug)]
pub enum Event {
    IncomingData(IncomingData),
    ValueChange(ValueChange),
    ValueChangeApplied(ValueChangeApplied),
    PathCreated(PathCreated),
    PathRemoved(PathRemoved),
    ValueStored(ValueStored),
    DeviceConnected(DeviceConnected),
    DeviceDisconnected(DeviceDisconnected),
    DeviceEmptyCacheReceived(DeviceEmptyCacheReceived),
    DeviceError(DeviceError),
    IncomingIntrospection(IncomingIntrospection),
    InterfaceAdded(InterfaceAdded),
    InterfaceRemoved(InterfaceRemoved),
    InterfaceMinorUpdated(InterfaceMinorUpdated),
    DeviceRegistered(DeviceRegistered),
    DeviceDeletionStarted(DeviceDeletionStarted),
    DeviceDeletionFinished(DeviceDeletionFinished),
}

impl Event {
    /// The incoming data of the event, or the event itself if it is of
    /// another kind.
    pub fn try_into_incoming_data(self) -> (r: Result<IncomingData, Event>)
        ensures
            self is IncomingData ==> r == Ok::<IncomingData, Event>(self->IncomingData_0),
            !(self is IncomingData) ==> r == Err::<IncomingData, Event>(self),
    {
        match self {
            Event::IncomingData(v) => Ok(v),
            other => Err(other),
        }
    }

    /// The device error of the event, or the event itself if it is of
    /// another kind.
    pub fn try_into_device_error(self) -> (r: Result<DeviceError, Event>)
        ensures
            self is DeviceError ==> r == Ok::<DeviceError, Event>(self->DeviceError_0),
            !(self is DeviceError) ==> r == Err::<DeviceError, Event>(self),
    {
        match self {
            Event::DeviceError(v) => Ok(v),
            other => Err(other),
        }
    }

    /// The connection event, or the event itself if it is of another kind.
    pub fn try_into_device_connected(self) -> (r: Result<DeviceConnected, Event>)
        ensures
            self is DeviceConnected ==> r == Ok::<DeviceConnected, Event>(self->DeviceConnected_0),
            !(self is DeviceConnected) ==> r == Err::<DeviceConnected, Event>(self),
    {
        match self {
            Event::DeviceConnected(v) => Ok(v),
            other => Err(other),
        }
    }
}

/// A major and minor version of an interface.
#[derive(Clone, Copy, Debug, PartialEq, Eq, Structural)]
pub struct InterfaceVersion {
    pub major: i32,
    pub minor: i32,
}

#[derive(Debug)]
pub struct DeviceConnected {
    pub device_ip_address: String,
}

#[derive(Clone, Copy, Debug, PartialEq, Eq, Structural)]
pub struct DeviceDisconnected {}

#[derive(Clone, Copy, Debug, PartialEq, Eq, Structural)]
pub struct DeviceEmptyCacheReceived {}

/// A device error, with its metadata as key and value pairs.
#[derive(Debug)]
pub struct DeviceError {
    pub error_name: String,
    pub metadata: Vec<(String, String)>,
}

#[derive(Debug)]
pub struct IncomingIntrospection {
    pub introspection: String,
}

#[derive(Debug)]
pub struct InterfaceAdded {
    pub interface: String,
    pub major_version: i32,
    pub minor_version: i32,
}

#[derive(Debug)]
pub struct InterfaceRemoved {
    pub interface: String,
    pub major_version: i32,
}

#[derive(Debug)]
pub struct InterfaceMinorUpdated {
    pub interface: String,
    pub major_version: i32,
    pub old_minor_version: i32,
    pub new_minor_version: i32,
}

#[derive(Clone, Copy, Debug, PartialEq, Eq, Structural)]
pub struct DeviceRegistered {}

#[derive(Clone, Copy, Debug, PartialEq, Eq, Structural)]
pub struct DeviceDeletionStarted {}

#[derive(Clone, Copy, Debug, PartialEq, Eq, Structural)]
pub struct DeviceDeletionFinished {}

/// A value that a device sent on an interface path.
#[derive(Debug)]
pub struct IncomingData {
    pub interface: String,
    pub path: String,
    pub value: WireValue,
}

#[derive(Debug)]
pub struct PathCreated {
    pub interface: String,
    pub path: String,
    pub value: WireValue,
}

#[derive(Debug)]
pub struct PathRemoved {
    pub interface: String,
    pub path: String,
}

#[derive(Debug)]
pub struct ValueChange {
    pub interface: String,
    pub path: String,
    pub old_value: WireValue,
    pub new_value: WireValue,
}

#[derive(Debug)]
pub struct ValueStored {
    pub interface: String,
    pub path: String,
    pub value: WireValue,
}

#[derive(Debug)]
pub struct ValueChangeApplied {
    pub interface: String,
    pub path: String,
    pub old_value: WireValue,
    pub new_value: WireValue,
}

} // verus!
