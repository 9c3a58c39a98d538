//! The client side of the realtime channel: frames, request and reply
//! correlation, the room session and the triggers it declares.
use crate::event::{Event, IncomingData, SimpleEvent};
use crate::text::text_eq;
use crate::wire::WireValue;
use vstd::prelude::*;
use vstd::string::StringExecFns;

verus! {

/// Seconds that one receive from the inbound queue may take.
pub const RECEIVE_TIMEOUT_SECS: u64 = 2;

/// Capacity of the inbound queue between the receiver loop and the session.
pub const INBOUND_CAPACITY: usize = 20;

/// A frame of the channel protocol.
#[derive(Debug)]
pub struct Message<P> {
    pub join_reference: Option<String>,
    pub message_reference: Option<String>,
    pub topic_name: String,
    pub event_name: String,
    pub payload: P,
}

/// The status that a reply carries.
#[derive(Clone, Copy, Debug, PartialEq, Eq, Structural)]
pub enum PhxStatus {
    /// `ok` on the wire.
    Success,
    /// `error` on the wire.
    Error,
}

/// The payload of a reply.
#[derive(Debug)]
pub struct PhxReply {
    pub status: PhxStatus,
    pub response: WireValue,
}

impl PhxReply {
    /// Whether the request was accepted.
    pub fn is_ok(&self) -> (r: bool)
        ensures
            r == (self.status == PhxStatus::Success),
    {
        match self.status {
            PhxStatus::Success => true,
            PhxStatus::Error => false,
        }
    }
}

/// An inbound message: a reply to a request, or a pushed event.
#[derive(Debug)]
pub enum Reply {
    PhxReply(Box<Message<PhxReply>>),
    NewEvent(Box<Message<SimpleEvent>>),
}

impl Reply {
    pub fn as_phx_reply(&self) -> (r: Option<&Message<PhxReply>>)
        ensures
            r is Some <==> self is PhxReply,
            r is Some ==> *r->Some_0 == *self->PhxReply_0,
    {
        match self {
            Reply::PhxReply(v) => Some(&**v),
            Reply::NewEvent(_) => None,
        }
    }

    pub fn as_new_event(&self) -> (r: Option<&Message<SimpleEvent>>)
        ensures
            r is Some <==> self is NewEvent,
            r is Some ==> *r->Some_0 == *self->NewEvent_0,
    {
        match self {
            Reply::NewEvent(v) => Some(&**v),
            Reply::PhxReply(_) => None,
        }
    }

    pub fn try_into_phx_reply(self) -> (r: Result<Message<PhxReply>, Reply>)
        ensures
            self is PhxReply ==> r is Ok && r->Ok_0 == *self->PhxReply_0,
            !(self is PhxReply) ==> r is Err && r->Err_0 == self,
    {
        match self {
            Reply::PhxReply(v) => Ok(*v),
            other => Err(other),
        }
    }

    pub fn try_into_new_event(self) -> (r: Result<Message<SimpleEvent>, Reply>)
        ensures
            self is NewEvent ==> r is Ok && r->Ok_0 == *self->NewEvent_0,
            !(self is NewEvent) ==> r is Err && r->Err_0 == self,
    {
        match self {
            Reply::NewEvent(v) => Ok(*v),
            other => Err(other),
        }
    }
}

/// What the receiver loop does with a frame, by its event name.
#[derive(Clone, Copy, Debug, PartialEq, Eq, Structural)]
pub enum FrameKind {
    /// Read the payload as a reply.
    Reply,
    /// Read the payload as a pushed event.
    Event,
    /// Drop the frame.
    Ignored,
}

pub open spec fn frame_kind(event_name: Seq<char>) -> FrameKind {
    if event_name == "phx_reply"@ {
        FrameKind::Reply
    } else if event_name == "new_event"@ {
        FrameKind::Event
    } else {
        FrameKind::Ignored
    }
}

/// Classifies a frame by its event name.
pub fn classify_frame(event_name: &str) -> (r: FrameKind)
    ensures
        r == frame_kind(event_name@),
{
    if text_eq(event_name, "phx_reply") {
        FrameKind::Reply
    } else if text_eq(event_name, "new_event") {
        FrameKind::Event
    } else {
        FrameKind::Ignored
    }
}

/// The decimal digit `d`.
pub open spec fn digit_char(d: int) -> char {
    if d == 0 {
        '0'
    } else if d == 1 {
        '1'
    } else if d == 2 {
        '2'
    } else if d == 3 {
        '3'
    } else if d == 4 {
        '4'
    } else if d == 5 {
        '5'
    } else if d == 6 {
        '6'
    } else if d == 7 {
        '7'
    } else if d == 8 {
        '8'
    } else {
        '9'
    }
}

/// The decimal text of `n`, without leading zeros.
pub open spec fn decimal_text(n: nat) -> Seq<char>
    decreases n,
{
    if n < 10 {
        seq![digit_char(n as int)]
    } else {
        decimal_text(n / 10).push(digit_char((n % 10) as int))
    }
}

fn digit(d: usize) -> (c: char)
    requires
        d < 10,
    ensures
        c == digit_char(d as int),
{
    match d {
        0 => '0',
        1 => '1',
        2 => '2',
        3 => '3',
        4 => '4',
        5 => '5',
        6 => '6',
        7 => '7',
        8 => '8',
        _ => '9',
    }
}

fn push_decimal(n: usize, out: &mut Vec<char>)
    ensures
        final(out)@ == old(out)@ + decimal_text(n as nat),
    decreases n,
{
    if n >= 10 {
        push_decimal(n / 10, out);
    }
    out.push(digit(n % 10));
    assert(final(out)@ =~= old(out)@ + decimal_text(n as nat));
}

/// The reference names the request with correlation id `id`.
pub open spec fn references(reference: Option<String>, id: usize) -> bool {
    reference is Some && reference->Some_0@ == decimal_text(id as nat)
}

/// Whether a message reference is the decimal text of `id`.
pub fn reference_matches(reference: &Option<String>, id: usize) -> (r: bool)
    ensures
        r == references(*reference, id),
{
    let text = match reference {
        Some(t) => t.as_str(),
        None => {
            return false;
        },
    };
    let mut digits: Vec<char> = Vec::new();
    push_decimal(id, &mut digits);
    assert(digits@ =~= decimal_text(id as nat));
    let n = text.unicode_len();
    if n != digits.len() {
        return false;
    }
    let mut i: usize = 0;
    while i < n
        invariant
            n == text@.len() == digits@.len(),
            reference is Some && text@ == reference->Some_0@,
            digits@ == decimal_text(id as nat),
            i <= n,
            forall|j: int| 0 <= j < i ==> text@[j] == digits@[j],
        decreases n - i,
    {
        if text.get_char(i) != digits[i] {
            assert(text@[i as int] != digits@[i as int]);
            assert(text@ != digits@);
            return false;
        }
        i = i + 1;
    }
    assert(text@ =~= digits@);
    true
}

/// What one receive from the inbound queue gave.
#[derive(Debug)]
pub enum Inbound {
    /// A message arrived.
    Received(Reply),
    /// Nothing arrived within the receive window.
    TimedOut,
    /// The queue is closed: the receiver loop is gone.
    Closed,
}

/// Errors of the channel session.
#[derive(Clone, Copy, Debug, PartialEq, Eq, Structural)]
pub enum ChannelError {
    /// A receive exceeded its window.
    Timeout,
    /// The inbound queue was closed.
    Closed,
    /// The reply to the request carried the error status.
    Rejected,
    /// The room has not been joined.
    NotJoined,
}

/// Where a wait for a reply stands after one message.
#[derive(Clone, Copy, Debug, PartialEq, Eq, Structural)]
pub enum WaitStep {
    /// The message was not the reply, and was dropped.
    Waiting,
    /// The reply arrived and accepted the request.
    Replied,
}

/// The message is the reply to request `id`.
pub open spec fn is_reply_for(reply: Reply, id: usize) -> bool {
    reply is PhxReply && references(reply->PhxReply_0.message_reference, id)
}

/// One step of the wait for the reply to request `id`.
pub open spec fn reply_step_spec(id: usize, inbound: Inbound) -> Result<WaitStep, ChannelError> {
    match inbound {
        Inbound::TimedOut => Err(ChannelError::Timeout),
        Inbound::Closed => Err(ChannelError::Closed),
        Inbound::Received(reply) => if !is_reply_for(reply, id) {
            Ok(WaitStep::Waiting)
        } else if reply->PhxReply_0.payload.status == PhxStatus::Success {
            Ok(WaitStep::Replied)
        } else {
            Err(ChannelError::Rejected)
        },
    }
}

/// Decides what one receive means to a wait for the reply to request `id`.
/// A message that is not that reply, a pushed event included, is dropped.
pub fn reply_step(id: usize, inbound: &Inbound) -> (r: Result<WaitStep, ChannelError>)
    ensures
        r == reply_step_spec(id, *inbound),
{
    match inbound {
        Inbound::TimedOut => Err(ChannelError::Timeout),
        Inbound::Closed => Err(ChannelError::Closed),
        Inbound::Received(reply) => match reply.as_phx_reply() {
            Some(msg) => if !reference_matches(&msg.message_reference, id) {
                Ok(WaitStep::Waiting)
            } else if msg.payload.is_ok() {
                Ok(WaitStep::Replied)
            } else {
                Err(ChannelError::Rejected)
            },
            None => Ok(WaitStep::Waiting),
        },
    }
}

/// The outcome of a wait for the reply to request `id` over the receives in
/// `inputs`, or `None` while it is still waiting after all of them.
pub open spec fn await_reply_run(id: usize, inputs: Seq<Inbound>) -> Option<Result<(), ChannelError>>
    decreases inputs.len(),
{
    if inputs.len() == 0 {
        None
    } else {
        match reply_step_spec(id, inputs[0]) {
            Ok(WaitStep::Waiting) => await_reply_run(id, inputs.drop_first()),
            Ok(WaitStep::Replied) => Some(Ok(())),
            Err(e) => Some(Err(e)),
        }
    }
}

/// The message is a pushed event that carries incoming data.
pub open spec fn is_data_event(reply: Reply) -> bool {
    reply is NewEvent && reply->NewEvent_0.payload.event is IncomingData
}

/// One step of the wait for the next data event.
pub open spec fn data_step_spec(inbound: Inbound) -> Result<Option<IncomingData>, ChannelError> {
    match inbound {
        Inbound::TimedOut => Err(ChannelError::Timeout),
        Inbound::Closed => Err(ChannelError::Closed),
        Inbound::Received(reply) => if is_data_event(reply) {
            Ok(Some(reply->NewEvent_0.payload.event->IncomingData_0))
        } else {
            Ok(None)
        },
    }
}

/// Decides what one receive means to a wait for the next data event: the
/// data, a message to drop (`None`), or the error that ends the wait.
pub fn data_step(inbound: Inbound) -> (r: Result<Option<IncomingData>, ChannelError>)
    ensures
        r == data_step_spec(inbound),
{
    match inbound {
        Inbound::TimedOut => Err(ChannelError::Timeout),
        Inbound::Closed => Err(ChannelError::Closed),
        Inbound::Received(reply) => match reply.try_into_new_event() {
            Ok(msg) => match msg.payload.event.try_into_incoming_data() {
                Ok(data) => Ok(Some(data)),
                Err(_) => Ok(None),
            },
            Err(_) => Ok(None),
        },
    }
}

/// The outcome of a wait for the next data event over the receives in
/// `inputs`, or `None` while it is still waiting after all of them.
pub open spec fn next_data_run(inputs: Seq<Inbound>) -> Option<Result<IncomingData, ChannelError>>
    decreases inputs.len(),
{
    if inputs.len() == 0 {
        None
    } else {
        match data_step_spec(inputs[0]) {
            Ok(None) => next_data_run(inputs.drop_first()),
            Ok(Some(d)) => Some(Ok(d)),
            Err(e) => Some(Err(e)),
        }
    }
}

/// A wait for a reply that never comes: after any messages that are not the
/// reply, a receive that times out ends the wait with a timeout.
pub proof fn lemma_unanswered_wait_times_out(id: usize, msgs: Seq<Inbound>)
    requires
        forall|i: int|
            0 <= i < msgs.len() ==> (#[trigger] msgs[i]) is Received && !is_reply_for(
                msgs[i]->Received_0,
                id,
            ),
    ensures
        await_reply_run(id, msgs.push(Inbound::TimedOut)) == Some(Err::<(), ChannelError>(ChannelError::Timeout)),
    decreases msgs.len(),
{
    if msgs.len() > 0 {
        assert(msgs.push(Inbound::TimedOut).drop_first() =~= msgs.drop_first().push(Inbound::TimedOut));
        assert(msgs.push(Inbound::TimedOut)[0] == msgs[0]);
        lemma_unanswered_wait_times_out(id, msgs.drop_first());
    } else {
        assert(msgs.push(Inbound::TimedOut)[0] == Inbound::TimedOut);
    }
}

/// A wait for a reply when the queue closes: after any messages that are not
/// the reply, a closed queue ends the wait with the closed error.
pub proof fn lemma_closed_wait_fails(id: usize, msgs: Seq<Inbound>)
    requires
        forall|i: int|
            0 <= i < msgs.len() ==> (#[trigger] msgs[i]) is Received && !is_reply_for(
                msgs[i]->Received_0,
                id,
            ),
    ensures
        await_reply_run(id, msgs.push(Inbound::Closed)) == Some(Err::<(), ChannelError>(ChannelError::Closed)),
    decreases msgs.len(),
{
    if msgs.len() > 0 {
        assert(msgs.push(Inbound::Closed).drop_first() =~= msgs.drop_first().push(Inbound::Closed));
        assert(msgs.push(Inbound::Closed)[0] == msgs[0]);
        lemma_closed_wait_fails(id, msgs.drop_first());
    } else {
        assert(msgs.push(Inbound::Closed)[0] == Inbound::Closed);
    }
}

/// A wait for a data event when the queue closes: after any messages that
/// carry no incoming data, a closed queue ends the wait with the closed
/// error.
pub proof fn lemma_closed_data_wait_fails(msgs: Seq<Inbound>)
    requires
        forall|i: int|
            0 <= i < msgs.len() ==> (#[trigger] msgs[i]) is Received && !is_data_event(
                msgs[i]->Received_0,
            ),
    ensures
        next_data_run(msgs.push(Inbound::Closed)) == Some(
            Err::<IncomingData, ChannelError>(ChannelError::Closed),
        ),
    decreases msgs.len(),
{
    if msgs.len() > 0 {
        assert(msgs.push(Inbound::Closed).drop_first() =~= msgs.drop_first().push(Inbound::Closed));
        assert(msgs.push(Inbound::Closed)[0] == msgs[0]);
        lemma_closed_data_wait_fails(msgs.drop_first());
    } else {
        assert(msgs.push(Inbound::Closed)[0] == Inbound::Closed);
    }
}

/// The room of a device: `rooms:<realm>:e2e_test_<device_id>`.
pub open spec fn room_name(realm: Seq<char>, device_id: Seq<char>) -> Seq<char> {
    "rooms:"@ + realm + ":e2e_test_"@ + device_id
}

/// The session on the channel: the room of one device, and whether it has
/// been joined. The socket and the inbound queue are held by the caller.
#[derive(Debug)]
pub struct PhoenixChannel {
    room: String,
    device_id: String,
    joined: bool,
}

impl PhoenixChannel {
    pub closed spec fn room_spec(&self) -> Seq<char> {
        self.room@
    }

    pub closed spec fn device_id_spec(&self) -> Seq<char> {
        self.device_id@
    }

    pub closed spec fn joined_spec(&self) -> bool {
        self.joined
    }

    /// A session for the room of `device_id` in `realm`, not joined yet.
    pub fn new(realm: &str, device_id: &str) -> (r: PhoenixChannel)
        ensures
            r.room_spec() == room_name(realm@, device_id@),
            r.device_id_spec() == device_id@,
            !r.joined_spec(),
    {
        let mut room = String::from_str("rooms:");
        room.append(realm);
        room.append(":e2e_test_");
        room.append(device_id);
        PhoenixChannel { room, device_id: String::from_str(device_id), joined: false }
    }

    pub fn room(&self) -> (r: &str)
        ensures
            r@ == self.room_spec(),
    {
        self.room.as_str()
    }

    pub fn device_id(&self) -> (r: &str)
        ensures
            r@ == self.device_id_spec(),
    {
        self.device_id.as_str()
    }

    pub fn is_joined(&self) -> (r: bool)
        ensures
            r == self.joined_spec(),
    {
        self.joined
    }

    /// Records the outcome of the wait for the reply to the join request.
    /// The session counts as joined only once that reply accepted it.
    pub fn finish_join(&mut self, outcome: Result<(), ChannelError>) -> (r: Result<(), ChannelError>)
        ensures
            r == outcome,
            final(self).joined_spec() == (old(self).joined_spec() || outcome is Ok),
            final(self).room_spec() == old(self).room_spec(),
            final(self).device_id_spec() == old(self).device_id_spec(),
    {
        if outcome.is_ok() {
            self.joined = true;
        }
        outcome
    }

    /// Accepts a request that needs the room joined (a trigger, or the wait
    /// for a data event) only once it is.
    pub fn ensure_joined(&self) -> (r: Result<(), ChannelError>)
        ensures
            r is Ok <==> self.joined_spec(),
            r is Err ==> r->Err_0 == ChannelError::NotJoined,
    {
        if self.joined {
            Ok(())
        } else {
            Err(ChannelError::NotJoined)
        }
    }

    /// The room to leave when the session ends: it is handed out once, and
    /// only if the room was joined.
    pub fn take_room_to_leave(&mut self) -> (r: Option<String>)
        ensures
            old(self).joined_spec() ==> r is Some && r->Some_0@ == old(self).room_spec(),
            !old(self).joined_spec() ==> r is None,
            !final(self).joined_spec(),
            final(self).device_id_spec() == old(self).device_id_spec(),
    {
        if !self.joined {
            return None;
        }
        self.joined = false;
        let room = self.room.clone();
        self.room = String::new();
        Some(room)
    }

    /// The triggers that a validation run needs: device connected,
    /// disconnected and error, and incoming data on any interface and path.
    /// They are declared only on a joined room.
    pub fn triggers(&self) -> (r: Result<Vec<TransitiveTrigger>, ChannelError>)
        ensures
            r is Ok <==> self.joined_spec(),
            r is Err ==> r->Err_0 == ChannelError::NotJoined,
            r is Ok ==> trigger_set(r->Ok_0@, self.device_id_spec()),
    {
        if !self.joined {
            return Err(ChannelError::NotJoined);
        }
        Ok(trigger_specs(self.device_id.as_str()))
    }
}

/// Device conditions that the validation run watches.
#[derive(Clone, Copy, Debug, PartialEq, Eq, Structural)]
pub enum DeviceTriggerCondition {
    DeviceConnected,
    DeviceDisconnected,
    DeviceError,
    DeviceEmptyCacheReceived,
}

/// Data conditions that the validation run watches.
#[derive(Clone, Copy, Debug, PartialEq, Eq, Structural)]
pub enum DataTriggerCondition {
    IncomingData,
    ValueStored,
}

/// The condition of a trigger.
#[derive(Debug)]
#[allow(inconsistent_fields)]
pub enum SimpleTrigger {
    DeviceTrigger { on: DeviceTriggerCondition, device_id: String },
    DataTrigger {
        on: DataTriggerCondition,
        device_id: String,
        interface_name: String,
        match_path: String,
        value_match_operator: String,
    },
}

/// A named trigger for one device, as sent in a `watch` request.
#[derive(Debug)]
pub struct TransitiveTrigger {
    pub name: String,
    pub device_id: String,
    pub simple_trigger: SimpleTrigger,
}

/// A device trigger named `prefix` + the device id.
pub open spec fn is_device_trigger(
    t: TransitiveTrigger,
    prefix: Seq<char>,
    on: DeviceTriggerCondition,
    device_id: Seq<char>,
) -> bool {
    &&& t.name@ == prefix + device_id
    &&& t.device_id@ == device_id
    &&& t.simple_trigger is DeviceTrigger
    &&& t.simple_trigger->DeviceTrigger_on == on
    &&& t.simple_trigger->DeviceTrigger_device_id@ == device_id
}

/// The four triggers of a validation run, in order.
pub open spec fn trigger_set(ts: Seq<TransitiveTrigger>, device_id: Seq<char>) -> bool {
    &&& ts.len() == 4
    &&& is_device_trigger(ts[0], "connectiontrigger-"@, DeviceTriggerCondition::DeviceConnected, device_id)
    &&& is_device_trigger(ts[1], "disconnectiontrigger-"@, DeviceTriggerCondition::DeviceDisconnected, device_id)
    &&& is_device_trigger(ts[2], "errortrigger-"@, DeviceTriggerCondition::DeviceError, device_id)
    &&& ts[3].name@ == "datatrigger-"@ + device_id
    &&& ts[3].device_id@ == device_id
    &&& ts[3].simple_trigger is DataTrigger
    &&& ts[3].simple_trigger->DataTrigger_on == DataTriggerCondition::IncomingData
    &&& ts[3].simple_trigger->DataTrigger_device_id@ == device_id
    &&& ts[3].simple_trigger->DataTrigger_interface_name@ == "*"@
    &&& ts[3].simple_trigger->DataTrigger_match_path@ == "/*"@
    &&& ts[3].simple_trigger->DataTrigger_value_match_operator@ == "*"@
}

fn prefixed(prefix: &str, device_id: &str) -> (r: String)
    ensures
        r@ == prefix@ + device_id@,
{
    let mut name = String::from_str(prefix);
    name.append(device_id);
    name
}

fn device_trigger(prefix: &str, on: DeviceTriggerCondition, device_id: &str) -> (t: TransitiveTrigger)
    ensures
        is_device_trigger(t, prefix@, on, device_id@),
{
    TransitiveTrigger {
        name: prefixed(prefix, device_id),
        device_id: String::from_str(device_id),
        simple_trigger: SimpleTrigger::DeviceTrigger { on, device_id: String::from_str(device_id) },
    }
}

/// Builds the triggers of a validation run for a device.
pub fn trigger_specs(device_id: &str) -> (r: Vec<TransitiveTrigger>)
    ensures
        trigger_set(r@, device_id@),
{
    let mut ts: Vec<TransitiveTrigger> = Vec::new();
    ts.push(device_trigger("connectiontrigger-", DeviceTriggerCondition::DeviceConnected, device_id));
    ts.push(device_trigger("disconnectiontrigger-", DeviceTriggerCondition::DeviceDisconnected, device_id));
    ts.push(device_trigger("errortrigger-", DeviceTriggerCondition::DeviceError, device_id));
    ts.push(
        TransitiveTrigger {
            name: prefixed("datatrigger-", device_id),
            device_id: String::from_str(device_id),
            simple_trigger: SimpleTrigger::DataTrigger {
                on: DataTriggerCondition::IncomingData,
                device_id: String::from_str(device_id),
                interface_name: String::from_str("*"),
                match_path: String::from_str("/*"),
                value_match_operator: String::from_str("*"),
            },
        },
    );
    ts
}

} // verus!
