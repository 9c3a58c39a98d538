use astarte_e2e::event::{DeviceConnected, Event, IncomingData, SimpleEvent};
use astarte_e2e::phoenix_channel::{
    classify_frame, data_step, reference_matches, reply_step, trigger_specs, ChannelError,
    DataTriggerCondition, DeviceTriggerCondition, FrameKind, Inbound, Message, PhoenixChannel,
    PhxReply, PhxStatus, Reply, SimpleTrigger, WaitStep,
};
use astarte_e2e::timestamp::Timestamp;
use astarte_e2e::wire::WireValue;

fn reply(reference: &str, status: PhxStatus) -> Reply {
    Reply::PhxReply(Box::new(Message {
        join_reference: None,
        message_reference: Some(reference.to_string()),
        topic_name: "rooms:test:e2e_test_dev".to_string(),
        event_name: "phx_reply".to_string(),
        payload: PhxReply { status, response: WireValue::Null },
    }))
}

fn pushed(event: Event) -> Reply {
    Reply::NewEvent(Box::new(Message {
        join_reference: None,
        message_reference: None,
        topic_name: "rooms:test:e2e_test_dev".to_string(),
        event_name: "new_event".to_string(),
        payload: SimpleEvent {
            device_id: "dev".to_string(),
            timestamp: Timestamp::from_parts(0, 0).unwrap(),
            event,
        },
    }))
}

fn data_event(value: u64) -> Reply {
    pushed(Event::IncomingData(IncomingData {
        interface: "X".to_string(),
        path: "/integer_endpoint".to_string(),
        value: WireValue::PosInt(value),
    }))
}

#[test]
fn frames_are_classified_by_event_name() {
    assert_eq!(classify_frame("phx_reply"), FrameKind::Reply);
    assert_eq!(classify_frame("new_event"), FrameKind::Event);
    assert_eq!(classify_frame("phx_close"), FrameKind::Ignored);
    assert_eq!(classify_frame(""), FrameKind::Ignored);
}

#[test]
fn references_are_decimal_ids() {
    assert!(reference_matches(&Some("0".to_string()), 0));
    assert!(reference_matches(&Some("42".to_string()), 42));
    assert!(reference_matches(&Some(usize::MAX.to_string()), usize::MAX));
    assert!(!reference_matches(&Some("042".to_string()), 42));
    assert!(!reference_matches(&Some("4".to_string()), 42));
    assert!(!reference_matches(&None, 42));
}

#[test]
fn wait_for_reply_steps() {
    assert_eq!(reply_step(7, &Inbound::Received(reply("7", PhxStatus::Success))), Ok(WaitStep::Replied));
    assert_eq!(reply_step(7, &Inbound::Received(reply("7", PhxStatus::Error))), Err(ChannelError::Rejected));
    assert_eq!(reply_step(7, &Inbound::Received(reply("8", PhxStatus::Success))), Ok(WaitStep::Waiting));
    assert_eq!(reply_step(7, &Inbound::Received(data_event(1))), Ok(WaitStep::Waiting));
    assert_eq!(reply_step(7, &Inbound::TimedOut), Err(ChannelError::Timeout));
    assert_eq!(reply_step(7, &Inbound::Closed), Err(ChannelError::Closed));
}

/// Feeds receives to a wait for a reply until it ends.
fn await_reply(id: usize, inputs: Vec<Inbound>) -> Option<Result<(), ChannelError>> {
    for inbound in inputs {
        match reply_step(id, &inbound) {
            Ok(WaitStep::Waiting) => continue,
            Ok(WaitStep::Replied) => return Some(Ok(())),
            Err(e) => return Some(Err(e)),
        }
    }
    None
}

#[test]
fn unanswered_wait_times_out() {
    let inputs = vec![
        Inbound::Received(reply("1", PhxStatus::Success)),
        Inbound::Received(data_event(1)),
        Inbound::TimedOut,
        Inbound::Received(reply("3", PhxStatus::Success)),
    ];
    assert_eq!(await_reply(3, inputs), Some(Err(ChannelError::Timeout)));
}

#[test]
fn closed_queue_ends_both_waits() {
    let inputs = vec![Inbound::Received(reply("1", PhxStatus::Success)), Inbound::Closed];
    assert_eq!(await_reply(3, inputs), Some(Err(ChannelError::Closed)));
    assert!(matches!(data_step(Inbound::Closed), Err(ChannelError::Closed)));
    assert!(matches!(data_step(Inbound::TimedOut), Err(ChannelError::Timeout)));
}

#[test]
fn data_wait_skips_other_messages() {
    assert!(matches!(data_step(Inbound::Received(reply("1", PhxStatus::Success))), Ok(None)));
    let connected = pushed(Event::DeviceConnected(DeviceConnected { device_ip_address: "1.2.3.4".to_string() }));
    assert!(matches!(data_step(Inbound::Received(connected)), Ok(None)));
    match data_step(Inbound::Received(data_event(1))) {
        Ok(Some(d)) => {
            assert_eq!(d.interface, "X");
            assert_eq!(d.path, "/integer_endpoint");
            assert!(matches!(d.value, WireValue::PosInt(1)));
        }
        other => panic!("unexpected {other:?}"),
    }
}

#[test]
fn reply_accessors() {
    let r = reply("1", PhxStatus::Success);
    assert!(r.as_phx_reply().unwrap().payload.is_ok());
    assert!(r.as_new_event().is_none());
    let r = r.try_into_new_event().unwrap_err();
    assert_eq!(r.try_into_phx_reply().unwrap().message_reference.as_deref(), Some("1"));
    let e = pushed(Event::DeviceConnected(DeviceConnected { device_ip_address: "ip".to_string() }));
    let msg = e.try_into_new_event().unwrap();
    let ev = msg.payload.event.try_into_incoming_data().unwrap_err();
    let ev = ev.try_into_device_error().unwrap_err();
    assert_eq!(ev.try_into_device_connected().unwrap().device_ip_address, "ip");
}

#[test]
fn session_must_join_before_watching() {
    let mut s = PhoenixChannel::new("test", "dev");
    assert_eq!(s.room(), "rooms:test:e2e_test_dev");
    assert_eq!(s.device_id(), "dev");
    assert!(!s.is_joined());
    assert_eq!(s.ensure_joined(), Err(ChannelError::NotJoined));
    assert!(matches!(s.triggers(), Err(ChannelError::NotJoined)));
    assert_eq!(s.take_room_to_leave(), None);
    assert_eq!(s.finish_join(Err(ChannelError::Timeout)), Err(ChannelError::Timeout));
    assert!(!s.is_joined());
    assert_eq!(s.finish_join(Ok(())), Ok(()));
    assert!(s.is_joined());
    assert_eq!(s.ensure_joined(), Ok(()));
    assert_eq!(s.triggers().unwrap().len(), 4);
    assert_eq!(s.take_room_to_leave().as_deref(), Some("rooms:test:e2e_test_dev"));
    assert_eq!(s.take_room_to_leave(), None);
}

#[test]
fn triggers_of_a_run() {
    let ts = trigger_specs("dev");
    assert_eq!(ts[0].name, "connectiontrigger-dev");
    assert_eq!(ts[1].name, "disconnectiontrigger-dev");
    assert_eq!(ts[2].name, "errortrigger-dev");
    assert_eq!(ts[3].name, "datatrigger-dev");
    assert!(matches!(ts[1].simple_trigger, SimpleTrigger::DeviceTrigger { on: DeviceTriggerCondition::DeviceDisconnected, .. }));
    match &ts[3].simple_trigger {
        SimpleTrigger::DataTrigger { on, device_id, interface_name, match_path, value_match_operator } => {
            assert_eq!(*on, DataTriggerCondition::IncomingData);
            assert_eq!(device_id, "dev");
            assert_eq!(interface_name, "*");
            assert_eq!(match_path, "/*");
            assert_eq!(value_match_operator, "*");
        }
        other => panic!("unexpected {other:?}"),
    }
}
