use modality_trace_recorder_plugin::attr_keys::{AttrValue, EventAttrKey, EventAttributes};
use modality_trace_recorder_plugin::context_manager::ContextEvent;
use modality_trace_recorder_plugin::trc_reader::{read_error_action, EventSender, ReadErrorAction, ReadErrorKind};

fn event(ordering: u128, nonce: i64, names_previous: bool) -> ContextEvent {
    let mut attributes = EventAttributes::new();
    attributes.insert(EventAttrKey::InternalNonce, AttrValue::Integer(nonce));
    ContextEvent {
        context: 2,
        global_ordering: ordering,
        attributes,
        add_previous_event_nonce: names_previous,
        cpu_utilization: None,
    }
}

#[test]
fn events_go_out_in_order_with_promoted_nonces() {
    let mut s = EventSender::new();
    assert!(s.buffer(event(1, 1, false)).is_none());
    let first = s.buffer(event(2, 2, true)).unwrap();
    assert_eq!(first.global_ordering, 1);
    assert_eq!(first.attributes.get(&EventAttrKey::Nonce), Some(&AttrValue::Integer(1)));
    assert_eq!(first.attributes.get(&EventAttrKey::InternalNonce), None);
    let second = s.buffer(event(3, 3, false)).unwrap();
    assert_eq!(second.attributes.get(&EventAttrKey::InternalNonce), Some(&AttrValue::Integer(2)));
    assert_eq!(s.flush().unwrap().global_ordering, 3);
    assert!(s.flush().is_none());
}

#[test]
fn timelines_are_announced_once() {
    let mut s = EventSender::new();
    assert!(s.observe_timeline(7));
    assert!(!s.observe_timeline(7));
    assert!(s.observe_timeline(8));
}

#[test]
fn read_errors() {
    assert_eq!(read_error_action(ReadErrorKind::ObjectLookup), ReadErrorAction::Degrade);
    assert_eq!(read_error_action(ReadErrorKind::FormattedString), ReadErrorAction::SkipEvent);
    assert_eq!(read_error_action(ReadErrorKind::TraceRestarted), ReadErrorAction::RestartTrace);
    assert_eq!(read_error_action(ReadErrorKind::Other), ReadErrorAction::Stop);
}
