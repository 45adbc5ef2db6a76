use modality_trace_recorder_plugin::attr_keys::{AttrValue, EventAttrKey, TimelineAttrKey};
use modality_trace_recorder_plugin::config::TraceRecorderConfig;
use modality_trace_recorder_plugin::context_manager::{
    ContextEvent, ContextManager, ContextStats, EventCounterTracker, TimeTracker,
};
use modality_trace_recorder_plugin::error::Error;
use modality_trace_recorder_plugin::event::{
    Event, EventKind, IsrEvent, QueueEvent, TaskEvent, TraceStartEvent, UnknownEvent,
};
use modality_trace_recorder_plugin::opts::{InteractionMode, ObjectClass};
use modality_trace_recorder_plugin::recorder_data::{ContextHandle, Endianness, ObjectEntry, RecorderData};

fn recorder() -> RecorderData {
    RecorderData {
        protocol: "Streaming".to_owned(),
        kernel_version: "FreeRTOS v10".to_owned(),
        kernel_port: "FreeRTOS".to_owned(),
        endianness: Endianness::Little,
        irq_priority_order: 0,
        isr_tail_chaining_threshold: 0,
        format_version: 14,
        num_cores: 1,
        platform_cfg: "FreeRTOS".to_owned(),
        platform_cfg_version: "1.2.0".to_owned(),
        platform_cfg_version_major: 1,
        platform_cfg_version_minor: 2,
        platform_cfg_version_patch: 0,
        heap_max: 4096,
        timer_type: "FreeRunning32Incr".to_owned(),
        timer_frequency: 1_000,
        timer_period: 0,
        timer_wraparounds: 0,
        os_tick_rate_hz: 1000,
        os_tick_count: 0,
        latest_timestamp: 0,
        objects: vec![
            ObjectEntry { handle: 2, class: Some(ObjectClass::Task), symbol: Some("(startup)".to_owned()) },
            ObjectEntry { handle: 10, class: Some(ObjectClass::Task), symbol: Some("Task1".to_owned()) },
            ObjectEntry { handle: 20, class: Some(ObjectClass::Isr), symbol: Some("IRQ".to_owned()) },
        ],
    }
}

fn trace_start(count: u16, ts: u64) -> Event {
    Event {
        code: 0x2001,
        event_count: count,
        timestamp: ts,
        kind: EventKind::TraceStart(TraceStartEvent { current_task_handle: 2, current_task: "(startup)".to_owned() }),
    }
}

fn task_begin(handle: u32, count: u16, ts: u64) -> Event {
    Event {
        code: 0x1035,
        event_count: count,
        timestamp: ts,
        kind: EventKind::TaskBegin(TaskEvent { handle, name: "Task1".to_owned(), priority: 1 }),
    }
}

fn isr_begin(handle: u32, count: u16, ts: u64) -> Event {
    Event {
        code: 0x1033,
        event_count: count,
        timestamp: ts,
        kind: EventKind::IsrBegin(IsrEvent { handle, name: "IRQ".to_owned(), priority: 1 }),
    }
}

fn queue_event(send: bool, count: u16, ts: u64) -> Event {
    let ev = QueueEvent { handle: 40, name: None, ticks_to_wait: None, messages_waiting: 0 };
    Event {
        code: if send { 0x3050 } else { 0x3060 },
        event_count: count,
        timestamp: ts,
        kind: if send { EventKind::QueueSend(ev) } else { EventKind::QueueReceive(ev) },
    }
}

fn process(m: &mut ContextManager, ev: &Event, trd: &RecorderData) -> Result<Option<ContextEvent>, Error> {
    assert!(m.can_process_event(ev, trd));
    m.process_event(ev.code, ev, trd)
}

fn attr<'a>(e: &'a ContextEvent, k: EventAttrKey) -> Option<&'a AttrValue> {
    e.attributes.get(&k)
}

#[test]
fn events_are_ordered_and_switches_interact() {
    let trd = recorder();
    let mut m = ContextManager::new(TraceRecorderConfig::default_config(), &trd).unwrap();

    let e1 = process(&mut m, &trace_start(1, 100), &trd).unwrap().unwrap();
    assert_eq!(e1.context, 2);
    assert_eq!(e1.global_ordering, 1);
    assert_eq!(attr(&e1, EventAttrKey::InternalNonce), Some(&AttrValue::Integer(1)));
    assert_eq!(attr(&e1, EventAttrKey::TimestampTicks), Some(&AttrValue::Integer(100)));
    assert_eq!(attr(&e1, EventAttrKey::Timestamp), Some(&AttrValue::Timestamp(100_000_000)));
    assert_eq!(attr(&e1, EventAttrKey::EventCount), Some(&AttrValue::Integer(1)));
    assert!(!e1.add_previous_event_nonce);
    let startup_id = m.timeline_meta(2).unwrap().id();

    let e2 = process(&mut m, &task_begin(10, 2, 200), &trd).unwrap().unwrap();
    assert_eq!(e2.context, 10);
    assert_eq!(e2.global_ordering, 2);
    assert!(e2.add_previous_event_nonce);
    assert_eq!(attr(&e2, EventAttrKey::RemoteTimelineId), Some(&AttrValue::TimelineId(startup_id)));
    assert_eq!(attr(&e2, EventAttrKey::RemoteNonce), Some(&AttrValue::Integer(1)));
    assert_eq!(attr(&e2, EventAttrKey::InternalNonce), Some(&AttrValue::Integer(1)));
    assert_eq!(attr(&e2, EventAttrKey::TotalRuntimeTicks), Some(&AttrValue::Integer(200)));

    let task_tl = m.timeline_meta(10).unwrap();
    assert_ne!(task_tl.id(), startup_id);
    assert_eq!(task_tl.attributes().get(&TimelineAttrKey::Name), Some(&AttrValue::String("Task1".to_owned())));

    let e3 = process(&mut m, &task_begin(10, 3, 300), &trd).unwrap().unwrap();
    assert_eq!(e3.context, 10);
    assert!(!e3.add_previous_event_nonce);
    assert_eq!(attr(&e3, EventAttrKey::InternalNonce), Some(&AttrValue::Integer(2)));
    assert_eq!(attr(&e3, EventAttrKey::RemoteNonce), None);
}

#[test]
fn skipped_and_dropped_events() {
    let trd = recorder();
    let mut m = ContextManager::new(TraceRecorderConfig::default_config(), &trd).unwrap();
    process(&mut m, &trace_start(1, 10), &trd).unwrap().unwrap();

    let name = Event { code: 0x03, event_count: 2, timestamp: 20, kind: EventKind::ObjectName };
    assert!(process(&mut m, &name, &trd).unwrap().is_none());

    let unknown = Event { code: 0x0FF0, event_count: 3, timestamp: 30, kind: EventKind::Unknown(UnknownEvent { parameters: vec![] }) };
    assert!(process(&mut m, &unknown, &trd).unwrap().is_none());

    let e = process(&mut m, &task_begin(10, 7, 40), &trd).unwrap().unwrap();
    assert_eq!(attr(&e, EventAttrKey::DroppedEvents), Some(&AttrValue::Integer(3)));
    assert_eq!(attr(&e, EventAttrKey::EventCountRaw), Some(&AttrValue::Integer(7)));
    assert_eq!(e.global_ordering, 4);
}

#[test]
fn isrs_flatten_into_the_task() {
    let trd = recorder();
    let mut cfg = TraceRecorderConfig::default_config();
    cfg.plugin.flatten_isr_timelines = true;
    let mut m = ContextManager::new(cfg, &trd).unwrap();
    process(&mut m, &trace_start(1, 10), &trd).unwrap().unwrap();
    let e = process(&mut m, &isr_begin(20, 2, 20), &trd).unwrap().unwrap();
    assert_eq!(e.context, 2);
    assert!(m.timeline_meta(20).is_err());

    let trd = recorder();
    let mut m = ContextManager::new(TraceRecorderConfig::default_config(), &trd).unwrap();
    process(&mut m, &trace_start(1, 10), &trd).unwrap().unwrap();
    let e = process(&mut m, &isr_begin(20, 2, 20), &trd).unwrap().unwrap();
    assert_eq!(e.context, 20);
    assert_eq!(m.active_context, ContextHandle::Isr(20));
}

#[test]
fn a_first_event_that_is_not_trace_start_degrades() {
    let trd = recorder();
    let mut m = ContextManager::new(TraceRecorderConfig::default_config(), &trd).unwrap();
    let e = process(&mut m, &task_begin(10, 1, 10), &trd).unwrap().unwrap();
    assert!(m.degraded);
    assert_eq!(e.context, 2);
    let e = process(&mut m, &task_begin(10, 2, 20), &trd).unwrap().unwrap();
    assert_eq!(e.context, 2);
    let e = process(&mut m, &isr_begin(20, 3, 30), &trd).unwrap().unwrap();
    assert_eq!(e.context, 2);
    let tl = m.timeline_meta(2).unwrap();
    assert_eq!(tl.attributes().get(&TimelineAttrKey::Name), Some(&AttrValue::String("UNKNOWN_CONTEXT".to_owned())));
}

#[test]
fn set_degraded_is_done_once() {
    let trd = recorder();
    let mut m = ContextManager::new(TraceRecorderConfig::default_config(), &trd).unwrap();
    m.set_degraded();
    assert!(m.degraded);
    assert!(m.cfg.plugin.single_task_timeline);
    assert!(m.cfg.plugin.flatten_isr_timelines);
    assert_eq!(m.cfg.plugin.interaction_mode, InteractionMode::FullyLinearized);
    assert_eq!(m.active_context, ContextHandle::Task(2));
    m.cfg.plugin.single_task_timeline = false;
    m.set_degraded();
    assert!(!m.cfg.plugin.single_task_timeline);
}

#[test]
fn ipc_queue_receive_takes_the_send() {
    let trd = recorder();
    let mut cfg = TraceRecorderConfig::default_config();
    cfg.plugin.interaction_mode = InteractionMode::Ipc;
    let mut m = ContextManager::new(cfg, &trd).unwrap();
    process(&mut m, &trace_start(1, 10), &trd).unwrap().unwrap();
    let send = process(&mut m, &queue_event(true, 2, 20), &trd).unwrap().unwrap();
    assert_eq!(attr(&send, EventAttrKey::Nonce), Some(&AttrValue::Integer(2)));
    assert_eq!(attr(&send, EventAttrKey::InternalNonce), None);
    let startup_id = m.timeline_meta(2).unwrap().id();

    let switch = process(&mut m, &task_begin(10, 3, 30), &trd).unwrap().unwrap();
    assert_eq!(attr(&switch, EventAttrKey::RemoteNonce), None);

    let recv = process(&mut m, &queue_event(false, 4, 40), &trd).unwrap().unwrap();
    assert_eq!(recv.context, 10);
    assert_eq!(attr(&recv, EventAttrKey::RemoteTimelineId), Some(&AttrValue::TimelineId(startup_id)));
    assert_eq!(attr(&recv, EventAttrKey::RemoteNonce), Some(&AttrValue::Integer(2)));

    let again = process(&mut m, &queue_event(false, 5, 50), &trd).unwrap().unwrap();
    assert_eq!(attr(&again, EventAttrKey::RemoteNonce), None);
}

#[test]
fn restart_starts_a_new_trace() {
    let trd = recorder();
    let mut m = ContextManager::new(TraceRecorderConfig::default_config(), &trd).unwrap();
    process(&mut m, &trace_start(1, 1000), &trd).unwrap().unwrap();
    m.observe_trace_restart();
    assert!(!m.first_event_observed);
    let e = process(&mut m, &trace_start(9, 5), &trd).unwrap().unwrap();
    assert_eq!(attr(&e, EventAttrKey::TimestampTicks), Some(&AttrValue::Integer(5)));
    assert_eq!(attr(&e, EventAttrKey::EventCount), Some(&AttrValue::Integer(9)));
    assert_eq!(attr(&e, EventAttrKey::DroppedEvents), None);
}

#[test]
fn counters_and_timers_roll_over() {
    let mut c = EventCounterTracker::zero();
    c.set_initial_count(0xFFFE);
    assert_eq!(c.update(0xFFFF), None);
    assert_eq!(c.update(1), Some(1));
    assert_eq!(c.count(), 0x1_0001);

    let mut t = TimeTracker::new(0xFFFF_FFF0, 0);
    assert_eq!(t.elapsed(0x10), 0x1_0000_0010);
    assert_eq!(t.elapsed(0x20), 0x1_0000_0020);

    let mut s = ContextStats::new(100);
    s.update(150);
    assert_eq!(s.total_runtime, 50);
    s.update(120);
    assert_eq!(s.total_runtime, 50);
    s.update_runtime_window(300);
    assert_eq!(s.runtime_since_window_start, 0);
}

#[test]
fn bad_deviant_base_is_refused() {
    let trd = recorder();
    let mut cfg = TraceRecorderConfig::default_config();
    cfg.plugin.deviant_event_id_base = Some(0x1000);
    match ContextManager::new(cfg, &trd) {
        Err(Error::DeviantEvent(msg)) => {
            assert_eq!(msg, "The deviant custom event base ID 1000 exceeds the max")
        }
        _ => panic!("expected a deviant event error"),
    }
}

#[test]
fn unknown_timeline_is_an_error() {
    let trd = recorder();
    let m = ContextManager::new(TraceRecorderConfig::default_config(), &trd).unwrap();
    assert_eq!(m.timeline_meta(77).err(), Some(Error::TaskTimelineLookup(77)));
}

#[test]
fn disabled_task_interactions_are_not_drawn() {
    let trd = recorder();
    let mut cfg = TraceRecorderConfig::default_config();
    cfg.plugin.disable_task_interactions = true;
    let mut m = ContextManager::new(cfg, &trd).unwrap();

    process(&mut m, &trace_start(1, 100), &trd).unwrap().unwrap();
    let e2 = process(&mut m, &task_begin(10, 2, 200), &trd).unwrap().unwrap();
    assert_eq!(e2.context, 10);
    assert!(!e2.add_previous_event_nonce);
    assert_eq!(attr(&e2, EventAttrKey::RemoteTimelineId), None);
    assert_eq!(attr(&e2, EventAttrKey::RemoteNonce), None);
    assert_eq!(attr(&e2, EventAttrKey::InternalNonce), Some(&AttrValue::Integer(1)));

    let e3 = process(&mut m, &isr_begin(20, 3, 300), &trd).unwrap().unwrap();
    assert_eq!(e3.context, 20);
    assert_eq!(attr(&e3, EventAttrKey::RemoteTimelineId), None);
}
