use modality_trace_recorder_plugin::attr_keys::{AttrValue, EventAttrKey, TimelineAttrKey};
use modality_trace_recorder_plugin::config::TraceRecorderConfig;
use modality_trace_recorder_plugin::context_manager::ContextEvent;
use modality_trace_recorder_plugin::error::Error;
use modality_trace_recorder_plugin::event::IsrEvent;
use modality_trace_recorder_plugin::recorder_data::Endianness;
use modality_trace_recorder_plugin::snapshot::{
    SnapshotData, SnapshotEvent, SnapshotEventKind, SnapshotFileOpenError, SnapshotImporter, SnapshotObject,
    SnapshotTaskEvent,
};

fn snapshot(port: &str, startup: &str) -> SnapshotData {
    SnapshotData {
        protocol: "snapshot".to_owned(),
        kernel_version: "[A1, 1A]".to_owned(),
        kernel_port: port.to_owned(),
        endianness: Endianness::Little,
        minor_version: 7,
        irq_priority_order: 0,
        filesize: 4096,
        num_events: 4,
        max_events: 100,
        buffer_is_full: false,
        frequency: 1_000,
        abs_time_last_event: 200,
        abs_time_last_event_second: 0,
        recorder_active: true,
        isr_tail_chaining_threshold: 0,
        heap_mem_usage: 64,
        using_16bit_handles: false,
        float_encoding: "little-endian".to_owned(),
        internal_error_occured: false,
        system_info: "info".to_owned(),
        tasks: vec![
            SnapshotObject { handle: 2, name: Some(startup.to_owned()) },
            SnapshotObject { handle: 10, name: Some("T1".to_owned()) },
            SnapshotObject { handle: 11, name: None },
        ],
        isrs: vec![SnapshotObject { handle: 20, name: Some("IRQ".to_owned()) }],
    }
}

fn task(kind: fn(SnapshotTaskEvent) -> SnapshotEventKind, handle: u32, ts: u64) -> SnapshotEvent {
    SnapshotEvent {
        event_type: "TASK_SWITCH_TASK_BEGIN".to_owned(),
        code: 0x34,
        timestamp: ts,
        kind: kind(SnapshotTaskEvent { handle, name: "T1".to_owned(), state: "Running".to_owned(), priority: 2 }),
    }
}

fn isr(handle: u32, ts: u64) -> SnapshotEvent {
    SnapshotEvent {
        event_type: "TASK_SWITCH_ISR_BEGIN".to_owned(),
        code: 0x30,
        timestamp: ts,
        kind: SnapshotEventKind::IsrBegin(IsrEvent { handle, name: "IRQ".to_owned(), priority: 5 }),
    }
}

fn attr<'a>(e: &'a ContextEvent, k: EventAttrKey) -> Option<&'a AttrValue> {
    e.attributes.get(&k)
}

#[test]
fn snapshot_events_go_on_their_timelines() {
    let d = snapshot("FreeRTOS", "(startup)");
    let mut imp = SnapshotImporter::new(TraceRecorderConfig::default_config(), &d).unwrap();
    let startup_id = imp.timeline_meta(2).unwrap().id();
    assert_eq!(
        imp.timeline_meta(2).unwrap().attributes().get(&TimelineAttrKey::NumEvents),
        Some(&AttrValue::Integer(4))
    );

    let e1 = imp.event(&task(SnapshotEventKind::TaskBegin, 10, 100)).unwrap().unwrap();
    assert_eq!(e1.context, 10);
    assert_eq!(e1.global_ordering, 0);
    assert_eq!(attr(&e1, EventAttrKey::TaskState), Some(&AttrValue::String("Running".to_owned())));
    assert_eq!(attr(&e1, EventAttrKey::RemoteTimelineId), Some(&AttrValue::TimelineId(startup_id)));
    assert_eq!(attr(&e1, EventAttrKey::RemoteTimestamp), Some(&AttrValue::Timestamp(0)));
    assert_eq!(attr(&e1, EventAttrKey::Timestamp), Some(&AttrValue::Timestamp(100_000_000)));
    assert_eq!(attr(&e1, EventAttrKey::EventCode), Some(&AttrValue::Integer(0x34)));
    let t1 = imp.timeline_meta(10).unwrap();
    assert_eq!(t1.attributes().get(&TimelineAttrKey::Name), Some(&AttrValue::String("T1".to_owned())));
    let t1_id = t1.id();

    let e2 = imp.event(&isr(20, 150)).unwrap().unwrap();
    assert_eq!(e2.context, 20);
    assert_eq!(e2.global_ordering, 1);
    assert_eq!(attr(&e2, EventAttrKey::RemoteTimelineId), Some(&AttrValue::TimelineId(t1_id)));
    assert_eq!(attr(&e2, EventAttrKey::RemoteTimestamp), Some(&AttrValue::Timestamp(100_000_000)));

    let low_power = SnapshotEvent {
        event_type: "LOWPOWER_BEGIN".to_owned(),
        code: 0x39,
        timestamp: 160,
        kind: SnapshotEventKind::LowPowerBegin,
    };
    assert!(imp.event(&low_power).unwrap().is_none());

    let e3 = imp.event(&task(SnapshotEventKind::TaskReady, 10, 200)).unwrap().unwrap();
    assert_eq!(e3.context, 20);
    assert_eq!(e3.global_ordering, 2);
    assert_eq!(attr(&e3, EventAttrKey::RemoteTimelineId), None);
}

#[test]
fn snapshot_refusals() {
    match SnapshotImporter::new(TraceRecorderConfig::default_config(), &snapshot("Zephyr", "(startup)")) {
        Err(Error::UnsupportedKernelPortIdentity(p)) => assert_eq!(p, "Zephyr"),
        _ => panic!("expected an unsupported kernel port"),
    }
    assert!(matches!(
        SnapshotImporter::new(TraceRecorderConfig::default_config(), &snapshot("FreeRTOS", "main")),
        Err(Error::MissingStartupTaskProperties)
    ));
    let mut imp = SnapshotImporter::new(TraceRecorderConfig::default_config(), &snapshot("FreeRTOS", "(startup)")).unwrap();
    assert!(matches!(
        imp.event(&task(SnapshotEventKind::TaskBegin, 99, 10)),
        Err(Error::TaskPropertiesLookup(99))
    ));
    let mut d = snapshot("FreeRTOS", "(startup)");
    d.num_events = 0;
    assert!(d.is_empty());
}

#[test]
fn snapshot_interactions_can_be_disabled() {
    let mut cfg = TraceRecorderConfig::default_config();
    cfg.plugin.disable_task_interactions = true;
    let mut imp = SnapshotImporter::new(cfg, &snapshot("FreeRTOS", "(startup)")).unwrap();
    let e1 = imp.event(&task(SnapshotEventKind::TaskBegin, 10, 100)).unwrap().unwrap();
    assert_eq!(e1.context, 10);
    assert_eq!(attr(&e1, EventAttrKey::RemoteTimelineId), None);
    assert_eq!(attr(&e1, EventAttrKey::RemoteTimestamp), None);
}

#[test]
fn unnamed_snapshot_tasks() {
    let mut imp = SnapshotImporter::new(TraceRecorderConfig::default_config(), &snapshot("FreeRTOS", "(startup)")).unwrap();
    imp.event(&task(SnapshotEventKind::TaskBegin, 11, 100)).unwrap().unwrap();
    assert_eq!(
        imp.timeline_meta(11).unwrap().attributes().get(&TimelineAttrKey::Name),
        Some(&AttrValue::String("<unnamed>:Task:11".to_owned()))
    );
}

#[test]
fn snapshot_file_open_error_message() {
    let e = SnapshotFileOpenError::Io("/tmp/dump.bin".to_owned(), "NotFound".to_owned());
    assert_eq!(
        e.message(),
        "Encountered and IO error while opening snapshot file '/tmp/dump.bin' (NotFound)"
    );
}
