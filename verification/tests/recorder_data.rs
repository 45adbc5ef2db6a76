use modality_trace_recorder_plugin::attr_keys::{
    AttrValue, EventAttrKey, EventAttributes, TimelineAttrKey, TimelineAttributes,
};
use modality_trace_recorder_plugin::config::{PluginConfig, TraceRecorderConfig};
use modality_trace_recorder_plugin::error::Error;
use modality_trace_recorder_plugin::event::{
    Argument, EventKind, MemoryEvent, QueueEvent, TaskEvent, TaskNotifyEvent, UserEvent,
};
use modality_trace_recorder_plugin::opts::{
    FormatArgAttributeKeysItem, FormatArgAttributeKeysSet, ObjectClass, RenameMap, RenameMapItem,
};
use modality_trace_recorder_plugin::recorder_data::{
    convert_timestamp, resolution_ns, ContextHandle, Endianness, ObjectEntry, RecorderData,
    PLUGIN_VERSION,
};

fn recorder(freq: u32) -> RecorderData {
    RecorderData {
        protocol: "Streaming".to_owned(),
        kernel_version: "FreeRTOS v10".to_owned(),
        kernel_port: "FreeRTOS".to_owned(),
        endianness: Endianness::Little,
        irq_priority_order: 0,
        isr_tail_chaining_threshold: 0,
        format_version: 14,
        num_cores: 1,
        platform_cfg: "FreeRTOS".to_owned(),
        platform_cfg_version: "1.2.0".to_owned(),
        platform_cfg_version_major: 1,
        platform_cfg_version_minor: 2,
        platform_cfg_version_patch: 0,
        heap_max: 4096,
        timer_type: "FreeRunning32Incr".to_owned(),
        timer_frequency: freq,
        timer_period: 0,
        timer_wraparounds: 0,
        os_tick_rate_hz: 1000,
        os_tick_count: 7,
        latest_timestamp: 500,
        objects: vec![
            ObjectEntry { handle: 2, class: Some(ObjectClass::Task), symbol: Some("(startup)".to_owned()) },
            ObjectEntry { handle: 10, class: Some(ObjectClass::Task), symbol: Some("Task1".to_owned()) },
            ObjectEntry { handle: 11, class: Some(ObjectClass::Task), symbol: Some(String::new()) },
            ObjectEntry { handle: 20, class: Some(ObjectClass::Isr), symbol: Some("IRQ".to_owned()) },
            ObjectEntry { handle: 30, class: None, symbol: None },
        ],
    }
}

fn integer(v: i64) -> AttrValue {
    AttrValue::Integer(v)
}

fn text(s: &str) -> AttrValue {
    AttrValue::String(s.to_owned())
}

#[test]
fn nanosecond_conversion() {
    assert_eq!(convert_timestamp(1_000_000, 5), Some(5_000));
    assert_eq!(convert_timestamp(3, 1), Some(333_333_333));
    assert_eq!(convert_timestamp(0, 5), None);
    assert_eq!(resolution_ns(1_000_000), Some(1_000));
    assert_eq!(resolution_ns(0), None);
}

#[test]
fn task_event_attributes() {
    let trd = recorder(1_000_000);
    let cfg = PluginConfig::default_config();
    let mut attrs = EventAttributes::new();
    let kind = EventKind::TaskBegin(TaskEvent { handle: 10, name: "Task1".to_owned(), priority: 3 });
    assert_eq!(trd.add_core_event_attributes(&cfg, 0x1035, &kind, &mut attrs), Ok(()));
    assert_eq!(attrs.get(&EventAttrKey::Name), Some(&text("TASK_SWITCH_TASK_BEGIN")));
    assert_eq!(attrs.get(&EventAttrKey::EventType), Some(&text("TASK_SWITCH_TASK_BEGIN")));
    assert_eq!(attrs.get(&EventAttrKey::EventCode), Some(&integer(0x1035)));
    assert_eq!(attrs.get(&EventAttrKey::EventId), Some(&integer(0x35)));
    assert_eq!(attrs.get(&EventAttrKey::ParameterCount), Some(&integer(1)));
    assert_eq!(attrs.get(&EventAttrKey::TaskName), Some(&text("Task1")));
    assert_eq!(attrs.get(&EventAttrKey::TaskPriority), Some(&integer(3)));
    assert_eq!(attrs.get(&EventAttrKey::ObjectHandle), Some(&integer(10)));
    assert_eq!(attrs.len(), 8);
}

#[test]
fn ticks_to_wait_in_nanoseconds() {
    let trd = recorder(1_000);
    let cfg = PluginConfig::default_config();
    let mut attrs = EventAttributes::new();
    let kind = EventKind::QueueReceiveBlock(QueueEvent {
        handle: 40,
        name: Some("q".to_owned()),
        ticks_to_wait: Some(3),
        messages_waiting: 0,
    });
    assert!(trd.add_core_event_attributes(&cfg, 0x61, &kind, &mut attrs).is_ok());
    assert_eq!(attrs.get(&EventAttrKey::QueueName), Some(&text("q")));
    assert_eq!(attrs.get(&EventAttrKey::TicksToWait), Some(&integer(3)));
    assert_eq!(attrs.get(&EventAttrKey::NanosToWait), Some(&AttrValue::Timestamp(3_000_000)));
    assert_eq!(attrs.get(&EventAttrKey::QueueMessagesWaiting), Some(&integer(0)));

    let unitless = recorder(0);
    let mut attrs = EventAttributes::new();
    let kind = EventKind::TaskNotifyWait(TaskNotifyEvent { handle: 10, task_name: None, ticks_to_wait: Some(9) });
    assert!(unitless.add_core_event_attributes(&cfg, 0x5b, &kind, &mut attrs).is_ok());
    assert_eq!(attrs.get(&EventAttrKey::TicksToWait), Some(&integer(9)));
    assert_eq!(attrs.get(&EventAttrKey::NanosToWait), None);
    assert_eq!(attrs.get(&EventAttrKey::TaskName), None);
}

#[test]
fn memory_event_attributes() {
    let trd = recorder(1_000);
    let cfg = PluginConfig::default_config();
    let mut attrs = EventAttributes::new();
    let kind = EventKind::MemoryAlloc(MemoryEvent {
        address: 0x2000_0000,
        size: 64,
        heap_current: 128,
        heap_high_water_mark: 256,
        heap_max: 4096,
    });
    assert!(trd.add_core_event_attributes(&cfg, 0x38, &kind, &mut attrs).is_ok());
    assert_eq!(attrs.get(&EventAttrKey::MemoryAddress), Some(&integer(0x2000_0000)));
    assert_eq!(attrs.get(&EventAttrKey::MemorySize), Some(&integer(64)));
    assert_eq!(attrs.get(&EventAttrKey::MemoryHeapMax), Some(&integer(4096)));
}

fn user_event(channel: &str, fmt: &str, formatted: &str, args: Vec<Argument>) -> EventKind {
    EventKind::User(UserEvent {
        channel: channel.to_owned(),
        format_string: fmt.to_owned(),
        formatted_string: formatted.to_owned(),
        args,
    })
}

#[test]
fn user_event_naming() {
    let trd = recorder(1_000);
    let mut cfg = PluginConfig::default_config();
    let kind = user_event("ch", "%d", "value 5", vec![Argument::I32(5)]);

    let mut attrs = EventAttributes::new();
    assert!(trd.add_core_event_attributes(&cfg, 0x98, &kind, &mut attrs).is_ok());
    assert_eq!(attrs.get(&EventAttrKey::Name), Some(&text("USER_EVENT")));
    assert_eq!(attrs.get(&EventAttrKey::UserChannel), Some(&text("ch")));
    assert_eq!(attrs.get(&EventAttrKey::UserFormattedString), Some(&text("value 5")));
    assert_eq!(attrs.get(&EventAttrKey::UserArg0), Some(&integer(5)));

    cfg.user_event_channel = true;
    let mut attrs = EventAttributes::new();
    assert!(trd.add_core_event_attributes(&cfg, 0x98, &kind, &mut attrs).is_ok());
    assert_eq!(attrs.get(&EventAttrKey::Name), Some(&text("ch")));

    cfg.user_event_channel = false;
    cfg.user_event_format_string = true;
    let mut attrs = EventAttributes::new();
    assert!(trd.add_core_event_attributes(&cfg, 0x98, &kind, &mut attrs).is_ok());
    assert_eq!(attrs.get(&EventAttrKey::Name), Some(&text("value 5")));

    cfg.user_event_channel_rename_map = RenameMap::from_items(vec![RenameMapItem::from_str("ch:CH_EVENT").unwrap()]);
    let mut attrs = EventAttributes::new();
    assert!(trd.add_core_event_attributes(&cfg, 0x98, &kind, &mut attrs).is_ok());
    assert_eq!(attrs.get(&EventAttrKey::Name), Some(&text("CH_EVENT")));

    cfg.user_event_formatted_string_rename_map =
        RenameMap::from_items(vec![RenameMapItem::from_str("value 5:FIVE").unwrap()]);
    let mut attrs = EventAttributes::new();
    assert!(trd.add_core_event_attributes(&cfg, 0x98, &kind, &mut attrs).is_ok());
    assert_eq!(attrs.get(&EventAttrKey::Name), Some(&text("FIVE")));
}

#[test]
fn recorder_warnings_are_named() {
    let trd = recorder(1_000);
    let cfg = PluginConfig::default_config();
    let kind = user_event("#WFR", "%s", "oops", vec![Argument::String("oops".to_owned())]);
    let mut attrs = EventAttributes::new();
    assert!(trd.add_core_event_attributes(&cfg, 0x98, &kind, &mut attrs).is_ok());
    assert_eq!(attrs.get(&EventAttrKey::Name), Some(&text("WARNING_FROM_RECORDER")));
    assert_eq!(attrs.get(&EventAttrKey::UserArg0), Some(&text("oops")));
}

#[test]
fn user_event_custom_argument_keys() {
    let trd = recorder(1_000);
    let mut cfg = PluginConfig::default_config();
    cfg.user_event_fmt_arg_attr_keys = FormatArgAttributeKeysSet::from_items(vec![
        FormatArgAttributeKeysItem::from_str("stats:%s %u:task,size").unwrap(),
    ]);
    let kind = user_event(
        "stats",
        "%s %u",
        "idle 3",
        vec![Argument::String("idle".to_owned()), Argument::U32(3)],
    );
    let mut attrs = EventAttributes::new();
    assert!(trd.add_core_event_attributes(&cfg, 0x98, &kind, &mut attrs).is_ok());
    assert_eq!(attrs.get(&EventAttrKey::CustomUserArg("task".to_owned())), Some(&text("idle")));
    assert_eq!(attrs.get(&EventAttrKey::CustomUserArg("size".to_owned())), Some(&integer(3)));
    assert_eq!(attrs.get(&EventAttrKey::UserArg0), None);

    let short = user_event("stats", "%s %u", "idle", vec![Argument::String("idle".to_owned())]);
    let mut attrs = EventAttributes::new();
    assert_eq!(
        trd.add_core_event_attributes(&cfg, 0x98, &short, &mut attrs),
        Err(Error::FmtArgAttrKeysCountMismatch(
            "%s %u".to_owned(),
            vec!["task".to_owned(), "size".to_owned()]
        ))
    );
}

#[test]
fn too_many_user_event_arguments() {
    let trd = recorder(1_000);
    let cfg = PluginConfig::default_config();
    let args: Vec<Argument> = (0..16).map(|i| Argument::U8(i)).collect();
    let kind = user_event("ch", "many", "many", args);
    let mut attrs = EventAttributes::new();
    assert_eq!(
        trd.add_core_event_attributes(&cfg, 0x98, &kind, &mut attrs),
        Err(Error::ExceededMaxUserEventArgs)
    );
    assert_eq!(attrs.get(&EventAttrKey::UserArg14), Some(&integer(14)));

    let args: Vec<Argument> = (0..15).map(|i| Argument::U8(i)).collect();
    let kind = user_event("ch", "many", "many", args);
    let mut attrs = EventAttributes::new();
    assert!(trd.add_core_event_attributes(&cfg, 0x98, &kind, &mut attrs).is_ok());
}

#[test]
fn timeline_attributes_of_contexts() {
    let trd = recorder(1_000);
    let mut cfg = PluginConfig::default_config();

    let mut attrs = TimelineAttributes::new();
    assert!(trd.add_core_timeline_attributes(&cfg, ContextHandle::Task(10), &mut attrs).is_ok());
    assert_eq!(attrs.get(&TimelineAttrKey::Name), Some(&text("Task1")));
    assert_eq!(attrs.get(&TimelineAttrKey::Description), Some(&text("FreeRTOS Task 'Task1'")));
    assert_eq!(attrs.get(&TimelineAttrKey::ObjectHandle), Some(&integer(10)));

    let mut attrs = TimelineAttributes::new();
    assert!(trd.add_core_timeline_attributes(&cfg, ContextHandle::Task(11), &mut attrs).is_ok());
    assert_eq!(attrs.get(&TimelineAttrKey::Name), Some(&text("<unnamed>:Task:11")));

    let mut attrs = TimelineAttributes::new();
    assert!(trd.add_core_timeline_attributes(&cfg, ContextHandle::Isr(20), &mut attrs).is_ok());
    assert_eq!(attrs.get(&TimelineAttrKey::Description), Some(&text("FreeRTOS ISR 'IRQ'")));

    let mut attrs = TimelineAttributes::new();
    assert_eq!(
        trd.add_core_timeline_attributes(&cfg, ContextHandle::Task(30), &mut attrs),
        Err(Error::TaskPropertiesLookup(30))
    );
    assert_eq!(
        trd.add_core_timeline_attributes(&cfg, ContextHandle::Isr(99), &mut attrs),
        Err(Error::IsrPropertiesLookup(99))
    );
    assert_eq!(attrs.len(), 0);

    cfg.startup_task_name = Some("main".to_owned());
    let mut attrs = TimelineAttributes::new();
    assert!(trd.add_core_timeline_attributes(&cfg, ContextHandle::Task(2), &mut attrs).is_ok());
    assert_eq!(attrs.get(&TimelineAttrKey::Name), Some(&text("main")));
    assert_eq!(attrs.get(&TimelineAttrKey::Description), Some(&text("FreeRTOS Task '(startup)'")));
}

#[test]
fn object_lookups() {
    let trd = recorder(1_000);
    assert_eq!(trd.object_handle("Task1"), Some(10));
    assert_eq!(trd.object_handle("IRQ"), Some(20));
    assert_eq!(trd.object_handle("nothing"), None);
    assert_eq!(trd.startup_task_handle(), Ok(2));
    assert_eq!(trd.class_of(20), Some(ObjectClass::Isr));
    assert_eq!(trd.class_of(30), None);
}

#[test]
fn common_timeline_attributes() {
    let trd = recorder(1_000);
    let mut cfg = TraceRecorderConfig::default_config();
    cfg.plugin.run_id = Some("42".to_owned());
    cfg.ingest.additional_timeline_attributes = vec![("ci_run".to_owned(), integer(1))];
    cfg.ingest.override_timeline_attributes = vec![("ci_run".to_owned(), integer(2))];
    let attrs = trd.common_timeline_attributes(&cfg);
    assert_eq!(attrs.get(&TimelineAttrKey::RunId), Some(&integer(42)));
    match attrs.get(&TimelineAttrKey::TimeDomain) {
        Some(AttrValue::String(s)) => {
            assert_eq!(s.len(), 36);
            assert_eq!(s.as_bytes()[8], b'-');
        }
        other => panic!("unexpected time domain {other:?}"),
    }
    assert_eq!(attrs.get(&TimelineAttrKey::TimeResolution), Some(&AttrValue::Timestamp(1_000_000)));
    assert_eq!(attrs.get(&TimelineAttrKey::ClockStyle), Some(&text("relative")));
    assert_eq!(attrs.get(&TimelineAttrKey::Endianness), Some(&text("little-endian")));
    assert_eq!(attrs.get(&TimelineAttrKey::LatestTimestampTicks), Some(&integer(500)));
    assert_eq!(attrs.get(&TimelineAttrKey::LatestTimestamp), Some(&AttrValue::Timestamp(500_000_000)));
    assert_eq!(attrs.get(&TimelineAttrKey::PluginVersion), Some(&text(PLUGIN_VERSION)));
    assert_eq!(attrs.get(&TimelineAttrKey::InteractionMode), Some(&text("fully-linearized")));
    assert_eq!(attrs.get(&TimelineAttrKey::Custom("ci_run".to_owned())), Some(&integer(2)));
}

#[test]
fn configured_uuids_are_used() {
    let trd = recorder(1_000);
    let mut cfg = TraceRecorderConfig::default_config();
    cfg.plugin.run_id = Some("a1a2a3a4-b1b2-c1c2-d1d2-d3d4d5d6d7d1".to_owned());
    cfg.plugin.time_domain = Some("A1A2A3A4B1B2C1C2D1D2D3D4D5D6D7D3".to_owned());
    let attrs = trd.common_timeline_attributes(&cfg);
    assert_eq!(attrs.get(&TimelineAttrKey::RunId), Some(&text("a1a2a3a4-b1b2-c1c2-d1d2-d3d4d5d6d7d1")));
    assert_eq!(
        attrs.get(&TimelineAttrKey::TimeDomain),
        Some(&text("a1a2a3a4-b1b2-c1c2-d1d2-d3d4d5d6d7d3"))
    );

    cfg.plugin.run_id = Some("not-an-id".to_owned());
    match trd.common_timeline_attributes(&cfg).get(&TimelineAttrKey::RunId) {
        Some(AttrValue::String(s)) => assert!(s.len() == 36 && s != "not-an-id"),
        other => panic!("unexpected run ID {other:?}"),
    }
}

#[test]
fn timeline_key_config_names() {
    assert_eq!(TimelineAttrKey::RunId.into_cfg_attr(), "run_id");
    assert_eq!(TimelineAttrKey::Custom("x".to_owned()).name(), "timeline.x");
}

#[test]
fn timeline_keys_are_enumerated() {
    let keys = TimelineAttrKey::enumerate();
    assert_eq!(keys.len(), 49);
    assert_eq!(keys[0], TimelineAttrKey::Name);
    assert_eq!(keys[48], TimelineAttrKey::SystemInfo);
    assert!(keys.iter().all(|k| !matches!(k, TimelineAttrKey::Custom(_))));
}
