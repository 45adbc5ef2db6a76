use modality_trace_recorder_plugin::attr_keys::{AttrValue, EventAttrKey};
use modality_trace_recorder_plugin::config::TraceRecorderConfig;
use modality_trace_recorder_plugin::context_manager::ContextManager;
use modality_trace_recorder_plugin::deviant::{uuid_attr_text, DeviantEventKind, DeviantEventParser};
use modality_trace_recorder_plugin::error::Error;
use modality_trace_recorder_plugin::event::{Event, EventKind, TraceStartEvent, UnknownEvent};
use modality_trace_recorder_plugin::opts::ObjectClass;
use modality_trace_recorder_plugin::recorder_data::{Endianness, ObjectEntry, RecorderData};

#[test]
fn kinds_and_names() {
    assert_eq!(DeviantEventKind::MutatorAnnounced.to_modality_name(), "modality.mutator.announced");
    assert_eq!(DeviantEventKind::MutationInjected.to_modality_name(), "modality.mutation.injected");
    assert_eq!(DeviantEventKind::MutatorRetired.expected_parameter_byte_count(), 16);
    assert_eq!(DeviantEventKind::MutationTriggered.expected_parameter_byte_count(), 36);
    assert_eq!(DeviantEventKind::from_base_event(0x0F00, 0x4F02), Some(DeviantEventKind::MutationCmdCommunicated));
    assert_eq!(DeviantEventKind::from_base_event(0x0F00, 0x0F06), None);
    assert_eq!(DeviantEventKind::from_base_event(0x0F00, 0x0EFF), None);
}

#[test]
fn parser_base_must_be_an_event_id() {
    assert!(DeviantEventParser::new(Endianness::Little, 0x0FFF).is_ok());
    match DeviantEventParser::new(Endianness::Little, 0x1000) {
        Err(Error::DeviantEvent(msg)) => assert_eq!(msg, "The deviant custom event base ID 1000 exceeds the max"),
        _ => panic!("expected an error"),
    }
}

const UUID_PARAMS: [u32; 4] = [0x0302_0100, 0x0706_0504, 0x0b0a_0908, 0x0f0e_0d0c];

#[test]
fn parses_mutator_and_mutation_events() {
    let mut p = DeviantEventParser::new(Endianness::Little, 0x0F00).unwrap();
    let ev = p.parse(0x4F00, &UUID_PARAMS).unwrap().unwrap();
    assert_eq!(ev.kind, DeviantEventKind::MutatorAnnounced);
    assert_eq!(uuid_attr_text(&ev.mutator_id), "00010203-0405-0607-0809-0a0b0c0d0e0f");
    assert_eq!(ev.mutator_id.value, AttrValue::BigInt(0x0f0e0d0c0b0a09080706050403020100));
    assert!(ev.mutation_id.is_none());
    assert!(ev.mutation_success.is_none());

    let mut params = UUID_PARAMS.to_vec();
    params.extend_from_slice(&UUID_PARAMS);
    params.push(1);
    let ev = p.parse(0x9F04, &params).unwrap().unwrap();
    assert_eq!(ev.kind, DeviantEventKind::MutationTriggered);
    assert_eq!(ev.mutation_success, Some(AttrValue::Bool(true)));
    assert!(ev.mutation_id.is_some());

    let mut big = DeviantEventParser::new(Endianness::Big, 0x0F00).unwrap();
    let mut params = UUID_PARAMS.to_vec();
    params.extend_from_slice(&UUID_PARAMS);
    params.push(0x0100_0000);
    let ev = big.parse(0x9F04, &params).unwrap().unwrap();
    assert_eq!(ev.mutation_success, Some(AttrValue::Bool(true)));
    params.pop();
    params.push(0);
    let ev = big.parse(0x9F04, &params).unwrap().unwrap();
    assert_eq!(ev.mutation_success, Some(AttrValue::Bool(false)));
}

#[test]
fn wrong_parameter_count_is_an_error() {
    let mut p = DeviantEventParser::new(Endianness::Little, 0x0F00).unwrap();
    match p.parse(0x2F01, &[1, 2]) {
        Err(Error::DeviantEvent(msg)) => assert_eq!(
            msg,
            "The event 2F01 (modality.mutator.retired) has an incorrect number of parameter bytes (8), expected 16"
        ),
        _ => panic!("expected an error"),
    }
    assert!(p.parse(0x2001, &[1, 2]).unwrap().is_none());
}

#[test]
fn deviant_events_through_the_manager() {
    let trd = RecorderData {
        protocol: "Streaming".to_owned(),
        kernel_version: "v10".to_owned(),
        kernel_port: "FreeRTOS".to_owned(),
        endianness: Endianness::Little,
        irq_priority_order: 0,
        isr_tail_chaining_threshold: 0,
        format_version: 14,
        num_cores: 1,
        platform_cfg: "FreeRTOS".to_owned(),
        platform_cfg_version: "1.0.0".to_owned(),
        platform_cfg_version_major: 1,
        platform_cfg_version_minor: 0,
        platform_cfg_version_patch: 0,
        heap_max: 0,
        timer_type: "t".to_owned(),
        timer_frequency: 0,
        timer_period: 0,
        timer_wraparounds: 0,
        os_tick_rate_hz: 1000,
        os_tick_count: 0,
        latest_timestamp: 0,
        objects: vec![ObjectEntry { handle: 2, class: Some(ObjectClass::Task), symbol: Some("(startup)".to_owned()) }],
    };
    let mut cfg = TraceRecorderConfig::default_config();
    cfg.plugin.deviant_event_id_base = Some(0x0F00);
    let mut m = ContextManager::new(cfg, &trd).unwrap();
    let start = Event {
        code: 0x2001,
        event_count: 1,
        timestamp: 1,
        kind: EventKind::TraceStart(TraceStartEvent { current_task_handle: 2, current_task: "(startup)".to_owned() }),
    };
    assert!(m.process_event(start.code, &start, &trd).unwrap().is_some());
    let dev = Event { code: 0x4F00, event_count: 2, timestamp: 2, kind: EventKind::Unknown(UnknownEvent { parameters: UUID_PARAMS.to_vec() }) };
    let e = m.process_event(dev.code, &dev, &trd).unwrap().unwrap();
    assert_eq!(
        e.attributes.get(&EventAttrKey::InternalMutatorId),
        Some(&AttrValue::String("00010203-0405-0607-0809-0a0b0c0d0e0f".to_owned()))
    );
    assert_eq!(e.attributes.get(&EventAttrKey::MutatorId), Some(&AttrValue::BigInt(0x0f0e0d0c0b0a09080706050403020100)));
}
