use modality_trace_recorder_plugin::attr_keys::AttrValue;
use modality_trace_recorder_plugin::config::{
    ImportProtocol, IngestConfig, ItmCollectorConfig, PluginConfig, TcpCollectorConfig,
    TraceRecorderConfig, WireProtocol,
};
use modality_trace_recorder_plugin::opts::{
    IgnoredObjectClass, InteractionMode, ObjectClass, ReflectorOpts, RenameMapItem,
    TraceRecorderOpts,
};

fn no_rf_opts() -> ReflectorOpts {
    ReflectorOpts {
        config_file: None,
        auth_token: None,
        protocol_parent_url: None,
        allow_insecure_tls: false,
        run_id: None,
        time_domain: None,
    }
}

fn no_tr_opts() -> TraceRecorderOpts {
    TraceRecorderOpts {
        user_event_channel: false,
        user_event_format_string: false,
        user_event_format_string_channel: vec![],
        user_event_channel_name: vec![],
        user_event_formatted_string_name: vec![],
        user_event_fmt_arg_attr_keys: vec![],
        single_task_timeline: false,
        flatten_isr_timelines: false,
        disable_task_interactions: false,
        use_timeline_id_channel: false,
        deviant_event_id_base: None,
        custom_printf_event_id: None,
        startup_task_name: None,
        ignore_object_class: vec![],
        include_unknown_events: false,
        interaction_mode: None,
        cpu_utilization_measurement_window_ms: None,
    }
}

fn file_plugin() -> PluginConfig {
    let mut p = PluginConfig::default_config();
    p.run_id = Some("file-run".to_owned());
    p.startup_task_name = Some("m3".to_owned());
    p.single_task_timeline = true;
    p.interaction_mode = InteractionMode::Ipc;
    p
}

#[test]
fn command_line_overrides_the_file() {
    let mut ingest = IngestConfig::default_config();
    ingest.protocol_parent_url = Some("modality-ingest://127.0.0.1:14182".to_owned());
    ingest.additional_timeline_attributes = vec![("ci_run".to_owned(), AttrValue::Integer(1))];
    let mut rf = no_rf_opts();
    rf.run_id = Some("cli-run".to_owned());
    rf.auth_token = Some("abcd".to_owned());
    rf.allow_insecure_tls = true;
    let mut tr = no_tr_opts();
    tr.startup_task_name = Some("main".to_owned());
    tr.flatten_isr_timelines = true;
    tr.interaction_mode = Some(InteractionMode::FullyLinearized);
    tr.user_event_channel_name = vec![RenameMapItem::from_str("a:B").unwrap()];
    tr.ignore_object_class = vec![IgnoredObjectClass::from_str("queue").unwrap()];
    let cfg = TraceRecorderConfig::merge_with_opts(ingest, file_plugin(), rf, tr);
    assert_eq!(cfg.auth_token.as_deref(), Some("abcd"));
    assert!(cfg.ingest.allow_insecure_tls);
    assert_eq!(cfg.protocol_parent_url(), "modality-ingest://127.0.0.1:14182");
    assert_eq!(cfg.ingest.additional_timeline_attributes.len(), 1);
    assert_eq!(cfg.plugin.run_id.as_deref(), Some("cli-run"));
    assert_eq!(cfg.plugin.startup_task_name.as_deref(), Some("main"));
    assert!(cfg.plugin.single_task_timeline);
    assert!(cfg.plugin.flatten_isr_timelines);
    assert_eq!(cfg.plugin.interaction_mode, InteractionMode::FullyLinearized);
    assert_eq!(cfg.plugin.user_event_channel_rename_map.get("a"), Some("B"));
    assert!(cfg.plugin.ignored_object_classes.contains(ObjectClass::Queue));
}

#[test]
fn without_options_the_file_stands() {
    let cfg = TraceRecorderConfig::merge_with_opts(
        IngestConfig::default_config(),
        file_plugin(),
        no_rf_opts(),
        no_tr_opts(),
    );
    assert_eq!(cfg.auth_token, None);
    assert_eq!(cfg.protocol_parent_url(), "modality-ingest://127.0.0.1:14188");
    assert_eq!(cfg.plugin.run_id.as_deref(), Some("file-run"));
    assert_eq!(cfg.plugin.startup_task_name.as_deref(), Some("m3"));
    assert!(cfg.plugin.single_task_timeline);
    assert!(!cfg.plugin.flatten_isr_timelines);
    assert_eq!(cfg.plugin.interaction_mode, InteractionMode::Ipc);
}

#[test]
fn import_protocol_parsing() {
    assert_eq!(ImportProtocol::from_str("Snapshot"), Ok(ImportProtocol::Snapshot));
    assert_eq!(ImportProtocol::from_str(" streaming "), Ok(ImportProtocol::Streaming));
    assert_eq!(ImportProtocol::from_str("auto"), Ok(ImportProtocol::Auto));
    assert_eq!(ImportProtocol::from_str(" Bogus "), Err("Invalid import protocol 'bogus'".to_owned()));
    assert_eq!(ImportProtocol::default_protocol(), ImportProtocol::Auto);
    assert_eq!(ImportProtocol::Auto.resolve(true), ImportProtocol::Streaming);
    assert_eq!(ImportProtocol::Auto.resolve(false), ImportProtocol::Snapshot);
    assert_eq!(ImportProtocol::Snapshot.resolve(true), ImportProtocol::Snapshot);
}

#[test]
fn collector_defaults() {
    let itm = ItmCollectorConfig::default_config();
    assert_eq!(itm.stimulus_port, 1);
    assert_eq!(itm.speed, 4000);
    assert_eq!(itm.core, 0);
    assert_eq!(itm.protocol, WireProtocol::Swd);
    assert!(itm.elf_file.is_none());
    let tcp = TcpCollectorConfig::default_config();
    assert!(!tcp.disable_control_plane);
    assert!(tcp.remote.is_none());
}
