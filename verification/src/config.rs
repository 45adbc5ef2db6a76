//! Plugin configuration: the configuration-file values, the command-line overrides and
//! how they merge.

use crate::attr_keys::AttrValue;
use crate::opts::{
    FormatArgAttributeKeysItem, FormatArgAttributeKeysSet, IgnoredObjectClass,
    IgnoredObjectClasses, InteractionMode, ReflectorOpts, RenameMap, RenameMapItem,
    TraceRecorderOpts,
};
use crate::order::TotallyOrdered;
use crate::text::{chars_of, lowercase, str_to_lowercase, string_from_chars, trim, trim_chars};
use vstd::string::*;
use vstd::prelude::*;

verus! {

/// Which plugin's configuration table to read
#[derive(Copy, Clone, PartialEq, Eq, Structural, Debug)]
pub enum TraceRecorderConfigEntry {
    Importer,
    TcpCollector,
    ItmCollector,
}

/// The trace protocol of a file to import
#[derive(Copy, Clone, PartialEq, Eq, Structural, Debug)]
pub enum ImportProtocol {
    Snapshot,
    Streaming,
    Auto,
}

/// Importer plugin settings
pub struct ImportConfig {
    pub protocol: ImportProtocol,
    pub file: Option<String>,
}

/// TCP collector plugin settings; the connect timeout is in milliseconds and the remote is
/// a socket address text
pub struct TcpCollectorConfig {
    pub disable_control_plane: bool,
    pub restart: bool,
    pub connect_timeout_ms: Option<u64>,
    pub remote: Option<String>,
}

/// The debug probe wire protocol
#[derive(Copy, Clone, PartialEq, Eq, Structural, Debug)]
pub enum WireProtocol {
    Swd,
    Jtag,
}

/// ITM collector plugin settings
pub struct ItmCollectorConfig {
    pub disable_control_plane: bool,
    pub restart: bool,
    pub elf_file: Option<String>,
    pub command_data_addr: Option<u64>,
    pub command_len_addr: Option<u64>,
    pub stimulus_port: u8,
    pub probe_selector: Option<String>,
    pub chip: Option<String>,
    pub protocol: WireProtocol,
    pub speed: u32,
    pub core: usize,
    pub clk: Option<u32>,
    pub baud: Option<u32>,
    pub reset: bool,
}

pub const DEFAULT_STIMULUS_PORT: u8 = 1;

pub const DEFAULT_SPEED: u32 = 4000;

pub const DEFAULT_CORE: usize = 0;

/// The settings that drive trace processing
pub struct PluginConfig {
    pub run_id: Option<String>,
    pub time_domain: Option<String>,
    pub startup_task_name: Option<String>,
    pub single_task_timeline: bool,
    pub flatten_isr_timelines: bool,
    pub disable_task_interactions: bool,
    pub ignored_object_classes: IgnoredObjectClasses,
    pub user_event_channel: bool,
    pub user_event_format_string: bool,
    pub user_event_channel_rename_map: RenameMap,
    pub user_event_formatted_string_rename_map: RenameMap,
    pub user_event_fmt_arg_attr_keys: FormatArgAttributeKeysSet,
    pub use_timeline_id_channel: bool,
    pub deviant_event_id_base: Option<u16>,
    pub custom_printf_event_id: Option<u16>,
    pub include_unknown_events: bool,
    pub interaction_mode: InteractionMode,
    /// The CPU utilization measurement window in milliseconds
    pub cpu_utilization_measurement_window_ms: Option<u64>,
    pub import: ImportConfig,
    pub tcp_collector: TcpCollectorConfig,
    pub itm_collector: ItmCollectorConfig,
}

impl PluginConfig {
    pub open spec fn wf(&self) -> bool {
        &&& self.ignored_object_classes.wf()
        &&& self.user_event_channel_rename_map.wf()
        &&& self.user_event_formatted_string_rename_map.wf()
        &&& self.user_event_fmt_arg_attr_keys.wf()
    }
}

/// Ingest settings: where to connect and the timeline attributes the configuration adds
/// (each a key text and a value) or overrides
pub struct IngestConfig {
    pub protocol_parent_url: Option<String>,
    pub allow_insecure_tls: bool,
    pub additional_timeline_attributes: Vec<(String, AttrValue)>,
    pub override_timeline_attributes: Vec<(String, AttrValue)>,
}

/// The whole configuration: the auth token, the ingest settings and the plugin settings
pub struct TraceRecorderConfig {
    pub auth_token: Option<String>,
    pub ingest: IngestConfig,
    pub plugin: PluginConfig,
}


impl ImportProtocol {
    /// The protocol's configuration text
    pub open spec fn spec_name(self) -> Seq<char> {
        match self {
            ImportProtocol::Snapshot => "snapshot"@,
            ImportProtocol::Streaming => "streaming"@,
            ImportProtocol::Auto => "auto"@,
        }
    }

    /// The default protocol: detect it from the data
    pub fn default_protocol() -> (r: ImportProtocol)
        ensures
            r == ImportProtocol::Auto,
    {
        ImportProtocol::Auto
    }

    /// The protocol named by an already trimmed and lowercased text
    pub fn from_lowercase_name(name: &str) -> (r: Result<ImportProtocol, String>)
        ensures
            match r {
                Ok(p) => p.spec_name() == name@,
                Err(e) => name@ != "snapshot"@ && name@ != "streaming"@ && name@ != "auto"@ && e@
                    == "Invalid import protocol '"@ + name@ + "'"@,
            },
    {
        proof {
            reveal_strlit("snapshot");
            reveal_strlit("streaming");
            reveal_strlit("auto");
        }
        if crate::text::text_eq(name, "snapshot") {
            Ok(ImportProtocol::Snapshot)
        } else if crate::text::text_eq(name, "streaming") {
            Ok(ImportProtocol::Streaming)
        } else if crate::text::text_eq(name, "auto") {
            Ok(ImportProtocol::Auto)
        } else {
            Err(String::from_str("Invalid import protocol '").concat(name).concat("'"))
        }
    }

    /// Parses `snapshot`, `streaming` or `auto`, ignoring surrounding whitespace and case
    pub fn from_str(s: &str) -> (r: Result<ImportProtocol, String>)
        ensures
            ({
                let n = lowercase(trim(s@));
                match r {
                    Ok(p) => p.spec_name() == n,
                    Err(e) => n != "snapshot"@ && n != "streaming"@ && n != "auto"@ && e@
                        == "Invalid import protocol '"@ + n + "'"@,
                }
            }),
    {
        let cs = chars_of(s);
        let t = trim_chars(cs.as_slice());
        let ts = string_from_chars(t.as_slice());
        let lower = str_to_lowercase(ts.as_str());
        ImportProtocol::from_lowercase_name(lower.as_str())
    }

    /// The protocol to import with: auto detection picks streaming when the data starts
    /// with the streaming protocol's start word, else snapshot
    pub fn resolve(self, found_psf_word: bool) -> (r: ImportProtocol)
        ensures
            r == match self {
                ImportProtocol::Auto => if found_psf_word {
                    ImportProtocol::Streaming
                } else {
                    ImportProtocol::Snapshot
                },
                p => p,
            },
    {
        match self {
            ImportProtocol::Auto => if found_psf_word {
                ImportProtocol::Streaming
            } else {
                ImportProtocol::Snapshot
            },
            p => p,
        }
    }
}

impl ImportConfig {
    pub fn default_config() -> (r: ImportConfig)
        ensures
            r.protocol == ImportProtocol::Auto,
            r.file is None,
    {
        ImportConfig { protocol: ImportProtocol::Auto, file: None }
    }
}

impl TcpCollectorConfig {
    pub fn default_config() -> (r: TcpCollectorConfig)
        ensures
            !r.disable_control_plane,
            !r.restart,
            r.connect_timeout_ms is None,
            r.remote is None,
    {
        TcpCollectorConfig { disable_control_plane: false, restart: false, connect_timeout_ms: None, remote: None }
    }
}

impl ItmCollectorConfig {
    /// The defaults: stimulus port 1, the SWD protocol at 4000 kHz on core 0, and nothing
    /// else set
    pub fn default_config() -> (r: ItmCollectorConfig)
        ensures
            !r.disable_control_plane,
            !r.restart,
            r.elf_file is None,
            r.command_data_addr is None,
            r.command_len_addr is None,
            r.stimulus_port == DEFAULT_STIMULUS_PORT,
            r.probe_selector is None,
            r.chip is None,
            r.protocol == WireProtocol::Swd,
            r.speed == DEFAULT_SPEED,
            r.core == DEFAULT_CORE,
            r.clk is None,
            r.baud is None,
            !r.reset,
    {
        ItmCollectorConfig {
            disable_control_plane: false,
            restart: false,
            elf_file: None,
            command_data_addr: None,
            command_len_addr: None,
            stimulus_port: DEFAULT_STIMULUS_PORT,
            probe_selector: None,
            chip: None,
            protocol: WireProtocol::Swd,
            speed: DEFAULT_SPEED,
            core: DEFAULT_CORE,
            clk: None,
            baud: None,
            reset: false,
        }
    }
}

/// The default ingest protocol parent service address
pub open spec fn default_protocol_parent_url() -> Seq<char> {
    "modality-ingest://127.0.0.1:14188"@
}

/// A configured value overridden by a command-line one when that is given
pub open spec fn overridden<T>(cli: Option<T>, file: Option<T>) -> Option<T> {
    match cli {
        Some(v) => Some(v),
        None => file,
    }
}

/// The texts of optional text values
pub open spec fn opt_text(v: Option<String>) -> Option<Seq<char>> {
    match v {
        Some(s) => Some(s@),
        None => None,
    }
}

/// The configuration that merging the command-line options into the configuration file's
/// values gives
pub open spec fn merged_config(
    ingest: IngestConfig,
    cfg_plugin: PluginConfig,
    rf_opts: ReflectorOpts,
    tr_opts: TraceRecorderOpts,
    r: TraceRecorderConfig,
) -> bool {
    &&& r.plugin.wf()
    &&& opt_text(r.auth_token) == opt_text(rf_opts.auth_token)
    &&& opt_text(r.ingest.protocol_parent_url) == overridden(
            opt_text(rf_opts.protocol_parent_url),
            opt_text(ingest.protocol_parent_url)
    )
    &&& r.ingest.allow_insecure_tls == (rf_opts.allow_insecure_tls || ingest.allow_insecure_tls)
    &&& r.ingest.additional_timeline_attributes == ingest.additional_timeline_attributes
    &&& r.ingest.override_timeline_attributes == ingest.override_timeline_attributes
    &&& opt_text(r.plugin.run_id) == overridden(opt_text(rf_opts.run_id), opt_text(cfg_plugin.run_id))
    &&& opt_text(r.plugin.time_domain) == overridden(
            opt_text(rf_opts.time_domain),
            opt_text(cfg_plugin.time_domain)
    )
    &&& opt_text(r.plugin.startup_task_name) == overridden(
            opt_text(tr_opts.startup_task_name),
            opt_text(cfg_plugin.startup_task_name)
    )
    &&& r.plugin.single_task_timeline == (tr_opts.single_task_timeline
            || cfg_plugin.single_task_timeline)
    &&& r.plugin.flatten_isr_timelines == (tr_opts.flatten_isr_timelines
            || cfg_plugin.flatten_isr_timelines)
    &&& r.plugin.disable_task_interactions == (tr_opts.disable_task_interactions
            || cfg_plugin.disable_task_interactions)
    &&& r.plugin.user_event_channel == (tr_opts.user_event_channel || cfg_plugin.user_event_channel)
    &&& r.plugin.user_event_format_string == (tr_opts.user_event_format_string
            || cfg_plugin.user_event_format_string)
    &&& r.plugin.use_timeline_id_channel == (tr_opts.use_timeline_id_channel
            || cfg_plugin.use_timeline_id_channel)
    &&& r.plugin.include_unknown_events == (tr_opts.include_unknown_events
            || cfg_plugin.include_unknown_events)
    &&& r.plugin.deviant_event_id_base == overridden(
            tr_opts.deviant_event_id_base,
            cfg_plugin.deviant_event_id_base
    )
    &&& r.plugin.custom_printf_event_id == overridden(
            tr_opts.custom_printf_event_id,
            cfg_plugin.custom_printf_event_id
    )
    &&& r.plugin.interaction_mode == match tr_opts.interaction_mode {
            Some(m) => m,
            None => cfg_plugin.interaction_mode
    }
    &&& r.plugin.cpu_utilization_measurement_window_ms == overridden(
            tr_opts.cpu_utilization_measurement_window_ms,
            cfg_plugin.cpu_utilization_measurement_window_ms
    )
    &&& r.plugin.ignored_object_classes@.to_set() == (if tr_opts.ignore_object_class@.len() > 0 {
            tr_opts.ignore_object_class@.map_values(|c: IgnoredObjectClass| c.order_view()).to_set()
    } else {
            cfg_plugin.ignored_object_classes@.to_set()
    })
    &&& r.plugin.user_event_channel_rename_map@.to_set() == (if tr_opts.user_event_channel_name@.len() > 0 {
            tr_opts.user_event_channel_name@.map_values(|i: RenameMapItem| i.order_view()).to_set()
    } else {
            cfg_plugin.user_event_channel_rename_map@.to_set()
    })
    &&& r.plugin.user_event_formatted_string_rename_map@.to_set() == (if tr_opts.user_event_formatted_string_name@.len() > 0 {
            tr_opts.user_event_formatted_string_name@.map_values(
                |i: RenameMapItem| i.order_view(),
            ).to_set()
    } else {
            cfg_plugin.user_event_formatted_string_rename_map@.to_set()
    })
    &&& r.plugin.user_event_fmt_arg_attr_keys@.to_set() == (if tr_opts.user_event_fmt_arg_attr_keys@.len() > 0 {
            tr_opts.user_event_fmt_arg_attr_keys@.map_values(
                |i: FormatArgAttributeKeysItem| i.order_view(),
            ).to_set()
    } else {
            cfg_plugin.user_event_fmt_arg_attr_keys@.to_set()
    })
    &&& r.plugin.import == cfg_plugin.import
    &&& r.plugin.tcp_collector == cfg_plugin.tcp_collector
    &&& r.plugin.itm_collector == cfg_plugin.itm_collector
}

impl TraceRecorderConfig {
    /// The ingest protocol parent service address: the configured one or the default
    pub fn protocol_parent_url(&self) -> (r: String)
        ensures
            r@ == match self.ingest.protocol_parent_url {
                Some(u) => u@,
                None => default_protocol_parent_url(),
            },
    {
        match &self.ingest.protocol_parent_url {
            Some(u) => u.clone(),
            None => {
                proof {
                    reveal_strlit("modality-ingest://127.0.0.1:14188");
                }
                String::from_str("modality-ingest://127.0.0.1:14188")
            },
        }
    }

    /// The configuration after the command-line options: a given option overrides the
    /// configuration file's value, a set flag turns the setting on, and non-empty lists
    /// replace the configured ones; the auth token comes from the command line only
    pub fn merge_with_opts(
        ingest: IngestConfig,
        cfg_plugin: PluginConfig,
        rf_opts: ReflectorOpts,
        tr_opts: TraceRecorderOpts,
    ) -> (r: TraceRecorderConfig)
        requires
            cfg_plugin.wf(),
        ensures
            merged_config(ingest, cfg_plugin, rf_opts, tr_opts, r),
    {
        let mut ingest = ingest;
        if let Some(url) = rf_opts.protocol_parent_url {
            ingest.protocol_parent_url = Some(url);
        }
        if rf_opts.allow_insecure_tls {
            ingest.allow_insecure_tls = true;
        }
        let c = cfg_plugin;
        let ignore_empty = tr_opts.ignore_object_class.len() == 0;
        let chan_empty = tr_opts.user_event_channel_name.len() == 0;
        let fs_empty = tr_opts.user_event_formatted_string_name.len() == 0;
        let keys_empty = tr_opts.user_event_fmt_arg_attr_keys.len() == 0;
        let plugin = PluginConfig {
            run_id: match rf_opts.run_id {
                Some(v) => Some(v),
                None => c.run_id,
            },
            time_domain: match rf_opts.time_domain {
                Some(v) => Some(v),
                None => c.time_domain,
            },
            startup_task_name: match tr_opts.startup_task_name {
                Some(v) => Some(v),
                None => c.startup_task_name,
            },
            single_task_timeline: tr_opts.single_task_timeline || c.single_task_timeline,
            flatten_isr_timelines: tr_opts.flatten_isr_timelines || c.flatten_isr_timelines,
            disable_task_interactions: tr_opts.disable_task_interactions || c.disable_task_interactions,
            ignored_object_classes: if !ignore_empty {
                IgnoredObjectClasses::from_classes(tr_opts.ignore_object_class)
            } else {
                c.ignored_object_classes
            },
            user_event_channel: tr_opts.user_event_channel || c.user_event_channel,
            user_event_format_string: tr_opts.user_event_format_string || c.user_event_format_string,
            user_event_channel_rename_map: if !chan_empty {
                RenameMap::from_items(tr_opts.user_event_channel_name)
            } else {
                c.user_event_channel_rename_map
            },
            user_event_formatted_string_rename_map: if !fs_empty {
                RenameMap::from_items(tr_opts.user_event_formatted_string_name)
            } else {
                c.user_event_formatted_string_rename_map
            },
            user_event_fmt_arg_attr_keys: if !keys_empty {
                FormatArgAttributeKeysSet::from_items(tr_opts.user_event_fmt_arg_attr_keys)
            } else {
                c.user_event_fmt_arg_attr_keys
            },
            use_timeline_id_channel: tr_opts.use_timeline_id_channel || c.use_timeline_id_channel,
            deviant_event_id_base: match tr_opts.deviant_event_id_base {
                Some(v) => Some(v),
                None => c.deviant_event_id_base,
            },
            custom_printf_event_id: match tr_opts.custom_printf_event_id {
                Some(v) => Some(v),
                None => c.custom_printf_event_id,
            },
            include_unknown_events: tr_opts.include_unknown_events || c.include_unknown_events,
            interaction_mode: match tr_opts.interaction_mode {
                Some(m) => m,
                None => c.interaction_mode,
            },
            cpu_utilization_measurement_window_ms: match tr_opts.cpu_utilization_measurement_window_ms {
                Some(v) => Some(v),
                None => c.cpu_utilization_measurement_window_ms,
            },
            import: c.import,
            tcp_collector: c.tcp_collector,
            itm_collector: c.itm_collector,
        };
        TraceRecorderConfig { auth_token: rf_opts.auth_token, ingest, plugin }
    }
}


/// Command-line options that set nothing
pub open spec fn no_opts(rf_opts: ReflectorOpts, tr_opts: TraceRecorderOpts) -> bool {
    &&& rf_opts.auth_token is None
    &&& rf_opts.protocol_parent_url is None
    &&& !rf_opts.allow_insecure_tls
    &&& rf_opts.run_id is None
    &&& rf_opts.time_domain is None
    &&& !tr_opts.user_event_channel
    &&& !tr_opts.user_event_format_string
    &&& tr_opts.user_event_channel_name@.len() == 0
    &&& tr_opts.user_event_formatted_string_name@.len() == 0
    &&& tr_opts.user_event_fmt_arg_attr_keys@.len() == 0
    &&& !tr_opts.single_task_timeline
    &&& !tr_opts.flatten_isr_timelines
    &&& !tr_opts.disable_task_interactions
    &&& !tr_opts.use_timeline_id_channel
    &&& tr_opts.deviant_event_id_base is None
    &&& tr_opts.custom_printf_event_id is None
    &&& tr_opts.startup_task_name is None
    &&& tr_opts.ignore_object_class@.len() == 0
    &&& !tr_opts.include_unknown_events
    &&& tr_opts.interaction_mode is None
    &&& tr_opts.cpu_utilization_measurement_window_ms is None
}

/// Without command-line options the configuration file's values stand as they are
pub proof fn lemma_no_opts_keep_file_config(
    ingest: IngestConfig,
    cfg_plugin: PluginConfig,
    rf_opts: ReflectorOpts,
    tr_opts: TraceRecorderOpts,
    r: TraceRecorderConfig,
)
    requires
        cfg_plugin.wf(),
        merged_config(ingest, cfg_plugin, rf_opts, tr_opts, r),
        no_opts(rf_opts, tr_opts),
    ensures
        r.auth_token is None,
        opt_text(r.ingest.protocol_parent_url) == opt_text(ingest.protocol_parent_url),
        r.ingest.allow_insecure_tls == ingest.allow_insecure_tls,
        opt_text(r.plugin.run_id) == opt_text(cfg_plugin.run_id),
        opt_text(r.plugin.time_domain) == opt_text(cfg_plugin.time_domain),
        opt_text(r.plugin.startup_task_name) == opt_text(cfg_plugin.startup_task_name),
        r.plugin.single_task_timeline == cfg_plugin.single_task_timeline,
        r.plugin.flatten_isr_timelines == cfg_plugin.flatten_isr_timelines,
        r.plugin.disable_task_interactions == cfg_plugin.disable_task_interactions,
        r.plugin.user_event_channel == cfg_plugin.user_event_channel,
        r.plugin.user_event_format_string == cfg_plugin.user_event_format_string,
        r.plugin.use_timeline_id_channel == cfg_plugin.use_timeline_id_channel,
        r.plugin.include_unknown_events == cfg_plugin.include_unknown_events,
        r.plugin.deviant_event_id_base == cfg_plugin.deviant_event_id_base,
        r.plugin.custom_printf_event_id == cfg_plugin.custom_printf_event_id,
        r.plugin.interaction_mode == cfg_plugin.interaction_mode,
        r.plugin.cpu_utilization_measurement_window_ms == cfg_plugin.cpu_utilization_measurement_window_ms,
        r.plugin.ignored_object_classes@.to_set() == cfg_plugin.ignored_object_classes@.to_set(),
        r.plugin.user_event_channel_rename_map@.to_set() == cfg_plugin.user_event_channel_rename_map@.to_set(),
        r.plugin.user_event_formatted_string_rename_map@.to_set()
            == cfg_plugin.user_event_formatted_string_rename_map@.to_set(),
        r.plugin.user_event_fmt_arg_attr_keys@.to_set() == cfg_plugin.user_event_fmt_arg_attr_keys@.to_set(),
{
}


impl PluginConfig {
    /// The defaults: nothing configured, every flag off, fully linearized interactions
    pub fn default_config() -> (r: PluginConfig)
        ensures
            r.wf(),
            r.run_id is None,
            r.time_domain is None,
            r.startup_task_name is None,
            !r.single_task_timeline,
            !r.flatten_isr_timelines,
            !r.disable_task_interactions,
            r.ignored_object_classes@.len() == 0,
            !r.user_event_channel,
            !r.user_event_format_string,
            r.user_event_channel_rename_map@.len() == 0,
            r.user_event_formatted_string_rename_map@.len() == 0,
            r.user_event_fmt_arg_attr_keys@.len() == 0,
            !r.use_timeline_id_channel,
            r.deviant_event_id_base is None,
            r.custom_printf_event_id is None,
            !r.include_unknown_events,
            r.interaction_mode == InteractionMode::FullyLinearized,
            r.cpu_utilization_measurement_window_ms is None,
            r.import.protocol == ImportProtocol::Auto,
            r.import.file is None,
            r.tcp_collector.remote is None,
            r.itm_collector.stimulus_port == DEFAULT_STIMULUS_PORT,
    {
        PluginConfig {
            run_id: None,
            time_domain: None,
            startup_task_name: None,
            single_task_timeline: false,
            flatten_isr_timelines: false,
            disable_task_interactions: false,
            ignored_object_classes: IgnoredObjectClasses::new(),
            user_event_channel: false,
            user_event_format_string: false,
            user_event_channel_rename_map: RenameMap::new(),
            user_event_formatted_string_rename_map: RenameMap::new(),
            user_event_fmt_arg_attr_keys: FormatArgAttributeKeysSet::new(),
            use_timeline_id_channel: false,
            deviant_event_id_base: None,
            custom_printf_event_id: None,
            include_unknown_events: false,
            interaction_mode: InteractionMode::FullyLinearized,
            cpu_utilization_measurement_window_ms: None,
            import: ImportConfig::default_config(),
            tcp_collector: TcpCollectorConfig::default_config(),
            itm_collector: ItmCollectorConfig::default_config(),
        }
    }
}

impl IngestConfig {
    /// No ingest settings
    pub fn default_config() -> (r: IngestConfig)
        ensures
            r.protocol_parent_url is None,
            !r.allow_insecure_tls,
            r.additional_timeline_attributes@.len() == 0,
            r.override_timeline_attributes@.len() == 0,
    {
        IngestConfig {
            protocol_parent_url: None,
            allow_insecure_tls: false,
            additional_timeline_attributes: Vec::new(),
            override_timeline_attributes: Vec::new(),
        }
    }
}

impl TraceRecorderConfig {
    /// The default configuration
    pub fn default_config() -> (r: TraceRecorderConfig)
        ensures
            r.plugin.wf(),
            r.auth_token is None,
            r.ingest.protocol_parent_url is None,
            r.plugin.interaction_mode == InteractionMode::FullyLinearized,
    {
        TraceRecorderConfig {
            auth_token: None,
            ingest: IngestConfig::default_config(),
            plugin: PluginConfig::default_config(),
        }
    }
}


/// A command-line option that is given wins over the configuration file: a given value
/// replaces the configured one, a set flag turns the setting on whatever the file says,
/// and a non-empty list replaces the configured list
pub proof fn lemma_opts_override_file_config(
    ingest: IngestConfig,
    cfg_plugin: PluginConfig,
    rf_opts: ReflectorOpts,
    tr_opts: TraceRecorderOpts,
    r: TraceRecorderConfig,
)
    requires
        merged_config(ingest, cfg_plugin, rf_opts, tr_opts, r),
    ensures
        rf_opts.protocol_parent_url matches Some(u) ==> (r.ingest.protocol_parent_url matches Some(v)
            && v@ == u@),
        rf_opts.run_id matches Some(u) ==> (r.plugin.run_id matches Some(v) && v@ == u@),
        rf_opts.time_domain matches Some(u) ==> (r.plugin.time_domain matches Some(v) && v@ == u@),
        tr_opts.startup_task_name matches Some(u) ==> (r.plugin.startup_task_name matches Some(v)
            && v@ == u@),
        rf_opts.auth_token matches Some(u) ==> (r.auth_token matches Some(v) && v@ == u@),
        rf_opts.allow_insecure_tls ==> r.ingest.allow_insecure_tls,
        tr_opts.single_task_timeline ==> r.plugin.single_task_timeline,
        tr_opts.flatten_isr_timelines ==> r.plugin.flatten_isr_timelines,
        tr_opts.disable_task_interactions ==> r.plugin.disable_task_interactions,
        tr_opts.user_event_channel ==> r.plugin.user_event_channel,
        tr_opts.user_event_format_string ==> r.plugin.user_event_format_string,
        tr_opts.use_timeline_id_channel ==> r.plugin.use_timeline_id_channel,
        tr_opts.include_unknown_events ==> r.plugin.include_unknown_events,
        tr_opts.deviant_event_id_base matches Some(b) ==> r.plugin.deviant_event_id_base == Some(b),
        tr_opts.custom_printf_event_id matches Some(b) ==> r.plugin.custom_printf_event_id == Some(b),
        tr_opts.interaction_mode matches Some(m) ==> r.plugin.interaction_mode == m,
        tr_opts.cpu_utilization_measurement_window_ms matches Some(w)
            ==> r.plugin.cpu_utilization_measurement_window_ms == Some(w),
        tr_opts.ignore_object_class@.len() > 0 ==> r.plugin.ignored_object_classes@.to_set()
            == tr_opts.ignore_object_class@.map_values(|c: IgnoredObjectClass| c.order_view()).to_set(),
        tr_opts.user_event_channel_name@.len() > 0 ==> r.plugin.user_event_channel_rename_map@.to_set()
            == tr_opts.user_event_channel_name@.map_values(|i: RenameMapItem| i.order_view()).to_set(),
        tr_opts.user_event_formatted_string_name@.len() > 0
            ==> r.plugin.user_event_formatted_string_rename_map@.to_set()
            == tr_opts.user_event_formatted_string_name@.map_values(|i: RenameMapItem| i.order_view()).to_set(),
        tr_opts.user_event_fmt_arg_attr_keys@.len() > 0 ==> r.plugin.user_event_fmt_arg_attr_keys@.to_set()
            == tr_opts.user_event_fmt_arg_attr_keys@.map_values(
            |i: FormatArgAttributeKeysItem| i.order_view(),
        ).to_set(),
{
}

} // verus!
