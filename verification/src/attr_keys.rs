//! Timeline and event attribute keys and the attribute values they carry.

use crate::maps::{AssocMap, Duplicate, KeyView, MapKey};
use vstd::prelude::*;
use vstd::string::*;

verus! {

/// Timeline attribute keys
#[derive(Clone, Debug, PartialEq, Eq, Hash)]
pub enum TimelineAttrKey {
    /// `timeline.name`
    Name,
    /// `timeline.description`
    Description,
    /// `timeline.run_id`
    RunId,
    /// `timeline.time_domain`
    TimeDomain,
    /// `timeline.time_resolution`
    TimeResolution,
    /// `timeline.clock_style`
    ClockStyle,
    /// `timeline.internal.trace_recorder.protocol`
    Protocol,
    /// `timeline.internal.trace_recorder.kernel.version`
    KernelVersion,
    /// `timeline.internal.trace_recorder.kernel.port`
    KernelPort,
    /// `timeline.internal.trace_recorder.endianness`
    Endianness,
    /// `timeline.internal.trace_recorder.irq_priority_order`
    IrqPriorityOrder,
    /// `timeline.internal.trace_recorder.frequency`
    Frequency,
    /// `timeline.internal.trace_recorder.isr_tail_chaining_threshold`
    IsrChainingThreshold,
    /// `timeline.internal.trace_recorder.object_handle`
    ObjectHandle,
    /// `timeline.internal.trace_recorder.format_version`
    FormatVersion,
    /// `timeline.internal.trace_recorder.cores`
    NumCores,
    /// `timeline.internal.trace_recorder.platform_cfg`
    PlatformCfg,
    /// `timeline.internal.trace_recorder.platform_cfg.version`
    PlatformCfgVersion,
    /// `timeline.internal.trace_recorder.platform_cfg.version.major`
    PlatformCfgVersionMajor,
    /// `timeline.internal.trace_recorder.platform_cfg.version.minor`
    PlatformCfgVersionMinor,
    /// `timeline.internal.trace_recorder.platform_cfg.version.patch`
    PlatformCfgVersionPatch,
    /// `timeline.internal.trace_recorder.heap.max`
    HeapSize,
    /// `timeline.internal.trace_recorder.timer.type`
    TimerType,
    /// `timeline.internal.trace_recorder.timer.frequency`
    TimerFreq,
    /// `timeline.internal.trace_recorder.timer.period`
    TimerPeriod,
    /// `timeline.internal.trace_recorder.timer.wraparounds`
    TimerWraps,
    /// `timeline.internal.trace_recorder.os_tick.rate_hz`
    TickRateHz,
    /// `timeline.internal.trace_recorder.os_tick.count`
    TickCount,
    /// `timeline.internal.trace_recorder.latest_timestamp.ticks`
    LatestTimestampTicks,
    /// `timeline.internal.trace_recorder.latest_timestamp`
    LatestTimestamp,
    /// `timeline.trace_recorder.plugin.version`
    PluginVersion,
    /// `timeline.trace_recorder.import.file`
    ImportFile,
    /// `timeline.trace_recorder.tcp_collector.remote`
    TcpRemote,
    /// `timeline.internal.trace_recorder.interaction_mode`
    InteractionMode,
    /// `timeline.internal.trace_recorder.cpu_utilization.measurement_window.ticks`
    CpuUtilizationMeasurementWindowTicks,
    /// `timeline.internal.trace_recorder.cpu_utilization.measurement_window`
    CpuUtilizationMeasurementWindow,
    /// `timeline.internal.trace_recorder.minor_version` (snapshot protocol)
    MinorVersion,
    /// `timeline.internal.trace_recorder.file_size` (snapshot protocol)
    FileSize,
    /// `timeline.internal.trace_recorder.num_events` (snapshot protocol)
    NumEvents,
    /// `timeline.internal.trace_recorder.max_events` (snapshot protocol)
    MaxEvents,
    /// `timeline.internal.trace_recorder.buffer_full` (snapshot protocol)
    BufferFull,
    /// `timeline.internal.trace_recorder.abs_time_last_event` (snapshot protocol)
    AbsTimeLastEvent,
    /// `timeline.internal.trace_recorder.abs_time_last_event_second` (snapshot protocol)
    AbsTimeLastEventSecond,
    /// `timeline.internal.trace_recorder.recorder_active` (snapshot protocol)
    RecorderActive,
    /// `timeline.internal.trace_recorder.heap_mem_usage` (snapshot protocol)
    HeapMemUsage,
    /// `timeline.internal.trace_recorder.using_16bit_handles` (snapshot protocol)
    Using16bitHandles,
    /// `timeline.internal.trace_recorder.float_encoding` (snapshot protocol)
    FloatEncoding,
    /// `timeline.internal.trace_recorder.internal_error_occured` (snapshot protocol)
    InternalErrorOccured,
    /// `timeline.internal.trace_recorder.system_info` (snapshot protocol)
    SystemInfo,
    /// `timeline.{_0}`
    Custom(String),
}

impl TimelineAttrKey {
    /// The position of the variant in the declaration
    pub open spec fn spec_tag(&self) -> int {
        match self {
            TimelineAttrKey::Name => 0,
            TimelineAttrKey::Description => 1,
            TimelineAttrKey::RunId => 2,
            TimelineAttrKey::TimeDomain => 3,
            TimelineAttrKey::TimeResolution => 4,
            TimelineAttrKey::ClockStyle => 5,
            TimelineAttrKey::Protocol => 6,
            TimelineAttrKey::KernelVersion => 7,
            TimelineAttrKey::KernelPort => 8,
            TimelineAttrKey::Endianness => 9,
            TimelineAttrKey::IrqPriorityOrder => 10,
            TimelineAttrKey::Frequency => 11,
            TimelineAttrKey::IsrChainingThreshold => 12,
            TimelineAttrKey::ObjectHandle => 13,
            TimelineAttrKey::FormatVersion => 14,
            TimelineAttrKey::NumCores => 15,
            TimelineAttrKey::PlatformCfg => 16,
            TimelineAttrKey::PlatformCfgVersion => 17,
            TimelineAttrKey::PlatformCfgVersionMajor => 18,
            TimelineAttrKey::PlatformCfgVersionMinor => 19,
            TimelineAttrKey::PlatformCfgVersionPatch => 20,
            TimelineAttrKey::HeapSize => 21,
            TimelineAttrKey::TimerType => 22,
            TimelineAttrKey::TimerFreq => 23,
            TimelineAttrKey::TimerPeriod => 24,
            TimelineAttrKey::TimerWraps => 25,
            TimelineAttrKey::TickRateHz => 26,
            TimelineAttrKey::TickCount => 27,
            TimelineAttrKey::LatestTimestampTicks => 28,
            TimelineAttrKey::LatestTimestamp => 29,
            TimelineAttrKey::PluginVersion => 30,
            TimelineAttrKey::ImportFile => 31,
            TimelineAttrKey::TcpRemote => 32,
            TimelineAttrKey::InteractionMode => 33,
            TimelineAttrKey::CpuUtilizationMeasurementWindowTicks => 34,
            TimelineAttrKey::CpuUtilizationMeasurementWindow => 35,
            TimelineAttrKey::MinorVersion => 37,
            TimelineAttrKey::FileSize => 38,
            TimelineAttrKey::NumEvents => 39,
            TimelineAttrKey::MaxEvents => 40,
            TimelineAttrKey::BufferFull => 41,
            TimelineAttrKey::AbsTimeLastEvent => 42,
            TimelineAttrKey::AbsTimeLastEventSecond => 43,
            TimelineAttrKey::RecorderActive => 44,
            TimelineAttrKey::HeapMemUsage => 45,
            TimelineAttrKey::Using16bitHandles => 46,
            TimelineAttrKey::FloatEncoding => 47,
            TimelineAttrKey::InternalErrorOccured => 48,
            TimelineAttrKey::SystemInfo => 49,
            TimelineAttrKey::Custom(_) => 36,
        }
    }

    /// The user-provided part of a custom key, empty for the others
    pub open spec fn spec_custom(&self) -> Seq<char> {
        match self {
            TimelineAttrKey::Custom(s) => s@,
            _ => Seq::empty(),
        }
    }

    /// The attribute key text
    pub open spec fn spec_name(&self) -> Seq<char> {
        match self {
            TimelineAttrKey::Name => "timeline.name"@,
            TimelineAttrKey::Description => "timeline.description"@,
            TimelineAttrKey::RunId => "timeline.run_id"@,
            TimelineAttrKey::TimeDomain => "timeline.time_domain"@,
            TimelineAttrKey::TimeResolution => "timeline.time_resolution"@,
            TimelineAttrKey::ClockStyle => "timeline.clock_style"@,
            TimelineAttrKey::Protocol => "timeline.internal.trace_recorder.protocol"@,
            TimelineAttrKey::KernelVersion => "timeline.internal.trace_recorder.kernel.version"@,
            TimelineAttrKey::KernelPort => "timeline.internal.trace_recorder.kernel.port"@,
            TimelineAttrKey::Endianness => "timeline.internal.trace_recorder.endianness"@,
            TimelineAttrKey::IrqPriorityOrder => "timeline.internal.trace_recorder.irq_priority_order"@,
            TimelineAttrKey::Frequency => "timeline.internal.trace_recorder.frequency"@,
            TimelineAttrKey::IsrChainingThreshold => "timeline.internal.trace_recorder.isr_tail_chaining_threshold"@,
            TimelineAttrKey::ObjectHandle => "timeline.internal.trace_recorder.object_handle"@,
            TimelineAttrKey::FormatVersion => "timeline.internal.trace_recorder.format_version"@,
            TimelineAttrKey::NumCores => "timeline.internal.trace_recorder.cores"@,
            TimelineAttrKey::PlatformCfg => "timeline.internal.trace_recorder.platform_cfg"@,
            TimelineAttrKey::PlatformCfgVersion => "timeline.internal.trace_recorder.platform_cfg.version"@,
            TimelineAttrKey::PlatformCfgVersionMajor => "timeline.internal.trace_recorder.platform_cfg.version.major"@,
            TimelineAttrKey::PlatformCfgVersionMinor => "timeline.internal.trace_recorder.platform_cfg.version.minor"@,
            TimelineAttrKey::PlatformCfgVersionPatch => "timeline.internal.trace_recorder.platform_cfg.version.patch"@,
            TimelineAttrKey::HeapSize => "timeline.internal.trace_recorder.heap.max"@,
            TimelineAttrKey::TimerType => "timeline.internal.trace_recorder.timer.type"@,
            TimelineAttrKey::TimerFreq => "timeline.internal.trace_recorder.timer.frequency"@,
            TimelineAttrKey::TimerPeriod => "timeline.internal.trace_recorder.timer.period"@,
            TimelineAttrKey::TimerWraps => "timeline.internal.trace_recorder.timer.wraparounds"@,
            TimelineAttrKey::TickRateHz => "timeline.internal.trace_recorder.os_tick.rate_hz"@,
            TimelineAttrKey::TickCount => "timeline.internal.trace_recorder.os_tick.count"@,
            TimelineAttrKey::LatestTimestampTicks => "timeline.internal.trace_recorder.latest_timestamp.ticks"@,
            TimelineAttrKey::LatestTimestamp => "timeline.internal.trace_recorder.latest_timestamp"@,
            TimelineAttrKey::PluginVersion => "timeline.trace_recorder.plugin.version"@,
            TimelineAttrKey::ImportFile => "timeline.trace_recorder.import.file"@,
            TimelineAttrKey::TcpRemote => "timeline.trace_recorder.tcp_collector.remote"@,
            TimelineAttrKey::InteractionMode => "timeline.internal.trace_recorder.interaction_mode"@,
            TimelineAttrKey::CpuUtilizationMeasurementWindowTicks => "timeline.internal.trace_recorder.cpu_utilization.measurement_window.ticks"@,
            TimelineAttrKey::CpuUtilizationMeasurementWindow => "timeline.internal.trace_recorder.cpu_utilization.measurement_window"@,
            TimelineAttrKey::MinorVersion => "timeline.internal.trace_recorder.minor_version"@,
            TimelineAttrKey::FileSize => "timeline.internal.trace_recorder.file_size"@,
            TimelineAttrKey::NumEvents => "timeline.internal.trace_recorder.num_events"@,
            TimelineAttrKey::MaxEvents => "timeline.internal.trace_recorder.max_events"@,
            TimelineAttrKey::BufferFull => "timeline.internal.trace_recorder.buffer_full"@,
            TimelineAttrKey::AbsTimeLastEvent => "timeline.internal.trace_recorder.abs_time_last_event"@,
            TimelineAttrKey::AbsTimeLastEventSecond => "timeline.internal.trace_recorder.abs_time_last_event_second"@,
            TimelineAttrKey::RecorderActive => "timeline.internal.trace_recorder.recorder_active"@,
            TimelineAttrKey::HeapMemUsage => "timeline.internal.trace_recorder.heap_mem_usage"@,
            TimelineAttrKey::Using16bitHandles => "timeline.internal.trace_recorder.using_16bit_handles"@,
            TimelineAttrKey::FloatEncoding => "timeline.internal.trace_recorder.float_encoding"@,
            TimelineAttrKey::InternalErrorOccured => "timeline.internal.trace_recorder.internal_error_occured"@,
            TimelineAttrKey::SystemInfo => "timeline.internal.trace_recorder.system_info"@,
            TimelineAttrKey::Custom(s) => "timeline."@ + s@,
        }
    }

    pub fn tag(&self) -> (r: u8)
        ensures
            r as int == self.spec_tag(),
    {
        match self {
            TimelineAttrKey::Name => 0,
            TimelineAttrKey::Description => 1,
            TimelineAttrKey::RunId => 2,
            TimelineAttrKey::TimeDomain => 3,
            TimelineAttrKey::TimeResolution => 4,
            TimelineAttrKey::ClockStyle => 5,
            TimelineAttrKey::Protocol => 6,
            TimelineAttrKey::KernelVersion => 7,
            TimelineAttrKey::KernelPort => 8,
            TimelineAttrKey::Endianness => 9,
            TimelineAttrKey::IrqPriorityOrder => 10,
            TimelineAttrKey::Frequency => 11,
            TimelineAttrKey::IsrChainingThreshold => 12,
            TimelineAttrKey::ObjectHandle => 13,
            TimelineAttrKey::FormatVersion => 14,
            TimelineAttrKey::NumCores => 15,
            TimelineAttrKey::PlatformCfg => 16,
            TimelineAttrKey::PlatformCfgVersion => 17,
            TimelineAttrKey::PlatformCfgVersionMajor => 18,
            TimelineAttrKey::PlatformCfgVersionMinor => 19,
            TimelineAttrKey::PlatformCfgVersionPatch => 20,
            TimelineAttrKey::HeapSize => 21,
            TimelineAttrKey::TimerType => 22,
            TimelineAttrKey::TimerFreq => 23,
            TimelineAttrKey::TimerPeriod => 24,
            TimelineAttrKey::TimerWraps => 25,
            TimelineAttrKey::TickRateHz => 26,
            TimelineAttrKey::TickCount => 27,
            TimelineAttrKey::LatestTimestampTicks => 28,
            TimelineAttrKey::LatestTimestamp => 29,
            TimelineAttrKey::PluginVersion => 30,
            TimelineAttrKey::ImportFile => 31,
            TimelineAttrKey::TcpRemote => 32,
            TimelineAttrKey::InteractionMode => 33,
            TimelineAttrKey::CpuUtilizationMeasurementWindowTicks => 34,
            TimelineAttrKey::CpuUtilizationMeasurementWindow => 35,
            TimelineAttrKey::MinorVersion => 37,
            TimelineAttrKey::FileSize => 38,
            TimelineAttrKey::NumEvents => 39,
            TimelineAttrKey::MaxEvents => 40,
            TimelineAttrKey::BufferFull => 41,
            TimelineAttrKey::AbsTimeLastEvent => 42,
            TimelineAttrKey::AbsTimeLastEventSecond => 43,
            TimelineAttrKey::RecorderActive => 44,
            TimelineAttrKey::HeapMemUsage => 45,
            TimelineAttrKey::Using16bitHandles => 46,
            TimelineAttrKey::FloatEncoding => 47,
            TimelineAttrKey::InternalErrorOccured => 48,
            TimelineAttrKey::SystemInfo => 49,
            TimelineAttrKey::Custom(_) => 36,
        }
    }

    /// The attribute key text, as Modality shows it
    pub fn name(&self) -> (r: String)
        ensures
            r@ == self.spec_name(),
    {
        match self {
            TimelineAttrKey::Name => String::from_str("timeline.name"),
            TimelineAttrKey::Description => String::from_str("timeline.description"),
            TimelineAttrKey::RunId => String::from_str("timeline.run_id"),
            TimelineAttrKey::TimeDomain => String::from_str("timeline.time_domain"),
            TimelineAttrKey::TimeResolution => String::from_str("timeline.time_resolution"),
            TimelineAttrKey::ClockStyle => String::from_str("timeline.clock_style"),
            TimelineAttrKey::Protocol => String::from_str("timeline.internal.trace_recorder.protocol"),
            TimelineAttrKey::KernelVersion => String::from_str("timeline.internal.trace_recorder.kernel.version"),
            TimelineAttrKey::KernelPort => String::from_str("timeline.internal.trace_recorder.kernel.port"),
            TimelineAttrKey::Endianness => String::from_str("timeline.internal.trace_recorder.endianness"),
            TimelineAttrKey::IrqPriorityOrder => String::from_str("timeline.internal.trace_recorder.irq_priority_order"),
            TimelineAttrKey::Frequency => String::from_str("timeline.internal.trace_recorder.frequency"),
            TimelineAttrKey::IsrChainingThreshold => String::from_str("timeline.internal.trace_recorder.isr_tail_chaining_threshold"),
            TimelineAttrKey::ObjectHandle => String::from_str("timeline.internal.trace_recorder.object_handle"),
            TimelineAttrKey::FormatVersion => String::from_str("timeline.internal.trace_recorder.format_version"),
            TimelineAttrKey::NumCores => String::from_str("timeline.internal.trace_recorder.cores"),
            TimelineAttrKey::PlatformCfg => String::from_str("timeline.internal.trace_recorder.platform_cfg"),
            TimelineAttrKey::PlatformCfgVersion => String::from_str("timeline.internal.trace_recorder.platform_cfg.version"),
            TimelineAttrKey::PlatformCfgVersionMajor => String::from_str("timeline.internal.trace_recorder.platform_cfg.version.major"),
            TimelineAttrKey::PlatformCfgVersionMinor => String::from_str("timeline.internal.trace_recorder.platform_cfg.version.minor"),
            TimelineAttrKey::PlatformCfgVersionPatch => String::from_str("timeline.internal.trace_recorder.platform_cfg.version.patch"),
            TimelineAttrKey::HeapSize => String::from_str("timeline.internal.trace_recorder.heap.max"),
            TimelineAttrKey::TimerType => String::from_str("timeline.internal.trace_recorder.timer.type"),
            TimelineAttrKey::TimerFreq => String::from_str("timeline.internal.trace_recorder.timer.frequency"),
            TimelineAttrKey::TimerPeriod => String::from_str("timeline.internal.trace_recorder.timer.period"),
            TimelineAttrKey::TimerWraps => String::from_str("timeline.internal.trace_recorder.timer.wraparounds"),
            TimelineAttrKey::TickRateHz => String::from_str("timeline.internal.trace_recorder.os_tick.rate_hz"),
            TimelineAttrKey::TickCount => String::from_str("timeline.internal.trace_recorder.os_tick.count"),
            TimelineAttrKey::LatestTimestampTicks => String::from_str("timeline.internal.trace_recorder.latest_timestamp.ticks"),
            TimelineAttrKey::LatestTimestamp => String::from_str("timeline.internal.trace_recorder.latest_timestamp"),
            TimelineAttrKey::PluginVersion => String::from_str("timeline.trace_recorder.plugin.version"),
            TimelineAttrKey::ImportFile => String::from_str("timeline.trace_recorder.import.file"),
            TimelineAttrKey::TcpRemote => String::from_str("timeline.trace_recorder.tcp_collector.remote"),
            TimelineAttrKey::InteractionMode => String::from_str("timeline.internal.trace_recorder.interaction_mode"),
            TimelineAttrKey::CpuUtilizationMeasurementWindowTicks => String::from_str("timeline.internal.trace_recorder.cpu_utilization.measurement_window.ticks"),
            TimelineAttrKey::CpuUtilizationMeasurementWindow => String::from_str("timeline.internal.trace_recorder.cpu_utilization.measurement_window"),
            TimelineAttrKey::MinorVersion => String::from_str("timeline.internal.trace_recorder.minor_version"),
            TimelineAttrKey::FileSize => String::from_str("timeline.internal.trace_recorder.file_size"),
            TimelineAttrKey::NumEvents => String::from_str("timeline.internal.trace_recorder.num_events"),
            TimelineAttrKey::MaxEvents => String::from_str("timeline.internal.trace_recorder.max_events"),
            TimelineAttrKey::BufferFull => String::from_str("timeline.internal.trace_recorder.buffer_full"),
            TimelineAttrKey::AbsTimeLastEvent => String::from_str("timeline.internal.trace_recorder.abs_time_last_event"),
            TimelineAttrKey::AbsTimeLastEventSecond => String::from_str("timeline.internal.trace_recorder.abs_time_last_event_second"),
            TimelineAttrKey::RecorderActive => String::from_str("timeline.internal.trace_recorder.recorder_active"),
            TimelineAttrKey::HeapMemUsage => String::from_str("timeline.internal.trace_recorder.heap_mem_usage"),
            TimelineAttrKey::Using16bitHandles => String::from_str("timeline.internal.trace_recorder.using_16bit_handles"),
            TimelineAttrKey::FloatEncoding => String::from_str("timeline.internal.trace_recorder.float_encoding"),
            TimelineAttrKey::InternalErrorOccured => String::from_str("timeline.internal.trace_recorder.internal_error_occured"),
            TimelineAttrKey::SystemInfo => String::from_str("timeline.internal.trace_recorder.system_info"),
            TimelineAttrKey::Custom(s) => String::from_str("timeline.").concat(s.as_str()),
        }
    }

    /// Every timeline attribute key but the custom ones, in tag order (the custom keys'
    /// tag, 36, is skipped)
    pub fn enumerate() -> (r: Vec<TimelineAttrKey>)
        ensures
            r@.len() == 49,
            forall|i: int|
                0 <= i < 49 ==> (#[trigger] r@[i]).spec_tag() == if i < 36 {
                    i
                } else {
                    i + 1
                },
    {
        let r = vec![
            TimelineAttrKey::Name,
            TimelineAttrKey::Description,
            TimelineAttrKey::RunId,
            TimelineAttrKey::TimeDomain,
            TimelineAttrKey::TimeResolution,
            TimelineAttrKey::ClockStyle,
            TimelineAttrKey::Protocol,
            TimelineAttrKey::KernelVersion,
            TimelineAttrKey::KernelPort,
            TimelineAttrKey::Endianness,
            TimelineAttrKey::IrqPriorityOrder,
            TimelineAttrKey::Frequency,
            TimelineAttrKey::IsrChainingThreshold,
            TimelineAttrKey::ObjectHandle,
            TimelineAttrKey::FormatVersion,
            TimelineAttrKey::NumCores,
            TimelineAttrKey::PlatformCfg,
            TimelineAttrKey::PlatformCfgVersion,
            TimelineAttrKey::PlatformCfgVersionMajor,
            TimelineAttrKey::PlatformCfgVersionMinor,
            TimelineAttrKey::PlatformCfgVersionPatch,
            TimelineAttrKey::HeapSize,
            TimelineAttrKey::TimerType,
            TimelineAttrKey::TimerFreq,
            TimelineAttrKey::TimerPeriod,
            TimelineAttrKey::TimerWraps,
            TimelineAttrKey::TickRateHz,
            TimelineAttrKey::TickCount,
            TimelineAttrKey::LatestTimestampTicks,
            TimelineAttrKey::LatestTimestamp,
            TimelineAttrKey::PluginVersion,
            TimelineAttrKey::ImportFile,
            TimelineAttrKey::TcpRemote,
            TimelineAttrKey::InteractionMode,
            TimelineAttrKey::CpuUtilizationMeasurementWindowTicks,
            TimelineAttrKey::CpuUtilizationMeasurementWindow,
            TimelineAttrKey::MinorVersion,
            TimelineAttrKey::FileSize,
            TimelineAttrKey::NumEvents,
            TimelineAttrKey::MaxEvents,
            TimelineAttrKey::BufferFull,
            TimelineAttrKey::AbsTimeLastEvent,
            TimelineAttrKey::AbsTimeLastEventSecond,
            TimelineAttrKey::RecorderActive,
            TimelineAttrKey::HeapMemUsage,
            TimelineAttrKey::Using16bitHandles,
            TimelineAttrKey::FloatEncoding,
            TimelineAttrKey::InternalErrorOccured,
            TimelineAttrKey::SystemInfo,
        ];
        assert(forall|i: int|
            0 <= i < 49 ==> (#[trigger] r@[i]).spec_tag() == if i < 36 {
                i
            } else {
                i + 1
            }) by {
            assert(r@.len() == 49);
        }
        r
    }

    /// A copy of the key
    pub fn duplicate(&self) -> (r: Self)
        ensures
            r == *self,
    {
        match self {
            TimelineAttrKey::Name => TimelineAttrKey::Name,
            TimelineAttrKey::Description => TimelineAttrKey::Description,
            TimelineAttrKey::RunId => TimelineAttrKey::RunId,
            TimelineAttrKey::TimeDomain => TimelineAttrKey::TimeDomain,
            TimelineAttrKey::TimeResolution => TimelineAttrKey::TimeResolution,
            TimelineAttrKey::ClockStyle => TimelineAttrKey::ClockStyle,
            TimelineAttrKey::Protocol => TimelineAttrKey::Protocol,
            TimelineAttrKey::KernelVersion => TimelineAttrKey::KernelVersion,
            TimelineAttrKey::KernelPort => TimelineAttrKey::KernelPort,
            TimelineAttrKey::Endianness => TimelineAttrKey::Endianness,
            TimelineAttrKey::IrqPriorityOrder => TimelineAttrKey::IrqPriorityOrder,
            TimelineAttrKey::Frequency => TimelineAttrKey::Frequency,
            TimelineAttrKey::IsrChainingThreshold => TimelineAttrKey::IsrChainingThreshold,
            TimelineAttrKey::ObjectHandle => TimelineAttrKey::ObjectHandle,
            TimelineAttrKey::FormatVersion => TimelineAttrKey::FormatVersion,
            TimelineAttrKey::NumCores => TimelineAttrKey::NumCores,
            TimelineAttrKey::PlatformCfg => TimelineAttrKey::PlatformCfg,
            TimelineAttrKey::PlatformCfgVersion => TimelineAttrKey::PlatformCfgVersion,
            TimelineAttrKey::PlatformCfgVersionMajor => TimelineAttrKey::PlatformCfgVersionMajor,
            TimelineAttrKey::PlatformCfgVersionMinor => TimelineAttrKey::PlatformCfgVersionMinor,
            TimelineAttrKey::PlatformCfgVersionPatch => TimelineAttrKey::PlatformCfgVersionPatch,
            TimelineAttrKey::HeapSize => TimelineAttrKey::HeapSize,
            TimelineAttrKey::TimerType => TimelineAttrKey::TimerType,
            TimelineAttrKey::TimerFreq => TimelineAttrKey::TimerFreq,
            TimelineAttrKey::TimerPeriod => TimelineAttrKey::TimerPeriod,
            TimelineAttrKey::TimerWraps => TimelineAttrKey::TimerWraps,
            TimelineAttrKey::TickRateHz => TimelineAttrKey::TickRateHz,
            TimelineAttrKey::TickCount => TimelineAttrKey::TickCount,
            TimelineAttrKey::LatestTimestampTicks => TimelineAttrKey::LatestTimestampTicks,
            TimelineAttrKey::LatestTimestamp => TimelineAttrKey::LatestTimestamp,
            TimelineAttrKey::PluginVersion => TimelineAttrKey::PluginVersion,
            TimelineAttrKey::ImportFile => TimelineAttrKey::ImportFile,
            TimelineAttrKey::TcpRemote => TimelineAttrKey::TcpRemote,
            TimelineAttrKey::InteractionMode => TimelineAttrKey::InteractionMode,
            TimelineAttrKey::CpuUtilizationMeasurementWindowTicks => TimelineAttrKey::CpuUtilizationMeasurementWindowTicks,
            TimelineAttrKey::CpuUtilizationMeasurementWindow => TimelineAttrKey::CpuUtilizationMeasurementWindow,
            TimelineAttrKey::MinorVersion => TimelineAttrKey::MinorVersion,
            TimelineAttrKey::FileSize => TimelineAttrKey::FileSize,
            TimelineAttrKey::NumEvents => TimelineAttrKey::NumEvents,
            TimelineAttrKey::MaxEvents => TimelineAttrKey::MaxEvents,
            TimelineAttrKey::BufferFull => TimelineAttrKey::BufferFull,
            TimelineAttrKey::AbsTimeLastEvent => TimelineAttrKey::AbsTimeLastEvent,
            TimelineAttrKey::AbsTimeLastEventSecond => TimelineAttrKey::AbsTimeLastEventSecond,
            TimelineAttrKey::RecorderActive => TimelineAttrKey::RecorderActive,
            TimelineAttrKey::HeapMemUsage => TimelineAttrKey::HeapMemUsage,
            TimelineAttrKey::Using16bitHandles => TimelineAttrKey::Using16bitHandles,
            TimelineAttrKey::FloatEncoding => TimelineAttrKey::FloatEncoding,
            TimelineAttrKey::InternalErrorOccured => TimelineAttrKey::InternalErrorOccured,
            TimelineAttrKey::SystemInfo => TimelineAttrKey::SystemInfo,
            TimelineAttrKey::Custom(s) => TimelineAttrKey::Custom(s.clone()),
        }
    }
}

impl MapKey for TimelineAttrKey {
    open spec fn key_view(&self) -> KeyView {
        (self.spec_tag(), self.spec_custom())
    }

    fn same_key(&self, other: &Self) -> (r: bool) {
        if self.tag() != other.tag() {
            return false;
        }
        match (self, other) {
            (TimelineAttrKey::Custom(a), TimelineAttrKey::Custom(b)) => a.eq(b),
            (TimelineAttrKey::Custom(_), _) => false,
            (_, TimelineAttrKey::Custom(_)) => false,
            _ => true,
        }
    }
}

/// Event attribute keys
#[derive(Clone, Debug, PartialEq, Eq, Hash)]
pub enum EventAttrKey {
    /// `event.name`
    Name,
    /// `event.timestamp`
    Timestamp,
    /// `event.interaction.remote_timeline_id`
    RemoteTimelineId,
    /// `event.interaction.remote_nonce`
    RemoteNonce,
    /// `event.internal.trace_recorder.nonce`
    InternalNonce,
    /// `event.nonce`
    Nonce,
    /// `event.mutator.id`
    MutatorId,
    /// `event.internal.trace_recorder.mutator.id`
    InternalMutatorId,
    /// `event.mutation.id`
    MutationId,
    /// `event.internal.trace_recorder.mutation.id`
    InternalMutationId,
    /// `event.mutation.success`
    MutationSuccess,
    /// `event.internal.trace_recorder.id`
    EventId,
    /// `event.internal.trace_recorder.event_count`
    EventCount,
    /// `event.internal.trace_recorder.event_count.raw`
    EventCountRaw,
    /// `event.trace_recorder.dropped_preceding_events`
    DroppedEvents,
    /// `event.internal.trace_recorder.parameter_count`
    ParameterCount,
    /// `event.internal.trace_recorder.code`
    EventCode,
    /// `event.internal.trace_recorder.type`
    EventType,
    /// `event.internal.trace_recorder.timestamp.ticks`
    TimestampTicks,
    /// `event.internal.trace_recorder.timer.ticks`
    TimerTicks,
    /// `event.internal.trace_recorder.object_handle`
    ObjectHandle,
    /// `event.isr`
    IsrName,
    /// `event.priority`
    IsrPriority,
    /// `event.task`
    TaskName,
    /// `event.priority`
    TaskPriority,
    /// `event.address`
    MemoryAddress,
    /// `event.size`
    MemorySize,
    /// `event.internal.trace_recorder.heap.current`
    MemoryHeapCurrent,
    /// `event.internal.trace_recorder.heap.high_mark`
    MemoryHeapHighMark,
    /// `event.internal.trace_recorder.heap.max`
    MemoryHeapMax,
    /// `event.low_mark`
    StackLowMark,
    /// `event.queue`
    QueueName,
    /// `event.queue_length`
    QueueLength,
    /// `event.messages_waiting`
    QueueMessagesWaiting,
    /// `event.mutex`
    MutexName,
    /// `event.semaphore`
    SemaphoreName,
    /// `event.count`
    SemaphoreCount,
    /// `event.event_group`
    EventGroupName,
    /// `event.bits`
    EventGroupBits,
    /// `event.message_buffer`
    MessageBufferName,
    /// `event.buffer_size`
    MessageBufferSize,
    /// `event.bytes_in_buffer`
    MessageBufferBytesInBuffer,
    /// `event.state_machine`
    StateMachineName,
    /// `event.state`
    StateMachineState,
    /// `event.internal.trace_recorder.state_handle`
    StateMachineStateHandle,
    /// `event.internal.trace_recorder.ticks_to_wait`
    TicksToWait,
    /// `event.internal.trace_recorder.ns_to_wait`
    NanosToWait,
    /// `event.channel`
    UserChannel,
    /// `event.formatted_string`
    UserFormattedString,
    /// `event.arg0`
    UserArg0,
    /// `event.arg1`
    UserArg1,
    /// `event.arg2`
    UserArg2,
    /// `event.arg3`
    UserArg3,
    /// `event.arg4`
    UserArg4,
    /// `event.arg5`
    UserArg5,
    /// `event.arg6`
    UserArg6,
    /// `event.arg7`
    UserArg7,
    /// `event.arg8`
    UserArg8,
    /// `event.arg9`
    UserArg9,
    /// `event.arg10`
    UserArg10,
    /// `event.arg11`
    UserArg11,
    /// `event.arg12`
    UserArg12,
    /// `event.arg13`
    UserArg13,
    /// `event.arg14`
    UserArg14,
    /// `event.internal.trace_recorder.total_runtime.ticks`
    TotalRuntimeTicks,
    /// `event.total_runtime`
    TotalRuntime,
    /// `event.internal.trace_recorder.runtime.ticks`
    RuntimeTicks,
    /// `event.runtime`
    Runtime,
    /// `event.internal.trace_recorder.runtime_window.ticks`
    RuntimeWindowTicks,
    /// `event.runtime_window`
    RuntimeWindow,
    /// `event.internal.trace_recorder.runtime_in_window.ticks`
    RuntimeInWindowTicks,
    /// `event.runtime_in_window`
    RuntimeInWindow,
    /// `event.cpu_utilization`
    CpuUtilization,
    /// `event.interaction.remote_timestamp`: the previous context's last event time
    RemoteTimestamp,
    /// `event.internal.trace_recorder.task.state` (snapshot protocol)
    TaskState,
    /// `event.{_0}`
    CustomUserArg(String),
}

impl EventAttrKey {
    /// The position of the variant in the declaration
    pub open spec fn spec_tag(&self) -> int {
        match self {
            EventAttrKey::Name => 0,
            EventAttrKey::Timestamp => 1,
            EventAttrKey::RemoteTimelineId => 2,
            EventAttrKey::RemoteNonce => 3,
            EventAttrKey::InternalNonce => 4,
            EventAttrKey::Nonce => 5,
            EventAttrKey::MutatorId => 6,
            EventAttrKey::InternalMutatorId => 7,
            EventAttrKey::MutationId => 8,
            EventAttrKey::InternalMutationId => 9,
            EventAttrKey::MutationSuccess => 10,
            EventAttrKey::EventId => 11,
            EventAttrKey::EventCount => 12,
            EventAttrKey::EventCountRaw => 13,
            EventAttrKey::DroppedEvents => 14,
            EventAttrKey::ParameterCount => 15,
            EventAttrKey::EventCode => 16,
            EventAttrKey::EventType => 17,
            EventAttrKey::TimestampTicks => 18,
            EventAttrKey::TimerTicks => 19,
            EventAttrKey::ObjectHandle => 20,
            EventAttrKey::IsrName => 21,
            EventAttrKey::IsrPriority => 22,
            EventAttrKey::TaskName => 23,
            EventAttrKey::TaskPriority => 24,
            EventAttrKey::MemoryAddress => 25,
            EventAttrKey::MemorySize => 26,
            EventAttrKey::MemoryHeapCurrent => 27,
            EventAttrKey::MemoryHeapHighMark => 28,
            EventAttrKey::MemoryHeapMax => 29,
            EventAttrKey::StackLowMark => 30,
            EventAttrKey::QueueName => 31,
            EventAttrKey::QueueLength => 32,
            EventAttrKey::QueueMessagesWaiting => 33,
            EventAttrKey::MutexName => 34,
            EventAttrKey::SemaphoreName => 35,
            EventAttrKey::SemaphoreCount => 36,
            EventAttrKey::EventGroupName => 37,
            EventAttrKey::EventGroupBits => 38,
            EventAttrKey::MessageBufferName => 39,
            EventAttrKey::MessageBufferSize => 40,
            EventAttrKey::MessageBufferBytesInBuffer => 41,
            EventAttrKey::StateMachineName => 42,
            EventAttrKey::StateMachineState => 43,
            EventAttrKey::StateMachineStateHandle => 44,
            EventAttrKey::TicksToWait => 45,
            EventAttrKey::NanosToWait => 46,
            EventAttrKey::UserChannel => 47,
            EventAttrKey::UserFormattedString => 48,
            EventAttrKey::UserArg0 => 49,
            EventAttrKey::UserArg1 => 50,
            EventAttrKey::UserArg2 => 51,
            EventAttrKey::UserArg3 => 52,
            EventAttrKey::UserArg4 => 53,
            EventAttrKey::UserArg5 => 54,
            EventAttrKey::UserArg6 => 55,
            EventAttrKey::UserArg7 => 56,
            EventAttrKey::UserArg8 => 57,
            EventAttrKey::UserArg9 => 58,
            EventAttrKey::UserArg10 => 59,
            EventAttrKey::UserArg11 => 60,
            EventAttrKey::UserArg12 => 61,
            EventAttrKey::UserArg13 => 62,
            EventAttrKey::UserArg14 => 63,
            EventAttrKey::TotalRuntimeTicks => 64,
            EventAttrKey::TotalRuntime => 65,
            EventAttrKey::RuntimeTicks => 66,
            EventAttrKey::Runtime => 67,
            EventAttrKey::RuntimeWindowTicks => 68,
            EventAttrKey::RuntimeWindow => 69,
            EventAttrKey::RuntimeInWindowTicks => 70,
            EventAttrKey::RuntimeInWindow => 71,
            EventAttrKey::CpuUtilization => 72,
            EventAttrKey::RemoteTimestamp => 74,
            EventAttrKey::TaskState => 75,
            EventAttrKey::CustomUserArg(_) => 73,
        }
    }

    /// The user-provided part of a custom key, empty for the others
    pub open spec fn spec_custom(&self) -> Seq<char> {
        match self {
            EventAttrKey::CustomUserArg(s) => s@,
            _ => Seq::empty(),
        }
    }

    /// The attribute key text
    pub open spec fn spec_name(&self) -> Seq<char> {
        match self {
            EventAttrKey::Name => "event.name"@,
            EventAttrKey::Timestamp => "event.timestamp"@,
            EventAttrKey::RemoteTimelineId => "event.interaction.remote_timeline_id"@,
            EventAttrKey::RemoteNonce => "event.interaction.remote_nonce"@,
            EventAttrKey::InternalNonce => "event.internal.trace_recorder.nonce"@,
            EventAttrKey::Nonce => "event.nonce"@,
            EventAttrKey::MutatorId => "event.mutator.id"@,
            EventAttrKey::InternalMutatorId => "event.internal.trace_recorder.mutator.id"@,
            EventAttrKey::MutationId => "event.mutation.id"@,
            EventAttrKey::InternalMutationId => "event.internal.trace_recorder.mutation.id"@,
            EventAttrKey::MutationSuccess => "event.mutation.success"@,
            EventAttrKey::EventId => "event.internal.trace_recorder.id"@,
            EventAttrKey::EventCount => "event.internal.trace_recorder.event_count"@,
            EventAttrKey::EventCountRaw => "event.internal.trace_recorder.event_count.raw"@,
            EventAttrKey::DroppedEvents => "event.trace_recorder.dropped_preceding_events"@,
            EventAttrKey::ParameterCount => "event.internal.trace_recorder.parameter_count"@,
            EventAttrKey::EventCode => "event.internal.trace_recorder.code"@,
            EventAttrKey::EventType => "event.internal.trace_recorder.type"@,
            EventAttrKey::TimestampTicks => "event.internal.trace_recorder.timestamp.ticks"@,
            EventAttrKey::TimerTicks => "event.internal.trace_recorder.timer.ticks"@,
            EventAttrKey::ObjectHandle => "event.internal.trace_recorder.object_handle"@,
            EventAttrKey::IsrName => "event.isr"@,
            EventAttrKey::IsrPriority => "event.priority"@,
            EventAttrKey::TaskName => "event.task"@,
            EventAttrKey::TaskPriority => "event.priority"@,
            EventAttrKey::MemoryAddress => "event.address"@,
            EventAttrKey::MemorySize => "event.size"@,
            EventAttrKey::MemoryHeapCurrent => "event.internal.trace_recorder.heap.current"@,
            EventAttrKey::MemoryHeapHighMark => "event.internal.trace_recorder.heap.high_mark"@,
            EventAttrKey::MemoryHeapMax => "event.internal.trace_recorder.heap.max"@,
            EventAttrKey::StackLowMark => "event.low_mark"@,
            EventAttrKey::QueueName => "event.queue"@,
            EventAttrKey::QueueLength => "event.queue_length"@,
            EventAttrKey::QueueMessagesWaiting => "event.messages_waiting"@,
            EventAttrKey::MutexName => "event.mutex"@,
            EventAttrKey::SemaphoreName => "event.semaphore"@,
            EventAttrKey::SemaphoreCount => "event.count"@,
            EventAttrKey::EventGroupName => "event.event_group"@,
            EventAttrKey::EventGroupBits => "event.bits"@,
            EventAttrKey::MessageBufferName => "event.message_buffer"@,
            EventAttrKey::MessageBufferSize => "event.buffer_size"@,
            EventAttrKey::MessageBufferBytesInBuffer => "event.bytes_in_buffer"@,
            EventAttrKey::StateMachineName => "event.state_machine"@,
            EventAttrKey::StateMachineState => "event.state"@,
            EventAttrKey::StateMachineStateHandle => "event.internal.trace_recorder.state_handle"@,
            EventAttrKey::TicksToWait => "event.internal.trace_recorder.ticks_to_wait"@,
            EventAttrKey::NanosToWait => "event.internal.trace_recorder.ns_to_wait"@,
            EventAttrKey::UserChannel => "event.channel"@,
            EventAttrKey::UserFormattedString => "event.formatted_string"@,
            EventAttrKey::UserArg0 => "event.arg0"@,
            EventAttrKey::UserArg1 => "event.arg1"@,
            EventAttrKey::UserArg2 => "event.arg2"@,
            EventAttrKey::UserArg3 => "event.arg3"@,
            EventAttrKey::UserArg4 => "event.arg4"@,
            EventAttrKey::UserArg5 => "event.arg5"@,
            EventAttrKey::UserArg6 => "event.arg6"@,
            EventAttrKey::UserArg7 => "event.arg7"@,
            EventAttrKey::UserArg8 => "event.arg8"@,
            EventAttrKey::UserArg9 => "event.arg9"@,
            EventAttrKey::UserArg10 => "event.arg10"@,
            EventAttrKey::UserArg11 => "event.arg11"@,
            EventAttrKey::UserArg12 => "event.arg12"@,
            EventAttrKey::UserArg13 => "event.arg13"@,
            EventAttrKey::UserArg14 => "event.arg14"@,
            EventAttrKey::TotalRuntimeTicks => "event.internal.trace_recorder.total_runtime.ticks"@,
            EventAttrKey::TotalRuntime => "event.total_runtime"@,
            EventAttrKey::RuntimeTicks => "event.internal.trace_recorder.runtime.ticks"@,
            EventAttrKey::Runtime => "event.runtime"@,
            EventAttrKey::RuntimeWindowTicks => "event.internal.trace_recorder.runtime_window.ticks"@,
            EventAttrKey::RuntimeWindow => "event.runtime_window"@,
            EventAttrKey::RuntimeInWindowTicks => "event.internal.trace_recorder.runtime_in_window.ticks"@,
            EventAttrKey::RuntimeInWindow => "event.runtime_in_window"@,
            EventAttrKey::CpuUtilization => "event.cpu_utilization"@,
            EventAttrKey::RemoteTimestamp => "event.interaction.remote_timestamp"@,
            EventAttrKey::TaskState => "event.internal.trace_recorder.task.state"@,
            EventAttrKey::CustomUserArg(s) => "event."@ + s@,
        }
    }

    pub fn tag(&self) -> (r: u8)
        ensures
            r as int == self.spec_tag(),
    {
        match self {
            EventAttrKey::Name => 0,
            EventAttrKey::Timestamp => 1,
            EventAttrKey::RemoteTimelineId => 2,
            EventAttrKey::RemoteNonce => 3,
            EventAttrKey::InternalNonce => 4,
            EventAttrKey::Nonce => 5,
            EventAttrKey::MutatorId => 6,
            EventAttrKey::InternalMutatorId => 7,
            EventAttrKey::MutationId => 8,
            EventAttrKey::InternalMutationId => 9,
            EventAttrKey::MutationSuccess => 10,
            EventAttrKey::EventId => 11,
            EventAttrKey::EventCount => 12,
            EventAttrKey::EventCountRaw => 13,
            EventAttrKey::DroppedEvents => 14,
            EventAttrKey::ParameterCount => 15,
            EventAttrKey::EventCode => 16,
            EventAttrKey::EventType => 17,
            EventAttrKey::TimestampTicks => 18,
            EventAttrKey::TimerTicks => 19,
            EventAttrKey::ObjectHandle => 20,
            EventAttrKey::IsrName => 21,
            EventAttrKey::IsrPriority => 22,
            EventAttrKey::TaskName => 23,
            EventAttrKey::TaskPriority => 24,
            EventAttrKey::MemoryAddress => 25,
            EventAttrKey::MemorySize => 26,
            EventAttrKey::MemoryHeapCurrent => 27,
            EventAttrKey::MemoryHeapHighMark => 28,
            EventAttrKey::MemoryHeapMax => 29,
            EventAttrKey::StackLowMark => 30,
            EventAttrKey::QueueName => 31,
            EventAttrKey::QueueLength => 32,
            EventAttrKey::QueueMessagesWaiting => 33,
            EventAttrKey::MutexName => 34,
            EventAttrKey::SemaphoreName => 35,
            EventAttrKey::SemaphoreCount => 36,
            EventAttrKey::EventGroupName => 37,
            EventAttrKey::EventGroupBits => 38,
            EventAttrKey::MessageBufferName => 39,
            EventAttrKey::MessageBufferSize => 40,
            EventAttrKey::MessageBufferBytesInBuffer => 41,
            EventAttrKey::StateMachineName => 42,
            EventAttrKey::StateMachineState => 43,
            EventAttrKey::StateMachineStateHandle => 44,
            EventAttrKey::TicksToWait => 45,
            EventAttrKey::NanosToWait => 46,
            EventAttrKey::UserChannel => 47,
            EventAttrKey::UserFormattedString => 48,
            EventAttrKey::UserArg0 => 49,
            EventAttrKey::UserArg1 => 50,
            EventAttrKey::UserArg2 => 51,
            EventAttrKey::UserArg3 => 52,
            EventAttrKey::UserArg4 => 53,
            EventAttrKey::UserArg5 => 54,
            EventAttrKey::UserArg6 => 55,
            EventAttrKey::UserArg7 => 56,
            EventAttrKey::UserArg8 => 57,
            EventAttrKey::UserArg9 => 58,
            EventAttrKey::UserArg10 => 59,
            EventAttrKey::UserArg11 => 60,
            EventAttrKey::UserArg12 => 61,
            EventAttrKey::UserArg13 => 62,
            EventAttrKey::UserArg14 => 63,
            EventAttrKey::TotalRuntimeTicks => 64,
            EventAttrKey::TotalRuntime => 65,
            EventAttrKey::RuntimeTicks => 66,
            EventAttrKey::Runtime => 67,
            EventAttrKey::RuntimeWindowTicks => 68,
            EventAttrKey::RuntimeWindow => 69,
            EventAttrKey::RuntimeInWindowTicks => 70,
            EventAttrKey::RuntimeInWindow => 71,
            EventAttrKey::CpuUtilization => 72,
            EventAttrKey::RemoteTimestamp => 74,
            EventAttrKey::TaskState => 75,
            EventAttrKey::CustomUserArg(_) => 73,
        }
    }

    /// The attribute key text, as Modality shows it
    pub fn name(&self) -> (r: String)
        ensures
            r@ == self.spec_name(),
    {
        match self {
            EventAttrKey::Name => String::from_str("event.name"),
            EventAttrKey::Timestamp => String::from_str("event.timestamp"),
            EventAttrKey::RemoteTimelineId => String::from_str("event.interaction.remote_timeline_id"),
            EventAttrKey::RemoteNonce => String::from_str("event.interaction.remote_nonce"),
            EventAttrKey::InternalNonce => String::from_str("event.internal.trace_recorder.nonce"),
            EventAttrKey::Nonce => String::from_str("event.nonce"),
            EventAttrKey::MutatorId => String::from_str("event.mutator.id"),
            EventAttrKey::InternalMutatorId => String::from_str("event.internal.trace_recorder.mutator.id"),
            EventAttrKey::MutationId => String::from_str("event.mutation.id"),
            EventAttrKey::InternalMutationId => String::from_str("event.internal.trace_recorder.mutation.id"),
            EventAttrKey::MutationSuccess => String::from_str("event.mutation.success"),
            EventAttrKey::EventId => String::from_str("event.internal.trace_recorder.id"),
            EventAttrKey::EventCount => String::from_str("event.internal.trace_recorder.event_count"),
            EventAttrKey::EventCountRaw => String::from_str("event.internal.trace_recorder.event_count.raw"),
            EventAttrKey::DroppedEvents => String::from_str("event.trace_recorder.dropped_preceding_events"),
            EventAttrKey::ParameterCount => String::from_str("event.internal.trace_recorder.parameter_count"),
            EventAttrKey::EventCode => String::from_str("event.internal.trace_recorder.code"),
            EventAttrKey::EventType => String::from_str("event.internal.trace_recorder.type"),
            EventAttrKey::TimestampTicks => String::from_str("event.internal.trace_recorder.timestamp.ticks"),
            EventAttrKey::TimerTicks => String::from_str("event.internal.trace_recorder.timer.ticks"),
            EventAttrKey::ObjectHandle => String::from_str("event.internal.trace_recorder.object_handle"),
            EventAttrKey::IsrName => String::from_str("event.isr"),
            EventAttrKey::IsrPriority => String::from_str("event.priority"),
            EventAttrKey::TaskName => String::from_str("event.task"),
            EventAttrKey::TaskPriority => String::from_str("event.priority"),
            EventAttrKey::MemoryAddress => String::from_str("event.address"),
            EventAttrKey::MemorySize => String::from_str("event.size"),
            EventAttrKey::MemoryHeapCurrent => String::from_str("event.internal.trace_recorder.heap.current"),
            EventAttrKey::MemoryHeapHighMark => String::from_str("event.internal.trace_recorder.heap.high_mark"),
            EventAttrKey::MemoryHeapMax => String::from_str("event.internal.trace_recorder.heap.max"),
            EventAttrKey::StackLowMark => String::from_str("event.low_mark"),
            EventAttrKey::QueueName => String::from_str("event.queue"),
            EventAttrKey::QueueLength => String::from_str("event.queue_length"),
            EventAttrKey::QueueMessagesWaiting => String::from_str("event.messages_waiting"),
            EventAttrKey::MutexName => String::from_str("event.mutex"),
            EventAttrKey::SemaphoreName => String::from_str("event.semaphore"),
            EventAttrKey::SemaphoreCount => String::from_str("event.count"),
            EventAttrKey::EventGroupName => String::from_str("event.event_group"),
            EventAttrKey::EventGroupBits => String::from_str("event.bits"),
            EventAttrKey::MessageBufferName => String::from_str("event.message_buffer"),
            EventAttrKey::MessageBufferSize => String::from_str("event.buffer_size"),
            EventAttrKey::MessageBufferBytesInBuffer => String::from_str("event.bytes_in_buffer"),
            EventAttrKey::StateMachineName => String::from_str("event.state_machine"),
            EventAttrKey::StateMachineState => String::from_str("event.state"),
            EventAttrKey::StateMachineStateHandle => String::from_str("event.internal.trace_recorder.state_handle"),
            EventAttrKey::TicksToWait => String::from_str("event.internal.trace_recorder.ticks_to_wait"),
            EventAttrKey::NanosToWait => String::from_str("event.internal.trace_recorder.ns_to_wait"),
            EventAttrKey::UserChannel => String::from_str("event.channel"),
            EventAttrKey::UserFormattedString => String::from_str("event.formatted_string"),
            EventAttrKey::UserArg0 => String::from_str("event.arg0"),
            EventAttrKey::UserArg1 => String::from_str("event.arg1"),
            EventAttrKey::UserArg2 => String::from_str("event.arg2"),
            EventAttrKey::UserArg3 => String::from_str("event.arg3"),
            EventAttrKey::UserArg4 => String::from_str("event.arg4"),
            EventAttrKey::UserArg5 => String::from_str("event.arg5"),
            EventAttrKey::UserArg6 => String::from_str("event.arg6"),
            EventAttrKey::UserArg7 => String::from_str("event.arg7"),
            EventAttrKey::UserArg8 => String::from_str("event.arg8"),
            EventAttrKey::UserArg9 => String::from_str("event.arg9"),
            EventAttrKey::UserArg10 => String::from_str("event.arg10"),
            EventAttrKey::UserArg11 => String::from_str("event.arg11"),
            EventAttrKey::UserArg12 => String::from_str("event.arg12"),
            EventAttrKey::UserArg13 => String::from_str("event.arg13"),
            EventAttrKey::UserArg14 => String::from_str("event.arg14"),
            EventAttrKey::TotalRuntimeTicks => String::from_str("event.internal.trace_recorder.total_runtime.ticks"),
            EventAttrKey::TotalRuntime => String::from_str("event.total_runtime"),
            EventAttrKey::RuntimeTicks => String::from_str("event.internal.trace_recorder.runtime.ticks"),
            EventAttrKey::Runtime => String::from_str("event.runtime"),
            EventAttrKey::RuntimeWindowTicks => String::from_str("event.internal.trace_recorder.runtime_window.ticks"),
            EventAttrKey::RuntimeWindow => String::from_str("event.runtime_window"),
            EventAttrKey::RuntimeInWindowTicks => String::from_str("event.internal.trace_recorder.runtime_in_window.ticks"),
            EventAttrKey::RuntimeInWindow => String::from_str("event.runtime_in_window"),
            EventAttrKey::CpuUtilization => String::from_str("event.cpu_utilization"),
            EventAttrKey::RemoteTimestamp => String::from_str("event.interaction.remote_timestamp"),
            EventAttrKey::TaskState => String::from_str("event.internal.trace_recorder.task.state"),
            EventAttrKey::CustomUserArg(s) => String::from_str("event.").concat(s.as_str()),
        }
    }

    /// A copy of the key
    pub fn duplicate(&self) -> (r: Self)
        ensures
            r == *self,
    {
        match self {
            EventAttrKey::Name => EventAttrKey::Name,
            EventAttrKey::Timestamp => EventAttrKey::Timestamp,
            EventAttrKey::RemoteTimelineId => EventAttrKey::RemoteTimelineId,
            EventAttrKey::RemoteNonce => EventAttrKey::RemoteNonce,
            EventAttrKey::InternalNonce => EventAttrKey::InternalNonce,
            EventAttrKey::Nonce => EventAttrKey::Nonce,
            EventAttrKey::MutatorId => EventAttrKey::MutatorId,
            EventAttrKey::InternalMutatorId => EventAttrKey::InternalMutatorId,
            EventAttrKey::MutationId => EventAttrKey::MutationId,
            EventAttrKey::InternalMutationId => EventAttrKey::InternalMutationId,
            EventAttrKey::MutationSuccess => EventAttrKey::MutationSuccess,
            EventAttrKey::EventId => EventAttrKey::EventId,
            EventAttrKey::EventCount => EventAttrKey::EventCount,
            EventAttrKey::EventCountRaw => EventAttrKey::EventCountRaw,
            EventAttrKey::DroppedEvents => EventAttrKey::DroppedEvents,
            EventAttrKey::ParameterCount => EventAttrKey::ParameterCount,
            EventAttrKey::EventCode => EventAttrKey::EventCode,
            EventAttrKey::EventType => EventAttrKey::EventType,
            EventAttrKey::TimestampTicks => EventAttrKey::TimestampTicks,
            EventAttrKey::TimerTicks => EventAttrKey::TimerTicks,
            EventAttrKey::ObjectHandle => EventAttrKey::ObjectHandle,
            EventAttrKey::IsrName => EventAttrKey::IsrName,
            EventAttrKey::IsrPriority => EventAttrKey::IsrPriority,
            EventAttrKey::TaskName => EventAttrKey::TaskName,
            EventAttrKey::TaskPriority => EventAttrKey::TaskPriority,
            EventAttrKey::MemoryAddress => EventAttrKey::MemoryAddress,
            EventAttrKey::MemorySize => EventAttrKey::MemorySize,
            EventAttrKey::MemoryHeapCurrent => EventAttrKey::MemoryHeapCurrent,
            EventAttrKey::MemoryHeapHighMark => EventAttrKey::MemoryHeapHighMark,
            EventAttrKey::MemoryHeapMax => EventAttrKey::MemoryHeapMax,
            EventAttrKey::StackLowMark => EventAttrKey::StackLowMark,
            EventAttrKey::QueueName => EventAttrKey::QueueName,
            EventAttrKey::QueueLength => EventAttrKey::QueueLength,
            EventAttrKey::QueueMessagesWaiting => EventAttrKey::QueueMessagesWaiting,
            EventAttrKey::MutexName => EventAttrKey::MutexName,
            EventAttrKey::SemaphoreName => EventAttrKey::SemaphoreName,
            EventAttrKey::SemaphoreCount => EventAttrKey::SemaphoreCount,
            EventAttrKey::EventGroupName => EventAttrKey::EventGroupName,
            EventAttrKey::EventGroupBits => EventAttrKey::EventGroupBits,
            EventAttrKey::MessageBufferName => EventAttrKey::MessageBufferName,
            EventAttrKey::MessageBufferSize => EventAttrKey::MessageBufferSize,
            EventAttrKey::MessageBufferBytesInBuffer => EventAttrKey::MessageBufferBytesInBuffer,
            EventAttrKey::StateMachineName => EventAttrKey::StateMachineName,
            EventAttrKey::StateMachineState => EventAttrKey::StateMachineState,
            EventAttrKey::StateMachineStateHandle => EventAttrKey::StateMachineStateHandle,
            EventAttrKey::TicksToWait => EventAttrKey::TicksToWait,
            EventAttrKey::NanosToWait => EventAttrKey::NanosToWait,
            EventAttrKey::UserChannel => EventAttrKey::UserChannel,
            EventAttrKey::UserFormattedString => EventAttrKey::UserFormattedString,
            EventAttrKey::UserArg0 => EventAttrKey::UserArg0,
            EventAttrKey::UserArg1 => EventAttrKey::UserArg1,
            EventAttrKey::UserArg2 => EventAttrKey::UserArg2,
            EventAttrKey::UserArg3 => EventAttrKey::UserArg3,
            EventAttrKey::UserArg4 => EventAttrKey::UserArg4,
            EventAttrKey::UserArg5 => EventAttrKey::UserArg5,
            EventAttrKey::UserArg6 => EventAttrKey::UserArg6,
            EventAttrKey::UserArg7 => EventAttrKey::UserArg7,
            EventAttrKey::UserArg8 => EventAttrKey::UserArg8,
            EventAttrKey::UserArg9 => EventAttrKey::UserArg9,
            EventAttrKey::UserArg10 => EventAttrKey::UserArg10,
            EventAttrKey::UserArg11 => EventAttrKey::UserArg11,
            EventAttrKey::UserArg12 => EventAttrKey::UserArg12,
            EventAttrKey::UserArg13 => EventAttrKey::UserArg13,
            EventAttrKey::UserArg14 => EventAttrKey::UserArg14,
            EventAttrKey::TotalRuntimeTicks => EventAttrKey::TotalRuntimeTicks,
            EventAttrKey::TotalRuntime => EventAttrKey::TotalRuntime,
            EventAttrKey::RuntimeTicks => EventAttrKey::RuntimeTicks,
            EventAttrKey::Runtime => EventAttrKey::Runtime,
            EventAttrKey::RuntimeWindowTicks => EventAttrKey::RuntimeWindowTicks,
            EventAttrKey::RuntimeWindow => EventAttrKey::RuntimeWindow,
            EventAttrKey::RuntimeInWindowTicks => EventAttrKey::RuntimeInWindowTicks,
            EventAttrKey::RuntimeInWindow => EventAttrKey::RuntimeInWindow,
            EventAttrKey::CpuUtilization => EventAttrKey::CpuUtilization,
            EventAttrKey::RemoteTimestamp => EventAttrKey::RemoteTimestamp,
            EventAttrKey::TaskState => EventAttrKey::TaskState,
            EventAttrKey::CustomUserArg(s) => EventAttrKey::CustomUserArg(s.clone()),
        }
    }
}

impl MapKey for EventAttrKey {
    open spec fn key_view(&self) -> KeyView {
        (self.spec_tag(), self.spec_custom())
    }

    fn same_key(&self, other: &Self) -> (r: bool) {
        if self.tag() != other.tag() {
            return false;
        }
        match (self, other) {
            (EventAttrKey::CustomUserArg(a), EventAttrKey::CustomUserArg(b)) => a.eq(b),
            (EventAttrKey::CustomUserArg(_), _) => false,
            (_, EventAttrKey::CustomUserArg(_)) => false,
            _ => true,
        }
    }
}

/// An attribute value. Floating point values are carried as the bit pattern of an `f64`.
#[derive(Clone, Debug, PartialEq, Eq)]
pub enum AttrValue {
    TimelineId(u128),
    String(String),
    Integer(i64),
    BigInt(i128),
    Float(u64),
    Bool(bool),
    Timestamp(u64),
}

/// The mathematical meaning of an attribute value
pub enum AttrValueView {
    TimelineId(u128),
    String(Seq<char>),
    Integer(i64),
    BigInt(i128),
    Float(u64),
    Bool(bool),
    Timestamp(u64),
}

impl View for AttrValue {
    type V = AttrValueView;

    open spec fn view(&self) -> AttrValueView {
        match self {
            AttrValue::TimelineId(v) => AttrValueView::TimelineId(*v),
            AttrValue::String(s) => AttrValueView::String(s@),
            AttrValue::Integer(v) => AttrValueView::Integer(*v),
            AttrValue::BigInt(v) => AttrValueView::BigInt(*v),
            AttrValue::Float(v) => AttrValueView::Float(*v),
            AttrValue::Bool(v) => AttrValueView::Bool(*v),
            AttrValue::Timestamp(v) => AttrValueView::Timestamp(*v),
        }
    }
}

/// An integer attribute: held as a 64-bit integer where it fits, else as a big integer
pub open spec fn int_attr(i: int) -> AttrValueView {
    if i64::MIN <= i <= i64::MAX {
        AttrValueView::Integer(i as i64)
    } else {
        AttrValueView::BigInt(i as i128)
    }
}

/// A text attribute
pub open spec fn str_attr(s: Seq<char>) -> AttrValueView {
    AttrValueView::String(s)
}

impl AttrValue {
    /// An integer attribute from a 128-bit integer
    pub fn from_i128(i: i128) -> (r: AttrValue)
        ensures
            r@ == int_attr(i as int),
    {
        if i < (i64::MIN as i128) || i > (i64::MAX as i128) {
            AttrValue::BigInt(i)
        } else {
            AttrValue::Integer(i as i64)
        }
    }

    /// An integer attribute from an unsigned 64-bit integer
    pub fn from_u64(i: u64) -> (r: AttrValue)
        ensures
            r@ == int_attr(i as int),
    {
        AttrValue::from_i128(i as i128)
    }

    /// A text attribute from a string slice
    pub fn from_str_slice(s: &str) -> (r: AttrValue)
        ensures
            r@ == str_attr(s@),
    {
        AttrValue::String(String::from_str(s))
    }

    /// A copy of the value
    pub fn duplicate(&self) -> (r: AttrValue)
        ensures
            r == *self,
    {
        match self {
            AttrValue::TimelineId(v) => AttrValue::TimelineId(*v),
            AttrValue::String(s) => AttrValue::String(s.clone()),
            AttrValue::Integer(v) => AttrValue::Integer(*v),
            AttrValue::BigInt(v) => AttrValue::BigInt(*v),
            AttrValue::Float(v) => AttrValue::Float(*v),
            AttrValue::Bool(v) => AttrValue::Bool(*v),
            AttrValue::Timestamp(v) => AttrValue::Timestamp(*v),
        }
    }
}

/// The attributes of one event
pub type EventAttributes = AssocMap<EventAttrKey, AttrValue>;

/// The attributes of one timeline
pub type TimelineAttributes = AssocMap<TimelineAttrKey, AttrValue>;

/// The meaning of an attribute map: each value by its view
pub open spec fn av(m: Map<KeyView, AttrValue>) -> Map<KeyView, AttrValueView> {
    m.map_values(|v: AttrValue| v@)
}

/// Sets an event attribute
pub fn put_event_attr(attrs: &mut EventAttributes, k: EventAttrKey, v: AttrValue)
    requires
        old(attrs).wf(),
    ensures
        final(attrs).wf(),
        av(final(attrs)@) == av(old(attrs)@).insert(k.key_view(), v@),
{
    let ghost kv = k.key_view();
    let ghost vv = v@;
    attrs.insert(k, v);
    assert(av(attrs@) =~= av(old(attrs)@).insert(kv, vv));
}

/// Sets a timeline attribute
pub fn put_timeline_attr(attrs: &mut TimelineAttributes, k: TimelineAttrKey, v: AttrValue)
    requires
        old(attrs).wf(),
    ensures
        final(attrs).wf(),
        av(final(attrs)@) == av(old(attrs)@).insert(k.key_view(), v@),
{
    let ghost kv = k.key_view();
    let ghost vv = v@;
    attrs.insert(k, v);
    assert(av(attrs@) =~= av(old(attrs)@).insert(kv, vv));
}

/// The key identity of an event attribute key without custom text
pub open spec fn ek(k: EventAttrKey) -> KeyView {
    k.key_view()
}

/// The key identity of a timeline attribute key without custom text
pub open spec fn tk(k: TimelineAttrKey) -> KeyView {
    k.key_view()
}

impl TimelineAttrKey {
    /// The key as a Modality configuration attribute key: its text with the leading
    /// `timeline.` removed (every leading repetition of it, as `trim_start_matches` does)
    pub fn into_cfg_attr(&self) -> (r: String)
        ensures
            r@ == crate::text::strip_prefix_repeated(self.spec_name(), "timeline."@),
    {
        let name = self.name();
        let cs = crate::text::chars_of(name.as_str());
        let prefix = crate::text::chars_of("timeline.");
        proof {
            reveal_strlit("timeline.");
        }
        let stripped = crate::text::strip_prefix_repeated_chars(cs.as_slice(), prefix.as_slice());
        crate::text::string_from_chars(stripped.as_slice())
    }
}

impl Duplicate for TimelineAttrKey {
    fn duplicate(&self) -> (r: Self) {
        TimelineAttrKey::duplicate(self)
    }
}

impl Duplicate for EventAttrKey {
    fn duplicate(&self) -> (r: Self) {
        EventAttrKey::duplicate(self)
    }
}

impl Duplicate for AttrValue {
    fn duplicate(&self) -> (r: Self) {
        AttrValue::duplicate(self)
    }
}

} // verus!
