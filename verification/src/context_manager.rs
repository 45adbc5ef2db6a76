//! Turns the recorder's event stream into per-context timelines: which task or ISR each
//! event belongs to, how contexts interact, and the counters, timestamps and runtime
//! statistics recorded on the way.

use crate::attr_keys::{
    av, ek, int_attr, put_event_attr, put_timeline_attr, str_attr, tk, AttrValue, AttrValueView,
    EventAttrKey, EventAttributes, TimelineAttrKey, TimelineAttributes,
};
use crate::config::{PluginConfig, TraceRecorderConfig};
use crate::deviant::{base_id_error, byte_count_error, le_signed_128, param_bytes, u32_of_bytes, DeviantEventKind, MAX_EVENT_ID, uuid_attr_text, uuid_hyphenated, DeviantEvent, DeviantEventParser};
use crate::error::Error;
use crate::event::{spec_event_id, Argument, Event, EventKind, ObjectHandle};
use crate::maps::{AssocMap, Duplicate, KeyView, MapKey};
use crate::opts::{InteractionMode, ObjectClass};
use crate::recorder_data::{
    class_for, convert_timestamp, core_event_outcome, core_timeline_outcome, iattr, ns_of,
    common_attrs, id_attr_ok, ContextHandle, RecorderData, ONE_SECOND, with_args, arg_key,
    code_attrs, user_text_attrs, custom_arg_keys, MAX_DEFAULT_USER_ARGS, kind_attrs,
};
use crate::event::NO_TASK_HANDLE;
use std::collections::VecDeque;
use vstd::prelude::*;
use vstd::string::*;

verus! {

/// An interaction source: the remote timeline's ID and the nonce of its event
pub type Interaction = (u128, i64);

/// Counts events across the 16-bit event counter's rollovers
#[derive(Copy, Clone, PartialEq, Eq, Structural, Debug)]
pub struct EventCounterTracker {
    pub count: u16,
    pub rollovers: u32,
}

impl EventCounterTracker {
    /// The number of events counted
    pub open spec fn value(self) -> int {
        self.rollovers as int * 0x1_0000 + self.count as int
    }

    /// The tracker after seeing event count `c`: a count that does not move forward
    /// means the counter rolled over
    pub open spec fn spec_update(self, c: u16) -> EventCounterTracker {
        if c <= self.count {
            EventCounterTracker { count: c, rollovers: (self.rollovers + 1) as u32 }
        } else {
            EventCounterTracker { count: c, rollovers: self.rollovers }
        }
    }

    /// Whether one more rollover can be counted
    pub open spec fn can_update(self, c: u16) -> bool {
        c <= self.count ==> self.rollovers < u32::MAX
    }

    pub fn zero() -> (r: EventCounterTracker)
        ensures
            r == (EventCounterTracker { count: 0, rollovers: 0 }),
    {
        EventCounterTracker { count: 0, rollovers: 0 }
    }

    /// Restarts counting from `count`
    pub fn set_initial_count(&mut self, count: u16)
        ensures
            *final(self) == (EventCounterTracker { count, rollovers: 0 }),
    {
        self.count = count;
        self.rollovers = 0;
    }

    /// Sees the next event count; returns how many events were dropped in between, if any
    pub fn update(&mut self, event_count: u16) -> (dropped: Option<u64>)
        requires
            old(self).can_update(event_count),
        ensures
            *final(self) == old(self).spec_update(event_count),
            final(self).value() > old(self).value(),
            dropped == (if final(self).value() - old(self).value() != 1 {
                Some((final(self).value() - old(self).value() - 1) as u64)
            } else {
                None::<u64>
            }),
    {
        let prev_count = self.count();
        if event_count <= self.count {
            self.rollovers = self.rollovers + 1;
        }
        self.count = event_count;
        let diff = self.count() - prev_count;
        if diff != 1 {
            Some(diff - 1)
        } else {
            None
        }
    }

    /// The number of events counted
    pub fn count(&self) -> (r: u64)
        ensures
            r == self.value(),
    {
        (self.rollovers as u64) * 0x1_0000 + (self.count as u64)
    }
}

/// Tracks the 32-bit event timer across its rollovers
#[derive(Copy, Clone, PartialEq, Eq, Structural, Debug)]
pub struct TimeTracker {
    pub lower: u32,
    pub upper: u32,
}

/// The lower 32 bits of a timer reading
pub open spec fn low32(t: u64) -> u32 {
    (t % 0x1_0000_0000) as u32
}

impl TimeTracker {
    /// The time in ticks
    pub open spec fn value(self) -> int {
        self.upper as int * 0x1_0000_0000 + self.lower as int
    }

    /// The tracker after the timer reads `now`: a reading below the last means the timer
    /// rolled over
    pub open spec fn spec_elapsed(self, now: u64) -> TimeTracker {
        if low32(now) < self.lower {
            TimeTracker { lower: low32(now), upper: (self.upper + 1) as u32 }
        } else {
            TimeTracker { lower: low32(now), upper: self.upper }
        }
    }

    /// Whether one more rollover can be counted
    pub open spec fn can_elapse(self, now: u64) -> bool {
        low32(now) < self.lower ==> self.upper < u32::MAX
    }

    pub fn new(lower: u32, upper: u32) -> (r: TimeTracker)
        ensures
            r == (TimeTracker { lower, upper }),
    {
        TimeTracker { lower, upper }
    }

    /// Sees the timer reading `now` (only its lower 32 bits count); returns the time
    pub fn elapsed(&mut self, now: u64) -> (r: u64)
        requires
            old(self).can_elapse(now),
        ensures
            *final(self) == old(self).spec_elapsed(now),
            r == final(self).value(),
            final(self).value() >= old(self).value(),
    {
        let now32: u32 = (now % 0x1_0000_0000) as u32;
        if now32 < self.lower {
            self.upper = self.upper + 1;
        }
        self.lower = now32;
        self.to_timestamp()
    }

    /// The time in ticks
    pub fn to_timestamp(&self) -> (r: u64)
        ensures
            r == self.value(),
    {
        (self.upper as u64) * 0x1_0000_0000 + (self.lower as u64)
    }
}

/// A closed runtime window: the context's running time in it and the window's length,
/// in ticks
#[derive(Copy, Clone, PartialEq, Eq, Structural, Debug)]
pub struct RuntimeWindow {
    pub running: u64,
    pub length: u64,
}

/// Runtime statistics of one context, in ticks
#[derive(Copy, Clone, PartialEq, Eq, Structural, Debug)]
pub struct ContextStats {
    /// When the context was last switched in
    pub last_timestamp: u64,
    /// Total time the context has been running
    pub total_runtime: u64,
    /// Time the context has been running since the window start
    pub runtime_since_window_start: u64,
    /// The last complete window: the context's running time in it and its length
    pub last_runtime_window: Option<RuntimeWindow>,
}

impl ContextStats {
    /// Running times never exceed the time elapsed, and nothing is later than `now`
    pub open spec fn wf_at(self, now: int) -> bool {
        &&& self.runtime_since_window_start <= self.total_runtime
        &&& self.total_runtime <= self.last_timestamp
        &&& self.last_timestamp <= now
        &&& self.last_runtime_window matches Some(w) ==> w.running <= now && w.length <= now
    }

    pub fn new(last_timestamp: u64) -> (r: ContextStats)
        ensures
            r == (ContextStats {
                last_timestamp,
                total_runtime: 0,
                runtime_since_window_start: 0,
                last_runtime_window: None,
            }),
    {
        ContextStats {
            last_timestamp,
            total_runtime: 0,
            runtime_since_window_start: 0,
            last_runtime_window: None,
        }
    }

    /// Called when the runtime window restarts
    pub fn reset_runtime_since_window_start(&mut self)
        ensures
            *final(self) == (ContextStats {
                runtime_since_window_start: 0,
                last_runtime_window: None,
                ..*old(self)
            }),
    {
        self.runtime_since_window_start = 0;
        self.last_runtime_window = None;
    }

    /// Called when a new window starts: keeps the closing window's numbers
    pub fn update_runtime_window(&mut self, runtime_dur: u64)
        ensures
            *final(self) == (ContextStats {
                runtime_since_window_start: 0,
                last_runtime_window: Some(
                    RuntimeWindow {
                        running: old(self).runtime_since_window_start,
                        length: runtime_dur,
                    },
                ),
                ..*old(self)
            }),
    {
        self.last_runtime_window = Some(
            RuntimeWindow { running: self.runtime_since_window_start, length: runtime_dur },
        );
        self.runtime_since_window_start = 0;
    }

    /// Called when this context is switched in
    pub fn set_last_timestamp(&mut self, last_timestamp: u64)
        ensures
            *final(self) == (ContextStats { last_timestamp, ..*old(self) }),
    {
        self.last_timestamp = last_timestamp;
    }

    /// The statistics after the context is switched out at `t`: the time since it was
    /// switched in counts as running time; a time that went backwards changes nothing
    pub open spec fn spec_update(self, t: u64) -> ContextStats {
        if t < self.last_timestamp {
            self
        } else {
            ContextStats {
                last_timestamp: t,
                total_runtime: (self.total_runtime + (t - self.last_timestamp)) as u64,
                runtime_since_window_start: (self.runtime_since_window_start + (t
                    - self.last_timestamp)) as u64,
                ..self
            }
        }
    }

    /// Called when this context is switched out
    pub fn update(&mut self, timestamp: u64)
        requires
            timestamp >= old(self).last_timestamp ==> old(self).total_runtime + (timestamp
                - old(self).last_timestamp) <= u64::MAX && old(self).runtime_since_window_start
                + (timestamp - old(self).last_timestamp) <= u64::MAX,
        ensures
            *final(self) == old(self).spec_update(timestamp),
    {
        if timestamp >= self.last_timestamp {
            let diff = timestamp - self.last_timestamp;
            self.total_runtime = self.total_runtime + diff;
            self.runtime_since_window_start = self.runtime_since_window_start + diff;
            self.last_timestamp = timestamp;
        }
    }
}

/// The per-context timeline: its ID, attributes and the nonce of its last event
pub struct TimelineMeta {
    pub id: u128,
    pub attributes: TimelineAttributes,
    /// A timeline-local event counter, so that interactions can name any event
    pub nonce: i64,
}

impl TimelineMeta {
    pub fn increment_nonce(&mut self)
        ensures
            final(self).id == old(self).id,
            final(self).attributes == old(self).attributes,
            final(self).nonce == old(self).nonce.wrapping_add(1),
    {
        self.nonce = self.nonce.wrapping_add(1);
    }

    /// The interaction source for this timeline's last event
    pub fn interaction_source(&self) -> (r: Interaction)
        ensures
            r == (self.id, self.nonce),
    {
        (self.id, self.nonce)
    }

    pub fn id(&self) -> (r: u128)
        ensures
            r == self.id,
    {
        self.id
    }

    pub fn attributes(&self) -> (r: &TimelineAttributes)
        ensures
            r == self.attributes,
    {
        &self.attributes
    }
}

/// `TimelineId::allocate` of the ingest API: a fresh random timeline ID, as its 128-bit
/// value. Which ID comes out is left open (it is random).
#[verifier::external_body]
pub(crate) fn allocate_timeline_id() -> (r: u128) {
    auxon_sdk::api::TimelineId::allocate().get_raw().as_u128()
}

impl MapKey for ContextHandle {
    open spec fn key_view(&self) -> KeyView {
        match self {
            ContextHandle::Task(h) => (*h as int, Seq::empty()),
            ContextHandle::Isr(h) => (*h as int + 0x1_0000_0000, Seq::empty()),
        }
    }

    fn same_key(&self, other: &Self) -> (r: bool) {
        match (self, other) {
            (ContextHandle::Task(a), ContextHandle::Task(b)) => *a == *b,
            (ContextHandle::Isr(a), ContextHandle::Isr(b)) => *a == *b,
            _ => false,
        }
    }
}

/// An event placed on a context's timeline
pub struct ContextEvent {
    /// The object handle of the context
    pub context: ObjectHandle,
    /// The event's position among all processed events
    pub global_ordering: u128,
    pub attributes: EventAttributes,
    /// In fully linearized interaction mode, set when the event carries an interaction
    /// from the previous event, whose nonce then belongs under the conventional key
    pub add_previous_event_nonce: bool,
    /// The context's running time in the last window and that window's length, in ticks,
    /// when the window is not empty: their ratio is the context's CPU utilization
    pub cpu_utilization: Option<(u64, u64)>,
}

impl ContextEvent {
    /// Moves the internal nonce, when there is one, to the conventional nonce key
    pub fn promote_internal_nonce(&mut self)
        requires
            old(self).attributes.wf(),
        ensures
            final(self).attributes.wf(),
            final(self).context == old(self).context,
            final(self).global_ordering == old(self).global_ordering,
            final(self).add_previous_event_nonce == old(self).add_previous_event_nonce,
            final(self).cpu_utilization == old(self).cpu_utilization,
            av(final(self).attributes@) == promoted(av(old(self).attributes@)),
    {
        let ghost m = av(self.attributes@);
        if let Some(nonce) = self.attributes.remove(&EventAttrKey::InternalNonce) {
            put_event_attr(&mut self.attributes, EventAttrKey::Nonce, nonce);
        } else {
            assert(av(self.attributes@) =~= m);
        }
    }

    fn add_internal_nonce(&mut self, nonce: i64)
        requires
            old(self).attributes.wf(),
        ensures
            final(self).attributes.wf(),
            final(self).context == old(self).context,
            final(self).global_ordering == old(self).global_ordering,
            final(self).add_previous_event_nonce == old(self).add_previous_event_nonce,
            final(self).cpu_utilization == old(self).cpu_utilization,
            av(final(self).attributes@) == av(old(self).attributes@).insert(
                ek(EventAttrKey::InternalNonce),
                AttrValueView::Integer(nonce),
            ),
    {
        put_event_attr(&mut self.attributes, EventAttrKey::InternalNonce, AttrValue::Integer(nonce));
    }

    fn add_interaction(&mut self, interaction: Interaction)
        requires
            old(self).attributes.wf(),
        ensures
            final(self).attributes.wf(),
            final(self).context == old(self).context,
            final(self).global_ordering == old(self).global_ordering,
            final(self).add_previous_event_nonce == old(self).add_previous_event_nonce,
            final(self).cpu_utilization == old(self).cpu_utilization,
            av(final(self).attributes@) == with_interaction(av(old(self).attributes@), interaction),
    {
        put_event_attr(
            &mut self.attributes,
            EventAttrKey::RemoteTimelineId,
            AttrValue::TimelineId(interaction.0),
        );
        put_event_attr(&mut self.attributes, EventAttrKey::RemoteNonce, AttrValue::Integer(interaction.1));
    }
}

/// The attributes with the internal nonce moved to the conventional nonce key
pub open spec fn promoted(m: Map<KeyView, AttrValueView>) -> Map<KeyView, AttrValueView> {
    if m.contains_key(ek(EventAttrKey::InternalNonce)) {
        m.remove(ek(EventAttrKey::InternalNonce)).insert(
            ek(EventAttrKey::Nonce),
            m[ek(EventAttrKey::InternalNonce)],
        )
    } else {
        m
    }
}

/// The attributes with an interaction from a remote timeline's event
pub open spec fn with_interaction(m: Map<KeyView, AttrValueView>, i: Interaction) -> Map<
    KeyView,
    AttrValueView,
> {
    m.insert(ek(EventAttrKey::RemoteTimelineId), AttrValueView::TimelineId(i.0)).insert(
        ek(EventAttrKey::RemoteNonce),
        AttrValueView::Integer(i.1),
    )
}


/// The default CPU utilization window, in milliseconds
pub const DEFAULT_MEASUREMENT_WINDOW_MS: u64 = 500;

/// The CPU utilization window, in ticks, when the timer frequency is unknown
pub const DEFAULT_MEASUREMENT_WINDOW_TICKS: u64 = 1_000_000;

/// The startup task name used once the input can no longer be trusted
pub open spec fn unknown_context() -> Seq<char> {
    "UNKNOWN_CONTEXT"@
}

/// The configuration as the manager uses it: outside fully linearized mode, single-task
/// timelines and ISR flattening are ignored
pub open spec fn effective_cfg(cfg: TraceRecorderConfig) -> TraceRecorderConfig {
    if cfg.plugin.interaction_mode != InteractionMode::FullyLinearized {
        TraceRecorderConfig {
            plugin: PluginConfig {
                single_task_timeline: false,
                flatten_isr_timelines: false,
                ..cfg.plugin
            },
            ..cfg
        }
    } else {
        cfg
    }
}

/// The CPU utilization window in milliseconds: the configured one (at least 1 ms) or the
/// default
pub open spec fn window_ms(cfg: PluginConfig) -> int {
    match cfg.cpu_utilization_measurement_window_ms {
        Some(ms) => if ms < 1 {
            1
        } else {
            ms as int
        },
        None => DEFAULT_MEASUREMENT_WINDOW_MS as int,
    }
}

/// The CPU utilization window in ticks: whole ticks per millisecond times the window, or
/// the default when the timer frequency is unknown
pub open spec fn window_ticks(cfg: PluginConfig, freq: u32) -> int {
    if freq == 0 {
        DEFAULT_MEASUREMENT_WINDOW_TICKS as int
    } else {
        (freq as int / 1000) * window_ms(cfg)
    }
}

/// Processes the event stream of one recording
pub struct ContextManager {
    pub cfg: TraceRecorderConfig,
    pub common_timeline_attributes: TimelineAttributes,
    pub global_ordering: u128,
    pub time_rollover_tracker: TimeTracker,
    pub event_counter_tracker: EventCounterTracker,
    pub degraded: bool,
    pub first_event_observed: bool,
    pub deviant_event_parser: Option<DeviantEventParser>,
    /// Timelines by object handle
    pub objects_to_timelines: AssocMap<u32, TimelineMeta>,
    pub startup_task_handle: ObjectHandle,
    pub active_context: ContextHandle,
    /// The pending notification interaction of each task to notify
    pub notif_pending_interactions: AssocMap<u32, Interaction>,
    /// The pending interactions of each queue, in queue order
    pub queue_pending_interactions: AssocMap<u32, VecDeque<Interaction>>,
    pub utilization_measurement_window_ticks: u64,
    pub last_running_timestamp: u64,
    pub utilization_measurement_window_start: u64,
    pub context_stats: AssocMap<ContextHandle, ContextStats>,
}

impl ContextManager {
    /// The manager's invariant: its maps are well formed, and once a trace has started the
    /// running time is the timed time, the window started no later, and every context's
    /// statistics stay within it; before that no statistics are kept
    pub open spec fn wf(&self) -> bool {
        &&& self.wf_structure()
        &&& self.first_event_observed ==> {
            &&& self.last_running_timestamp == self.time_rollover_tracker.value()
            &&& self.utilization_measurement_window_start <= self.last_running_timestamp
            &&& self.stats_within(self.last_running_timestamp as int)
        }
        &&& !self.first_event_observed ==> self.context_stats@ == Map::<KeyView, ContextStats>::empty()
    }

    /// Every context's statistics stay within time `now`
    pub open spec fn stats_within(&self, now: int) -> bool {
        forall|k: KeyView| #[trigger]
            self.context_stats@.contains_key(k) ==> self.context_stats@[k].wf_at(now)
    }

    /// The maps are well formed
    pub open spec fn wf_structure(&self) -> bool {
        &&& self.objects_to_timelines.wf()
        &&& self.notif_pending_interactions.wf()
        &&& self.queue_pending_interactions.wf()
        &&& self.context_stats.wf()
        &&& self.common_timeline_attributes.wf()
        &&& self.cfg.plugin.wf()
        &&& (self.deviant_event_parser matches Some(p) ==> p.wf())
        &&& forall|k: KeyView| #[trigger]
            self.objects_to_timelines@.contains_key(k) ==> self.objects_to_timelines@[k].attributes.wf()
    }

    /// The timeline of an object
    pub fn timeline_meta(&self, handle: ObjectHandle) -> (r: Result<&TimelineMeta, Error>)
        requires
            self.objects_to_timelines.wf(),
        ensures
            match r {
                Ok(t) => self.objects_to_timelines@.contains_key(handle.key_view())
                    && self.objects_to_timelines@[handle.key_view()] == *t,
                Err(e) => !self.objects_to_timelines@.contains_key(handle.key_view()) && e
                    == Error::TaskTimelineLookup(handle),
            },
    {
        match self.objects_to_timelines.get(&handle) {
            Some(t) => Ok(t),
            None => Err(Error::TaskTimelineLookup(handle)),
        }
    }

    /// Forgets the trace position and statistics: the next event starts a new trace
    pub fn observe_trace_restart(&mut self)
        requires
            old(self).wf(),
        ensures
            final(self).wf(),
            final(self).context_stats@ == Map::<KeyView, ContextStats>::empty(),
            *final(self) == (ContextManager {
                first_event_observed: false,
                context_stats: final(self).context_stats,
                ..*old(self)
            }),
    {
        self.first_event_observed = false;
        self.context_stats = AssocMap::new();
    }

    /// Falls back to one timeline for everything, once: fully linearized interactions, a
    /// single task timeline with ISRs flattened into it, named as an unknown context
    pub fn set_degraded(&mut self)
        requires
            old(self).wf(),
        ensures
            final(self).wf(),
            degrade_rel(*old(self), *final(self)),
    {
        if !self.degraded {
            self.degraded = true;
            self.cfg.plugin.interaction_mode = InteractionMode::FullyLinearized;
            self.cfg.plugin.single_task_timeline = true;
            self.cfg.plugin.flatten_isr_timelines = true;
            proof {
                reveal_strlit("UNKNOWN_CONTEXT");
            }
            self.cfg.plugin.startup_task_name = Some(String::from_str("UNKNOWN_CONTEXT"));
            self.active_context = ContextHandle::Task(self.startup_task_handle);
        }
    }
}

/// What `set_degraded` does: nothing when already degraded, else the fallback
/// configuration with the startup task as the active context
pub open spec fn degrade_rel(s: ContextManager, s2: ContextManager) -> bool {
    if s.degraded {
        s2 == s
    } else {
        &&& s2.cfg.plugin.startup_task_name matches Some(n) && n@ == unknown_context()
        &&& s2 == (ContextManager {
            degraded: true,
            cfg: TraceRecorderConfig {
                plugin: PluginConfig {
                    interaction_mode: InteractionMode::FullyLinearized,
                    single_task_timeline: true,
                    flatten_isr_timelines: true,
                    startup_task_name: s2.cfg.plugin.startup_task_name,
                    ..s.cfg.plugin
                },
                ..s.cfg
            },
            active_context: ContextHandle::Task(s.startup_task_handle),
            ..s
        })
    }
}


/// The timeline attributes every timeline of the manager starts with: the recording's
/// common attributes and the CPU utilization window
pub open spec fn manager_common_attrs(
    trd: RecorderData,
    cfg: TraceRecorderConfig,
    run_id: AttrValueView,
    time_domain: AttrValueView,
) -> Map<KeyView, AttrValueView> {
    common_attrs(trd, cfg, run_id, time_domain).insert(
        tk(TimelineAttrKey::CpuUtilizationMeasurementWindowTicks),
        int_attr(window_ticks(cfg.plugin, trd.timer_frequency)),
    ).insert(
        tk(TimelineAttrKey::CpuUtilizationMeasurementWindow),
        AttrValueView::Timestamp((window_ms(cfg.plugin) * 1_000_000) as u64),
    )
}

/// What a new manager holds: nothing observed yet, the startup task active, and the
/// deviant event parser when a base event ID is configured
pub open spec fn new_manager(cfg: TraceRecorderConfig, trd: RecorderData, m: ContextManager) -> bool {
    let c = effective_cfg(cfg);
    &&& m.cfg == c
    &&& m.global_ordering == 0
    &&& m.time_rollover_tracker == (TimeTracker { lower: 0, upper: 0 })
    &&& m.event_counter_tracker == (EventCounterTracker { count: 0, rollovers: 0 })
    &&& !m.degraded
    &&& !m.first_event_observed
    &&& m.deviant_event_parser == (match c.plugin.deviant_event_id_base {
        Some(b) => Some(DeviantEventParser { endianness: trd.endianness, base_event_id: b }),
        None => None,
    })
    &&& m.objects_to_timelines@ == Map::<KeyView, TimelineMeta>::empty()
    &&& m.startup_task_handle == NO_TASK_HANDLE
    &&& m.active_context == ContextHandle::Task(NO_TASK_HANDLE)
    &&& m.notif_pending_interactions@ == Map::<KeyView, Interaction>::empty()
    &&& m.queue_pending_interactions@ == Map::<KeyView, VecDeque<Interaction>>::empty()
    &&& m.utilization_measurement_window_ticks == window_ticks(c.plugin, trd.timer_frequency)
    &&& m.last_running_timestamp == 0
    &&& m.utilization_measurement_window_start == 0
    &&& m.context_stats@ == Map::<KeyView, ContextStats>::empty()
    &&& exists|run_id: AttrValueView, time_domain: AttrValueView|
        #![trigger manager_common_attrs(trd, c, run_id, time_domain)]
        id_attr_ok(c.plugin.run_id, run_id) && id_attr_ok(c.plugin.time_domain, time_domain)
            && av(m.common_timeline_attributes@) == manager_common_attrs(trd, c, run_id, time_domain)
}

impl ContextManager {
    /// A manager for the recording described by `trd`. Fails when the configured deviant
    /// event base ID is not an event ID.
    pub fn new(cfg: TraceRecorderConfig, trd: &RecorderData) -> (r: Result<ContextManager, Error>)
        requires
            cfg.plugin.wf(),
            trd.timer_frequency != 0 ==> trd.latest_timestamp * ONE_SECOND <= u64::MAX,
            window_ms(cfg.plugin) * 1_000_000 <= u64::MAX,
            window_ticks(cfg.plugin, trd.timer_frequency) <= u64::MAX,
        ensures
            match r {
                Ok(m) => m.wf() && new_manager(cfg, *trd, m),
                Err(e) => {
                    &&& cfg.plugin.deviant_event_id_base matches Some(b)
                    &&& e matches Error::DeviantEvent(msg)
                    &&& msg@ == base_id_error(cfg.plugin.deviant_event_id_base->Some_0)
                },
            },
            (cfg.plugin.deviant_event_id_base matches Some(b) && b > MAX_EVENT_ID) <==> r is Err,
    {
        let ghost cfg0 = cfg;
        let mut cfg = cfg;
        if cfg.plugin.interaction_mode != InteractionMode::FullyLinearized {
            if cfg.plugin.single_task_timeline {
                cfg.plugin.single_task_timeline = false;
            }
            if cfg.plugin.flatten_isr_timelines {
                cfg.plugin.flatten_isr_timelines = false;
            }
        }
        assert(cfg == effective_cfg(cfg0));
        let window_ms: u64 = match cfg.plugin.cpu_utilization_measurement_window_ms {
            Some(ms) => if ms < 1 {
                1
            } else {
                ms
            },
            None => DEFAULT_MEASUREMENT_WINDOW_MS,
        };
        let window_ticks: u64 = if trd.timer_frequency == 0 {
            DEFAULT_MEASUREMENT_WINDOW_TICKS
        } else {
            let ticks_per_ms = (trd.timer_frequency as u64) / 1000;
            assert(ticks_per_ms * window_ms == window_ticks(cfg.plugin, trd.timer_frequency));
            ticks_per_ms * window_ms
        };
        let window_ns: u64 = window_ms * 1_000_000;
        let startup_task_handle = match trd.startup_task_handle() {
            Ok(h) => h,
            Err(e) => return Err(e),
        };
        let deviant_event_parser = match cfg.plugin.deviant_event_id_base {
            Some(base) => match DeviantEventParser::new(trd.endianness, base) {
                Ok(p) => Some(p),
                Err(e) => return Err(e),
            },
            None => None,
        };
        let mut common = trd.common_timeline_attributes(&cfg);
        let ghost (rid, td) = choose|run_id: AttrValueView, time_domain: AttrValueView|
            #![trigger common_attrs(*trd, cfg, run_id, time_domain)]
            id_attr_ok(cfg.plugin.run_id, run_id) && id_attr_ok(cfg.plugin.time_domain, time_domain)
                && av(common@) == common_attrs(*trd, cfg, run_id, time_domain);
        put_timeline_attr(
            &mut common,
            TimelineAttrKey::CpuUtilizationMeasurementWindowTicks,
            AttrValue::from_u64(window_ticks),
        );
        put_timeline_attr(
            &mut common,
            TimelineAttrKey::CpuUtilizationMeasurementWindow,
            AttrValue::Timestamp(window_ns),
        );
        assert(av(common@) == manager_common_attrs(*trd, cfg, rid, td));
        let m = ContextManager {
            cfg,
            common_timeline_attributes: common,
            global_ordering: 0,
            time_rollover_tracker: TimeTracker::new(0, 0),
            event_counter_tracker: EventCounterTracker::zero(),
            degraded: false,
            first_event_observed: false,
            deviant_event_parser,
            objects_to_timelines: AssocMap::new(),
            startup_task_handle,
            active_context: ContextHandle::Task(startup_task_handle),
            notif_pending_interactions: AssocMap::new(),
            queue_pending_interactions: AssocMap::new(),
            utilization_measurement_window_ticks: window_ticks,
            last_running_timestamp: 0,
            utilization_measurement_window_start: 0,
            context_stats: AssocMap::new(),
        };
        Ok(m)
    }
}


/// What allocating a context's timeline does: nothing when its object already has one,
/// else a timeline with a fresh ID and nonce zero, holding the common attributes and the
/// context's core attributes (those stay out when the context's object is unknown, and
/// the result is then that error)
pub open spec fn alloc_rel(
    s: ContextManager,
    context: ContextHandle,
    trd: RecorderData,
    r: Result<(), Error>,
    s2: ContextManager,
) -> bool {
    let k = context.spec_object_handle().key_view();
    if s.objects_to_timelines@.contains_key(k) {
        r is Ok && s2 == s
    } else {
        let t = s2.objects_to_timelines@[k];
        &&& s2 == (ContextManager { objects_to_timelines: s2.objects_to_timelines, ..s })
        &&& s2.objects_to_timelines@ == s.objects_to_timelines@.insert(k, t)
        &&& t.nonce == 0
        &&& t.attributes.wf()
        &&& core_timeline_outcome(
            trd,
            s.cfg.plugin,
            context,
            av(s.common_timeline_attributes@),
            r,
            av(t.attributes@),
        )
    }
}

/// The context a trace starts in: the current task of the trace start event (an ISR when
/// the recorder knows its object as another class than task), else the startup task
pub open spec fn initial_context(startup: ObjectHandle, kind: EventKind, trd: RecorderData) -> ContextHandle {
    match kind {
        EventKind::TraceStart(ev) => {
            let class = match class_for(trd.objects@, ev.current_task_handle) {
                Some(c) => c,
                None => ObjectClass::Task,
            };
            if class == ObjectClass::Task {
                ContextHandle::Task(ev.current_task_handle)
            } else {
                ContextHandle::Isr(ev.current_task_handle)
            }
        },
        _ => ContextHandle::Task(startup),
    }
}

/// The steps of starting a trace: `d` after falling back to one timeline when the first
/// event is not a trace start, `a` after allocating the initial context's timeline
pub open spec fn begin_chain(
    s: ContextManager,
    kind: EventKind,
    event_count: u16,
    timestamp: u64,
    trd: RecorderData,
    d: ContextManager,
    a: ContextManager,
    r: Result<(), Error>,
    s2: ContextManager,
) -> bool {
    let time = TimeTracker { lower: low32(timestamp), upper: trd.timer_wraparounds };
    let b = ContextManager {
        event_counter_tracker: EventCounterTracker { count: event_count, rollovers: 0 },
        time_rollover_tracker: time,
        utilization_measurement_window_start: time.value() as u64,
        active_context: initial_context(d.startup_task_handle, kind, trd),
        ..d
    };
    &&& if kind is TraceStart {
        d == s
    } else {
        degrade_rel(s, d)
    }
    &&& alloc_rel(b, b.active_context, trd, r, a)
    &&& if r is Ok {
        &&& s2 == (ContextManager {
            first_event_observed: true,
            context_stats: s2.context_stats,
            ..a
        })
        &&& s2.context_stats@ == a.context_stats@.insert(
            a.active_context.key_view(),
            ContextStats::new_spec(time.value() as u64),
        )
    } else {
        s2 == a
    }
}

/// What starting a trace with its first event does
#[verifier::opaque]
pub open spec fn begin_rel(
    s: ContextManager,
    kind: EventKind,
    event_count: u16,
    timestamp: u64,
    trd: RecorderData,
    r: Result<(), Error>,
    s2: ContextManager,
) -> bool {
    exists|d: ContextManager, a: ContextManager|
        #[trigger] begin_chain(s, kind, event_count, timestamp, trd, d, a, r, s2)
}

impl ContextStats {
    /// New statistics for a context switched in at `t`
    pub open spec fn new_spec(t: u64) -> ContextStats {
        ContextStats {
            last_timestamp: t,
            total_runtime: 0,
            runtime_since_window_start: 0,
            last_runtime_window: None,
        }
    }
}

impl ContextManager {
    /// Gives the context a timeline when its object has none
    fn alloc_context(&mut self, context: ContextHandle, trd: &RecorderData) -> (r: Result<(), Error>)
        requires
            old(self).wf(),
        ensures
            final(self).wf(),
            alloc_rel(*old(self), context, *trd, r, *final(self)),
    {
        let h = context.object_handle();
        if self.objects_to_timelines.contains_key(&h) {
            return Ok(());
        }
        let attrs = self.common_timeline_attributes.duplicate();
        assert(attrs@ == self.common_timeline_attributes@);
        let mut tlm = TimelineMeta { id: allocate_timeline_id(), attributes: attrs, nonce: 0 };
        let r = trd.add_core_timeline_attributes(&self.cfg.plugin, context, &mut tlm.attributes);
        let ghost t = tlm;
        self.objects_to_timelines.insert(h, tlm);
        assert(self.objects_to_timelines@[h.key_view()] == t);
        r
    }

    /// Starts a trace with its first event
    fn begin_trace(
        &mut self,
        kind: &EventKind,
        event_count: u16,
        timestamp: u64,
        trd: &RecorderData,
    ) -> (r: Result<(), Error>)
        requires
            old(self).wf(),
            !old(self).first_event_observed,
        ensures
            final(self).wf_structure(),
            begin_rel(*old(self), *kind, event_count, timestamp, *trd, r, *final(self)),
            final(self).global_ordering == old(self).global_ordering,
            final(self).time_rollover_tracker == (TimeTracker {
                lower: low32(timestamp),
                upper: trd.timer_wraparounds,
            }),
            r is Ok ==> {
                &&& final(self).first_event_observed
                &&& final(self).utilization_measurement_window_start
                    == final(self).time_rollover_tracker.value()
                &&& final(self).stats_within(final(self).time_rollover_tracker.value())
            },
            r is Err ==> final(self).wf(),
    {
        reveal(begin_rel);
        let ghost s = *self;
        let is_trace_start = match kind {
            EventKind::TraceStart(_) => true,
            _ => false,
        };
        if !is_trace_start {
            self.set_degraded();
        }
        let ghost d = *self;
        self.event_counter_tracker.set_initial_count(event_count);
        self.time_rollover_tracker = TimeTracker::new(
            (timestamp % 0x1_0000_0000) as u32,
            trd.timer_wraparounds,
        );
        self.utilization_measurement_window_start = self.time_rollover_tracker.to_timestamp();
        self.active_context = match kind {
            EventKind::TraceStart(ev) => {
                let class = match trd.class_of(ev.current_task_handle) {
                    Some(c) => c,
                    None => ObjectClass::Task,
                };
                if class == ObjectClass::Task {
                    ContextHandle::Task(ev.current_task_handle)
                } else {
                    ContextHandle::Isr(ev.current_task_handle)
                }
            },
            _ => ContextHandle::Task(self.startup_task_handle),
        };
        let ghost b = *self;
        let active = self.active_context;
        let r = self.alloc_context(active, trd);
        let ghost a = *self;
        if r.is_ok() {
            let t = self.time_rollover_tracker.to_timestamp();
            self.context_stats.insert(active, ContextStats::new(t));
            self.first_event_observed = true;
            assert(*self == (ContextManager {
                first_event_observed: true,
                context_stats: self.context_stats,
                ..a
            }));
        }
        assert(begin_chain(s, *kind, event_count, timestamp, *trd, d, a, r, *self));
        r
    }
}


/// Whether an event switched contexts, and from which
#[derive(Copy, Clone, PartialEq, Eq, Structural, Debug)]
pub enum ContextSwitchOutcome {
    /// The event stays on the active context's timeline
    Same,
    /// The event switched to another context; the previous one is given
    Different(ContextHandle),
}

/// The context that an event switches in, if it is a switch-in event
pub open spec fn switch_target(kind: EventKind) -> Option<ContextHandle> {
    match kind {
        EventKind::IsrBegin(ev) | EventKind::IsrResume(ev) => Some(ContextHandle::Isr(ev.handle)),
        EventKind::TaskBegin(ev) | EventKind::TaskResume(ev) | EventKind::TaskActivate(ev) => Some(
            ContextHandle::Task(ev.handle),
        ),
        _ => None,
    }
}

/// The statistics after switching from `active` to another `context` at `now`: the
/// active context's running time is closed, the new context is marked switched in
pub open spec fn switch_stats(
    stats: Map<KeyView, ContextStats>,
    active: ContextHandle,
    context: ContextHandle,
    now: u64,
) -> Map<KeyView, ContextStats> {
    let ak = active.key_view();
    let ck = context.key_view();
    let s1 = if stats.contains_key(ak) {
        stats.insert(ak, stats[ak].spec_update(now))
    } else {
        stats
    };
    let cur = if s1.contains_key(ck) {
        s1[ck]
    } else {
        ContextStats::new_spec(now)
    };
    s1.insert(ck, ContextStats { last_timestamp: now, ..cur })
}

/// The context whose timeline a switch-in of `context` lands on: with a single task
/// timeline every task is the startup task; with ISRs flattened an ISR stays on the
/// active context
pub open spec fn landing_context(cfg: PluginConfig, startup: ObjectHandle, active: ContextHandle, context: ContextHandle) -> ContextHandle {
    match context {
        ContextHandle::Task(h) => ContextHandle::Task(
            if cfg.single_task_timeline {
                startup
            } else {
                h
            },
        ),
        ContextHandle::Isr(h) => if cfg.flatten_isr_timelines {
            active
        } else {
            ContextHandle::Isr(h)
        },
    }
}

/// The steps of a switch-in of `context`: `p` after the statistics, `a` after allocating
/// the landing context's timeline
pub open spec fn switch_chain(
    s: ContextManager,
    context: ContextHandle,
    trd: RecorderData,
    p: ContextManager,
    a: ContextManager,
    r: Result<ContextSwitchOutcome, Error>,
    s2: ContextManager,
) -> bool {
    let active = s.active_context;
    let cfg = s.cfg.plugin;
    let target = landing_context(cfg, s.startup_task_handle, active, context);
    &&& p == (ContextManager { context_stats: p.context_stats, ..s })
    &&& p.context_stats@ == (if context != active {
        switch_stats(s.context_stats@, active, context, s.last_running_timestamp)
    } else {
        s.context_stats@
    })
    &&& if (!cfg.single_task_timeline && !cfg.flatten_isr_timelines && context == active)
        || target == active {
        r == Ok::<ContextSwitchOutcome, Error>(ContextSwitchOutcome::Same) && s2 == p
    } else {
        exists|ra: Result<(), Error>|
            #![trigger alloc_rel(p, target, trd, ra, a)]
            alloc_rel(p, target, trd, ra, a) && match ra {
                Ok(_) => r == Ok::<ContextSwitchOutcome, Error>(ContextSwitchOutcome::Different(active))
                    && s2 == (ContextManager { active_context: target, ..a }),
                Err(e) => r == Err::<ContextSwitchOutcome, Error>(e) && s2 == a,
            }
    }
}

/// What an event does to the active context
#[verifier::opaque]
pub open spec fn context_switch_rel(
    s: ContextManager,
    kind: EventKind,
    trd: RecorderData,
    r: Result<ContextSwitchOutcome, Error>,
    s2: ContextManager,
) -> bool {
    match switch_target(kind) {
        None => r == Ok::<ContextSwitchOutcome, Error>(ContextSwitchOutcome::Same) && s2 == s,
        Some(context) => exists|p: ContextManager, a: ContextManager|
            #[trigger] switch_chain(s, context, trd, p, a, r, s2),
    }
}

impl Duplicate for ContextHandle {
    fn duplicate(&self) -> (r: Self) {
        *self
    }
}

impl ContextManager {
    /// Switches to `context` at a switch-in event
    fn context_switch_in(&mut self, context: ContextHandle, trd: &RecorderData) -> (r: Result<
        ContextSwitchOutcome,
        Error,
    >)
        requires
            old(self).wf(),
            old(self).first_event_observed,
        ensures
            final(self).wf(),
            final(self).first_event_observed,
            exists|p: ContextManager, a: ContextManager|
                #[trigger] switch_chain(*old(self), context, *trd, p, a, r, *final(self)),
    {
        let ghost s = *self;
        let active = self.active_context;
        let now = self.last_running_timestamp;
        if context != active {
            let ghost st0 = self.context_stats@;
            match self.context_stats.get(&active) {
                Some(st) => {
                    let mut st2 = *st;
                    st2.update(now);
                    self.context_stats.insert(active, st2);
                },
                None => {},
            }
            let mut cur = match self.context_stats.get(&context) {
                Some(st) => *st,
                None => ContextStats::new(now),
            };
            cur.set_last_timestamp(now);
            self.context_stats.insert(context, cur);
            assert(self.context_stats@ == switch_stats(st0, active, context, now));
        }
        let ghost p = *self;
        assert(p.stats_within(now as int));
        let single = self.cfg.plugin.single_task_timeline;
        let flatten = self.cfg.plugin.flatten_isr_timelines;
        if !single && !flatten && context == active {
            assert(switch_chain(s, context, *trd, p, p, Ok(ContextSwitchOutcome::Same), *self));
            return Ok(ContextSwitchOutcome::Same);
        }
        let target = match context {
            ContextHandle::Task(h) => ContextHandle::Task(
                if single {
                    self.startup_task_handle
                } else {
                    h
                },
            ),
            ContextHandle::Isr(h) => if flatten {
                active
            } else {
                ContextHandle::Isr(h)
            },
        };
        if target != active {
            let ra = self.alloc_context(target, trd);
            let ghost a = *self;
            match ra {
                Ok(_) => {
                    self.active_context = target;
                    assert(switch_chain(s, context, *trd, p, a, Ok(ContextSwitchOutcome::Different(active)), *self));
                    Ok(ContextSwitchOutcome::Different(active))
                },
                Err(e) => {
                    assert(switch_chain(s, context, *trd, p, a, Err(e), *self));
                    Err(e)
                },
            }
        } else {
            assert(switch_chain(s, context, *trd, p, p, Ok(ContextSwitchOutcome::Same), *self));
            Ok(ContextSwitchOutcome::Same)
        }
    }

    /// Switches contexts when the event is a switch-in event
    fn handle_context_switch(&mut self, kind: &EventKind, trd: &RecorderData) -> (r: Result<
        ContextSwitchOutcome,
        Error,
    >)
        requires
            old(self).wf(),
            old(self).first_event_observed,
        ensures
            final(self).wf(),
            final(self).first_event_observed,
            context_switch_rel(*old(self), *kind, *trd, r, *final(self)),
            final(self).global_ordering == old(self).global_ordering,
            final(self).last_running_timestamp == old(self).last_running_timestamp,
    {
        reveal(context_switch_rel);
        let target = match kind {
            EventKind::IsrBegin(ev) | EventKind::IsrResume(ev) => Some(ContextHandle::Isr(ev.handle)),
            EventKind::TaskBegin(ev) | EventKind::TaskResume(ev) | EventKind::TaskActivate(ev) => Some(
                ContextHandle::Task(ev.handle),
            ),
            _ => None,
        };
        match target {
            Some(context) => self.context_switch_in(context, trd),
            None => Ok(ContextSwitchOutcome::Same),
        }
    }
}


impl ContextStats {
    /// The statistics once the current window closes after `dur` ticks
    pub open spec fn window_closed(self, dur: u64) -> ContextStats {
        ContextStats {
            runtime_since_window_start: 0,
            last_runtime_window: Some(
                RuntimeWindow { running: self.runtime_since_window_start, length: dur },
            ),
            ..self
        }
    }
}

/// Every context's statistics once the current window closes after `dur` ticks
pub open spec fn closed_windows(m: Map<KeyView, ContextStats>, dur: u64) -> Map<KeyView, ContextStats> {
    m.map_values(window_closer(dur))
}

/// Closing the current window after `dur` ticks, as a function of the statistics
pub open spec fn window_closer(dur: u64) -> spec_fn(ContextStats) -> ContextStats {
    |st: ContextStats| st.window_closed(dur)
}

/// An attribute holding the nanoseconds of `ticks`, when the frequency is known
pub open spec fn with_ns(
    m: Map<KeyView, AttrValueView>,
    key: EventAttrKey,
    freq: u32,
    ticks: u64,
) -> Map<KeyView, AttrValueView> {
    match ns_of(freq, ticks as int) {
        Some(ns) => m.insert(ek(key), AttrValueView::Timestamp(ns)),
        None => m,
    }
}

/// The runtime attributes of an event on a context just switched in: the total time, the
/// context's running time, and the last window's numbers when there is one
pub open spec fn stats_attrs(
    m: Map<KeyView, AttrValueView>,
    freq: u32,
    total: u64,
    st: ContextStats,
) -> Map<KeyView, AttrValueView> {
    let m1 = with_ns(
        m.insert(ek(EventAttrKey::TotalRuntimeTicks), int_attr(total as int)),
        EventAttrKey::TotalRuntime,
        freq,
        total,
    );
    let m2 = with_ns(
        m1.insert(ek(EventAttrKey::RuntimeTicks), int_attr(st.total_runtime as int)),
        EventAttrKey::Runtime,
        freq,
        st.total_runtime,
    );
    match st.last_runtime_window {
        Some(w) => {
            let m3 = with_ns(
                m2.insert(ek(EventAttrKey::RuntimeInWindowTicks), int_attr(w.running as int)),
                EventAttrKey::RuntimeInWindow,
                freq,
                w.running,
            );
            with_ns(
                m3.insert(ek(EventAttrKey::RuntimeWindowTicks), int_attr(w.length as int)),
                EventAttrKey::RuntimeWindow,
                freq,
                w.length,
            )
        },
        None => m2,
    }
}

/// The running time and length of the context's last window, when it is not empty
pub open spec fn stats_utilization(st: ContextStats) -> Option<(u64, u64)> {
    match st.last_runtime_window {
        Some(w) => if w.length > 0 {
            Some((w.running, w.length))
        } else {
            None
        },
        None => None,
    }
}

/// Whether the nanoseconds of `ticks` can be computed at frequency `freq`
pub open spec fn ns_fits(freq: u32, ticks: int) -> bool {
    freq != 0 ==> ticks * ONE_SECOND <= u64::MAX
}

/// Sets an attribute to the nanoseconds of `ticks`, when the frequency is known
fn put_ns(attrs: &mut EventAttributes, key: EventAttrKey, freq: u32, ticks: u64)
    requires
        old(attrs).wf(),
        ns_fits(freq, ticks as int),
    ensures
        final(attrs).wf(),
        av(final(attrs)@) == with_ns(av(old(attrs)@), key, freq, ticks),
{
    if let Some(ns) = convert_timestamp(freq, ticks) {
        put_event_attr(attrs, key, AttrValue::Timestamp(ns));
    }
}

impl ContextEvent {
    /// Adds the runtime attributes of the context just switched in
    fn add_stats(&mut self, freq: u32, total_runtime: u64, st: &ContextStats)
        requires
            old(self).attributes.wf(),
            st.wf_at(total_runtime as int),
            ns_fits(freq, total_runtime as int),
        ensures
            final(self).attributes.wf(),
            final(self).context == old(self).context,
            final(self).global_ordering == old(self).global_ordering,
            final(self).add_previous_event_nonce == old(self).add_previous_event_nonce,
            final(self).cpu_utilization == stats_utilization(*st),
            av(final(self).attributes@) == stats_attrs(
                av(old(self).attributes@),
                freq,
                total_runtime,
                *st,
            ),
    {
        put_event_attr(
            &mut self.attributes,
            EventAttrKey::TotalRuntimeTicks,
            AttrValue::from_u64(total_runtime),
        );
        put_ns(&mut self.attributes, EventAttrKey::TotalRuntime, freq, total_runtime);
        put_event_attr(
            &mut self.attributes,
            EventAttrKey::RuntimeTicks,
            AttrValue::from_u64(st.total_runtime),
        );
        put_ns(&mut self.attributes, EventAttrKey::Runtime, freq, st.total_runtime);
        self.cpu_utilization = None;
        if let Some(w) = st.last_runtime_window {
            put_event_attr(
                &mut self.attributes,
                EventAttrKey::RuntimeInWindowTicks,
                AttrValue::from_u64(w.running),
            );
            put_ns(&mut self.attributes, EventAttrKey::RuntimeInWindow, freq, w.running);
            put_event_attr(
                &mut self.attributes,
                EventAttrKey::RuntimeWindowTicks,
                AttrValue::from_u64(w.length),
            );
            put_ns(&mut self.attributes, EventAttrKey::RuntimeWindow, freq, w.length);
            if w.length > 0 {
                self.cpu_utilization = Some((w.running, w.length));
            }
        }
    }
}

/// What the window bookkeeping does at an event: at a context switch, a window longer
/// than the configured one closes for every context, and the event gets the runtime
/// attributes of the context switched in
#[verifier::opaque]
pub open spec fn window_rel(
    s: ContextManager,
    outcome: ContextSwitchOutcome,
    freq: u32,
    m: Map<KeyView, AttrValueView>,
    s2: ContextManager,
    m2: Map<KeyView, AttrValueView>,
    cpu: Option<(u64, u64)>,
) -> bool {
    if outcome is Different {
        let diff = (s.last_running_timestamp - s.utilization_measurement_window_start) as u64;
        let closes = diff > s.utilization_measurement_window_ticks;
        let stats = if closes {
            closed_windows(s.context_stats@, diff)
        } else {
            s.context_stats@
        };
        &&& s2 == (ContextManager {
            context_stats: s2.context_stats,
            utilization_measurement_window_start: if closes {
                s.last_running_timestamp
            } else {
                s.utilization_measurement_window_start
            },
            ..s
        })
        &&& s2.context_stats@ == stats
        &&& if stats.contains_key(s.active_context.key_view()) {
            let st = stats[s.active_context.key_view()];
            m2 == stats_attrs(m, freq, s.last_running_timestamp, st) && cpu == stats_utilization(st)
        } else {
            m2 == m && cpu is None
        }
    } else {
        s2 == s && m2 == m && cpu is None
    }
}

impl ContextManager {
    /// Closes the current window for every context after `dur` ticks
    fn close_windows(&mut self, dur: u64)
        requires
            old(self).context_stats.wf(),
        ensures
            final(self).context_stats.wf(),
            *final(self) == (ContextManager { context_stats: final(self).context_stats, ..*old(self) }),
            final(self).context_stats@ == closed_windows(old(self).context_stats@, dur),
    {
        let ghost o = self.context_stats.entries();
        let ghost f = window_closer(dur);
        let n = self.context_stats.len();
        let mut i: usize = 0;
        while i < n
            invariant
                self.context_stats.wf(),
                n == o.len(),
                i <= n,
                self.context_stats.entries().len() == n,
                forall|j: int| 0 <= j < i ==> #[trigger] self.context_stats.entries()[j] == (o[j].0, f(o[j].1)),
                forall|j: int| i <= j < n ==> #[trigger] self.context_stats.entries()[j] == o[j],
                *self == (ContextManager { context_stats: self.context_stats, ..*old(self) }),
                o == old(self).context_stats.entries(),
                f == window_closer(dur),
            decreases n - i,
        {
            let mut st = self.context_stats.as_slice()[i].1;
            assert(st == o[i as int].1);
            st.update_runtime_window(dur);
            assert(st == o[i as int].1.window_closed(dur));
            self.context_stats.set_value_at(i, st);
            assert(self.context_stats.entries()[i as int] == (o[i as int].0, f(o[i as int].1)));
            i = i + 1;
        }
        proof {
            crate::maps::lemma_entries_map_values(o, self.context_stats.entries(), f);
            assert(self.context_stats@ =~= closed_windows(old(self).context_stats@, dur));
        }
    }

    /// The window bookkeeping at an event
    fn update_windows(&mut self, outcome: ContextSwitchOutcome, freq: u32, ctx_event: &mut ContextEvent)
        requires
            old(self).wf(),
            old(self).first_event_observed,
            old(ctx_event).attributes.wf(),
            old(ctx_event).cpu_utilization is None,
            ns_fits(freq, old(self).last_running_timestamp as int),
        ensures
            final(self).wf(),
            final(self).first_event_observed,
            final(ctx_event).attributes.wf(),
            final(ctx_event).context == old(ctx_event).context,
            final(ctx_event).global_ordering == old(ctx_event).global_ordering,
            final(ctx_event).add_previous_event_nonce == old(ctx_event).add_previous_event_nonce,
            window_rel(
                *old(self),
                outcome,
                freq,
                av(old(ctx_event).attributes@),
                *final(self),
                av(final(ctx_event).attributes@),
                final(ctx_event).cpu_utilization,
            ),
    {
        reveal(window_rel);
        if let ContextSwitchOutcome::Different(_) = outcome {
            let diff = self.last_running_timestamp - self.utilization_measurement_window_start;
            if diff > self.utilization_measurement_window_ticks {
                self.close_windows(diff);
                self.utilization_measurement_window_start = self.last_running_timestamp;
            }
            let active = self.active_context;
            match self.context_stats.get(&active) {
                Some(st) => {
                    ctx_event.add_stats(freq, self.last_running_timestamp, st);
                },
                None => {
                    ctx_event.cpu_utilization = None;
                },
            }
        }
    }
}


/// The error of a missing timeline for a context
pub open spec fn lookup_error(c: ContextHandle) -> Error {
    match c {
        ContextHandle::Task(h) => Error::TaskTimelineLookup(h),
        ContextHandle::Isr(h) => Error::IsrTimelineLookup(h),
    }
}

/// The key of a context's timeline
pub open spec fn tl_key(c: ContextHandle) -> KeyView {
    c.spec_object_handle().key_view()
}

/// A timeline with its nonce advanced by one event
pub open spec fn advanced(t: TimelineMeta) -> TimelineMeta {
    TimelineMeta { nonce: t.nonce.wrapping_add(1), ..t }
}

/// The manager with the active context's timeline advanced by one event
pub open spec fn advanced_rel(s: ContextManager, s2: ContextManager) -> bool {
    let k = tl_key(s.active_context);
    &&& s2 == (ContextManager { objects_to_timelines: s2.objects_to_timelines, ..s })
    &&& s2.objects_to_timelines@ == s.objects_to_timelines@.insert(
        k,
        advanced(s.objects_to_timelines@[k]),
    )
}

/// What fully linearized mode does with an event: each event advances its timeline's
/// nonce and records it as the internal nonce; unless task interactions are disabled, an
/// event after a context switch also carries an interaction from the previous context's
/// last event
#[verifier::opaque]
pub open spec fn fully_linearized_rel(
    s: ContextManager,
    outcome: ContextSwitchOutcome,
    m: Map<KeyView, AttrValueView>,
    r: Result<(Map<KeyView, AttrValueView>, bool), Error>,
    s2: ContextManager,
) -> bool {
    let tl = s.objects_to_timelines@;
    let ak = tl_key(s.active_context);
    let interacts = !s.cfg.plugin.disable_task_interactions;
    match outcome {
        ContextSwitchOutcome::Different(prev) if interacts && !tl.contains_key(tl_key(prev)) => r == Err::<
            (Map<KeyView, AttrValueView>, bool),
            Error,
        >(lookup_error(prev)) && s2 == s,
        _ => if !tl.contains_key(ak) {
            r == Err::<(Map<KeyView, AttrValueView>, bool), Error>(lookup_error(s.active_context))
                && s2 == s
        } else {
            let (m1, flag) = match outcome {
                ContextSwitchOutcome::Different(prev) if interacts => (
                    with_interaction(m, (tl[tl_key(prev)].id, tl[tl_key(prev)].nonce)),
                    true,
                ),
                _ => (m, false),
            };
            &&& advanced_rel(s, s2)
            &&& r == Ok::<(Map<KeyView, AttrValueView>, bool), Error>(
                (
                    m1.insert(
                        ek(EventAttrKey::InternalNonce),
                        AttrValueView::Integer(advanced(tl[ak]).nonce),
                    ),
                    flag,
                ),
            )
        },
    }
}

/// The pending interactions of a queue
pub open spec fn queue_of(q: Map<KeyView, VecDeque<Interaction>>, h: ObjectHandle) -> Seq<Interaction> {
    if q.contains_key(h.key_view()) {
        q[h.key_view()]@
    } else {
        Seq::empty()
    }
}

/// What IPC mode does with an event, after advancing the active context's timeline: a
/// notification or a send promotes the internal nonce and leaves the event as pending
/// interaction (a notification replaces the task's pending one; a send goes to the back
/// of the queue, a send-to-front to its front); a notification wait takes the task's
/// pending interaction; a receive takes the queue's front one; a peek reads it and
/// leaves it
#[verifier::opaque]
pub open spec fn ipc_rel(
    s: ContextManager,
    kind: EventKind,
    m: Map<KeyView, AttrValueView>,
    r: Result<Map<KeyView, AttrValueView>, Error>,
    s2: ContextManager,
) -> bool {
    let tl = s.objects_to_timelines@;
    let ak = tl_key(s.active_context);
    if !tl.contains_key(ak) {
        r == Err::<Map<KeyView, AttrValueView>, Error>(lookup_error(s.active_context)) && s2 == s
    } else {
        let t = advanced(tl[ak]);
        let src = (t.id, t.nonce);
        let m1 = m.insert(ek(EventAttrKey::InternalNonce), AttrValueView::Integer(t.nonce));
        let notif = s.notif_pending_interactions@;
        let queues = s.queue_pending_interactions@;
        &&& s2 == (ContextManager {
            objects_to_timelines: s2.objects_to_timelines,
            notif_pending_interactions: s2.notif_pending_interactions,
            queue_pending_interactions: s2.queue_pending_interactions,
            ..s
        })
        &&& s2.objects_to_timelines@ == tl.insert(ak, t)
        &&& match kind {
            EventKind::TaskNotify(ev) | EventKind::TaskNotifyFromIsr(ev) => {
                &&& r == Ok::<Map<KeyView, AttrValueView>, Error>(promoted(m1))
                &&& s2.notif_pending_interactions@ == notif.insert(ev.handle.key_view(), src)
                &&& s2.queue_pending_interactions@ == queues
            },
            EventKind::TaskNotifyWait(ev) => {
                &&& r == Ok::<Map<KeyView, AttrValueView>, Error>(
                    if notif.contains_key(ev.handle.key_view()) {
                        with_interaction(m1, notif[ev.handle.key_view()])
                    } else {
                        m1
                    },
                )
                &&& s2.notif_pending_interactions@ == notif.remove(ev.handle.key_view())
                &&& s2.queue_pending_interactions@ == queues
            },
            EventKind::QueueSend(ev) | EventKind::QueueSendFromIsr(ev) => {
                &&& r == Ok::<Map<KeyView, AttrValueView>, Error>(promoted(m1))
                &&& s2.notif_pending_interactions@ == notif
                &&& s2.queue_pending_interactions@.dom() == queues.dom().insert(ev.handle.key_view())
                &&& s2.queue_pending_interactions@.remove(ev.handle.key_view()) == queues.remove(
                    ev.handle.key_view(),
                )
                &&& queue_of(s2.queue_pending_interactions@, ev.handle) == queue_of(
                    queues,
                    ev.handle,
                ).push(src)
            },
            EventKind::QueueSendFront(ev) | EventKind::QueueSendFrontFromIsr(ev) => {
                &&& r == Ok::<Map<KeyView, AttrValueView>, Error>(promoted(m1))
                &&& s2.notif_pending_interactions@ == notif
                &&& s2.queue_pending_interactions@.dom() == queues.dom().insert(ev.handle.key_view())
                &&& s2.queue_pending_interactions@.remove(ev.handle.key_view()) == queues.remove(
                    ev.handle.key_view(),
                )
                &&& queue_of(s2.queue_pending_interactions@, ev.handle) == seq![src] + queue_of(
                    queues,
                    ev.handle,
                )
            },
            EventKind::QueueReceive(ev) | EventKind::QueueReceiveFromIsr(ev) => {
                let pending = queue_of(queues, ev.handle);
                &&& r == Ok::<Map<KeyView, AttrValueView>, Error>(
                    if pending.len() > 0 {
                        with_interaction(m1, pending[0])
                    } else {
                        m1
                    },
                )
                &&& s2.notif_pending_interactions@ == notif
                &&& s2.queue_pending_interactions@.dom() == queues.dom().insert(ev.handle.key_view())
                &&& s2.queue_pending_interactions@.remove(ev.handle.key_view()) == queues.remove(
                    ev.handle.key_view(),
                )
                &&& queue_of(s2.queue_pending_interactions@, ev.handle) == (if pending.len() > 0 {
                    pending.drop_first()
                } else {
                    pending
                })
            },
            EventKind::QueuePeek(ev) => {
                let pending = queue_of(queues, ev.handle);
                &&& r == Ok::<Map<KeyView, AttrValueView>, Error>(
                    if pending.len() > 0 {
                        with_interaction(m1, pending[0])
                    } else {
                        m1
                    },
                )
                &&& s2.notif_pending_interactions@ == notif
                &&& s2.queue_pending_interactions@.dom() == queues.dom().insert(ev.handle.key_view())
                &&& s2.queue_pending_interactions@.remove(ev.handle.key_view()) == queues.remove(
                    ev.handle.key_view(),
                )
                &&& queue_of(s2.queue_pending_interactions@, ev.handle) == pending
            },
            _ => {
                &&& r == Ok::<Map<KeyView, AttrValueView>, Error>(m1)
                &&& s2.notif_pending_interactions@ == notif
                &&& s2.queue_pending_interactions@ == queues
            },
        }
    }
}

impl ContextManager {
    /// Advances the active context's timeline by one event; returns its interaction source
    fn advance_active(&mut self) -> (r: Result<Interaction, Error>)
        requires
            old(self).wf(),
        ensures
            final(self).wf(),
            final(self).first_event_observed == old(self).first_event_observed,
            match r {
                Ok(src) => {
                    &&& old(self).objects_to_timelines@.contains_key(tl_key(old(self).active_context))
                    &&& advanced_rel(*old(self), *final(self))
                    &&& src == (
                        advanced(old(self).objects_to_timelines@[tl_key(old(self).active_context)]).id,
                        advanced(old(self).objects_to_timelines@[tl_key(old(self).active_context)]).nonce,
                    )
                },
                Err(e) => {
                    &&& !old(self).objects_to_timelines@.contains_key(tl_key(old(self).active_context))
                    &&& e == lookup_error(old(self).active_context)
                    &&& *final(self) == *old(self)
                },
            },
    {
        let active = self.active_context;
        let h = active.object_handle();
        match self.objects_to_timelines.remove(&h) {
            Some(t) => {
                let mut t = t;
                t.increment_nonce();
                let src = t.interaction_source();
                let ghost t2 = t;
                assert(t2 == advanced(old(self).objects_to_timelines@[h.key_view()]));
                self.objects_to_timelines.insert(h, t);
                assert(self.objects_to_timelines@ =~= old(self).objects_to_timelines@.insert(
                    h.key_view(),
                    t2,
                ));
                Ok(src)
            },
            None => {
                match active {
                    ContextHandle::Task(h) => Err(Error::TaskTimelineLookup(h)),
                    ContextHandle::Isr(h) => Err(Error::IsrTimelineLookup(h)),
                }
            },
        }
    }

    /// The interaction source of a context's timeline's last event
    fn interaction_source_of(&self, c: ContextHandle) -> (r: Result<Interaction, Error>)
        requires
            self.objects_to_timelines.wf(),
        ensures
            match r {
                Ok(src) => self.objects_to_timelines@.contains_key(tl_key(c)) && src == (
                    self.objects_to_timelines@[tl_key(c)].id,
                    self.objects_to_timelines@[tl_key(c)].nonce,
                ),
                Err(e) => !self.objects_to_timelines@.contains_key(tl_key(c)) && e == lookup_error(c),
            },
    {
        let h = c.object_handle();
        match self.objects_to_timelines.get(&h) {
            Some(t) => Ok(t.interaction_source()),
            None => match c {
                ContextHandle::Task(h) => Err(Error::TaskTimelineLookup(h)),
                ContextHandle::Isr(h) => Err(Error::IsrTimelineLookup(h)),
            },
        }
    }

    /// Fully linearized mode: advances the event's timeline and records interactions
    /// across context switches
    fn process_fully_linearized_mode(
        &mut self,
        outcome: ContextSwitchOutcome,
        ctx_event: ContextEvent,
    ) -> (r: Result<ContextEvent, Error>)
        requires
            old(self).wf(),
            ctx_event.attributes.wf(),
            !ctx_event.add_previous_event_nonce,
        ensures
            final(self).wf(),
            final(self).first_event_observed == old(self).first_event_observed,
            fully_linearized_rel(
                *old(self),
                outcome,
                av(ctx_event.attributes@),
                match r {
                    Ok(out) => Ok((av(out.attributes@), out.add_previous_event_nonce)),
                    Err(e) => Err(e),
                },
                *final(self),
            ),
            r matches Ok(out) ==> {
                &&& out.attributes.wf()
                &&& out.context == ctx_event.context
                &&& out.global_ordering == ctx_event.global_ordering
                &&& out.cpu_utilization == ctx_event.cpu_utilization
            },
    {
        reveal(fully_linearized_rel);
        let mut ctx_event = ctx_event;
        match outcome {
            ContextSwitchOutcome::Same => {},
            ContextSwitchOutcome::Different(prev) => {
                if !self.cfg.plugin.disable_task_interactions {
                    ctx_event.add_previous_event_nonce = true;
                    let src = match self.interaction_source_of(prev) {
                        Ok(src) => src,
                        Err(e) => return Err(e),
                    };
                    ctx_event.add_interaction(src);
                }
            },
        }
        let src = match self.advance_active() {
            Ok(src) => src,
            Err(e) => return Err(e),
        };
        ctx_event.add_internal_nonce(src.1);
        Ok(ctx_event)
    }
}


impl ContextManager {
    /// Takes a queue's pending interactions out of the map (none when it has no entry)
    fn take_queue(&mut self, h: ObjectHandle) -> (r: VecDeque<Interaction>)
        requires
            old(self).wf(),
        ensures
            final(self).wf(),
            final(self).first_event_observed == old(self).first_event_observed,
            *final(self) == (ContextManager {
                queue_pending_interactions: final(self).queue_pending_interactions,
                ..*old(self)
            }),
            final(self).queue_pending_interactions@ == old(self).queue_pending_interactions@.remove(
                h.key_view(),
            ),
            r@ == queue_of(old(self).queue_pending_interactions@, h),
    {
        match self.queue_pending_interactions.remove(&h) {
            Some(q) => q,
            None => VecDeque::new(),
        }
    }

    /// IPC mode: advances the event's timeline and records interactions through task
    /// notifications and queues
    fn process_ipc_mode(&mut self, kind: &EventKind, ctx_event: ContextEvent) -> (r: Result<
        ContextEvent,
        Error,
    >)
        requires
            old(self).wf(),
            ctx_event.attributes.wf(),
        ensures
            final(self).wf(),
            final(self).first_event_observed == old(self).first_event_observed,
            ipc_rel(
                *old(self),
                *kind,
                av(ctx_event.attributes@),
                match r {
                    Ok(out) => Ok(av(out.attributes@)),
                    Err(e) => Err(e),
                },
                *final(self),
            ),
            r matches Ok(out) ==> {
                &&& out.attributes.wf()
                &&& out.context == ctx_event.context
                &&& out.global_ordering == ctx_event.global_ordering
                &&& out.cpu_utilization == ctx_event.cpu_utilization
                &&& out.add_previous_event_nonce == ctx_event.add_previous_event_nonce
            },
    {
        reveal(ipc_rel);
        let mut ctx_event = ctx_event;
        let ghost s = *self;
        let src = match self.advance_active() {
            Ok(src) => src,
            Err(e) => return Err(e),
        };
        ctx_event.add_internal_nonce(src.1);
        match kind {
            EventKind::TaskNotify(ev) | EventKind::TaskNotifyFromIsr(ev) => {
                ctx_event.promote_internal_nonce();
                self.notif_pending_interactions.insert(ev.handle, src);
            },
            EventKind::TaskNotifyWait(ev) => {
                if let Some(pending) = self.notif_pending_interactions.remove(&ev.handle) {
                    ctx_event.add_interaction(pending);
                }
            },
            EventKind::QueueSend(ev) | EventKind::QueueSendFromIsr(ev) => {
                ctx_event.promote_internal_nonce();
                let mut q = self.take_queue(ev.handle);
                q.push_back(src);
                self.queue_pending_interactions.insert(ev.handle, q);
                assert(self.queue_pending_interactions@.dom() =~= s.queue_pending_interactions@.dom().insert(
                    ev.handle.key_view(),
                ));
                assert(self.queue_pending_interactions@.remove(ev.handle.key_view())
                    =~= s.queue_pending_interactions@.remove(ev.handle.key_view()));
            },
            EventKind::QueueSendFront(ev) | EventKind::QueueSendFrontFromIsr(ev) => {
                ctx_event.promote_internal_nonce();
                let mut q = self.take_queue(ev.handle);
                q.push_front(src);
                self.queue_pending_interactions.insert(ev.handle, q);
                assert(self.queue_pending_interactions@.dom() =~= s.queue_pending_interactions@.dom().insert(
                    ev.handle.key_view(),
                ));
                assert(self.queue_pending_interactions@.remove(ev.handle.key_view())
                    =~= s.queue_pending_interactions@.remove(ev.handle.key_view()));
            },
            EventKind::QueueReceive(ev) | EventKind::QueueReceiveFromIsr(ev) => {
                let mut q = self.take_queue(ev.handle);
                if let Some(pending) = q.pop_front() {
                    ctx_event.add_interaction(pending);
                }
                self.queue_pending_interactions.insert(ev.handle, q);
                assert(self.queue_pending_interactions@.dom() =~= s.queue_pending_interactions@.dom().insert(
                    ev.handle.key_view(),
                ));
                assert(self.queue_pending_interactions@.remove(ev.handle.key_view())
                    =~= s.queue_pending_interactions@.remove(ev.handle.key_view()));
            },
            EventKind::QueuePeek(ev) => {
                let mut q = self.take_queue(ev.handle);
                let ghost before = q@;
                if let Some(pending) = q.pop_front() {
                    q.push_front(pending);
                    assert(q@ =~= before);
                    ctx_event.add_interaction(pending);
                }
                self.queue_pending_interactions.insert(ev.handle, q);
                assert(self.queue_pending_interactions@.dom() =~= s.queue_pending_interactions@.dom().insert(
                    ev.handle.key_view(),
                ));
                assert(self.queue_pending_interactions@.remove(ev.handle.key_view())
                    =~= s.queue_pending_interactions@.remove(ev.handle.key_view()));
            },
            _ => {},
        }
        Ok(ctx_event)
    }
}


/// The attributes of a deviant event of kind `kind` with the given parameter bytes: its
/// Modality name, the mutator ID (as integer and as UUID text), and for mutation events
/// the mutation ID and whether it succeeded
pub open spec fn deviant_attrs(
    m: Map<KeyView, AttrValueView>,
    e: crate::recorder_data::Endianness,
    kind: DeviantEventKind,
    bytes: Seq<u8>,
) -> Map<KeyView, AttrValueView> {
    let mutator = bytes.subrange(0, 16);
    let m1 = m.insert(ek(EventAttrKey::Name), str_attr(kind.spec_modality_name())).insert(
        ek(EventAttrKey::MutatorId),
        int_attr(le_signed_128(mutator)),
    ).insert(ek(EventAttrKey::InternalMutatorId), str_attr(uuid_hyphenated(mutator)));
    match kind {
        DeviantEventKind::MutatorAnnounced | DeviantEventKind::MutatorRetired => m1,
        _ => {
            let mutation = bytes.subrange(16, 32);
            m1.insert(ek(EventAttrKey::MutationId), int_attr(le_signed_128(mutation))).insert(
                ek(EventAttrKey::InternalMutationId),
                str_attr(uuid_hyphenated(mutation)),
            ).insert(
                ek(EventAttrKey::MutationSuccess),
                AttrValueView::Bool(u32_of_bytes(bytes.subrange(32, 36), e) != 0),
            )
        },
    }
}

/// The event counter and timer attributes
pub open spec fn count_time_attrs(
    m: Map<KeyView, AttrValueView>,
    freq: u32,
    raw_count: u16,
    count: int,
    dropped: Option<u64>,
    raw_ticks: u64,
    ticks: u64,
) -> Map<KeyView, AttrValueView> {
    let m1 = m.insert(ek(EventAttrKey::EventCountRaw), iattr(raw_count as int)).insert(
        ek(EventAttrKey::EventCount),
        int_attr(count),
    );
    let m2 = match dropped {
        Some(d) => m1.insert(ek(EventAttrKey::DroppedEvents), int_attr(d as int)),
        None => m1,
    };
    with_ns(
        m2.insert(ek(EventAttrKey::TimerTicks), int_attr(raw_ticks as int)).insert(
            ek(EventAttrKey::TimestampTicks),
            int_attr(ticks as int),
        ),
        EventAttrKey::Timestamp,
        freq,
        ticks,
    )
}

/// The attributes of an event from `m0` on: its core attributes, then its counter and
/// timer attributes
pub open spec fn finish_attrs_rel(
    s: ContextManager,
    code: u16,
    ev: Event,
    trd: RecorderData,
    dropped: Option<u64>,
    m0: Map<KeyView, AttrValueView>,
    r: Result<Option<Map<KeyView, AttrValueView>>, Error>,
) -> bool {
    exists|rc: Result<(), Error>, mc: Map<KeyView, AttrValueView>|
        #![trigger core_event_outcome(s.cfg.plugin, trd.timer_frequency, code, ev.kind, m0, rc, mc)]
        core_event_outcome(s.cfg.plugin, trd.timer_frequency, code, ev.kind, m0, rc, mc) && match rc {
            Err(e) => r == Err::<Option<Map<KeyView, AttrValueView>>, Error>(e),
            Ok(_) => r == Ok::<Option<Map<KeyView, AttrValueView>>, Error>(
                Some(
                    count_time_attrs(
                        mc,
                        trd.timer_frequency,
                        ev.event_count,
                        s.event_counter_tracker.value(),
                        dropped,
                        ev.timestamp,
                        s.last_running_timestamp,
                    ),
                ),
            ),
        }
}

/// The attributes of an event: none for object name and timestamp configuration events,
/// nor for unknown events that are not deviant events unless those are included; a
/// deviant event's own attributes, then the core, counter and timer attributes
#[verifier::opaque]
pub open spec fn event_attrs_rel(
    s: ContextManager,
    code: u16,
    ev: Event,
    trd: RecorderData,
    dropped: Option<u64>,
    r: Result<Option<Map<KeyView, AttrValueView>>, Error>,
) -> bool {
    let empty = Map::<KeyView, AttrValueView>::empty();
    match ev.kind {
        EventKind::ObjectName | EventKind::TsConfig => r == Ok::<
            Option<Map<KeyView, AttrValueView>>,
            Error,
        >(None),
        EventKind::Unknown(u) => {
            let dk = match s.deviant_event_parser {
                Some(p) => DeviantEventKind::kind_at(p.base_event_id, spec_event_id(code)),
                None => None,
            };
            match dk {
                Some(kind) => {
                    let p = s.deviant_event_parser->Some_0;
                    let bytes = param_bytes(u.parameters@);
                    if bytes.len() != kind.spec_expected_parameter_byte_count() {
                        r matches Err(Error::DeviantEvent(msg)) && msg@ == byte_count_error(
                            code,
                            kind,
                            bytes.len(),
                        )
                    } else {
                        finish_attrs_rel(
                            s,
                            code,
                            ev,
                            trd,
                            dropped,
                            deviant_attrs(empty, p.endianness, kind, bytes),
                            r,
                        )
                    }
                },
                None => if !s.cfg.plugin.include_unknown_events {
                    r == Ok::<Option<Map<KeyView, AttrValueView>>, Error>(None)
                } else {
                    finish_attrs_rel(s, code, ev, trd, dropped, empty, r)
                },
            }
        },
        _ => finish_attrs_rel(s, code, ev, trd, dropped, empty, r),
    }
}

impl ContextManager {
    /// The attributes of the event, once the counters and timer have seen it
    fn event_attributes(
        &mut self,
        event_code: u16,
        event: &Event,
        trd: &RecorderData,
        dropped: Option<u64>,
    ) -> (r: Result<Option<EventAttributes>, Error>)
        requires
            old(self).wf(),
            ns_fits(trd.timer_frequency, old(self).last_running_timestamp as int),
        ensures
            *final(self) == *old(self),
            event_attrs_rel(
                *old(self),
                event_code,
                *event,
                *trd,
                dropped,
                match r {
                    Ok(Some(a)) => Ok(Some(av(a@))),
                    Ok(None) => Ok(None),
                    Err(e) => Err(e),
                },
            ),
            r matches Ok(Some(a)) ==> a.wf(),
    {
        reveal(event_attrs_rel);
        let ghost s = *self;
        let mut attrs = EventAttributes::new();
        assert(av(attrs@) =~= Map::<KeyView, AttrValueView>::empty());
        match &event.kind {
            EventKind::ObjectName | EventKind::TsConfig => return Ok(None),
            EventKind::Unknown(u) => {
                let maybe_dev = match &mut self.deviant_event_parser {
                    Some(p) => match p.parse(event_code, u.parameters.as_slice()) {
                        Ok(d) => d,
                        Err(e) => return Err(e),
                    },
                    None => None,
                };
                match maybe_dev {
                    Some(dev) => {
                        let ghost bytes = param_bytes(u.parameters@);
                        put_event_attr(
                            &mut attrs,
                            EventAttrKey::Name,
                            AttrValue::from_str_slice(dev.kind.to_modality_name()),
                        );
                        put_event_attr(&mut attrs, EventAttrKey::MutatorId, dev.mutator_id.value.duplicate());
                        put_event_attr(
                            &mut attrs,
                            EventAttrKey::InternalMutatorId,
                            AttrValue::String(uuid_attr_text(&dev.mutator_id)),
                        );
                        if let Some(m) = &dev.mutation_id {
                            put_event_attr(&mut attrs, EventAttrKey::MutationId, m.value.duplicate());
                            put_event_attr(
                                &mut attrs,
                                EventAttrKey::InternalMutationId,
                                AttrValue::String(uuid_attr_text(m)),
                            );
                        }
                        if let Some(v) = &dev.mutation_success {
                            put_event_attr(&mut attrs, EventAttrKey::MutationSuccess, v.duplicate());
                        }
                        assert(av(attrs@) == deviant_attrs(
                            Map::<KeyView, AttrValueView>::empty(),
                            s.deviant_event_parser->Some_0.endianness,
                            dev.kind,
                            bytes,
                        ));
                    },
                    None => {
                        if !self.cfg.plugin.include_unknown_events {
                            return Ok(None);
                        }
                    },
                }
            },
            _ => {},
        }
        let ghost m0 = av(attrs@);
        let rc = trd.add_core_event_attributes(&self.cfg.plugin, event_code, &event.kind, &mut attrs);
        let ghost mc = av(attrs@);
        if let Err(e) = rc {
            assert(core_event_outcome(self.cfg.plugin, trd.timer_frequency, event_code, event.kind, m0, rc, mc));
            return Err(e);
        }
        put_event_attr(&mut attrs, EventAttrKey::EventCountRaw, AttrValue::Integer(event.event_count as i64));
        put_event_attr(
            &mut attrs,
            EventAttrKey::EventCount,
            AttrValue::from_u64(self.event_counter_tracker.count()),
        );
        if let Some(d) = dropped {
            put_event_attr(&mut attrs, EventAttrKey::DroppedEvents, AttrValue::from_u64(d));
        }
        put_event_attr(&mut attrs, EventAttrKey::TimerTicks, AttrValue::from_u64(event.timestamp));
        put_event_attr(
            &mut attrs,
            EventAttrKey::TimestampTicks,
            AttrValue::from_u64(self.last_running_timestamp),
        );
        put_ns(&mut attrs, EventAttrKey::Timestamp, trd.timer_frequency, self.last_running_timestamp);
        assert(core_event_outcome(self.cfg.plugin, trd.timer_frequency, event_code, event.kind, m0, rc, mc));
        Ok(Some(attrs))
    }
}


/// The meaning of a context event
pub struct ContextEventView {
    pub context: ObjectHandle,
    pub global_ordering: u128,
    pub attributes: Map<KeyView, AttrValueView>,
    pub add_previous_event_nonce: bool,
    pub cpu_utilization: Option<(u64, u64)>,
}

impl View for ContextEvent {
    type V = ContextEventView;

    open spec fn view(&self) -> ContextEventView {
        ContextEventView {
            context: self.context,
            global_ordering: self.global_ordering,
            attributes: av(self.attributes@),
            add_previous_event_nonce: self.add_previous_event_nonce,
            cpu_utilization: self.cpu_utilization,
        }
    }
}

/// The meaning of the result of processing an event
pub open spec fn outcome_view(r: Result<Option<ContextEvent>, Error>) -> Result<Option<ContextEventView>, Error> {
    match r {
        Ok(Some(ev)) => Ok(Some(ev@)),
        Ok(None) => Ok(None),
        Err(e) => Err(e),
    }
}

/// The meaning of the result of the fully linearized mode step
pub open spec fn linearized_view(r: Result<ContextEvent, Error>) -> Result<(Map<KeyView, AttrValueView>, bool), Error> {
    match r {
        Ok(out) => Ok((av(out.attributes@), out.add_previous_event_nonce)),
        Err(e) => Err(e),
    }
}

/// The meaning of the result of the IPC mode step
pub open spec fn ipc_view(r: Result<ContextEvent, Error>) -> Result<Map<KeyView, AttrValueView>, Error> {
    match r {
        Ok(out) => Ok(av(out.attributes@)),
        Err(e) => Err(e),
    }
}

/// The events the counter reports as dropped between its two states
pub open spec fn dropped_between(a: EventCounterTracker, b: EventCounterTracker) -> Option<u64> {
    if b.value() - a.value() != 1 {
        Some((b.value() - a.value() - 1) as u64)
    } else {
        None
    }
}

/// The intermediate states and results of processing one event
pub struct ProcessSteps {
    /// After counting the event (and starting the trace with it when it is the first)
    pub begun: ContextManager,
    /// The result of starting the trace
    pub begin_result: Result<(), Error>,
    /// After the timer has seen the event
    pub timed: ContextManager,
    /// The event's attributes
    pub attrs: Result<Option<Map<KeyView, AttrValueView>>, Error>,
    /// After the context switch
    pub switched: ContextManager,
    pub outcome: Result<ContextSwitchOutcome, Error>,
    /// After the window bookkeeping
    pub windowed: ContextManager,
    pub window_attrs: Map<KeyView, AttrValueView>,
    pub cpu: Option<(u64, u64)>,
    /// The result of the interaction mode step
    pub linearized: Result<(Map<KeyView, AttrValueView>, bool), Error>,
    pub ipc: Result<Map<KeyView, AttrValueView>, Error>,
}

/// The chain of steps that processing an event takes, through the intermediate states
/// and results in `w`
pub open spec fn process_chain(
    s: ContextManager,
    code: u16,
    ev: Event,
    trd: RecorderData,
    w: ProcessSteps,
    r: Result<Option<ContextEventView>, Error>,
    s2: ContextManager,
) -> bool {
    let g = ContextManager { global_ordering: s.global_ordering.saturating_add(1), ..s };
    let dropped = if s.first_event_observed {
        dropped_between(s.event_counter_tracker, w.begun.event_counter_tracker)
    } else {
        None
    };
    &&& if s.first_event_observed {
        w.begun == (ContextManager {
            event_counter_tracker: s.event_counter_tracker.spec_update(ev.event_count),
            ..g
        }) && w.begin_result is Ok
    } else {
        begin_rel(g, ev.kind, ev.event_count, ev.timestamp, trd, w.begin_result, w.begun)
    }
    &&& match w.begin_result {
        Err(e) => r == Err::<Option<ContextEventView>, Error>(e) && s2 == w.begun,
        Ok(_) => {
            let time = w.begun.time_rollover_tracker.spec_elapsed(ev.timestamp);
            &&& w.timed == (ContextManager {
                time_rollover_tracker: time,
                last_running_timestamp: time.value() as u64,
                ..w.begun
            })
            &&& event_attrs_rel(w.timed, code, ev, trd, dropped, w.attrs)
            &&& match w.attrs {
                Err(e) => r == Err::<Option<ContextEventView>, Error>(e) && s2 == w.timed,
                Ok(None) => r == Ok::<Option<ContextEventView>, Error>(None) && s2 == w.timed,
                Ok(Some(m)) => {
                    &&& context_switch_rel(w.timed, ev.kind, trd, w.outcome, w.switched)
                    &&& match w.outcome {
                        Err(e) => r == Err::<Option<ContextEventView>, Error>(e) && s2
                            == w.switched,
                        Ok(o) => {
                            let context = w.switched.active_context.spec_object_handle();
                            &&& window_rel(
                                w.switched,
                                o,
                                trd.timer_frequency,
                                m,
                                w.windowed,
                                w.window_attrs,
                                w.cpu,
                            )
                            &&& match w.windowed.cfg.plugin.interaction_mode {
                                InteractionMode::FullyLinearized => {
                                    &&& fully_linearized_rel(
                                        w.windowed,
                                        o,
                                        w.window_attrs,
                                        w.linearized,
                                        s2,
                                    )
                                    &&& r == match w.linearized {
                                        Ok((a, flag)) => Ok::<Option<ContextEventView>, Error>(
                                            Some(
                                                ContextEventView {
                                                    context,
                                                    global_ordering: g.global_ordering,
                                                    attributes: a,
                                                    add_previous_event_nonce: flag,
                                                    cpu_utilization: w.cpu,
                                                },
                                            ),
                                        ),
                                        Err(e) => Err(e),
                                    }
                                },
                                InteractionMode::Ipc => {
                                    &&& ipc_rel(w.windowed, ev.kind, w.window_attrs, w.ipc, s2)
                                    &&& r == match w.ipc {
                                        Ok(a) => Ok::<Option<ContextEventView>, Error>(
                                            Some(
                                                ContextEventView {
                                                    context,
                                                    global_ordering: g.global_ordering,
                                                    attributes: a,
                                                    add_previous_event_nonce: false,
                                                    cpu_utilization: w.cpu,
                                                },
                                            ),
                                        ),
                                        Err(e) => Err(e),
                                    }
                                },
                            }
                        },
                    }
                },
            }
        },
    }
}

/// What processing an event does: the event is counted and timed (starting a trace when
/// it is the first), its attributes are gathered, contexts switch, windows close, and the
/// interaction mode places it on its timeline
pub open spec fn process_rel(
    s: ContextManager,
    code: u16,
    ev: Event,
    trd: RecorderData,
    r: Result<Option<ContextEventView>, Error>,
    s2: ContextManager,
) -> bool {
    exists|w: ProcessSteps| #[trigger] process_chain(s, code, ev, trd, w, r, s2)
}

/// Whether an event can be processed without a counter overflowing: the event counter and
/// the timer can count one more rollover when they roll over, and the event's time in
/// nanoseconds fits in 64 bits
pub open spec fn can_process(s: ContextManager, ev: Event, trd: RecorderData) -> bool {
    let t = if s.first_event_observed {
        s.time_rollover_tracker.spec_elapsed(ev.timestamp)
    } else {
        TimeTracker { lower: low32(ev.timestamp), upper: trd.timer_wraparounds }
    };
    &&& s.first_event_observed ==> s.event_counter_tracker.can_update(ev.event_count)
        && s.time_rollover_tracker.can_elapse(ev.timestamp)
    &&& ns_fits(trd.timer_frequency, t.value())
}

impl ContextManager {
    /// Whether the event can be processed without a counter overflowing
    pub fn can_process_event(&self, event: &Event, trd: &RecorderData) -> (r: bool)
        ensures
            r == can_process(*self, *event, *trd),
    {
        let t = if self.first_event_observed {
            let now32: u32 = (event.timestamp % 0x1_0000_0000) as u32;
            if now32 < self.time_rollover_tracker.lower && self.time_rollover_tracker.upper == u32::MAX {
                return false;
            }
            if event.event_count <= self.event_counter_tracker.count
                && self.event_counter_tracker.rollovers == u32::MAX {
                return false;
            }
            let mut t = self.time_rollover_tracker;
            t.elapsed(event.timestamp)
        } else {
            let t = TimeTracker::new((event.timestamp % 0x1_0000_0000) as u32, trd.timer_wraparounds);
            t.to_timestamp()
        };
        trd.timer_frequency == 0 || t <= u64::MAX / ONE_SECOND
    }

    /// Processes one event of the recording: returns it placed on its context's timeline,
    /// or nothing for events that are skipped
    #[verifier::rlimit(80)]
    pub fn process_event(&mut self, event_code: u16, event: &Event, trd: &RecorderData) -> (r: Result<
        Option<ContextEvent>,
        Error,
    >)
        requires
            old(self).wf(),
            can_process(*old(self), *event, *trd),
        ensures
            final(self).wf(),
            process_rel(*old(self), event_code, *event, *trd, outcome_view(r), *final(self)),
    {
        let ghost s = *self;
        self.global_ordering = self.global_ordering.saturating_add(1);
        let ghost g = *self;
        let ghost mut rbg: Result<(), Error> = Ok(());
        let dropped = if !self.first_event_observed {
            let rb = self.begin_trace(&event.kind, event.event_count, event.timestamp, trd);
            proof {
                rbg = rb;
            }
            if let Err(e) = rb {
                let ghost w = ProcessSteps {
                    begun: *self,
                    begin_result: rb,
                    timed: *self,
                    attrs: Ok(None),
                    switched: *self,
                    outcome: Ok(ContextSwitchOutcome::Same),
                    windowed: *self,
                    window_attrs: Map::empty(),
                    cpu: None,
                    linearized: Ok((Map::empty(), false)),
                    ipc: Ok(Map::empty()),
                };
                assert(process_chain(s, event_code, *event, *trd, w, outcome_view(Err(e)), *self));
                return Err(e);
            }
            None
        } else {
            self.event_counter_tracker.update(event.event_count)
        };
        let ghost begun = *self;
        let timestamp = self.time_rollover_tracker.elapsed(event.timestamp);
        self.last_running_timestamp = timestamp;
        let ghost timed = *self;
        let attrs = match self.event_attributes(event_code, event, trd, dropped) {
            Ok(Some(a)) => a,
            Ok(None) => {
                let ghost w = ProcessSteps {
                    begun,
                    begin_result: rbg,
                    timed,
                    attrs: Ok(None),
                    switched: *self,
                    outcome: Ok(ContextSwitchOutcome::Same),
                    windowed: *self,
                    window_attrs: Map::empty(),
                    cpu: None,
                    linearized: Ok((Map::empty(), false)),
                    ipc: Ok(Map::empty()),
                };
                assert(process_chain(s, event_code, *event, *trd, w, outcome_view(Ok(None)), *self));
                return Ok(None);
            },
            Err(e) => {
                let ghost w = ProcessSteps {
                    begun,
                    begin_result: rbg,
                    timed,
                    attrs: Err(e),
                    switched: *self,
                    outcome: Ok(ContextSwitchOutcome::Same),
                    windowed: *self,
                    window_attrs: Map::empty(),
                    cpu: None,
                    linearized: Ok((Map::empty(), false)),
                    ipc: Ok(Map::empty()),
                };
                assert(process_chain(s, event_code, *event, *trd, w, outcome_view(Err(e)), *self));
                return Err(e);
            },
        };
        let ghost m = av(attrs@);
        let outcome = self.handle_context_switch(&event.kind, trd);
        let ghost switched = *self;
        let outcome = match outcome {
            Ok(o) => o,
            Err(e) => {
                let ghost w = ProcessSteps {
                    begun,
                    begin_result: rbg,
                    timed,
                    attrs: Ok(Some(m)),
                    switched,
                    outcome: Err(e),
                    windowed: *self,
                    window_attrs: Map::empty(),
                    cpu: None,
                    linearized: Ok((Map::empty(), false)),
                    ipc: Ok(Map::empty()),
                };
                assert(process_chain(s, event_code, *event, *trd, w, outcome_view(Err(e)), *self));
                return Err(e);
            },
        };
        let mut ctx_event = ContextEvent {
            context: self.active_context.object_handle(),
            global_ordering: self.global_ordering,
            attributes: attrs,
            add_previous_event_nonce: false,
            cpu_utilization: None,
        };
        self.update_windows(outcome, trd.timer_frequency, &mut ctx_event);
        let ghost windowed = *self;
        let ghost window_attrs = av(ctx_event.attributes@);
        let ghost cpu = ctx_event.cpu_utilization;
        match self.cfg.plugin.interaction_mode {
            InteractionMode::FullyLinearized => {
                let res = self.process_fully_linearized_mode(outcome, ctx_event);
                let ghost lin = linearized_view(res);
                let ghost w = ProcessSteps {
                    begun,
                    begin_result: rbg,
                    timed,
                    attrs: Ok(Some(m)),
                    switched,
                    outcome: Ok(outcome),
                    windowed,
                    window_attrs,
                    cpu,
                    linearized: lin,
                    ipc: Ok(Map::empty()),
                };
                match res {
                    Ok(out) => {
                        assert(process_chain(s, event_code, *event, *trd, w, outcome_view(Ok(Some(out))), *self));
                        Ok(Some(out))
                    },
                    Err(e) => {
                        assert(process_chain(s, event_code, *event, *trd, w, outcome_view(Err(e)), *self));
                        Err(e)
                    },
                }
            },
            InteractionMode::Ipc => {
                let res = self.process_ipc_mode(&event.kind, ctx_event);
                let ghost ipc = ipc_view(res);
                let ghost w = ProcessSteps {
                    begun,
                    begin_result: rbg,
                    timed,
                    attrs: Ok(Some(m)),
                    switched,
                    outcome: Ok(outcome),
                    windowed,
                    window_attrs,
                    cpu,
                    linearized: Ok((Map::empty(), false)),
                    ipc,
                };
                match res {
                    Ok(out) => {
                        assert(process_chain(s, event_code, *event, *trd, w, outcome_view(Ok(Some(out))), *self));
                        Ok(Some(out))
                    },
                    Err(e) => {
                        assert(process_chain(s, event_code, *event, *trd, w, outcome_view(Err(e)), *self));
                        Err(e)
                    },
                }
            },
        }
    }
}


/// Starting a trace keeps the global ordering
proof fn lemma_begin_keeps_ordering(
    s: ContextManager,
    kind: EventKind,
    event_count: u16,
    timestamp: u64,
    trd: RecorderData,
    r: Result<(), Error>,
    s2: ContextManager,
)
    requires
        begin_rel(s, kind, event_count, timestamp, trd, r, s2),
    ensures
        s2.global_ordering == s.global_ordering,
        s2.cfg.plugin.interaction_mode == (if kind is TraceStart || s.degraded {
            s.cfg.plugin.interaction_mode
        } else {
            InteractionMode::FullyLinearized
        }),
{
    reveal(begin_rel);
    let (d, a) = choose|d: ContextManager, a: ContextManager|
        #[trigger] begin_chain(s, kind, event_count, timestamp, trd, d, a, r, s2);
}

/// A context switch keeps the global ordering and the configuration
proof fn lemma_switch_keeps(
    s: ContextManager,
    kind: EventKind,
    trd: RecorderData,
    r: Result<ContextSwitchOutcome, Error>,
    s2: ContextManager,
)
    requires
        context_switch_rel(s, kind, trd, r, s2),
    ensures
        s2.global_ordering == s.global_ordering,
        s2.cfg == s.cfg,
        s2.first_event_observed == s.first_event_observed,
        s2.startup_task_handle == s.startup_task_handle,
        s2.last_running_timestamp == s.last_running_timestamp,
        s2.notif_pending_interactions == s.notif_pending_interactions,
        s2.queue_pending_interactions == s.queue_pending_interactions,
        r == Ok::<ContextSwitchOutcome, Error>(ContextSwitchOutcome::Same) ==> s2.active_context == s.active_context,
        r matches Ok(ContextSwitchOutcome::Different(prev)) ==> prev == s.active_context
            && s2.active_context != s.active_context,
        forall|k: KeyView| #[trigger]
            s.objects_to_timelines@.contains_key(k) ==> s2.objects_to_timelines@.contains_key(k)
                && s2.objects_to_timelines@[k] == s.objects_to_timelines@[k],
        r is Ok ==> s2.objects_to_timelines@.contains_key(tl_key(s2.active_context)) || s2.active_context == s.active_context,
{
    reveal(context_switch_rel);
    match switch_target(kind) {
        None => {},
        Some(context) => {
            let (p, a) = choose|p: ContextManager, a: ContextManager|
                #[trigger] switch_chain(s, context, trd, p, a, r, s2);
            let target = landing_context(s.cfg.plugin, s.startup_task_handle, s.active_context, context);
            if (!s.cfg.plugin.single_task_timeline && !s.cfg.plugin.flatten_isr_timelines && context == s.active_context)
                || target == s.active_context {
            } else {
                let ra = choose|ra: Result<(), Error>| #[trigger] alloc_rel(p, target, trd, ra, a) && match ra {
                    Ok(_) => r == Ok::<ContextSwitchOutcome, Error>(ContextSwitchOutcome::Different(s.active_context))
                        && s2 == (ContextManager { active_context: target, ..a }),
                    Err(e) => r == Err::<ContextSwitchOutcome, Error>(e) && s2 == a,
                };
            }
        },
    }
}

/// The window bookkeeping keeps everything but the statistics and the window start
proof fn lemma_window_keeps(
    s: ContextManager,
    o: ContextSwitchOutcome,
    freq: u32,
    m: Map<KeyView, AttrValueView>,
    s2: ContextManager,
    m2: Map<KeyView, AttrValueView>,
    cpu: Option<(u64, u64)>,
)
    requires
        window_rel(s, o, freq, m, s2, m2, cpu),
    ensures
        s2 == (ContextManager {
            context_stats: s2.context_stats,
            utilization_measurement_window_start: s2.utilization_measurement_window_start,
            ..s
        }),
        forall|k: KeyView|
            #![trigger m2.contains_key(k)]
            m.contains_key(k) && k != ek(EventAttrKey::TotalRuntimeTicks) && k != ek(
                EventAttrKey::TotalRuntime,
            ) && k != ek(EventAttrKey::RuntimeTicks) && k != ek(EventAttrKey::Runtime) && k != ek(
                EventAttrKey::RuntimeInWindowTicks,
            ) && k != ek(EventAttrKey::RuntimeInWindow) && k != ek(
                EventAttrKey::RuntimeWindowTicks,
            ) && k != ek(EventAttrKey::RuntimeWindow) ==> m2.contains_key(k) && m2[k] == m[k],
{
    reveal(window_rel);
}

/// Every processed event advances the global ordering by one (saturating at its
/// maximum), and an event placed on a timeline carries the advanced ordering
pub proof fn lemma_process_orders_events(
    s: ContextManager,
    code: u16,
    ev: Event,
    trd: RecorderData,
    r: Result<Option<ContextEventView>, Error>,
    s2: ContextManager,
)
    requires
        process_rel(s, code, ev, trd, r, s2),
    ensures
        s2.global_ordering == s.global_ordering.saturating_add(1),
        r matches Ok(Some(e)) ==> e.global_ordering == s2.global_ordering,
{
    let w = choose|w: ProcessSteps| #[trigger] process_chain(s, code, ev, trd, w, r, s2);
    let g = ContextManager { global_ordering: s.global_ordering.saturating_add(1), ..s };
    if !s.first_event_observed {
        lemma_begin_keeps_ordering(g, ev.kind, ev.event_count, ev.timestamp, trd, w.begin_result, w.begun);
    }
    if w.begin_result is Ok {
        if let Ok(Some(m)) = w.attrs {
            lemma_switch_keeps(w.timed, ev.kind, trd, w.outcome, w.switched);
            if let Ok(o) = w.outcome {
                lemma_window_keeps(w.switched, o, trd.timer_frequency, m, w.windowed, w.window_attrs, w.cpu);
                reveal(fully_linearized_rel);
                reveal(ipc_rel);
            }
        }
    }
}


/// What one event does to a trace that has started: the configuration stays, and an
/// event placed on a timeline is on the active context's timeline, which it advanced
proof fn lemma_started_step(
    s: ContextManager,
    code: u16,
    ev: Event,
    trd: RecorderData,
    r: Result<Option<ContextEventView>, Error>,
    s2: ContextManager,
) -> (w: ProcessSteps)
    requires
        process_rel(s, code, ev, trd, r, s2),
        s.first_event_observed,
    ensures
        process_chain(s, code, ev, trd, w, r, s2),
        s2.cfg == s.cfg,
        s2.first_event_observed,
        s2.startup_task_handle == s.startup_task_handle,
        forall|k: KeyView| #[trigger]
            s.objects_to_timelines@.contains_key(k) ==> s2.objects_to_timelines@.contains_key(k),
        r matches Ok(Some(e)) ==> {
            &&& w.attrs is Ok
            &&& w.outcome is Ok
            &&& e.context == s2.active_context.spec_object_handle()
            &&& s2.active_context == w.switched.active_context
            &&& w.windowed.objects_to_timelines == w.switched.objects_to_timelines
            &&& w.windowed.active_context == w.switched.active_context
            &&& w.switched.active_context == w.timed.active_context <==> w.outcome == Ok::<
                ContextSwitchOutcome,
                Error,
            >(ContextSwitchOutcome::Same)
            &&& w.timed.active_context == s.active_context
            &&& w.timed.objects_to_timelines == s.objects_to_timelines
            &&& forall|k: KeyView| #[trigger]
                s.objects_to_timelines@.contains_key(k) ==> w.switched.objects_to_timelines@.contains_key(k)
                    && w.switched.objects_to_timelines@[k] == s.objects_to_timelines@[k]
            &&& w.outcome matches Ok(ContextSwitchOutcome::Different(prev)) ==> prev == s.active_context
            &&& s2.objects_to_timelines@.contains_key(tl_key(s2.active_context))
            &&& s2.objects_to_timelines@ == w.windowed.objects_to_timelines@.insert(
                tl_key(s2.active_context),
                advanced(w.windowed.objects_to_timelines@[tl_key(s2.active_context)]),
            )
            &&& s.cfg.plugin.interaction_mode == InteractionMode::FullyLinearized ==> {
                &&& w.linearized matches Ok((a, flag)) && a == e.attributes && flag
                    == e.add_previous_event_nonce
                &&& fully_linearized_rel(w.windowed, w.outcome->Ok_0, w.window_attrs, w.linearized, s2)
            }
            &&& s.cfg.plugin.interaction_mode == InteractionMode::Ipc ==> {
                &&& w.ipc == Ok::<Map<KeyView, AttrValueView>, Error>(e.attributes)
                &&& ipc_rel(w.windowed, ev.kind, w.window_attrs, w.ipc, s2)
                &&& w.windowed.queue_pending_interactions == s.queue_pending_interactions
                &&& w.windowed.notif_pending_interactions == s.notif_pending_interactions
            }
        },
{
    let w = choose|w: ProcessSteps| #[trigger] process_chain(s, code, ev, trd, w, r, s2);
    if let Ok(Some(m)) = w.attrs {
        lemma_switch_keeps(w.timed, ev.kind, trd, w.outcome, w.switched);
        if let Ok(o) = w.outcome {
            lemma_window_keeps(w.switched, o, trd.timer_frequency, m, w.windowed, w.window_attrs, w.cpu);
            reveal(fully_linearized_rel);
            reveal(ipc_rel);
            assert forall|k: KeyView| #[trigger]
                s.objects_to_timelines@.contains_key(k) implies s2.objects_to_timelines@.contains_key(k) by {
                assert(w.timed.objects_to_timelines == s.objects_to_timelines);
                assert(w.timed.objects_to_timelines@.contains_key(k));
                assert(w.switched.objects_to_timelines@.contains_key(k));
            }
        } else {
            assert forall|k: KeyView| #[trigger]
                s.objects_to_timelines@.contains_key(k) implies s2.objects_to_timelines@.contains_key(k) by {
                assert(w.timed.objects_to_timelines == s.objects_to_timelines);
                assert(w.timed.objects_to_timelines@.contains_key(k));
                assert(w.switched.objects_to_timelines@.contains_key(k));
            }
        }
    }
    w
}

/// Tasks and ISRs each have their own timeline: with a timeline per task and ISR timelines
/// not flattened, an event that switches a task or an ISR in is placed on that context's
/// timeline, which the manager then holds
pub proof fn lemma_contexts_have_own_timelines(
    s: ContextManager,
    code: u16,
    ev: Event,
    trd: RecorderData,
    r: Result<Option<ContextEventView>, Error>,
    s2: ContextManager,
)
    requires
        process_rel(s, code, ev, trd, r, s2),
        s.first_event_observed,
        !s.cfg.plugin.single_task_timeline,
        !s.cfg.plugin.flatten_isr_timelines,
        switch_target(ev.kind) is Some,
    ensures
        r matches Ok(Some(e)) ==> {
            &&& s2.active_context == switch_target(ev.kind)->Some_0
            &&& e.context == switch_target(ev.kind)->Some_0.spec_object_handle()
            &&& s2.objects_to_timelines@.contains_key(tl_key(switch_target(ev.kind)->Some_0))
        },
{
    let w = lemma_started_step(s, code, ev, trd, r, s2);
    if r matches Ok(Some(_)) {
        reveal(context_switch_rel);
        let c = switch_target(ev.kind)->Some_0;
        let (p, a) = choose|p: ContextManager, a: ContextManager|
            #[trigger] switch_chain(w.timed, c, trd, p, a, w.outcome, w.switched);
        assert(switch_chain(w.timed, c, trd, p, a, w.outcome, w.switched));
        assert(landing_context(w.timed.cfg.plugin, w.timed.startup_task_handle, w.timed.active_context, c) == c);
    }
}

/// In fully linearized mode with task interactions on, a context switch is drawn as an
/// interaction: the first event on another context names the previous event, by its
/// timeline's ID and its nonce
pub proof fn lemma_switch_names_previous_event(
    s0: ContextManager,
    code1: u16,
    ev1: Event,
    code2: u16,
    ev2: Event,
    trd: RecorderData,
    r1: Result<Option<ContextEventView>, Error>,
    s1: ContextManager,
    r2: Result<Option<ContextEventView>, Error>,
    s2: ContextManager,
)
    requires
        s0.first_event_observed,
        s0.cfg.plugin.interaction_mode == InteractionMode::FullyLinearized,
        !s0.cfg.plugin.disable_task_interactions,
        process_rel(s0, code1, ev1, trd, r1, s1),
        process_rel(s1, code2, ev2, trd, r2, s2),
        r1 matches Ok(Some(a)),
        r2 matches Ok(Some(b)),
        r2->Ok_0->Some_0.context != r1->Ok_0->Some_0.context,
    ensures
        ({
            let a = r1->Ok_0->Some_0;
            let b = r2->Ok_0->Some_0;
            let t = s1.objects_to_timelines@[a.context.key_view()];
            &&& b.add_previous_event_nonce
            &&& a.attributes.contains_key(ek(EventAttrKey::InternalNonce))
            &&& a.attributes[ek(EventAttrKey::InternalNonce)] == AttrValueView::Integer(t.nonce)
            &&& b.attributes.contains_key(ek(EventAttrKey::RemoteNonce))
            &&& b.attributes[ek(EventAttrKey::RemoteNonce)] == a.attributes[ek(
                EventAttrKey::InternalNonce,
            )]
            &&& b.attributes.contains_key(ek(EventAttrKey::RemoteTimelineId))
            &&& b.attributes[ek(EventAttrKey::RemoteTimelineId)] == AttrValueView::TimelineId(t.id)
        }),
{
    let w1 = lemma_started_step(s0, code1, ev1, trd, r1, s1);
    let w2 = lemma_started_step(s1, code2, ev2, trd, r2, s2);
    reveal(fully_linearized_rel);
    let a = r1->Ok_0->Some_0;
    let b = r2->Ok_0->Some_0;
    let ak = tl_key(s1.active_context);
    assert(a.context.key_view() == ak);
    assert(w2.outcome == Ok::<ContextSwitchOutcome, Error>(
        ContextSwitchOutcome::Different(s1.active_context),
    ));
}


/// In IPC mode, a receive from a queue with nothing pending but one send takes that send
/// as its interaction: it names the sending event, by its timeline's ID and its nonce, and
/// leaves the queue empty
pub proof fn lemma_queue_receive_takes_send(
    s0: ContextManager,
    code1: u16,
    ev1: Event,
    code2: u16,
    ev2: Event,
    trd: RecorderData,
    r1: Result<Option<ContextEventView>, Error>,
    s1: ContextManager,
    r2: Result<Option<ContextEventView>, Error>,
    s2: ContextManager,
)
    requires
        s0.first_event_observed,
        s0.cfg.plugin.interaction_mode == InteractionMode::Ipc,
        process_rel(s0, code1, ev1, trd, r1, s1),
        process_rel(s1, code2, ev2, trd, r2, s2),
        r1 matches Ok(Some(a)),
        r2 matches Ok(Some(b)),
        ev1.kind matches EventKind::QueueSend(q),
        ev2.kind matches EventKind::QueueReceive(q2),
        ev2.kind->QueueReceive_0.handle == ev1.kind->QueueSend_0.handle,
        queue_of(s0.queue_pending_interactions@, ev1.kind->QueueSend_0.handle).len() == 0,
    ensures
        ({
            let a = r1->Ok_0->Some_0;
            let b = r2->Ok_0->Some_0;
            let t = s1.objects_to_timelines@[a.context.key_view()];
            &&& a.attributes.contains_key(ek(EventAttrKey::Nonce))
            &&& a.attributes[ek(EventAttrKey::Nonce)] == AttrValueView::Integer(t.nonce)
            &&& b.attributes.contains_key(ek(EventAttrKey::RemoteNonce))
            &&& b.attributes[ek(EventAttrKey::RemoteNonce)] == a.attributes[ek(EventAttrKey::Nonce)]
            &&& b.attributes.contains_key(ek(EventAttrKey::RemoteTimelineId))
            &&& b.attributes[ek(EventAttrKey::RemoteTimelineId)] == AttrValueView::TimelineId(t.id)
            &&& queue_of(s2.queue_pending_interactions@, ev1.kind->QueueSend_0.handle).len() == 0
        }),
{
    let w1 = lemma_started_step(s0, code1, ev1, trd, r1, s1);
    let w2 = lemma_started_step(s1, code2, ev2, trd, r2, s2);
    reveal(ipc_rel);
    let h = ev1.kind->QueueSend_0.handle;
    let ak = tl_key(s1.active_context);
    assert(r1->Ok_0->Some_0.context.key_view() == ak);
    assert(queue_of(s1.queue_pending_interactions@, h).len() == 1);
}

/// Once degraded (one task timeline, ISRs flattened, the startup task active), every
/// event lands on the startup task's timeline
pub proof fn lemma_degraded_events_on_startup(
    s: ContextManager,
    code: u16,
    ev: Event,
    trd: RecorderData,
    r: Result<Option<ContextEventView>, Error>,
    s2: ContextManager,
)
    requires
        process_rel(s, code, ev, trd, r, s2),
        s.first_event_observed,
        s.cfg.plugin.single_task_timeline,
        s.cfg.plugin.flatten_isr_timelines,
        s.active_context == ContextHandle::Task(s.startup_task_handle),
    ensures
        s2.active_context == ContextHandle::Task(s.startup_task_handle),
        r matches Ok(Some(e)) ==> e.context == s.startup_task_handle,
{
    let w = lemma_started_step(s, code, ev, trd, r, s2);
    if let Ok(Some(m)) = w.attrs {
        reveal(context_switch_rel);
        assert(w.timed.active_context == s.active_context);
        match switch_target(ev.kind) {
            None => {},
            Some(context) => {
                let (p, a) = choose|p: ContextManager, a: ContextManager|
                    #[trigger] switch_chain(w.timed, context, trd, p, a, w.outcome, w.switched);
                assert(landing_context(w.timed.cfg.plugin, w.timed.startup_task_handle, w.timed.active_context, context)
                    == w.timed.active_context);
            },
        }
        if let Ok(o) = w.outcome {
            reveal(fully_linearized_rel);
            reveal(ipc_rel);
            reveal(window_rel);
        }
    }
}

/// Falling back to one timeline is done once: the fallback configuration holds after it,
/// and doing it again changes nothing
pub proof fn lemma_degrade_once(s: ContextManager, s2: ContextManager, s3: ContextManager)
    requires
        degrade_rel(s, s2),
        degrade_rel(s2, s3),
    ensures
        s2.degraded,
        s3 == s2,
        !s.degraded ==> {
            &&& s2.cfg.plugin.interaction_mode == InteractionMode::FullyLinearized
            &&& s2.cfg.plugin.single_task_timeline
            &&& s2.cfg.plugin.flatten_isr_timelines
            &&& s2.cfg.plugin.startup_task_name matches Some(n) && n@ == unknown_context()
            &&& s2.active_context == ContextHandle::Task(s2.startup_task_handle)
        },
{
}


/// The counter and timer attributes hold the event's time in ticks
proof fn lemma_finish_has_ticks(
    s: ContextManager,
    code: u16,
    ev: Event,
    trd: RecorderData,
    dropped: Option<u64>,
    m0: Map<KeyView, AttrValueView>,
    r: Result<Option<Map<KeyView, AttrValueView>>, Error>,
)
    requires
        finish_attrs_rel(s, code, ev, trd, dropped, m0, r),
    ensures
        r matches Ok(Some(m)) ==> m.contains_key(ek(EventAttrKey::TimestampTicks))
            && m[ek(EventAttrKey::TimestampTicks)] == int_attr(s.last_running_timestamp as int),
{
    let (rc, mc) = choose|rc: Result<(), Error>, mc: Map<KeyView, AttrValueView>|
        #![trigger core_event_outcome(s.cfg.plugin, trd.timer_frequency, code, ev.kind, m0, rc, mc)]
        core_event_outcome(s.cfg.plugin, trd.timer_frequency, code, ev.kind, m0, rc, mc) && match rc {
            Err(e) => r == Err::<Option<Map<KeyView, AttrValueView>>, Error>(e),
            Ok(_) => r == Ok::<Option<Map<KeyView, AttrValueView>>, Error>(
                Some(
                    count_time_attrs(
                        mc,
                        trd.timer_frequency,
                        ev.event_count,
                        s.event_counter_tracker.value(),
                        dropped,
                        ev.timestamp,
                        s.last_running_timestamp,
                    ),
                ),
            ),
        };
}

/// An event's attributes hold its time in ticks
proof fn lemma_event_attrs_have_ticks(
    s: ContextManager,
    code: u16,
    ev: Event,
    trd: RecorderData,
    dropped: Option<u64>,
    r: Result<Option<Map<KeyView, AttrValueView>>, Error>,
)
    requires
        event_attrs_rel(s, code, ev, trd, dropped, r),
    ensures
        r matches Ok(Some(m)) ==> m.contains_key(ek(EventAttrKey::TimestampTicks))
            && m[ek(EventAttrKey::TimestampTicks)] == int_attr(s.last_running_timestamp as int),
{
    reveal(event_attrs_rel);
    let empty = Map::<KeyView, AttrValueView>::empty();
    match ev.kind {
        EventKind::ObjectName | EventKind::TsConfig => {},
        EventKind::Unknown(u) => {
            let dk = match s.deviant_event_parser {
                Some(p) => DeviantEventKind::kind_at(p.base_event_id, spec_event_id(code)),
                None => None,
            };
            match dk {
                Some(kind) => {
                    let p = s.deviant_event_parser->Some_0;
                    let bytes = param_bytes(u.parameters@);
                    if bytes.len() == kind.spec_expected_parameter_byte_count() {
                        lemma_finish_has_ticks(
                            s,
                            code,
                            ev,
                            trd,
                            dropped,
                            deviant_attrs(empty, p.endianness, kind, bytes),
                            r,
                        );
                    }
                },
                None => if s.cfg.plugin.include_unknown_events {
                    lemma_finish_has_ticks(s, code, ev, trd, dropped, empty, r);
                },
            }
        },
        _ => {
            lemma_finish_has_ticks(s, code, ev, trd, dropped, empty, r);
        },
    }
}

/// Within a trace, time never goes backwards: each event's time is at least the last
/// one's, and an event placed on a timeline carries its time in ticks
pub proof fn lemma_time_never_decreases(
    s: ContextManager,
    code: u16,
    ev: Event,
    trd: RecorderData,
    r: Result<Option<ContextEventView>, Error>,
    s2: ContextManager,
)
    requires
        s.wf(),
        s.first_event_observed,
        can_process(s, ev, trd),
        process_rel(s, code, ev, trd, r, s2),
    ensures
        s2.last_running_timestamp >= s.last_running_timestamp,
        r matches Ok(Some(e)) ==> e.attributes.contains_key(ek(EventAttrKey::TimestampTicks))
            && e.attributes[ek(EventAttrKey::TimestampTicks)] == int_attr(
            s2.last_running_timestamp as int,
        ),
{
    let w = lemma_started_step(s, code, ev, trd, r, s2);
    let k = ek(EventAttrKey::TimestampTicks);
    let t0 = w.begun.time_rollover_tracker;
    assert(t0 == s.time_rollover_tracker);
    assert(t0.spec_elapsed(ev.timestamp).value() >= t0.value());
    assert(w.timed.last_running_timestamp >= s.last_running_timestamp);
    if let Ok(Some(m)) = w.attrs {
        lemma_switch_keeps(w.timed, ev.kind, trd, w.outcome, w.switched);
        let dropped = dropped_between(s.event_counter_tracker, w.begun.event_counter_tracker);
        lemma_event_attrs_have_ticks(w.timed, code, ev, trd, dropped, w.attrs);
        if let Ok(o) = w.outcome {
            lemma_window_keeps(w.switched, o, trd.timer_frequency, m, w.windowed, w.window_attrs, w.cpu);
            reveal(fully_linearized_rel);
            reveal(ipc_rel);
            assert(w.window_attrs.contains_key(k) && w.window_attrs[k] == m[k]);
        }
    }
}

/// The attributes carry no interaction from another timeline
pub open spec fn no_interaction(m: Map<KeyView, AttrValueView>) -> bool {
    &&& !m.contains_key(ek(EventAttrKey::RemoteTimelineId))
    &&& !m.contains_key(ek(EventAttrKey::RemoteNonce))
}

/// User event arguments never land on the interaction keys
proof fn lemma_args_no_interaction(
    m: Map<KeyView, AttrValueView>,
    args: Seq<Argument>,
    custom: Option<Seq<Seq<char>>>,
    n: nat,
)
    requires
        no_interaction(m),
    ensures
        no_interaction(with_args(m, args, custom, n)),
    decreases n,
{
    if n > 0 {
        lemma_args_no_interaction(m, args, custom, (n - 1) as nat);
        let k = arg_key(n - 1, custom);
        assert(k != ek(EventAttrKey::RemoteTimelineId));
        assert(k != ek(EventAttrKey::RemoteNonce));
    }
}

/// The core attributes of an event carry no interaction
proof fn lemma_core_no_interaction(
    cfg: PluginConfig,
    freq: u32,
    code: u16,
    kind: EventKind,
    m0: Map<KeyView, AttrValueView>,
    r: Result<(), Error>,
    mc: Map<KeyView, AttrValueView>,
)
    requires
        no_interaction(m0),
        core_event_outcome(cfg, freq, code, kind, m0, r, mc),
    ensures
        no_interaction(mc),
{
    let m = code_attrs(m0, code);
    assert(no_interaction(m));
    match kind {
        EventKind::User(ev) => {
            let mu = user_text_attrs(m, cfg, ev);
            assert(no_interaction(mu));
            let n = if custom_arg_keys(cfg, ev) is None && ev.args@.len() > MAX_DEFAULT_USER_ARGS {
                MAX_DEFAULT_USER_ARGS as nat
            } else {
                ev.args@.len()
            };
            lemma_args_no_interaction(mu, ev.args@, custom_arg_keys(cfg, ev), n);
        },
        _ => {
            assert(no_interaction(kind_attrs(m, freq, kind)));
        },
    }
}

/// The counter and timer attributes of an event carry no interaction
proof fn lemma_finish_no_interaction(
    s: ContextManager,
    code: u16,
    ev: Event,
    trd: RecorderData,
    dropped: Option<u64>,
    m0: Map<KeyView, AttrValueView>,
    r: Result<Option<Map<KeyView, AttrValueView>>, Error>,
)
    requires
        no_interaction(m0),
        finish_attrs_rel(s, code, ev, trd, dropped, m0, r),
    ensures
        r matches Ok(Some(m)) ==> no_interaction(m),
{
    let (rc, mc) = choose|rc: Result<(), Error>, mc: Map<KeyView, AttrValueView>|
        #![trigger core_event_outcome(s.cfg.plugin, trd.timer_frequency, code, ev.kind, m0, rc, mc)]
        core_event_outcome(s.cfg.plugin, trd.timer_frequency, code, ev.kind, m0, rc, mc) && match rc {
            Err(e) => r == Err::<Option<Map<KeyView, AttrValueView>>, Error>(e),
            Ok(_) => r == Ok::<Option<Map<KeyView, AttrValueView>>, Error>(
                Some(
                    count_time_attrs(
                        mc,
                        trd.timer_frequency,
                        ev.event_count,
                        s.event_counter_tracker.value(),
                        dropped,
                        ev.timestamp,
                        s.last_running_timestamp,
                    ),
                ),
            ),
        };
    lemma_core_no_interaction(s.cfg.plugin, trd.timer_frequency, code, ev.kind, m0, rc, mc);
}

/// An event's own attributes carry no interaction
proof fn lemma_event_attrs_no_interaction(
    s: ContextManager,
    code: u16,
    ev: Event,
    trd: RecorderData,
    dropped: Option<u64>,
    r: Result<Option<Map<KeyView, AttrValueView>>, Error>,
)
    requires
        event_attrs_rel(s, code, ev, trd, dropped, r),
    ensures
        r matches Ok(Some(m)) ==> no_interaction(m),
{
    reveal(event_attrs_rel);
    let empty = Map::<KeyView, AttrValueView>::empty();
    match ev.kind {
        EventKind::ObjectName | EventKind::TsConfig => {},
        EventKind::Unknown(u) => {
            let dk = match s.deviant_event_parser {
                Some(p) => DeviantEventKind::kind_at(p.base_event_id, spec_event_id(code)),
                None => None,
            };
            match dk {
                Some(kind) => {
                    let p = s.deviant_event_parser->Some_0;
                    let bytes = param_bytes(u.parameters@);
                    if bytes.len() == kind.spec_expected_parameter_byte_count() {
                        let md = deviant_attrs(empty, p.endianness, kind, bytes);
                        assert(no_interaction(md));
                        lemma_finish_no_interaction(s, code, ev, trd, dropped, md, r);
                    }
                },
                None => if s.cfg.plugin.include_unknown_events {
                    lemma_finish_no_interaction(s, code, ev, trd, dropped, empty, r);
                },
            }
        },
        _ => {
            lemma_finish_no_interaction(s, code, ev, trd, dropped, empty, r);
        },
    }
}

/// The runtime attributes of a context switch carry no interaction
proof fn lemma_window_no_interaction(
    s: ContextManager,
    outcome: ContextSwitchOutcome,
    freq: u32,
    m: Map<KeyView, AttrValueView>,
    s2: ContextManager,
    m2: Map<KeyView, AttrValueView>,
    cpu: Option<(u64, u64)>,
)
    requires
        no_interaction(m),
        window_rel(s, outcome, freq, m, s2, m2, cpu),
    ensures
        no_interaction(m2),
{
    reveal(window_rel);
}

/// With task interactions disabled, a context switch in fully linearized mode is not
/// drawn as an interaction: no event carries another timeline's ID or nonce, and none
/// asks for the previous event's nonce
pub proof fn lemma_disabled_interactions_are_not_drawn(
    s: ContextManager,
    code: u16,
    ev: Event,
    trd: RecorderData,
    r: Result<Option<ContextEventView>, Error>,
    s2: ContextManager,
)
    requires
        s.first_event_observed,
        s.cfg.plugin.interaction_mode == InteractionMode::FullyLinearized,
        s.cfg.plugin.disable_task_interactions,
        process_rel(s, code, ev, trd, r, s2),
    ensures
        r matches Ok(Some(e)) ==> {
            &&& !e.add_previous_event_nonce
            &&& !e.attributes.contains_key(ek(EventAttrKey::RemoteTimelineId))
            &&& !e.attributes.contains_key(ek(EventAttrKey::RemoteNonce))
        },
{
    let w = lemma_started_step(s, code, ev, trd, r, s2);
    if let Ok(Some(m)) = w.attrs {
        let dropped = dropped_between(s.event_counter_tracker, w.begun.event_counter_tracker);
        lemma_event_attrs_no_interaction(w.timed, code, ev, trd, dropped, w.attrs);
        if let Ok(o) = w.outcome {
            lemma_switch_keeps(w.timed, ev.kind, trd, w.outcome, w.switched);
            lemma_window_no_interaction(w.switched, o, trd.timer_frequency, m, w.windowed, w.window_attrs, w.cpu);
            lemma_window_keeps(w.switched, o, trd.timer_frequency, m, w.windowed, w.window_attrs, w.cpu);
            reveal(fully_linearized_rel);
        }
    }
}

/// Switching a context out at time `t` counts the time since it was switched in as
/// running time, both in total and within the current window, and marks `t` as its last
/// time; a time that went backwards changes nothing
pub proof fn lemma_switch_out_counts_running_time(st: ContextStats, t: u64)
    requires
        t >= st.last_timestamp ==> st.total_runtime + (t - st.last_timestamp) <= u64::MAX
            && st.runtime_since_window_start + (t - st.last_timestamp) <= u64::MAX,
    ensures
        ({
            let st2 = st.spec_update(t);
            &&& t >= st.last_timestamp ==> {
                &&& st2.total_runtime == st.total_runtime + (t - st.last_timestamp)
                &&& st2.runtime_since_window_start == st.runtime_since_window_start + (t
                    - st.last_timestamp)
                &&& st2.runtime_since_window_start - st.runtime_since_window_start == st2.total_runtime
                    - st.total_runtime
                &&& st2.last_timestamp == t
                &&& st2.last_runtime_window == st.last_runtime_window
            }
            &&& t < st.last_timestamp ==> st2 == st
        }),
{
}

/// The event counter counts across its 16-bit rollovers: seeing count `c` advances the
/// total by the distance from the last count to `c`, going once around when `c` does not
/// move forward, and the last count becomes `c`
pub proof fn lemma_event_counter_steps(t: EventCounterTracker, c: u16)
    requires
        t.can_update(c),
    ensures
        t.spec_update(c).count == c,
        c > t.count ==> t.spec_update(c).value() - t.value() == c - t.count,
        c <= t.count ==> t.spec_update(c).value() - t.value() == c + 0x1_0000 - t.count,
        t.spec_update(c).value() % 0x1_0000 == c,
{
}

/// The event timer counts across its 32-bit rollovers: reading `now` advances the time
/// by the distance from the last reading to the lower 32 bits of `now`, going once around
/// when those do not move forward
pub proof fn lemma_timer_steps(t: TimeTracker, now: u64)
    requires
        t.can_elapse(now),
    ensures
        t.spec_elapsed(now).lower == now % 0x1_0000_0000,
        now % 0x1_0000_0000 >= t.lower ==> t.spec_elapsed(now).value() - t.value() == now
            % 0x1_0000_0000 - t.lower,
        now % 0x1_0000_0000 < t.lower ==> t.spec_elapsed(now).value() - t.value() == now
            % 0x1_0000_0000 + 0x1_0000_0000 - t.lower,
{
}

/// Closing a window records the context's running time since the window started and the
/// window's length, and starts counting the next window from zero; the total stays
pub proof fn lemma_window_close_records_running_time(st: ContextStats, dur: u64)
    ensures
        st.window_closed(dur).last_runtime_window == Some(
            RuntimeWindow { running: st.runtime_since_window_start, length: dur },
        ),
        st.window_closed(dur).runtime_since_window_start == 0,
        st.window_closed(dur).total_runtime == st.total_runtime,
        st.window_closed(dur).last_timestamp == st.last_timestamp,
        dur > 0 ==> stats_utilization(st.window_closed(dur)) == Some(
            (st.runtime_since_window_start, dur),
        ),
{
}

/// An attribute value of `i` ticks or events
pub open spec fn has_count(m: Map<KeyView, AttrValueView>, k: EventAttrKey, i: int) -> bool {
    m.contains_key(ek(k)) && m[ek(k)] == (if i <= i64::MAX {
        AttrValueView::Integer(i as i64)
    } else {
        AttrValueView::BigInt(i as i128)
    })
}

/// An attribute holding `ticks` in nanoseconds when the frequency is known, and absent
/// otherwise (unless it was there before)
pub open spec fn has_ns(m: Map<KeyView, AttrValueView>, k: EventAttrKey, freq: u32, ticks: u64) -> bool {
    freq != 0 ==> m.contains_key(ek(k)) && m[ek(k)] == AttrValueView::Timestamp(
        ((ticks * 1_000_000_000) / (freq as int)) as u64,
    )
}

/// The counter and timer attributes of an event: its raw count, the count across
/// rollovers, the dropped events when some were, its raw timer reading and its time in
/// ticks and nanoseconds
pub proof fn lemma_count_time_attributes(
    m: Map<KeyView, AttrValueView>,
    freq: u32,
    raw_count: u16,
    count: int,
    dropped: Option<u64>,
    raw_ticks: u64,
    ticks: u64,
)
    requires
        0 <= count,
    ensures
        ({
            let a = count_time_attrs(m, freq, raw_count, count, dropped, raw_ticks, ticks);
            &&& has_count(a, EventAttrKey::EventCountRaw, raw_count as int)
            &&& has_count(a, EventAttrKey::EventCount, count)
            &&& (dropped matches Some(d) ==> has_count(a, EventAttrKey::DroppedEvents, d as int))
            &&& (dropped is None && !m.contains_key(ek(EventAttrKey::DroppedEvents)) ==> !a.contains_key(
                ek(EventAttrKey::DroppedEvents),
            ))
            &&& has_count(a, EventAttrKey::TimerTicks, raw_ticks as int)
            &&& has_count(a, EventAttrKey::TimestampTicks, ticks as int)
            &&& has_ns(a, EventAttrKey::Timestamp, freq, ticks)
        }),
{
}

/// The runtime attributes of an event on a context switched in: the total time, the
/// context's running time, and its last window's running time and length, each in ticks
/// and in nanoseconds
pub proof fn lemma_stats_attributes(m: Map<KeyView, AttrValueView>, freq: u32, total: u64, st: ContextStats)
    ensures
        ({
            let a = stats_attrs(m, freq, total, st);
            &&& has_count(a, EventAttrKey::TotalRuntimeTicks, total as int)
            &&& has_ns(a, EventAttrKey::TotalRuntime, freq, total)
            &&& has_count(a, EventAttrKey::RuntimeTicks, st.total_runtime as int)
            &&& has_ns(a, EventAttrKey::Runtime, freq, st.total_runtime)
            &&& (st.last_runtime_window matches Some(w) ==> {
                &&& has_count(a, EventAttrKey::RuntimeInWindowTicks, w.running as int)
                &&& has_ns(a, EventAttrKey::RuntimeInWindow, freq, w.running)
                &&& has_count(a, EventAttrKey::RuntimeWindowTicks, w.length as int)
                &&& has_ns(a, EventAttrKey::RuntimeWindow, freq, w.length)
            })
        }),
{
}


/// The context an event switches in lands where the configuration puts it: a task on
/// its own timeline, or on the startup task's with a single task timeline; an ISR on its
/// own timeline, or on the active context's with ISR timelines flattened
pub open spec fn lands_on(
    s: ContextManager,
    r: Result<Option<ContextEventView>, Error>,
    s2: ContextManager,
    c: ContextHandle,
) -> bool {
    let target = match c {
        ContextHandle::Task(h) => if s.cfg.plugin.single_task_timeline {
            ContextHandle::Task(s.startup_task_handle)
        } else {
            c
        },
        ContextHandle::Isr(h) => if s.cfg.plugin.flatten_isr_timelines {
            s.active_context
        } else {
            c
        },
    };
    r matches Ok(Some(e)) ==> s2.active_context == target && e.context == target.spec_object_handle()
}

/// Task begin, task resume and task activate events switch their task in, ISR begin and
/// ISR resume events their ISR, each landing on the timeline the configuration gives it;
/// every other event stays on the active context's timeline
pub proof fn lemma_switch_in_events(
    s: ContextManager,
    code: u16,
    ev: Event,
    trd: RecorderData,
    r: Result<Option<ContextEventView>, Error>,
    s2: ContextManager,
)
    requires
        process_rel(s, code, ev, trd, r, s2),
        s.first_event_observed,
    ensures
        ev.kind matches EventKind::TaskBegin(x) ==> lands_on(s, r, s2, ContextHandle::Task(x.handle)),
        ev.kind matches EventKind::TaskResume(x) ==> lands_on(s, r, s2, ContextHandle::Task(x.handle)),
        ev.kind matches EventKind::TaskActivate(x) ==> lands_on(s, r, s2, ContextHandle::Task(x.handle)),
        ev.kind matches EventKind::IsrBegin(x) ==> lands_on(s, r, s2, ContextHandle::Isr(x.handle)),
        ev.kind matches EventKind::IsrResume(x) ==> lands_on(s, r, s2, ContextHandle::Isr(x.handle)),
        !(ev.kind is TaskBegin || ev.kind is TaskResume || ev.kind is TaskActivate || ev.kind is IsrBegin
            || ev.kind is IsrResume) ==> (r matches Ok(Some(e)) ==> s2.active_context == s.active_context
            && e.context == s.active_context.spec_object_handle()),
{
    let w = lemma_started_step(s, code, ev, trd, r, s2);
    if r matches Ok(Some(_)) {
        reveal(context_switch_rel);
        assert(w.timed.cfg == s.cfg && w.timed.startup_task_handle == s.startup_task_handle);
        if let Some(c) = switch_target(ev.kind) {
            let (p, a) = choose|p: ContextManager, a: ContextManager|
                #[trigger] switch_chain(w.timed, c, trd, p, a, w.outcome, w.switched);
            assert(switch_chain(w.timed, c, trd, p, a, w.outcome, w.switched));
        }
    }
}

} // verus!
