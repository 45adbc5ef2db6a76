//! The snapshot protocol: the recorder data of a memory dump and its events, placed on
//! task and ISR timelines with interactions drawn at context switches.

use crate::attr_keys::{
    av, ek, int_attr, put_event_attr, put_timeline_attr, str_attr, tk, AttrValue,
    AttrValueView, EventAttrKey, EventAttributes, TimelineAttrKey, TimelineAttributes,
};
use crate::config::{PluginConfig, TraceRecorderConfig};
use crate::context_manager::{
    allocate_timeline_id, landing_context, outcome_view, ContextEvent, ContextEventView, TimelineMeta,
};
use crate::error::Error;
use crate::event::{Argument, IsrEvent, ObjectHandle, UserEvent};
use crate::maps::{AssocMap, KeyView, MapKey};
use crate::opts::ObjectClass;
use crate::recorder_data::{
    add_user_attrs, core_timeline_outcome, has_int, has_tl, lemma_fixed_keys_survive_merge, has_text, iattr, id_attr_ok, id_attr_value, merge_cfg_attributes,
    merged_attrs, resolution_ns, resolution_of, startup_task_name, user_outcome, ContextHandle,
    with_args, arg_key, user_text_attrs, custom_arg_keys, MAX_DEFAULT_USER_ARGS,
    Endianness, ObjectEntry, RecorderData, ONE_SECOND,
};
use crate::text::text_eq;
use vstd::prelude::*;
use vstd::string::*;

verus! {

/// A task or ISR of the snapshot's object property table, with its name when it has one
#[derive(Clone, Debug)]
pub struct SnapshotObject {
    pub handle: ObjectHandle,
    pub name: Option<String>,
}

/// A task event of the snapshot protocol; the state is the recorder's rendering of it
#[derive(Clone, Debug)]
pub struct SnapshotTaskEvent {
    pub handle: ObjectHandle,
    pub name: String,
    pub state: String,
    pub priority: u32,
}

/// What a snapshot event carries, by kind
#[derive(Clone, Debug)]
pub enum SnapshotEventKind {
    IsrBegin(IsrEvent),
    IsrResume(IsrEvent),
    TaskBegin(SnapshotTaskEvent),
    TaskReady(SnapshotTaskEvent),
    TaskResume(SnapshotTaskEvent),
    TaskCreate(SnapshotTaskEvent),
    User(UserEvent),
    LowPowerBegin,
    LowPowerEnd,
    Unknown,
}

/// A snapshot event: the name of its event type, its 8-bit event code, its time in ticks
/// and its content
#[derive(Clone, Debug)]
pub struct SnapshotEvent {
    pub event_type: String,
    pub code: u8,
    pub timestamp: u64,
    pub kind: SnapshotEventKind,
}

/// The recorder data of a snapshot: its header fields (texts are the recorder's own
/// renderings) and its task and ISR objects, in increasing handle order
#[derive(Clone, Debug)]
pub struct SnapshotData {
    pub protocol: String,
    pub kernel_version: String,
    pub kernel_port: String,
    pub endianness: Endianness,
    pub minor_version: u8,
    pub irq_priority_order: u8,
    pub filesize: u32,
    pub num_events: u32,
    pub max_events: u32,
    pub buffer_is_full: bool,
    pub frequency: u32,
    pub abs_time_last_event: u32,
    pub abs_time_last_event_second: u32,
    pub recorder_active: bool,
    pub isr_tail_chaining_threshold: u32,
    pub heap_mem_usage: u32,
    pub using_16bit_handles: bool,
    pub float_encoding: String,
    pub internal_error_occured: bool,
    pub system_info: String,
    pub tasks: Vec<SnapshotObject>,
    pub isrs: Vec<SnapshotObject>,
}

/// The kernel port this plugin supports
pub open spec fn snapshot_port() -> Seq<char> {
    "FreeRTOS"@
}

/// A time in nanoseconds as the snapshot importer computes it: ticks times the timer
/// resolution, or the ticks themselves when the frequency is unknown
pub open spec fn lossy_ns(freq: u32, ticks: u64) -> int {
    match resolution_of(freq) {
        Some(r) => ticks * r,
        None => ticks as int,
    }
}

/// Whether the nanoseconds of `ticks` fit in 64 bits
pub open spec fn lossy_fits(freq: u32, ticks: u64) -> bool {
    lossy_ns(freq, ticks) <= u64::MAX
}

fn lossy_timestamp_ns(freq: u32, ticks: u64) -> (r: u64)
    requires
        lossy_fits(freq, ticks),
    ensures
        r == lossy_ns(freq, ticks),
{
    match resolution_ns(freq) {
        Some(res) => ticks * res,
        None => ticks,
    }
}

/// The text an object is recorded under: its name, or nothing when it has none (which
/// names it as unnamed)
pub open spec fn symbol_text(name: Option<String>) -> Seq<char> {
    match name {
        Some(n) => n@,
        None => Seq::empty(),
    }
}

/// The entry of a snapshot object of class `class`
pub open spec fn entry_of(e: ObjectEntry, o: SnapshotObject, class: ObjectClass) -> bool {
    &&& e.handle == o.handle
    &&& e.class == Some(class)
    &&& e.symbol matches Some(s) && s@ == symbol_text(o.name)
}

/// The recorder data that the timeline names and descriptions are taken from: the
/// snapshot's kernel port and its tasks, then its ISRs
pub open spec fn timeline_source(d: SnapshotData, rd: RecorderData) -> bool {
    let nt = d.tasks@.len();
    &&& rd.kernel_port@ == d.kernel_port@
    &&& rd.objects@.len() == nt + d.isrs@.len()
    &&& forall|i: int| 0 <= i < nt ==> #[trigger] entry_of(rd.objects@[i], d.tasks@[i], ObjectClass::Task)
    &&& forall|i: int|
        0 <= i < d.isrs@.len() ==> #[trigger] entry_of(rd.objects@[nt + i], d.isrs@[i], ObjectClass::Isr)
}

fn push_entries(objs: &Vec<SnapshotObject>, class: ObjectClass, out: &mut Vec<ObjectEntry>)
    ensures
        final(out)@.len() == old(out)@.len() + objs@.len(),
        forall|i: int| 0 <= i < old(out)@.len() ==> final(out)@[i] == old(out)@[i],
        forall|i: int|
            0 <= i < objs@.len() ==> #[trigger] entry_of(final(out)@[old(out)@.len() + i], objs@[i], class),
{
    let ghost start = out@;
    let mut i: usize = 0;
    while i < objs.len()
        invariant
            i <= objs@.len(),
            out@.len() == start.len() + i,
            forall|j: int| 0 <= j < start.len() ==> out@[j] == start[j],
            forall|j: int| 0 <= j < i ==> #[trigger] entry_of(out@[start.len() + j], objs@[j], class),
        decreases objs@.len() - i,
    {
        let symbol = match &objs[i].name {
            Some(n) => n.clone(),
            None => String::new(),
        };
        out.push(ObjectEntry { handle: objs[i].handle, class: Some(class), symbol: Some(symbol) });
        assert(entry_of(out@[start.len() + i], objs@[i as int], class));
        i = i + 1;
    }
}

impl SnapshotData {
    /// Whether the dump holds no events
    pub fn is_empty(&self) -> (r: bool)
        ensures
            r == (self.num_events == 0),
    {
        self.num_events == 0
    }

    /// The recorder data that the timeline names and descriptions are taken from
    fn timeline_source(&self) -> (r: RecorderData)
        ensures
            timeline_source(*self, r),
    {
        let mut objects: Vec<ObjectEntry> = Vec::new();
        push_entries(&self.tasks, ObjectClass::Task, &mut objects);
        let ghost tasks = objects@;
        push_entries(&self.isrs, ObjectClass::Isr, &mut objects);
        assert forall|i: int| 0 <= i < self.tasks@.len() implies #[trigger] entry_of(
            objects@[i],
            self.tasks@[i],
            ObjectClass::Task,
        ) by {
            assert(objects@[i] == tasks[0 + i]);
        }
        let port = self.kernel_port.clone();
        RecorderData {
            protocol: self.protocol.clone(),
            kernel_version: self.kernel_version.clone(),
            kernel_port: port,
            endianness: self.endianness,
            irq_priority_order: self.irq_priority_order as u32,
            isr_tail_chaining_threshold: self.isr_tail_chaining_threshold,
            format_version: 0,
            num_cores: 1,
            platform_cfg: String::new(),
            platform_cfg_version: String::new(),
            platform_cfg_version_major: 0,
            platform_cfg_version_minor: 0,
            platform_cfg_version_patch: 0,
            heap_max: 0,
            timer_type: String::new(),
            timer_frequency: self.frequency,
            timer_period: 0,
            timer_wraparounds: 0,
            os_tick_rate_hz: 0,
            os_tick_count: 0,
            latest_timestamp: 0,
            objects,
        }
    }
}

/// The handle of the first task, in table order, named as the startup task
pub open spec fn first_startup(tasks: Seq<SnapshotObject>) -> Option<ObjectHandle>
    decreases tasks.len(),
{
    if tasks.len() == 0 {
        None
    } else if tasks[0].name matches Some(n) && n@ == startup_task_name() {
        Some(tasks[0].handle)
    } else {
        first_startup(tasks.drop_first())
    }
}

fn find_startup(tasks: &Vec<SnapshotObject>) -> (r: Option<ObjectHandle>)
    ensures
        r == first_startup(tasks@),
{
    proof {
        reveal_strlit("(startup)");
    }
    let mut i: usize = 0;
    assert(tasks@.subrange(0, tasks@.len() as int) =~= tasks@);
    while i < tasks.len()
        invariant
            i <= tasks@.len(),
            first_startup(tasks@) == first_startup(tasks@.subrange(i as int, tasks@.len() as int)),
        decreases tasks@.len() - i,
    {
        let ghost rest = tasks@.subrange(i as int, tasks@.len() as int);
        let named = match &tasks[i].name {
            Some(n) => text_eq(n.as_str(), "(startup)"),
            None => false,
        };
        if named {
            return Some(tasks[i].handle);
        }
        assert(rest.drop_first() =~= tasks@.subrange(i + 1, tasks@.len() as int));
        i = i + 1;
    }
    None
}

/// The timeline attributes every timeline of a snapshot shares, given the run ID and time
/// domain values: the header fields, then the configured attributes
#[verifier::opaque]
pub open spec fn snapshot_common_attrs(
    d: SnapshotData,
    cfg: TraceRecorderConfig,
    run_id: AttrValueView,
    time_domain: AttrValueView,
) -> Map<KeyView, AttrValueView> {
    let m0 = Map::<KeyView, AttrValueView>::empty();
    let m1 = match resolution_of(d.frequency) {
        Some(r) => m0.insert(tk(TimelineAttrKey::TimeResolution), AttrValueView::Timestamp(r)),
        None => m0,
    };
    let m2 = m1.insert(tk(TimelineAttrKey::RunId), run_id).insert(
        tk(TimelineAttrKey::TimeDomain),
        time_domain,
    ).insert(tk(TimelineAttrKey::ClockStyle), str_attr("relative"@)).insert(
        tk(TimelineAttrKey::Protocol),
        str_attr(d.protocol@),
    ).insert(tk(TimelineAttrKey::KernelVersion), str_attr(d.kernel_version@)).insert(
        tk(TimelineAttrKey::KernelPort),
        str_attr(d.kernel_port@),
    ).insert(tk(TimelineAttrKey::Endianness), str_attr(d.endianness.spec_name())).insert(
        tk(TimelineAttrKey::IrqPriorityOrder),
        iattr(d.irq_priority_order as int),
    ).insert(tk(TimelineAttrKey::Frequency), iattr(d.frequency as int)).insert(
        tk(TimelineAttrKey::IsrChainingThreshold),
        iattr(d.isr_tail_chaining_threshold as int),
    ).insert(tk(TimelineAttrKey::MinorVersion), iattr(d.minor_version as int)).insert(
        tk(TimelineAttrKey::FileSize),
        iattr(d.filesize as int),
    ).insert(tk(TimelineAttrKey::NumEvents), iattr(d.num_events as int)).insert(
        tk(TimelineAttrKey::MaxEvents),
        iattr(d.max_events as int),
    ).insert(tk(TimelineAttrKey::BufferFull), AttrValueView::Bool(d.buffer_is_full)).insert(
        tk(TimelineAttrKey::AbsTimeLastEvent),
        iattr(d.abs_time_last_event as int),
    ).insert(
        tk(TimelineAttrKey::AbsTimeLastEventSecond),
        iattr(d.abs_time_last_event_second as int),
    ).insert(tk(TimelineAttrKey::RecorderActive), AttrValueView::Bool(d.recorder_active)).insert(
        tk(TimelineAttrKey::HeapMemUsage),
        iattr(d.heap_mem_usage as int),
    ).insert(
        tk(TimelineAttrKey::Using16bitHandles),
        AttrValueView::Bool(d.using_16bit_handles),
    ).insert(tk(TimelineAttrKey::FloatEncoding), str_attr(d.float_encoding@)).insert(
        tk(TimelineAttrKey::InternalErrorOccured),
        AttrValueView::Bool(d.internal_error_occured),
    ).insert(tk(TimelineAttrKey::SystemInfo), str_attr(d.system_info@));
    let add = cfg.ingest.additional_timeline_attributes@;
    let ovr = cfg.ingest.override_timeline_attributes@;
    merged_attrs(merged_attrs(m2, add, add.len()), ovr, ovr.len())
}

impl SnapshotData {
    /// The timeline attributes every timeline of this snapshot shares, given the run ID
    /// and time domain values
    fn common_timeline_attributes_with(
        &self,
        cfg: &TraceRecorderConfig,
        run_id: AttrValue,
        time_domain: AttrValue,
    ) -> (r: TimelineAttributes)
        ensures
            r.wf(),
            av(r@) == snapshot_common_attrs(*self, *cfg, run_id@, time_domain@),
    {
        let ghost rid = run_id@;
        let ghost td = time_domain@;
        reveal(snapshot_common_attrs);
        let mut a = TimelineAttributes::new();
        assert(av(a@) =~= Map::<KeyView, AttrValueView>::empty());
        if let Some(r) = resolution_ns(self.frequency) {
            put_timeline_attr(&mut a, TimelineAttrKey::TimeResolution, AttrValue::Timestamp(r));
        }
        proof {
            reveal_strlit("relative");
        }
        put_timeline_attr(&mut a, TimelineAttrKey::RunId, run_id);
        put_timeline_attr(&mut a, TimelineAttrKey::TimeDomain, time_domain);
        put_timeline_attr(&mut a, TimelineAttrKey::ClockStyle, AttrValue::from_str_slice("relative"));
        put_timeline_attr(&mut a, TimelineAttrKey::Protocol, AttrValue::String(self.protocol.clone()));
        put_timeline_attr(&mut a, TimelineAttrKey::KernelVersion, AttrValue::String(self.kernel_version.clone()));
        put_timeline_attr(&mut a, TimelineAttrKey::KernelPort, AttrValue::String(self.kernel_port.clone()));
        put_timeline_attr(&mut a, TimelineAttrKey::Endianness, AttrValue::String(self.endianness.name()));
        put_timeline_attr(&mut a, TimelineAttrKey::IrqPriorityOrder, AttrValue::Integer(self.irq_priority_order as i64));
        put_timeline_attr(&mut a, TimelineAttrKey::Frequency, AttrValue::Integer(self.frequency as i64));
        put_timeline_attr(
            &mut a,
            TimelineAttrKey::IsrChainingThreshold,
            AttrValue::Integer(self.isr_tail_chaining_threshold as i64),
        );
        put_timeline_attr(&mut a, TimelineAttrKey::MinorVersion, AttrValue::Integer(self.minor_version as i64));
        put_timeline_attr(&mut a, TimelineAttrKey::FileSize, AttrValue::Integer(self.filesize as i64));
        put_timeline_attr(&mut a, TimelineAttrKey::NumEvents, AttrValue::Integer(self.num_events as i64));
        put_timeline_attr(&mut a, TimelineAttrKey::MaxEvents, AttrValue::Integer(self.max_events as i64));
        put_timeline_attr(&mut a, TimelineAttrKey::BufferFull, AttrValue::Bool(self.buffer_is_full));
        put_timeline_attr(
            &mut a,
            TimelineAttrKey::AbsTimeLastEvent,
            AttrValue::Integer(self.abs_time_last_event as i64),
        );
        put_timeline_attr(
            &mut a,
            TimelineAttrKey::AbsTimeLastEventSecond,
            AttrValue::Integer(self.abs_time_last_event_second as i64),
        );
        put_timeline_attr(&mut a, TimelineAttrKey::RecorderActive, AttrValue::Bool(self.recorder_active));
        put_timeline_attr(&mut a, TimelineAttrKey::HeapMemUsage, AttrValue::Integer(self.heap_mem_usage as i64));
        put_timeline_attr(&mut a, TimelineAttrKey::Using16bitHandles, AttrValue::Bool(self.using_16bit_handles));
        put_timeline_attr(&mut a, TimelineAttrKey::FloatEncoding, AttrValue::String(self.float_encoding.clone()));
        put_timeline_attr(
            &mut a,
            TimelineAttrKey::InternalErrorOccured,
            AttrValue::Bool(self.internal_error_occured),
        );
        put_timeline_attr(&mut a, TimelineAttrKey::SystemInfo, AttrValue::String(self.system_info.clone()));
        merge_cfg_attributes(cfg.ingest.additional_timeline_attributes.as_slice(), &mut a);
        merge_cfg_attributes(cfg.ingest.override_timeline_attributes.as_slice(), &mut a);
        a
    }
}

/// Imports the events of a snapshot, one at a time, onto task and ISR timelines
pub struct SnapshotImporter {
    pub cfg: TraceRecorderConfig,
    /// The kernel port and objects that timeline names and descriptions come from
    pub source: RecorderData,
    pub frequency: u32,
    pub common_timeline_attributes: TimelineAttributes,
    pub startup_task_handle: ObjectHandle,
    /// The context whose timeline the last event went to
    pub active_context: ContextHandle,
    /// The time of the last event, in ticks
    pub last_timestamp: u64,
    /// Timelines by object handle
    pub timelines: AssocMap<u32, TimelineMeta>,
    /// The ordering of the next event
    pub ordering: u128,
}

/// The attributes every snapshot event starts with: its type's name, its code and type
pub open spec fn base_attrs(ev: SnapshotEvent) -> Map<KeyView, AttrValueView> {
    Map::<KeyView, AttrValueView>::empty().insert(ek(EventAttrKey::Name), str_attr(ev.event_type@)).insert(
        ek(EventAttrKey::EventCode),
        iattr(ev.code as int),
    ).insert(ek(EventAttrKey::EventType), str_attr(ev.event_type@))
}

/// The attributes of an ISR event
pub open spec fn isr_event_attrs(m: Map<KeyView, AttrValueView>, e: IsrEvent) -> Map<KeyView, AttrValueView> {
    m.insert(ek(EventAttrKey::IsrName), str_attr(e.name@)).insert(
        ek(EventAttrKey::IsrPriority),
        iattr(e.priority as int),
    ).insert(ek(EventAttrKey::ObjectHandle), iattr(e.handle as int))
}

/// The attributes of a task event
pub open spec fn task_event_attrs(m: Map<KeyView, AttrValueView>, e: SnapshotTaskEvent) -> Map<
    KeyView,
    AttrValueView,
> {
    m.insert(ek(EventAttrKey::TaskName), str_attr(e.name@)).insert(
        ek(EventAttrKey::TaskState),
        str_attr(e.state@),
    ).insert(ek(EventAttrKey::TaskPriority), iattr(e.priority as int)).insert(
        ek(EventAttrKey::ObjectHandle),
        iattr(e.handle as int),
    )
}

/// Events that are not imported
pub open spec fn skipped(kind: SnapshotEventKind) -> bool {
    kind is LowPowerBegin || kind is LowPowerEnd || kind is Unknown
}

/// The context that an event switches in: ISR begin and resume, task begin and resume
pub open spec fn snapshot_switch_target(kind: SnapshotEventKind) -> Option<ContextHandle> {
    match kind {
        SnapshotEventKind::IsrBegin(e) | SnapshotEventKind::IsrResume(e) => Some(ContextHandle::Isr(e.handle)),
        SnapshotEventKind::TaskBegin(e) | SnapshotEventKind::TaskResume(e) => Some(ContextHandle::Task(e.handle)),
        _ => None,
    }
}

/// An event's own attributes: ISR and task properties, or a user event's name, texts and
/// arguments (which may fail)
pub open spec fn own_attrs(
    cfg: PluginConfig,
    ev: SnapshotEvent,
    r: Result<(), Error>,
    m: Map<KeyView, AttrValueView>,
) -> bool {
    let b = base_attrs(ev);
    match ev.kind {
        SnapshotEventKind::IsrBegin(e) | SnapshotEventKind::IsrResume(e) => r is Ok && m == isr_event_attrs(b, e),
        SnapshotEventKind::TaskBegin(e)
        | SnapshotEventKind::TaskReady(e)
        | SnapshotEventKind::TaskResume(e)
        | SnapshotEventKind::TaskCreate(e) => r is Ok && m == task_event_attrs(b, e),
        SnapshotEventKind::User(u) => user_outcome(cfg, u, b, r, m),
        _ => r is Ok && m == b,
    }
}

/// What switching in `context` does: unless timelines are merged, the same context stays;
/// otherwise the landing context becomes active, its timeline made (with the common and
/// the context's own attributes) when it has none. The result names the previous context
/// when its timeline differs from the new one.
pub open spec fn snapshot_switch_rel(
    s: SnapshotImporter,
    context: ContextHandle,
    r: Result<Option<ObjectHandle>, Error>,
    s1: SnapshotImporter,
) -> bool {
    let cfg = s.cfg.plugin;
    let active = s.active_context;
    if !cfg.single_task_timeline && !cfg.flatten_isr_timelines && context == active {
        r == Ok::<Option<ObjectHandle>, Error>(None) && s1 == s
    } else {
        let target = landing_context(cfg, s.startup_task_handle, active, context);
        let h = target.spec_object_handle();
        let prev = active.spec_object_handle();
        let out = if h == prev {
            None
        } else {
            Some(prev)
        };
        if s.timelines@.contains_key(h.key_view()) {
            r == Ok::<Option<ObjectHandle>, Error>(out) && s1 == (SnapshotImporter {
                active_context: target,
                ..s
            })
        } else {
            let t = s1.timelines@[h.key_view()];
            &&& s1 == (SnapshotImporter { active_context: target, timelines: s1.timelines, ..s })
            &&& s1.timelines@ == s.timelines@.insert(h.key_view(), t)
            &&& t.nonce == 0
            &&& t.attributes.wf()
            &&& exists|rc: Result<(), Error>|
                #[trigger] core_timeline_outcome(
                    s.source,
                    cfg,
                    target,
                    av(s.common_timeline_attributes@),
                    rc,
                    av(t.attributes@),
                ) && match rc {
                    Ok(_) => r == Ok::<Option<ObjectHandle>, Error>(out),
                    Err(e) => r == Err::<Option<ObjectHandle>, Error>(e),
                }
        }
    }
}

/// The interaction an event after a context switch carries, unless task interactions
/// are disabled: the previous context's timeline and the time of the last event
pub open spec fn with_remote(
    s: SnapshotImporter,
    m: Map<KeyView, AttrValueView>,
    prev: Option<ObjectHandle>,
) -> Map<KeyView, AttrValueView> {
    match prev {
        Some(p) => if s.cfg.plugin.disable_task_interactions {
            m
        } else {
            m.insert(
                ek(EventAttrKey::RemoteTimelineId),
                AttrValueView::TimelineId(s.timelines@[p.key_view()].id),
            ).insert(
                ek(EventAttrKey::RemoteTimestamp),
                AttrValueView::Timestamp(lossy_ns(s.frequency, s.last_timestamp) as u64),
            )
        },
        None => m,
    }
}

/// The event placed on the active timeline of `s1`, with its time attributes, and the
/// importer after it
pub open spec fn placed(
    s: SnapshotImporter,
    ev: SnapshotEvent,
    m: Map<KeyView, AttrValueView>,
    s1: SnapshotImporter,
    r: Result<Option<ContextEventView>, Error>,
    s2: SnapshotImporter,
) -> bool {
    &&& r == Ok::<Option<ContextEventView>, Error>(
        Some(
            ContextEventView {
                context: s1.active_context.spec_object_handle(),
                global_ordering: s.ordering,
                attributes: m.insert(ek(EventAttrKey::TimestampTicks), int_attr(ev.timestamp as int)).insert(
                    ek(EventAttrKey::Timestamp),
                    AttrValueView::Timestamp(lossy_ns(s.frequency, ev.timestamp) as u64),
                ),
                add_previous_event_nonce: false,
                cpu_utilization: None,
            },
        ),
    )
    &&& s2 == (SnapshotImporter { last_timestamp: ev.timestamp, ordering: (s.ordering + 1) as u128, ..s1 })
}

/// What importing one event does: low power and unknown events are skipped; otherwise the
/// event's attributes are gathered, a switch-in event switches contexts (drawing an
/// interaction from the previous context), and the event is placed with the next ordering
pub open spec fn snapshot_step(
    s: SnapshotImporter,
    ev: SnapshotEvent,
    r: Result<Option<ContextEventView>, Error>,
    s2: SnapshotImporter,
) -> bool {
    if skipped(ev.kind) {
        r == Ok::<Option<ContextEventView>, Error>(None) && s2 == s
    } else {
        exists|ro: Result<(), Error>, m: Map<KeyView, AttrValueView>|
            #[trigger] own_attrs(s.cfg.plugin, ev, ro, m) && match ro {
                Err(e) => r == Err::<Option<ContextEventView>, Error>(e) && s2 == s,
                Ok(_) => match snapshot_switch_target(ev.kind) {
                    None => placed(s, ev, m, s, r, s2),
                    Some(c) => exists|rs: Result<Option<ObjectHandle>, Error>, s1: SnapshotImporter|
                        #[trigger] snapshot_switch_rel(s, c, rs, s1) && match rs {
                            Err(e) => r == Err::<Option<ContextEventView>, Error>(e) && s2 == s1,
                            Ok(prev) => placed(s, ev, with_remote(s, m, prev), s1, r, s2),
                        },
                },
            }
    }
}

/// What making an importer gives: the kernel port must be supported and the startup task
/// known; the startup task's timeline is made and active
pub open spec fn new_importer(cfg: TraceRecorderConfig, d: SnapshotData, r: Result<SnapshotImporter, Error>) -> bool {
    if d.kernel_port@ != snapshot_port() {
        r matches Err(Error::UnsupportedKernelPortIdentity(p)) && p@ == d.kernel_port@
    } else {
        match first_startup(d.tasks@) {
            None => r == Err::<SnapshotImporter, Error>(Error::MissingStartupTaskProperties),
            Some(h) => exists|run_id: AttrValueView, time_domain: AttrValueView, s: SnapshotImporter, rc: Result<(), Error>|
                #![trigger snapshot_common_attrs(d, cfg, run_id, time_domain), core_timeline_outcome(s.source, cfg.plugin, ContextHandle::Task(h), av(s.common_timeline_attributes@), rc, av(s.timelines@[h.key_view()].attributes@))]
                {
                    &&& id_attr_ok(cfg.plugin.run_id, run_id)
                    &&& id_attr_ok(cfg.plugin.time_domain, time_domain)
                    &&& av(s.common_timeline_attributes@) == snapshot_common_attrs(d, cfg, run_id, time_domain)
                    &&& s.cfg == cfg
                    &&& timeline_source(d, s.source)
                    &&& s.frequency == d.frequency
                    &&& s.startup_task_handle == h
                    &&& s.active_context == ContextHandle::Task(h)
                    &&& s.last_timestamp == 0
                    &&& s.ordering == 0
                    &&& s.timelines@.dom() == set![h.key_view()]
                    &&& s.timelines@[h.key_view()].nonce == 0
                    &&& core_timeline_outcome(
                        s.source,
                        cfg.plugin,
                        ContextHandle::Task(h),
                        av(s.common_timeline_attributes@),
                        rc,
                        av(s.timelines@[h.key_view()].attributes@),
                    )
                    &&& match rc {
                        Ok(_) => r == Ok::<SnapshotImporter, Error>(s),
                        Err(e) => r == Err::<SnapshotImporter, Error>(e),
                    }
                },
        }
    }
}

impl SnapshotImporter {
    /// The importer's invariant: its maps are well formed, and the active context and
    /// every timeline's attributes are kept
    pub open spec fn wf(&self) -> bool {
        &&& self.timelines.wf()
        &&& self.common_timeline_attributes.wf()
        &&& self.cfg.plugin.wf()
        &&& self.timelines@.contains_key(self.active_context.spec_object_handle().key_view())
        &&& forall|k: KeyView| #[trigger] self.timelines@.contains_key(k) ==> self.timelines@[k].attributes.wf()
        &&& lossy_fits(self.frequency, self.last_timestamp)
    }

    /// An importer for the snapshot `d`
    pub fn new(cfg: TraceRecorderConfig, d: &SnapshotData) -> (r: Result<SnapshotImporter, Error>)
        requires
            cfg.plugin.wf(),
        ensures
            new_importer(cfg, *d, r),
            r matches Ok(s) ==> s.wf(),
    {
        proof {
            reveal_strlit("FreeRTOS");
        }
        if !text_eq(d.kernel_port.as_str(), "FreeRTOS") {
            return Err(Error::UnsupportedKernelPortIdentity(d.kernel_port.clone()));
        }
        let h = match find_startup(&d.tasks) {
            Some(h) => h,
            None => return Err(Error::MissingStartupTaskProperties),
        };
        let ghost g = cfg;
        let run_id = id_attr_value(&cfg.plugin.run_id);
        let time_domain = id_attr_value(&cfg.plugin.time_domain);
        let ghost (rid, td) = (run_id@, time_domain@);
        let common = d.common_timeline_attributes_with(&cfg, run_id, time_domain);
        let source = d.timeline_source();
        let attrs = common.duplicate();
        assert(attrs@ == common@);
        let mut tlm = TimelineMeta { id: allocate_timeline_id(), attributes: attrs, nonce: 0 };
        let rc = source.add_core_timeline_attributes(&cfg.plugin, ContextHandle::Task(h), &mut tlm.attributes);
        let ghost t = tlm;
        let mut timelines: AssocMap<u32, TimelineMeta> = AssocMap::new();
        timelines.insert(h, tlm);
        assert(timelines@.dom() =~= set![h.key_view()]);
        let s = SnapshotImporter {
            cfg,
            source,
            frequency: d.frequency,
            common_timeline_attributes: common,
            startup_task_handle: h,
            active_context: ContextHandle::Task(h),
            last_timestamp: 0,
            timelines,
            ordering: 0,
        };
        assert(s.timelines@[h.key_view()] == t);
        assert(snapshot_common_attrs(*d, g, rid, td) == av(s.common_timeline_attributes@));
        assert(core_timeline_outcome(
            s.source,
            g.plugin,
            ContextHandle::Task(h),
            av(s.common_timeline_attributes@),
            rc,
            av(s.timelines@[h.key_view()].attributes@),
        ));
        assert(id_attr_ok(g.plugin.run_id, rid) && id_attr_ok(g.plugin.time_domain, td));
        assert(s.wf());
        match rc {
            Ok(_) => Ok(s),
            Err(e) => Err(e),
        }
    }

    /// The timeline of an object
    pub fn timeline_meta(&self, handle: ObjectHandle) -> (r: Result<&TimelineMeta, Error>)
        requires
            self.timelines.wf(),
        ensures
            match r {
                Ok(t) => self.timelines@.contains_key(handle.key_view()) && self.timelines@[handle.key_view()] == *t,
                Err(e) => !self.timelines@.contains_key(handle.key_view()) && e == Error::TaskTimelineLookup(handle),
            },
    {
        match self.timelines.get(&handle) {
            Some(t) => Ok(t),
            None => Err(Error::TaskTimelineLookup(handle)),
        }
    }
}

impl SnapshotImporter {
    /// Switches in `context` at a switch-in event
    fn switch_in(&mut self, context: ContextHandle) -> (r: Result<Option<ObjectHandle>, Error>)
        requires
            old(self).wf(),
        ensures
            final(self).wf(),
            snapshot_switch_rel(*old(self), context, r, *final(self)),
    {
        let ghost s = *self;
        let active = self.active_context;
        let single = self.cfg.plugin.single_task_timeline;
        let flatten = self.cfg.plugin.flatten_isr_timelines;
        if !single && !flatten && context == active {
            return Ok(None);
        }
        let target = match context {
            ContextHandle::Task(h) => ContextHandle::Task(
                if single {
                    self.startup_task_handle
                } else {
                    h
                },
            ),
            ContextHandle::Isr(h) => if flatten {
                active
            } else {
                ContextHandle::Isr(h)
            },
        };
        let h = target.object_handle();
        let prev = active.object_handle();
        let out = if h == prev {
            None
        } else {
            Some(prev)
        };
        if self.timelines.contains_key(&h) {
            self.active_context = target;
            return Ok(out);
        }
        let attrs = self.common_timeline_attributes.duplicate();
        assert(attrs@ == self.common_timeline_attributes@);
        let mut tlm = TimelineMeta { id: allocate_timeline_id(), attributes: attrs, nonce: 0 };
        let rc = self.source.add_core_timeline_attributes(&self.cfg.plugin, target, &mut tlm.attributes);
        let ghost t = tlm;
        self.timelines.insert(h, tlm);
        self.active_context = target;
        assert(self.timelines@[h.key_view()] == t);
        assert(core_timeline_outcome(
            s.source,
            s.cfg.plugin,
            target,
            av(s.common_timeline_attributes@),
            rc,
            av(t.attributes@),
        ));
        match rc {
            Ok(_) => Ok(out),
            Err(e) => Err(e),
        }
    }

    /// Imports one event of the snapshot: returns it placed on its context's timeline, or
    /// nothing for events that are skipped
    pub fn event(&mut self, ev: &SnapshotEvent) -> (r: Result<Option<ContextEvent>, Error>)
        requires
            old(self).wf(),
            old(self).ordering < u128::MAX,
            lossy_fits(old(self).frequency, ev.timestamp),
        ensures
            final(self).wf(),
            snapshot_step(*old(self), *ev, outcome_view(r), *final(self)),
            r matches Ok(Some(e)) ==> e.attributes.wf(),
    {
        let ghost s = *self;
        let mut attrs = EventAttributes::new();
        assert(av(attrs@) =~= Map::<KeyView, AttrValueView>::empty());
        match &ev.kind {
            SnapshotEventKind::LowPowerBegin | SnapshotEventKind::LowPowerEnd | SnapshotEventKind::Unknown => {
                return Ok(None);
            },
            _ => {},
        }
        put_event_attr(&mut attrs, EventAttrKey::Name, AttrValue::String(ev.event_type.clone()));
        put_event_attr(&mut attrs, EventAttrKey::EventCode, AttrValue::Integer(ev.code as i64));
        put_event_attr(&mut attrs, EventAttrKey::EventType, AttrValue::String(ev.event_type.clone()));
        assert(av(attrs@) == base_attrs(*ev));
        let ghost b = av(attrs@);
        let ro: Result<(), Error> = match &ev.kind {
            SnapshotEventKind::IsrBegin(e) | SnapshotEventKind::IsrResume(e) => {
                put_event_attr(&mut attrs, EventAttrKey::IsrName, AttrValue::String(e.name.clone()));
                put_event_attr(&mut attrs, EventAttrKey::IsrPriority, AttrValue::Integer(e.priority as i64));
                put_event_attr(&mut attrs, EventAttrKey::ObjectHandle, AttrValue::Integer(e.handle as i64));
                Ok(())
            },
            SnapshotEventKind::TaskBegin(e)
            | SnapshotEventKind::TaskReady(e)
            | SnapshotEventKind::TaskResume(e)
            | SnapshotEventKind::TaskCreate(e) => {
                put_event_attr(&mut attrs, EventAttrKey::TaskName, AttrValue::String(e.name.clone()));
                put_event_attr(&mut attrs, EventAttrKey::TaskState, AttrValue::String(e.state.clone()));
                put_event_attr(&mut attrs, EventAttrKey::TaskPriority, AttrValue::Integer(e.priority as i64));
                put_event_attr(&mut attrs, EventAttrKey::ObjectHandle, AttrValue::Integer(e.handle as i64));
                Ok(())
            },
            SnapshotEventKind::User(u) => add_user_attrs(&self.cfg.plugin, u, &mut attrs),
            _ => Ok(()),
        };
        let ghost m = av(attrs@);
        assert(own_attrs(s.cfg.plugin, *ev, ro, m));
        if let Err(e) = ro {
            return Err(e);
        }
        let target: Option<ContextHandle> = match &ev.kind {
            SnapshotEventKind::IsrBegin(e) | SnapshotEventKind::IsrResume(e) => Some(ContextHandle::Isr(e.handle)),
            SnapshotEventKind::TaskBegin(e) | SnapshotEventKind::TaskResume(e) => Some(ContextHandle::Task(e.handle)),
            _ => None,
        };
        assert(target == snapshot_switch_target(ev.kind));
        if let Some(c) = target {
            let rs = self.switch_in(c);
            let ghost s1 = *self;
            assert(snapshot_switch_rel(s, c, rs, s1));
            match rs {
                Err(e) => {
                    return Err(e);
                },
                Ok(prev) => {
                    if let Some(p) = prev {
                        if !self.cfg.plugin.disable_task_interactions {
                            assert(s.timelines@.contains_key(p.key_view()));
                            assert(self.timelines@.contains_key(p.key_view()));
                            assert(self.timelines@[p.key_view()] == s.timelines@[p.key_view()]);
                            let id = match self.timelines.get(&p) {
                                Some(t) => t.id,
                                None => 0,
                            };
                            let remote_ns = lossy_timestamp_ns(self.frequency, self.last_timestamp);
                            put_event_attr(&mut attrs, EventAttrKey::RemoteTimelineId, AttrValue::TimelineId(id));
                            put_event_attr(&mut attrs, EventAttrKey::RemoteTimestamp, AttrValue::Timestamp(remote_ns));
                        }
                    }
                    assert(av(attrs@) == with_remote(s, m, prev));
                },
            }
        }
        let ghost mr = av(attrs@);
        let ghost s1 = *self;
        put_event_attr(&mut attrs, EventAttrKey::TimestampTicks, AttrValue::from_u64(ev.timestamp));
        let ns = lossy_timestamp_ns(self.frequency, ev.timestamp);
        put_event_attr(&mut attrs, EventAttrKey::Timestamp, AttrValue::Timestamp(ns));
        let out = ContextEvent {
            context: self.active_context.object_handle(),
            global_ordering: self.ordering,
            attributes: attrs,
            add_previous_event_nonce: false,
            cpu_utilization: None,
        };
        self.last_timestamp = ev.timestamp;
        self.ordering = self.ordering + 1;
        assert(placed(s, *ev, mr, s1, outcome_view(Ok(Some(out))), *self));
        Ok(Some(out))
    }
}

/// Snapshot events are ordered as they come: each imported event carries the next
/// ordering and advances it by one; skipped events leave the importer as it was
pub proof fn lemma_snapshot_orders_events(
    s: SnapshotImporter,
    ev: SnapshotEvent,
    r: Result<Option<ContextEventView>, Error>,
    s2: SnapshotImporter,
)
    requires
        s.ordering < u128::MAX,
        snapshot_step(s, ev, r, s2),
    ensures
        skipped(ev.kind) ==> r == Ok::<Option<ContextEventView>, Error>(None) && s2 == s,
        r matches Ok(Some(e)) ==> e.global_ordering == s.ordering && s2.ordering == s.ordering + 1
            && s2.last_timestamp == ev.timestamp,
{
    if !skipped(ev.kind) {
        let (ro, m) = choose|ro: Result<(), Error>, m: Map<KeyView, AttrValueView>|
            #[trigger] own_attrs(s.cfg.plugin, ev, ro, m) && match ro {
                Err(e) => r == Err::<Option<ContextEventView>, Error>(e) && s2 == s,
                Ok(_) => match snapshot_switch_target(ev.kind) {
                    None => placed(s, ev, m, s, r, s2),
                    Some(c) => exists|rs: Result<Option<ObjectHandle>, Error>, s1: SnapshotImporter|
                        #[trigger] snapshot_switch_rel(s, c, rs, s1) && match rs {
                            Err(e) => r == Err::<Option<ContextEventView>, Error>(e) && s2 == s1,
                            Ok(prev) => placed(s, ev, with_remote(s, m, prev), s1, r, s2),
                        },
                },
            };
        if ro is Ok {
            if let Some(c) = snapshot_switch_target(ev.kind) {
                let (rs, s1) = choose|rs: Result<Option<ObjectHandle>, Error>, s1: SnapshotImporter|
                    #[trigger] snapshot_switch_rel(s, c, rs, s1) && match rs {
                        Err(e) => r == Err::<Option<ContextEventView>, Error>(e) && s2 == s1,
                        Ok(prev) => placed(s, ev, with_remote(s, m, prev), s1, r, s2),
                    };
                assert(s1.ordering == s.ordering);
            }
        }
    }
}

/// With task interactions disabled, no snapshot event carries another timeline's ID or
/// the time of the previous context's last event
pub proof fn lemma_snapshot_disabled_interactions(
    s: SnapshotImporter,
    ev: SnapshotEvent,
    r: Result<Option<ContextEventView>, Error>,
    s2: SnapshotImporter,
)
    requires
        s.cfg.plugin.disable_task_interactions,
        snapshot_step(s, ev, r, s2),
    ensures
        r matches Ok(Some(e)) ==> !e.attributes.contains_key(ek(EventAttrKey::RemoteTimelineId))
            && !e.attributes.contains_key(ek(EventAttrKey::RemoteTimestamp)),
{
    if !skipped(ev.kind) {
        let (ro, m) = choose|ro: Result<(), Error>, m: Map<KeyView, AttrValueView>|
            #[trigger] own_attrs(s.cfg.plugin, ev, ro, m) && match ro {
                Err(e) => r == Err::<Option<ContextEventView>, Error>(e) && s2 == s,
                Ok(_) => match snapshot_switch_target(ev.kind) {
                    None => placed(s, ev, m, s, r, s2),
                    Some(c) => exists|rs: Result<Option<ObjectHandle>, Error>, s1: SnapshotImporter|
                        #[trigger] snapshot_switch_rel(s, c, rs, s1) && match rs {
                            Err(e) => r == Err::<Option<ContextEventView>, Error>(e) && s2 == s1,
                            Ok(prev) => placed(s, ev, with_remote(s, m, prev), s1, r, s2),
                        },
                },
            };
        if ro is Ok {
            match ev.kind {
                SnapshotEventKind::User(u) => {
                    lemma_user_no_remote(s.cfg.plugin, u, base_attrs(ev), ro, m);
                },
                _ => {},
            }
        }
    }
}

/// A user event's attributes carry no interaction
proof fn lemma_user_no_remote(
    cfg: PluginConfig,
    u: UserEvent,
    b: Map<KeyView, AttrValueView>,
    ro: Result<(), Error>,
    m: Map<KeyView, AttrValueView>,
)
    requires
        !b.contains_key(ek(EventAttrKey::RemoteTimelineId)),
        !b.contains_key(ek(EventAttrKey::RemoteTimestamp)),
        user_outcome(cfg, u, b, ro, m),
    ensures
        !m.contains_key(ek(EventAttrKey::RemoteTimelineId)),
        !m.contains_key(ek(EventAttrKey::RemoteTimestamp)),
{
    let mu = user_text_attrs(b, cfg, u);
    let n = if custom_arg_keys(cfg, u) is None && u.args@.len() > MAX_DEFAULT_USER_ARGS {
        MAX_DEFAULT_USER_ARGS as nat
    } else {
        u.args@.len()
    };
    lemma_args_skip_keys(mu, u.args@, custom_arg_keys(cfg, u), n);
}

/// User event arguments never land on the interaction keys
proof fn lemma_args_skip_keys(
    m: Map<KeyView, AttrValueView>,
    args: Seq<Argument>,
    custom: Option<Seq<Seq<char>>>,
    n: nat,
)
    requires
        !m.contains_key(ek(EventAttrKey::RemoteTimelineId)),
        !m.contains_key(ek(EventAttrKey::RemoteTimestamp)),
    ensures
        !with_args(m, args, custom, n).contains_key(ek(EventAttrKey::RemoteTimelineId)),
        !with_args(m, args, custom, n).contains_key(ek(EventAttrKey::RemoteTimestamp)),
    decreases n,
{
    if n > 0 {
        lemma_args_skip_keys(m, args, custom, (n - 1) as nat);
        let k = arg_key(n - 1, custom);
        assert(k != ek(EventAttrKey::RemoteTimelineId));
        assert(k != ek(EventAttrKey::RemoteTimestamp));
    }
}

/// Why a snapshot file could not be opened: its path and the kind of I/O error, as texts
#[derive(Clone, Debug, PartialEq, Eq)]
pub enum SnapshotFileOpenError {
    Io(String, String),
}

impl SnapshotFileOpenError {
    pub open spec fn spec_message(&self) -> Seq<char> {
        match self {
            SnapshotFileOpenError::Io(path, kind) => "Encountered and IO error while opening snapshot file '"@
                + path@ + "' ("@ + kind@ + ")"@,
        }
    }

    /// The error's message
    pub fn message(&self) -> (r: String)
        ensures
            r@ == self.spec_message(),
    {
        proof {
            reveal_strlit("Encountered and IO error while opening snapshot file '");
            reveal_strlit("' (");
            reveal_strlit(")");
        }
        match self {
            SnapshotFileOpenError::Io(path, kind) => {
                let mut m = String::from_str("Encountered and IO error while opening snapshot file '");
                m.append(path.as_str());
                m.append("' (");
                m.append(kind.as_str());
                m.append(")");
                m
            },
        }
    }
}

/// Task begin and resume events, and ISR begin and resume events, switch contexts: an
/// imported one is placed on the timeline of the context it lands on (the task itself,
/// the startup task when tasks share one timeline, the active context for an ISR when
/// ISRs are flattened), which becomes active; every other imported event stays on the
/// active context's timeline
pub proof fn lemma_snapshot_switch_ins(
    s: SnapshotImporter,
    ev: SnapshotEvent,
    r: Result<Option<ContextEventView>, Error>,
    s2: SnapshotImporter,
)
    requires
        snapshot_step(s, ev, r, s2),
    ensures
        r matches Ok(Some(v)) ==> {
            let cfg = s.cfg.plugin;
            match ev.kind {
                SnapshotEventKind::TaskBegin(e) | SnapshotEventKind::TaskResume(e) => {
                    let c = landing_context(cfg, s.startup_task_handle, s.active_context, ContextHandle::Task(e.handle));
                    v.context == c.spec_object_handle() && s2.active_context == c
                },
                SnapshotEventKind::IsrBegin(e) | SnapshotEventKind::IsrResume(e) => {
                    let c = landing_context(cfg, s.startup_task_handle, s.active_context, ContextHandle::Isr(e.handle));
                    v.context == c.spec_object_handle() && s2.active_context == c
                },
                _ => v.context == s.active_context.spec_object_handle() && s2.active_context == s.active_context,
            }
        },
{
    if !skipped(ev.kind) {
        let (ro, m) = choose|ro: Result<(), Error>, m: Map<KeyView, AttrValueView>|
            #[trigger] own_attrs(s.cfg.plugin, ev, ro, m) && match ro {
                Err(e) => r == Err::<Option<ContextEventView>, Error>(e) && s2 == s,
                Ok(_) => match snapshot_switch_target(ev.kind) {
                    None => placed(s, ev, m, s, r, s2),
                    Some(c) => exists|rs: Result<Option<ObjectHandle>, Error>, s1: SnapshotImporter|
                        #[trigger] snapshot_switch_rel(s, c, rs, s1) && match rs {
                            Err(e) => r == Err::<Option<ContextEventView>, Error>(e) && s2 == s1,
                            Ok(prev) => placed(s, ev, with_remote(s, m, prev), s1, r, s2),
                        },
                },
            };
        if ro is Ok {
            if let Some(c) = snapshot_switch_target(ev.kind) {
                let (rs, s1) = choose|rs: Result<Option<ObjectHandle>, Error>, s1: SnapshotImporter|
                    #[trigger] snapshot_switch_rel(s, c, rs, s1) && match rs {
                        Err(e) => r == Err::<Option<ContextEventView>, Error>(e) && s2 == s1,
                        Ok(prev) => placed(s, ev, with_remote(s, m, prev), s1, r, s2),
                    };
                let lc = landing_context(s.cfg.plugin, s.startup_task_handle, s.active_context, c);
                assert(s1.active_context == lc);
            }
        }
    }
}

/// The attributes of an imported snapshot event: its code, its type's name (which also
/// names the event, but for user events), the properties of the ISR or task it is about,
/// and its time in ticks and in nanoseconds (the ticks times the timer resolution, or the
/// ticks themselves when the frequency is unknown)
pub proof fn lemma_snapshot_event_attributes(
    s: SnapshotImporter,
    ev: SnapshotEvent,
    r: Result<Option<ContextEventView>, Error>,
    s2: SnapshotImporter,
)
    requires
        snapshot_step(s, ev, r, s2),
    ensures
        r matches Ok(Some(v)) ==> {
            let a = v.attributes;
            let ns = if s.frequency == 0 {
                ev.timestamp as int
            } else {
                ev.timestamp * (1_000_000_000int / (s.frequency as int))
            };
            &&& has_int(a, EventAttrKey::EventCode, ev.code as int)
            &&& has_text(a, EventAttrKey::EventType, ev.event_type@)
            &&& !(ev.kind is User) ==> has_text(a, EventAttrKey::Name, ev.event_type@)
            &&& a.contains_key(ek(EventAttrKey::TimestampTicks))
            &&& a[ek(EventAttrKey::TimestampTicks)] == int_attr(ev.timestamp as int)
            &&& a.contains_key(ek(EventAttrKey::Timestamp))
            &&& a[ek(EventAttrKey::Timestamp)] == AttrValueView::Timestamp(ns as u64)
            &&& match ev.kind {
                SnapshotEventKind::IsrBegin(e) | SnapshotEventKind::IsrResume(e) => {
                    &&& has_text(a, EventAttrKey::IsrName, e.name@)
                    &&& has_int(a, EventAttrKey::IsrPriority, e.priority as int)
                    &&& has_int(a, EventAttrKey::ObjectHandle, e.handle as int)
                },
                SnapshotEventKind::TaskBegin(e)
                | SnapshotEventKind::TaskReady(e)
                | SnapshotEventKind::TaskResume(e)
                | SnapshotEventKind::TaskCreate(e) => {
                    &&& has_text(a, EventAttrKey::TaskName, e.name@)
                    &&& has_text(a, EventAttrKey::TaskState, e.state@)
                    &&& has_int(a, EventAttrKey::TaskPriority, e.priority as int)
                    &&& has_int(a, EventAttrKey::ObjectHandle, e.handle as int)
                },
                _ => true,
            }
        },
{
    if !skipped(ev.kind) {
        let (ro, m) = choose|ro: Result<(), Error>, m: Map<KeyView, AttrValueView>|
            #[trigger] own_attrs(s.cfg.plugin, ev, ro, m) && match ro {
                Err(e) => r == Err::<Option<ContextEventView>, Error>(e) && s2 == s,
                Ok(_) => match snapshot_switch_target(ev.kind) {
                    None => placed(s, ev, m, s, r, s2),
                    Some(c) => exists|rs: Result<Option<ObjectHandle>, Error>, s1: SnapshotImporter|
                        #[trigger] snapshot_switch_rel(s, c, rs, s1) && match rs {
                            Err(e) => r == Err::<Option<ContextEventView>, Error>(e) && s2 == s1,
                            Ok(prev) => placed(s, ev, with_remote(s, m, prev), s1, r, s2),
                        },
                },
            };
        if ro is Ok {
            if let SnapshotEventKind::User(u) = ev.kind {
                lemma_user_keeps_code(s.cfg.plugin, u, base_attrs(ev), ro, m);
            }
            let b = base_attrs(ev);
            assert(b.contains_key(ek(EventAttrKey::EventCode)));
            assert(b.contains_key(ek(EventAttrKey::EventType)));
            assert(has_int(b, EventAttrKey::EventCode, ev.code as int));
            if !(ev.kind is User) {
                assert(has_int(m, EventAttrKey::EventCode, ev.code as int));
            }
            assert(has_int(m, EventAttrKey::EventCode, ev.code as int));
            assert(has_text(m, EventAttrKey::EventType, ev.event_type@));
            if let Some(c) = snapshot_switch_target(ev.kind) {
                let (rs, s1) = choose|rs: Result<Option<ObjectHandle>, Error>, s1: SnapshotImporter|
                    #[trigger] snapshot_switch_rel(s, c, rs, s1) && match rs {
                        Err(e) => r == Err::<Option<ContextEventView>, Error>(e) && s2 == s1,
                        Ok(prev) => placed(s, ev, with_remote(s, m, prev), s1, r, s2),
                    };
            }
        }
    }
}

/// A user event's own attributes keep its code and type
proof fn lemma_user_keeps_code(
    cfg: PluginConfig,
    u: UserEvent,
    b: Map<KeyView, AttrValueView>,
    ro: Result<(), Error>,
    m: Map<KeyView, AttrValueView>,
)
    requires
        user_outcome(cfg, u, b, ro, m),
    ensures
        forall|k: EventAttrKey|
            (k == EventAttrKey::EventCode || k == EventAttrKey::EventType) && #[trigger] b.contains_key(ek(k))
                ==> m.contains_key(ek(k)) && m[ek(k)] == b[ek(k)],
{
    let mu = user_text_attrs(b, cfg, u);
    let n = if custom_arg_keys(cfg, u) is None && u.args@.len() > MAX_DEFAULT_USER_ARGS {
        MAX_DEFAULT_USER_ARGS as nat
    } else {
        u.args@.len()
    };
    lemma_args_keep(mu, u.args@, custom_arg_keys(cfg, u), n, ek(EventAttrKey::EventCode));
    lemma_args_keep(mu, u.args@, custom_arg_keys(cfg, u), n, ek(EventAttrKey::EventType));
}

/// User event arguments leave the attributes under other keys as they were
proof fn lemma_args_keep(
    m: Map<KeyView, AttrValueView>,
    args: Seq<Argument>,
    custom: Option<Seq<Seq<char>>>,
    n: nat,
    k: KeyView,
)
    requires
        k == ek(EventAttrKey::EventCode) || k == ek(EventAttrKey::EventType),
    ensures
        m.contains_key(k) ==> with_args(m, args, custom, n).contains_key(k) && with_args(m, args, custom, n)[k]
            == m[k],
    decreases n,
{
    if n > 0 {
        lemma_args_keep(m, args, custom, (n - 1) as nat, k);
        assert(arg_key(n - 1, custom) != k);
    }
}


/// Every timeline of a snapshot carries the run ID and time domain it was given and the
/// snapshot's header fields, each under its own key; the time resolution only when the
/// timer frequency is known. Configured attributes are merged over these under custom
/// keys only, as `lemma_configured_attrs_merge` states.
pub proof fn lemma_snapshot_timeline_attributes(
    d: SnapshotData,
    cfg: TraceRecorderConfig,
    run_id: AttrValueView,
    time_domain: AttrValueView,
)
    ensures
        ({
            let m = snapshot_common_attrs(d, cfg, run_id, time_domain);
            &&& has_tl(m, TimelineAttrKey::RunId, run_id)
            &&& has_tl(m, TimelineAttrKey::TimeDomain, time_domain)
            &&& has_tl(m, TimelineAttrKey::ClockStyle, AttrValueView::String("relative"@))
            &&& has_tl(m, TimelineAttrKey::Protocol, AttrValueView::String(d.protocol@))
            &&& has_tl(m, TimelineAttrKey::KernelVersion, AttrValueView::String(d.kernel_version@))
            &&& has_tl(m, TimelineAttrKey::KernelPort, AttrValueView::String(d.kernel_port@))
            &&& has_tl(m, TimelineAttrKey::Endianness, AttrValueView::String(d.endianness.spec_name()))
            &&& has_tl(m, TimelineAttrKey::IrqPriorityOrder, AttrValueView::Integer(d.irq_priority_order as i64))
            &&& has_tl(m, TimelineAttrKey::Frequency, AttrValueView::Integer(d.frequency as i64))
            &&& has_tl(
                m,
                TimelineAttrKey::IsrChainingThreshold,
                AttrValueView::Integer(d.isr_tail_chaining_threshold as i64),
            )
            &&& has_tl(m, TimelineAttrKey::MinorVersion, AttrValueView::Integer(d.minor_version as i64))
            &&& has_tl(m, TimelineAttrKey::FileSize, AttrValueView::Integer(d.filesize as i64))
            &&& has_tl(m, TimelineAttrKey::NumEvents, AttrValueView::Integer(d.num_events as i64))
            &&& has_tl(m, TimelineAttrKey::MaxEvents, AttrValueView::Integer(d.max_events as i64))
            &&& has_tl(m, TimelineAttrKey::BufferFull, AttrValueView::Bool(d.buffer_is_full))
            &&& has_tl(m, TimelineAttrKey::AbsTimeLastEvent, AttrValueView::Integer(d.abs_time_last_event as i64))
            &&& has_tl(
                m,
                TimelineAttrKey::AbsTimeLastEventSecond,
                AttrValueView::Integer(d.abs_time_last_event_second as i64),
            )
            &&& has_tl(m, TimelineAttrKey::RecorderActive, AttrValueView::Bool(d.recorder_active))
            &&& has_tl(m, TimelineAttrKey::HeapMemUsage, AttrValueView::Integer(d.heap_mem_usage as i64))
            &&& has_tl(m, TimelineAttrKey::Using16bitHandles, AttrValueView::Bool(d.using_16bit_handles))
            &&& has_tl(m, TimelineAttrKey::FloatEncoding, AttrValueView::String(d.float_encoding@))
            &&& has_tl(m, TimelineAttrKey::InternalErrorOccured, AttrValueView::Bool(d.internal_error_occured))
            &&& has_tl(m, TimelineAttrKey::SystemInfo, AttrValueView::String(d.system_info@))
            &&& d.frequency != 0 ==> has_tl(
                m,
                TimelineAttrKey::TimeResolution,
                AttrValueView::Timestamp((1_000_000_000int / (d.frequency as int)) as u64),
            )
            &&& d.frequency == 0 ==> !m.contains_key(tk(TimelineAttrKey::TimeResolution))
        }),
{
    reveal(snapshot_common_attrs);
    lemma_fixed_keys_survive_merge(
        cfg.ingest.additional_timeline_attributes@,
        cfg.ingest.override_timeline_attributes@,
    );
}

} // verus!
