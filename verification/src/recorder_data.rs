//! The recorder's header, timestamp and object information, and the event and timeline
//! attributes derived from it.

use crate::attr_keys::{
    int_attr, av, ek, put_event_attr, put_timeline_attr, str_attr, tk, AttrValue, AttrValueView, EventAttrKey,
    EventAttributes, TimelineAttrKey, TimelineAttributes,
};
use crate::config::{PluginConfig, TraceRecorderConfig};
use crate::error::Error;
use crate::event::{
    event_id, event_type_name, event_type_text, parameter_count, spec_event_id,
    spec_parameter_count, Argument, EventGroupCreateEvent, EventGroupEvent, EventKind, IsrEvent,
    MemoryEvent, MessageBufferBlockEvent, MessageBufferCreateEvent, MessageBufferEvent,
    MutexCreateEvent, MutexEvent, ObjectHandle, QueueCreateEvent, QueueEvent,
    SemaphoreCreateEvent, SemaphoreEvent, StateMachineCreateEvent, StateMachineStateEvent,
    TaskEvent, TaskNotifyEvent, TraceStartEvent, UnusedStackEvent, UserEvent, NO_TASK_HANDLE,
};
use crate::maps::{KeyView, MapKey};
use crate::opts::{first_arg_keys, first_rename, texts_of, ObjectClass};
use crate::text::{decimal, parse_u64, parse_u64_text, text_eq, u64_to_decimal};
use vstd::prelude::*;
use vstd::string::*;

verus! {

/// Nanoseconds in one second
pub const ONE_SECOND: u64 = 1_000_000_000;

/// The nanoseconds that `ticks` of a timer running at `freq` Hz stand for; none when the
/// frequency is unknown (zero)
pub open spec fn ns_of(freq: u32, ticks: int) -> Option<u64> {
    if freq == 0 {
        None
    } else {
        Some(((ticks * ONE_SECOND) / (freq as int)) as u64)
    }
}

/// The nanoseconds per tick of a timer running at `freq` Hz (truncated); none when the
/// frequency is unknown
pub open spec fn resolution_of(freq: u32) -> Option<u64> {
    if freq == 0 {
        None
    } else {
        Some(((ONE_SECOND as int) / (freq as int)) as u64)
    }
}

/// Convert ticks to nanoseconds using the timer frequency, if it is known (non-zero)
pub fn convert_timestamp(freq: u32, ticks: u64) -> (r: Option<u64>)
    requires
        freq != 0 ==> ticks * ONE_SECOND <= u64::MAX,
    ensures
        r == ns_of(freq, ticks as int),
{
    if freq == 0 {
        None
    } else {
        Some((ticks * ONE_SECOND) / (freq as u64))
    }
}

/// Nanoseconds per tick (truncated), if the timer frequency is known (non-zero)
pub fn resolution_ns(freq: u32) -> (r: Option<u64>)
    ensures
        r == resolution_of(freq),
{
    if freq == 0 {
        None
    } else {
        Some(ONE_SECOND / (freq as u64))
    }
}

/// Byte order of the recorder data
#[derive(Copy, Clone, PartialEq, Eq, Structural, Debug)]
pub enum Endianness {
    Little,
    Big,
}

impl Endianness {
    pub open spec fn spec_name(self) -> Seq<char> {
        match self {
            Endianness::Little => "little-endian"@,
            Endianness::Big => "big-endian"@,
        }
    }

    pub fn name(&self) -> (r: String)
        ensures
            r@ == self.spec_name(),
    {
        match self {
            Endianness::Little => String::from_str("little-endian"),
            Endianness::Big => String::from_str("big-endian"),
        }
    }
}

/// A kernel object known to the recorder
#[derive(Clone, Debug)]
pub struct ObjectEntry {
    pub handle: ObjectHandle,
    pub class: Option<ObjectClass>,
    pub symbol: Option<String>,
}

/// The recorder data: header, timestamp information and the object table (in increasing
/// handle order). Texts are the recorder's own renderings of the values.
#[derive(Clone, Debug)]
pub struct RecorderData {
    pub protocol: String,
    pub kernel_version: String,
    pub kernel_port: String,
    pub endianness: Endianness,
    pub irq_priority_order: u32,
    pub isr_tail_chaining_threshold: u32,
    pub format_version: u16,
    pub num_cores: u32,
    pub platform_cfg: String,
    pub platform_cfg_version: String,
    pub platform_cfg_version_major: u8,
    pub platform_cfg_version_minor: u8,
    pub platform_cfg_version_patch: u16,
    pub heap_max: u32,
    pub timer_type: String,
    pub timer_frequency: u32,
    pub timer_period: u32,
    pub timer_wraparounds: u32,
    pub os_tick_rate_hz: u32,
    pub os_tick_count: u32,
    pub latest_timestamp: u64,
    pub objects: Vec<ObjectEntry>,
}

/// An integer attribute value
pub open spec fn iattr(i: int) -> AttrValueView {
    AttrValueView::Integer(i as i64)
}

/// Sets `key` to the text of `name` when there is one
pub open spec fn with_opt_name(
    m: Map<KeyView, AttrValueView>,
    key: EventAttrKey,
    name: Option<String>,
) -> Map<KeyView, AttrValueView> {
    match name {
        Some(n) => m.insert(ek(key), str_attr(n@)),
        None => m,
    }
}

/// Sets the ticks-to-wait attribute and, when the frequency is known, its nanoseconds
pub open spec fn with_ticks_to_wait(
    m: Map<KeyView, AttrValueView>,
    freq: u32,
    ticks: Option<u32>,
) -> Map<KeyView, AttrValueView> {
    match ticks {
        Some(t) => {
            let m1 = m.insert(ek(EventAttrKey::TicksToWait), iattr(t as int));
            match ns_of(freq, t as int) {
                Some(ns) => m1.insert(ek(EventAttrKey::NanosToWait), AttrValueView::Timestamp(ns)),
                None => m1,
            }
        },
        None => m,
    }
}

/// Sets the object handle attribute
pub open spec fn with_handle(m: Map<KeyView, AttrValueView>, h: ObjectHandle) -> Map<
    KeyView,
    AttrValueView,
> {
    m.insert(ek(EventAttrKey::ObjectHandle), iattr(h as int))
}

/// The attribute value of a user event argument
pub open spec fn arg_attr(a: Argument) -> AttrValueView {
    match a {
        Argument::Char(c) => str_attr(seq![c]),
        Argument::I8(v) => iattr(v as int),
        Argument::U8(v) => iattr(v as int),
        Argument::I16(v) => iattr(v as int),
        Argument::U16(v) => iattr(v as int),
        Argument::I32(v) => iattr(v as int),
        Argument::U32(v) => iattr(v as int),
        Argument::F32(bits) => AttrValueView::Float(bits),
        Argument::F64(bits) => AttrValueView::Float(bits),
        Argument::String(s) => str_attr(s@),
    }
}

/// The default key of the argument at position `idx` (`event.argN`, up to 15 arguments)
pub open spec fn default_arg_key(idx: int) -> EventAttrKey {
    if idx == 0 {
        EventAttrKey::UserArg0
    } else if idx == 1 {
        EventAttrKey::UserArg1
    } else if idx == 2 {
        EventAttrKey::UserArg2
    } else if idx == 3 {
        EventAttrKey::UserArg3
    } else if idx == 4 {
        EventAttrKey::UserArg4
    } else if idx == 5 {
        EventAttrKey::UserArg5
    } else if idx == 6 {
        EventAttrKey::UserArg6
    } else if idx == 7 {
        EventAttrKey::UserArg7
    } else if idx == 8 {
        EventAttrKey::UserArg8
    } else if idx == 9 {
        EventAttrKey::UserArg9
    } else if idx == 10 {
        EventAttrKey::UserArg10
    } else if idx == 11 {
        EventAttrKey::UserArg11
    } else if idx == 12 {
        EventAttrKey::UserArg12
    } else if idx == 13 {
        EventAttrKey::UserArg13
    } else {
        EventAttrKey::UserArg14
    }
}

/// The maximum number of user event arguments with default keys
pub const MAX_DEFAULT_USER_ARGS: usize = 15;

/// The key of argument `idx`: the custom key when the format string has custom keys, else
/// the default key
pub open spec fn arg_key(idx: int, custom: Option<Seq<Seq<char>>>) -> KeyView {
    match custom {
        Some(keys) => (EventAttrKey::CustomUserArg(arbitrary()).spec_tag(), keys[idx]),
        None => ek(default_arg_key(idx)),
    }
}

/// The attributes of the first `n` user event arguments added to `m`
pub open spec fn with_args(
    m: Map<KeyView, AttrValueView>,
    args: Seq<Argument>,
    custom: Option<Seq<Seq<char>>>,
    n: nat,
) -> Map<KeyView, AttrValueView>
    decreases n,
{
    if n == 0 {
        m
    } else {
        with_args(m, args, custom, (n - 1) as nat).insert(
            arg_key(n - 1, custom),
            arg_attr(args[n - 1]),
        )
    }
}


/// Sets `key` to the text of `name` when there is one
fn put_opt_name(attrs: &mut EventAttributes, key: EventAttrKey, name: &Option<String>)
    requires
        old(attrs).wf(),
    ensures
        final(attrs).wf(),
        av(final(attrs)@) == with_opt_name(av(old(attrs)@), key, *name),
{
    if let Some(n) = name {
        put_event_attr(attrs, key, AttrValue::String(n.clone()));
    }
}

/// Sets the ticks-to-wait attribute and, when the frequency is known, its nanoseconds
fn put_ticks_to_wait(attrs: &mut EventAttributes, freq: u32, ticks: Option<u32>)
    requires
        old(attrs).wf(),
    ensures
        final(attrs).wf(),
        av(final(attrs)@) == with_ticks_to_wait(av(old(attrs)@), freq, ticks),
{
    if let Some(t) = ticks {
        put_event_attr(attrs, EventAttrKey::TicksToWait, AttrValue::Integer(t as i64));
        assert((t as u64) * ONE_SECOND <= u64::MAX) by (nonlinear_arith)
            requires
                t <= u32::MAX,
        ;
        if let Some(ns) = convert_timestamp(freq, t as u64) {
            put_event_attr(attrs, EventAttrKey::NanosToWait, AttrValue::Timestamp(ns));
        }
    }
}

/// The attributes of a trace start event
pub open spec fn trace_start_attrs(m: Map<KeyView, AttrValueView>, ev: TraceStartEvent) -> Map<KeyView, AttrValueView> {
    let m1 = with_handle(m, ev.current_task_handle);
    let m2 = m1.insert(ek(EventAttrKey::TaskName), str_attr(ev.current_task@));
    m2
}

fn add_trace_start_attrs(attrs: &mut EventAttributes, ev: &TraceStartEvent)
    requires
        old(attrs).wf(),
    ensures
        final(attrs).wf(),
        av(final(attrs)@) == trace_start_attrs(av(old(attrs)@), *ev),
{
    put_event_attr(attrs, EventAttrKey::ObjectHandle, AttrValue::Integer(ev.current_task_handle as i64));
    put_event_attr(attrs, EventAttrKey::TaskName, AttrValue::String(ev.current_task.clone()));
}

/// The attributes of a isr event
pub open spec fn isr_attrs(m: Map<KeyView, AttrValueView>, ev: IsrEvent) -> Map<KeyView, AttrValueView> {
    let m1 = m.insert(ek(EventAttrKey::IsrName), str_attr(ev.name@));
    let m2 = m1.insert(ek(EventAttrKey::IsrPriority), iattr(ev.priority as int));
    let m3 = with_handle(m2, ev.handle);
    m3
}

fn add_isr_attrs(attrs: &mut EventAttributes, ev: &IsrEvent)
    requires
        old(attrs).wf(),
    ensures
        final(attrs).wf(),
        av(final(attrs)@) == isr_attrs(av(old(attrs)@), *ev),
{
    put_event_attr(attrs, EventAttrKey::IsrName, AttrValue::String(ev.name.clone()));
    put_event_attr(attrs, EventAttrKey::IsrPriority, AttrValue::Integer(ev.priority as i64));
    put_event_attr(attrs, EventAttrKey::ObjectHandle, AttrValue::Integer(ev.handle as i64));
}

/// The attributes of a task event
pub open spec fn task_attrs(m: Map<KeyView, AttrValueView>, ev: TaskEvent) -> Map<KeyView, AttrValueView> {
    let m1 = m.insert(ek(EventAttrKey::TaskName), str_attr(ev.name@));
    let m2 = m1.insert(ek(EventAttrKey::TaskPriority), iattr(ev.priority as int));
    let m3 = with_handle(m2, ev.handle);
    m3
}

fn add_task_attrs(attrs: &mut EventAttributes, ev: &TaskEvent)
    requires
        old(attrs).wf(),
    ensures
        final(attrs).wf(),
        av(final(attrs)@) == task_attrs(av(old(attrs)@), *ev),
{
    put_event_attr(attrs, EventAttrKey::TaskName, AttrValue::String(ev.name.clone()));
    put_event_attr(attrs, EventAttrKey::TaskPriority, AttrValue::Integer(ev.priority as i64));
    put_event_attr(attrs, EventAttrKey::ObjectHandle, AttrValue::Integer(ev.handle as i64));
}

/// The attributes of a task notify event
pub open spec fn task_notify_attrs(m: Map<KeyView, AttrValueView>, freq: u32, ev: TaskNotifyEvent) -> Map<KeyView, AttrValueView> {
    let m1 = with_opt_name(m, EventAttrKey::TaskName, ev.task_name);
    let m2 = with_handle(m1, ev.handle);
    let m3 = with_ticks_to_wait(m2, freq, ev.ticks_to_wait);
    m3
}

fn add_task_notify_attrs(attrs: &mut EventAttributes, freq: u32, ev: &TaskNotifyEvent)
    requires
        old(attrs).wf(),
    ensures
        final(attrs).wf(),
        av(final(attrs)@) == task_notify_attrs(av(old(attrs)@), freq, *ev),
{
    put_opt_name(attrs, EventAttrKey::TaskName, &ev.task_name);
    put_event_attr(attrs, EventAttrKey::ObjectHandle, AttrValue::Integer(ev.handle as i64));
    put_ticks_to_wait(attrs, freq, ev.ticks_to_wait);
}

/// The attributes of a memory event
pub open spec fn memory_attrs(m: Map<KeyView, AttrValueView>, ev: MemoryEvent) -> Map<KeyView, AttrValueView> {
    let m1 = m.insert(ek(EventAttrKey::MemoryAddress), iattr(ev.address as int));
    let m2 = m1.insert(ek(EventAttrKey::MemorySize), iattr(ev.size as int));
    let m3 = m2.insert(ek(EventAttrKey::MemoryHeapCurrent), iattr(ev.heap_current as int));
    let m4 = m3.insert(ek(EventAttrKey::MemoryHeapHighMark), iattr(ev.heap_high_water_mark as int));
    let m5 = m4.insert(ek(EventAttrKey::MemoryHeapMax), iattr(ev.heap_max as int));
    m5
}

fn add_memory_attrs(attrs: &mut EventAttributes, ev: &MemoryEvent)
    requires
        old(attrs).wf(),
    ensures
        final(attrs).wf(),
        av(final(attrs)@) == memory_attrs(av(old(attrs)@), *ev),
{
    put_event_attr(attrs, EventAttrKey::MemoryAddress, AttrValue::Integer(ev.address as i64));
    put_event_attr(attrs, EventAttrKey::MemorySize, AttrValue::Integer(ev.size as i64));
    put_event_attr(attrs, EventAttrKey::MemoryHeapCurrent, AttrValue::Integer(ev.heap_current as i64));
    put_event_attr(attrs, EventAttrKey::MemoryHeapHighMark, AttrValue::Integer(ev.heap_high_water_mark as i64));
    put_event_attr(attrs, EventAttrKey::MemoryHeapMax, AttrValue::Integer(ev.heap_max as i64));
}

/// The attributes of a unused stack event
pub open spec fn unused_stack_attrs(m: Map<KeyView, AttrValueView>, ev: UnusedStackEvent) -> Map<KeyView, AttrValueView> {
    let m1 = m.insert(ek(EventAttrKey::TaskName), str_attr(ev.task@));
    let m2 = with_handle(m1, ev.handle);
    let m3 = m2.insert(ek(EventAttrKey::StackLowMark), iattr(ev.low_mark as int));
    m3
}

fn add_unused_stack_attrs(attrs: &mut EventAttributes, ev: &UnusedStackEvent)
    requires
        old(attrs).wf(),
    ensures
        final(attrs).wf(),
        av(final(attrs)@) == unused_stack_attrs(av(old(attrs)@), *ev),
{
    put_event_attr(attrs, EventAttrKey::TaskName, AttrValue::String(ev.task.clone()));
    put_event_attr(attrs, EventAttrKey::ObjectHandle, AttrValue::Integer(ev.handle as i64));
    put_event_attr(attrs, EventAttrKey::StackLowMark, AttrValue::Integer(ev.low_mark as i64));
}

/// The attributes of a queue create event
pub open spec fn queue_create_attrs(m: Map<KeyView, AttrValueView>, ev: QueueCreateEvent) -> Map<KeyView, AttrValueView> {
    let m1 = with_opt_name(m, EventAttrKey::QueueName, ev.name);
    let m2 = with_handle(m1, ev.handle);
    let m3 = m2.insert(ek(EventAttrKey::QueueLength), iattr(ev.queue_length as int));
    m3
}

fn add_queue_create_attrs(attrs: &mut EventAttributes, ev: &QueueCreateEvent)
    requires
        old(attrs).wf(),
    ensures
        final(attrs).wf(),
        av(final(attrs)@) == queue_create_attrs(av(old(attrs)@), *ev),
{
    put_opt_name(attrs, EventAttrKey::QueueName, &ev.name);
    put_event_attr(attrs, EventAttrKey::ObjectHandle, AttrValue::Integer(ev.handle as i64));
    put_event_attr(attrs, EventAttrKey::QueueLength, AttrValue::Integer(ev.queue_length as i64));
}

/// The attributes of a queue event
pub open spec fn queue_attrs(m: Map<KeyView, AttrValueView>, freq: u32, ev: QueueEvent) -> Map<KeyView, AttrValueView> {
    let m1 = with_opt_name(m, EventAttrKey::QueueName, ev.name);
    let m2 = with_handle(m1, ev.handle);
    let m3 = m2.insert(ek(EventAttrKey::QueueMessagesWaiting), iattr(ev.messages_waiting as int));
    let m4 = with_ticks_to_wait(m3, freq, ev.ticks_to_wait);
    m4
}

fn add_queue_attrs(attrs: &mut EventAttributes, freq: u32, ev: &QueueEvent)
    requires
        old(attrs).wf(),
    ensures
        final(attrs).wf(),
        av(final(attrs)@) == queue_attrs(av(old(attrs)@), freq, *ev),
{
    put_opt_name(attrs, EventAttrKey::QueueName, &ev.name);
    put_event_attr(attrs, EventAttrKey::ObjectHandle, AttrValue::Integer(ev.handle as i64));
    put_event_attr(attrs, EventAttrKey::QueueMessagesWaiting, AttrValue::Integer(ev.messages_waiting as i64));
    put_ticks_to_wait(attrs, freq, ev.ticks_to_wait);
}

/// The attributes of a mutex create event
pub open spec fn mutex_create_attrs(m: Map<KeyView, AttrValueView>, ev: MutexCreateEvent) -> Map<KeyView, AttrValueView> {
    let m1 = with_opt_name(m, EventAttrKey::MutexName, ev.name);
    let m2 = with_handle(m1, ev.handle);
    m2
}

fn add_mutex_create_attrs(attrs: &mut EventAttributes, ev: &MutexCreateEvent)
    requires
        old(attrs).wf(),
    ensures
        final(attrs).wf(),
        av(final(attrs)@) == mutex_create_attrs(av(old(attrs)@), *ev),
{
    put_opt_name(attrs, EventAttrKey::MutexName, &ev.name);
    put_event_attr(attrs, EventAttrKey::ObjectHandle, AttrValue::Integer(ev.handle as i64));
}

/// The attributes of a mutex event
pub open spec fn mutex_attrs(m: Map<KeyView, AttrValueView>, freq: u32, ev: MutexEvent) -> Map<KeyView, AttrValueView> {
    let m1 = with_opt_name(m, EventAttrKey::MutexName, ev.name);
    let m2 = with_handle(m1, ev.handle);
    let m3 = with_ticks_to_wait(m2, freq, ev.ticks_to_wait);
    m3
}

fn add_mutex_attrs(attrs: &mut EventAttributes, freq: u32, ev: &MutexEvent)
    requires
        old(attrs).wf(),
    ensures
        final(attrs).wf(),
        av(final(attrs)@) == mutex_attrs(av(old(attrs)@), freq, *ev),
{
    put_opt_name(attrs, EventAttrKey::MutexName, &ev.name);
    put_event_attr(attrs, EventAttrKey::ObjectHandle, AttrValue::Integer(ev.handle as i64));
    put_ticks_to_wait(attrs, freq, ev.ticks_to_wait);
}

/// The attributes of a semaphore create event
pub open spec fn semaphore_create_attrs(m: Map<KeyView, AttrValueView>, ev: SemaphoreCreateEvent) -> Map<KeyView, AttrValueView> {
    let m1 = with_opt_name(m, EventAttrKey::SemaphoreName, ev.name);
    let m2 = with_handle(m1, ev.handle);
    let m3 = match ev.count { Some(c) => m2.insert(ek(EventAttrKey::SemaphoreCount), iattr(c as int)), None => m2 };
    m3
}

fn add_semaphore_create_attrs(attrs: &mut EventAttributes, ev: &SemaphoreCreateEvent)
    requires
        old(attrs).wf(),
    ensures
        final(attrs).wf(),
        av(final(attrs)@) == semaphore_create_attrs(av(old(attrs)@), *ev),
{
    put_opt_name(attrs, EventAttrKey::SemaphoreName, &ev.name);
    put_event_attr(attrs, EventAttrKey::ObjectHandle, AttrValue::Integer(ev.handle as i64));
    if let Some(c) = ev.count {
        put_event_attr(attrs, EventAttrKey::SemaphoreCount, AttrValue::Integer(c as i64));
    }
}

/// The attributes of a semaphore event
pub open spec fn semaphore_attrs(m: Map<KeyView, AttrValueView>, freq: u32, ev: SemaphoreEvent) -> Map<KeyView, AttrValueView> {
    let m1 = with_opt_name(m, EventAttrKey::SemaphoreName, ev.name);
    let m2 = with_handle(m1, ev.handle);
    let m3 = m2.insert(ek(EventAttrKey::SemaphoreCount), iattr(ev.count as int));
    let m4 = with_ticks_to_wait(m3, freq, ev.ticks_to_wait);
    m4
}

fn add_semaphore_attrs(attrs: &mut EventAttributes, freq: u32, ev: &SemaphoreEvent)
    requires
        old(attrs).wf(),
    ensures
        final(attrs).wf(),
        av(final(attrs)@) == semaphore_attrs(av(old(attrs)@), freq, *ev),
{
    put_opt_name(attrs, EventAttrKey::SemaphoreName, &ev.name);
    put_event_attr(attrs, EventAttrKey::ObjectHandle, AttrValue::Integer(ev.handle as i64));
    put_event_attr(attrs, EventAttrKey::SemaphoreCount, AttrValue::Integer(ev.count as i64));
    put_ticks_to_wait(attrs, freq, ev.ticks_to_wait);
}

/// The attributes of a event group create event
pub open spec fn event_group_create_attrs(m: Map<KeyView, AttrValueView>, ev: EventGroupCreateEvent) -> Map<KeyView, AttrValueView> {
    let m1 = with_opt_name(m, EventAttrKey::EventGroupName, ev.name);
    let m2 = with_handle(m1, ev.handle);
    let m3 = m2.insert(ek(EventAttrKey::EventGroupBits), iattr(ev.event_bits as int));
    m3
}

fn add_event_group_create_attrs(attrs: &mut EventAttributes, ev: &EventGroupCreateEvent)
    requires
        old(attrs).wf(),
    ensures
        final(attrs).wf(),
        av(final(attrs)@) == event_group_create_attrs(av(old(attrs)@), *ev),
{
    put_opt_name(attrs, EventAttrKey::EventGroupName, &ev.name);
    put_event_attr(attrs, EventAttrKey::ObjectHandle, AttrValue::Integer(ev.handle as i64));
    put_event_attr(attrs, EventAttrKey::EventGroupBits, AttrValue::Integer(ev.event_bits as i64));
}

/// The attributes of a event group event
pub open spec fn event_group_attrs(m: Map<KeyView, AttrValueView>, ev: EventGroupEvent) -> Map<KeyView, AttrValueView> {
    let m1 = with_opt_name(m, EventAttrKey::EventGroupName, ev.name);
    let m2 = with_handle(m1, ev.handle);
    let m3 = m2.insert(ek(EventAttrKey::EventGroupBits), iattr(ev.bits as int));
    m3
}

fn add_event_group_attrs(attrs: &mut EventAttributes, ev: &EventGroupEvent)
    requires
        old(attrs).wf(),
    ensures
        final(attrs).wf(),
        av(final(attrs)@) == event_group_attrs(av(old(attrs)@), *ev),
{
    put_opt_name(attrs, EventAttrKey::EventGroupName, &ev.name);
    put_event_attr(attrs, EventAttrKey::ObjectHandle, AttrValue::Integer(ev.handle as i64));
    put_event_attr(attrs, EventAttrKey::EventGroupBits, AttrValue::Integer(ev.bits as i64));
}

/// The attributes of a message buffer create event
pub open spec fn message_buffer_create_attrs(m: Map<KeyView, AttrValueView>, ev: MessageBufferCreateEvent) -> Map<KeyView, AttrValueView> {
    let m1 = with_opt_name(m, EventAttrKey::MessageBufferName, ev.name);
    let m2 = with_handle(m1, ev.handle);
    let m3 = m2.insert(ek(EventAttrKey::MessageBufferSize), iattr(ev.buffer_size as int));
    m3
}

fn add_message_buffer_create_attrs(attrs: &mut EventAttributes, ev: &MessageBufferCreateEvent)
    requires
        old(attrs).wf(),
    ensures
        final(attrs).wf(),
        av(final(attrs)@) == message_buffer_create_attrs(av(old(attrs)@), *ev),
{
    put_opt_name(attrs, EventAttrKey::MessageBufferName, &ev.name);
    put_event_attr(attrs, EventAttrKey::ObjectHandle, AttrValue::Integer(ev.handle as i64));
    put_event_attr(attrs, EventAttrKey::MessageBufferSize, AttrValue::Integer(ev.buffer_size as i64));
}

/// The attributes of a message buffer event
pub open spec fn message_buffer_attrs(m: Map<KeyView, AttrValueView>, ev: MessageBufferEvent) -> Map<KeyView, AttrValueView> {
    let m1 = with_opt_name(m, EventAttrKey::MessageBufferName, ev.name);
    let m2 = with_handle(m1, ev.handle);
    let m3 = m2.insert(ek(EventAttrKey::MessageBufferBytesInBuffer), iattr(ev.bytes_in_buffer as int));
    m3
}

fn add_message_buffer_attrs(attrs: &mut EventAttributes, ev: &MessageBufferEvent)
    requires
        old(attrs).wf(),
    ensures
        final(attrs).wf(),
        av(final(attrs)@) == message_buffer_attrs(av(old(attrs)@), *ev),
{
    put_opt_name(attrs, EventAttrKey::MessageBufferName, &ev.name);
    put_event_attr(attrs, EventAttrKey::ObjectHandle, AttrValue::Integer(ev.handle as i64));
    put_event_attr(attrs, EventAttrKey::MessageBufferBytesInBuffer, AttrValue::Integer(ev.bytes_in_buffer as i64));
}

/// The attributes of a message buffer block event
pub open spec fn message_buffer_block_attrs(m: Map<KeyView, AttrValueView>, ev: MessageBufferBlockEvent) -> Map<KeyView, AttrValueView> {
    let m1 = with_opt_name(m, EventAttrKey::MessageBufferName, ev.name);
    let m2 = with_handle(m1, ev.handle);
    m2
}

fn add_message_buffer_block_attrs(attrs: &mut EventAttributes, ev: &MessageBufferBlockEvent)
    requires
        old(attrs).wf(),
    ensures
        final(attrs).wf(),
        av(final(attrs)@) == message_buffer_block_attrs(av(old(attrs)@), *ev),
{
    put_opt_name(attrs, EventAttrKey::MessageBufferName, &ev.name);
    put_event_attr(attrs, EventAttrKey::ObjectHandle, AttrValue::Integer(ev.handle as i64));
}

/// The attributes of a state machine create event
pub open spec fn state_machine_create_attrs(m: Map<KeyView, AttrValueView>, ev: StateMachineCreateEvent) -> Map<KeyView, AttrValueView> {
    let m1 = m.insert(ek(EventAttrKey::StateMachineName), str_attr(ev.name@));
    let m2 = with_handle(m1, ev.handle);
    m2
}

fn add_state_machine_create_attrs(attrs: &mut EventAttributes, ev: &StateMachineCreateEvent)
    requires
        old(attrs).wf(),
    ensures
        final(attrs).wf(),
        av(final(attrs)@) == state_machine_create_attrs(av(old(attrs)@), *ev),
{
    put_event_attr(attrs, EventAttrKey::StateMachineName, AttrValue::String(ev.name.clone()));
    put_event_attr(attrs, EventAttrKey::ObjectHandle, AttrValue::Integer(ev.handle as i64));
}

/// The attributes of a state machine state event
pub open spec fn state_machine_state_attrs(m: Map<KeyView, AttrValueView>, ev: StateMachineStateEvent) -> Map<KeyView, AttrValueView> {
    let m1 = m.insert(ek(EventAttrKey::StateMachineName), str_attr(ev.name@));
    let m2 = with_handle(m1, ev.handle);
    let m3 = m2.insert(ek(EventAttrKey::StateMachineState), str_attr(ev.state@));
    let m4 = m3.insert(ek(EventAttrKey::StateMachineStateHandle), iattr(ev.state_handle as int));
    m4
}

fn add_state_machine_state_attrs(attrs: &mut EventAttributes, ev: &StateMachineStateEvent)
    requires
        old(attrs).wf(),
    ensures
        final(attrs).wf(),
        av(final(attrs)@) == state_machine_state_attrs(av(old(attrs)@), *ev),
{
    put_event_attr(attrs, EventAttrKey::StateMachineName, AttrValue::String(ev.name.clone()));
    put_event_attr(attrs, EventAttrKey::ObjectHandle, AttrValue::Integer(ev.handle as i64));
    put_event_attr(attrs, EventAttrKey::StateMachineState, AttrValue::String(ev.state.clone()));
    put_event_attr(attrs, EventAttrKey::StateMachineStateHandle, AttrValue::Integer(ev.state_handle as i64));
}


/// The attributes every event gets from its event code: its name and type (the parser's
/// name for the event ID), the code, the ID and the parameter count
pub open spec fn code_attrs(m: Map<KeyView, AttrValueView>, code: u16) -> Map<
    KeyView,
    AttrValueView,
> {
    let kind_name = event_type_text(spec_event_id(code));
    m.insert(ek(EventAttrKey::Name), str_attr(kind_name)).insert(
        ek(EventAttrKey::EventCode),
        iattr(code as int),
    ).insert(ek(EventAttrKey::EventType), str_attr(kind_name)).insert(
        ek(EventAttrKey::EventId),
        iattr(spec_event_id(code) as int),
    ).insert(ek(EventAttrKey::ParameterCount), iattr(spec_parameter_count(code) as int))
}

/// The attributes that an event of a kernel object kind adds, by kind. User events are
/// handled on their own; kinds without attributes leave the map as it is.
pub open spec fn kind_attrs(m: Map<KeyView, AttrValueView>, freq: u32, kind: EventKind) -> Map<
    KeyView,
    AttrValueView,
> {
    match kind {
        EventKind::TraceStart(ev) => trace_start_attrs(m, ev),
        EventKind::IsrBegin(ev) | EventKind::IsrResume(ev) | EventKind::IsrDefine(ev) => isr_attrs(m, ev),
        EventKind::TaskBegin(ev)
        | EventKind::TaskReady(ev)
        | EventKind::TaskResume(ev)
        | EventKind::TaskCreate(ev)
        | EventKind::TaskActivate(ev)
        | EventKind::TaskPriority(ev)
        | EventKind::TaskPriorityInherit(ev)
        | EventKind::TaskPriorityDisinherit(ev) => task_attrs(m, ev),
        EventKind::TaskNotify(ev)
        | EventKind::TaskNotifyFromIsr(ev)
        | EventKind::TaskNotifyWait(ev)
        | EventKind::TaskNotifyWaitBlock(ev) => task_notify_attrs(m, freq, ev),
        EventKind::MemoryAlloc(ev) | EventKind::MemoryFree(ev) => memory_attrs(m, ev),
        EventKind::UnusedStack(ev) => unused_stack_attrs(m, ev),
        EventKind::QueueCreate(ev) => queue_create_attrs(m, ev),
        EventKind::QueueSend(ev)
        | EventKind::QueueSendBlock(ev)
        | EventKind::QueueSendFromIsr(ev)
        | EventKind::QueueReceive(ev)
        | EventKind::QueueReceiveBlock(ev)
        | EventKind::QueueReceiveFromIsr(ev)
        | EventKind::QueuePeek(ev)
        | EventKind::QueuePeekBlock(ev)
        | EventKind::QueueSendFront(ev)
        | EventKind::QueueSendFrontBlock(ev)
        | EventKind::QueueSendFrontFromIsr(ev) => queue_attrs(m, freq, ev),
        EventKind::MutexCreate(ev) => mutex_create_attrs(m, ev),
        EventKind::MutexGive(ev)
        | EventKind::MutexGiveBlock(ev)
        | EventKind::MutexGiveRecursive(ev)
        | EventKind::MutexTake(ev)
        | EventKind::MutexTakeBlock(ev)
        | EventKind::MutexTakeRecursive(ev)
        | EventKind::MutexTakeRecursiveBlock(ev) => mutex_attrs(m, freq, ev),
        EventKind::SemaphoreBinaryCreate(ev) | EventKind::SemaphoreCountingCreate(ev) => semaphore_create_attrs(m, ev),
        EventKind::SemaphoreGive(ev)
        | EventKind::SemaphoreGiveBlock(ev)
        | EventKind::SemaphoreGiveFromIsr(ev)
        | EventKind::SemaphoreTake(ev)
        | EventKind::SemaphoreTakeBlock(ev)
        | EventKind::SemaphoreTakeFromIsr(ev)
        | EventKind::SemaphorePeek(ev)
        | EventKind::SemaphorePeekBlock(ev) => semaphore_attrs(m, freq, ev),
        EventKind::EventGroupCreate(ev) => event_group_create_attrs(m, ev),
        EventKind::EventGroupSync(ev)
        | EventKind::EventGroupWaitBits(ev)
        | EventKind::EventGroupClearBits(ev)
        | EventKind::EventGroupClearBitsFromIsr(ev)
        | EventKind::EventGroupSetBits(ev)
        | EventKind::EventGroupSetBitsFromIsr(ev)
        | EventKind::EventGroupSyncBlock(ev)
        | EventKind::EventGroupWaitBitsBlock(ev) => event_group_attrs(m, ev),
        EventKind::MessageBufferCreate(ev) => message_buffer_create_attrs(m, ev),
        EventKind::MessageBufferSend(ev)
        | EventKind::MessageBufferSendFromIsr(ev)
        | EventKind::MessageBufferReceive(ev)
        | EventKind::MessageBufferReceiveFromIsr(ev)
        | EventKind::MessageBufferReset(ev) => message_buffer_attrs(m, ev),
        EventKind::MessageBufferSendBlock(ev) | EventKind::MessageBufferReceiveBlock(ev) => message_buffer_block_attrs(m, ev),
        EventKind::StateMachineCreate(ev) => state_machine_create_attrs(m, ev),
        EventKind::StateMachineStateCreate(ev) | EventKind::StateMachineStateChange(ev) => state_machine_state_attrs(m, ev),
        EventKind::User(_) | EventKind::ObjectName | EventKind::TsConfig | EventKind::Unknown(_) => m,
    }
}

/// The channel the recorder reports its own warnings on
pub open spec fn warning_channel() -> Seq<char> {
    "#WFR"@
}

/// The event name given to the recorder's own warnings
pub open spec fn warning_event_name() -> Seq<char> {
    "WARNING_FROM_RECORDER"@
}

/// The name and text attributes of a user event: the channel or the formatted string
/// names the event when so configured; a channel rename (or the recorder's warning
/// channel), then a formatted-string rename, take precedence; the channel and formatted
/// string are recorded as attributes
pub open spec fn user_text_attrs(m: Map<KeyView, AttrValueView>, cfg: PluginConfig, ev: UserEvent) -> Map<
    KeyView,
    AttrValueView,
> {
    let name = ek(EventAttrKey::Name);
    let m1 = if cfg.user_event_channel {
        m.insert(name, str_attr(ev.channel@))
    } else if cfg.user_event_format_string {
        m.insert(name, str_attr(ev.formatted_string@))
    } else {
        m
    };
    let m2 = match first_rename(cfg.user_event_channel_rename_map@, ev.channel@) {
        Some(n) => m1.insert(name, str_attr(n)),
        None => if ev.channel@ == warning_channel() {
            m1.insert(name, str_attr(warning_event_name()))
        } else {
            m1
        },
    };
    let m3 = match first_rename(cfg.user_event_formatted_string_rename_map@, ev.formatted_string@) {
        Some(n) => m2.insert(name, str_attr(n)),
        None => m2,
    };
    m3.insert(ek(EventAttrKey::UserChannel), str_attr(ev.channel@)).insert(
        ek(EventAttrKey::UserFormattedString),
        str_attr(ev.formatted_string@),
    )
}

/// The custom argument keys configured for a user event's channel and format string
pub open spec fn custom_arg_keys(cfg: PluginConfig, ev: UserEvent) -> Option<Seq<Seq<char>>> {
    first_arg_keys(cfg.user_event_fmt_arg_attr_keys@, ev.channel@, ev.format_string@)
}

/// What adding a user event's attributes to `before` gives: the result and the attributes
/// after it. With custom keys the argument count must match them; without, at most 15
/// arguments get default keys, and a 16th is an error (the first 15 stay set).
pub open spec fn user_outcome(
    cfg: PluginConfig,
    ev: UserEvent,
    before: Map<KeyView, AttrValueView>,
    r: Result<(), Error>,
    after: Map<KeyView, AttrValueView>,
) -> bool {
    let m = user_text_attrs(before, cfg, ev);
    let args = ev.args@;
    match custom_arg_keys(cfg, ev) {
        Some(keys) => if keys.len() != args.len() {
            &&& r matches Err(Error::FmtArgAttrKeysCountMismatch(f, ks))
            &&& f@ == ev.format_string@
            &&& texts_of(ks@) == keys
            &&& after == m
        } else {
            &&& r is Ok
            &&& after == with_args(m, args, Some(keys), args.len())
        },
        None => if args.len() > MAX_DEFAULT_USER_ARGS {
            &&& r == Err::<(), Error>(Error::ExceededMaxUserEventArgs)
            &&& after == with_args(m, args, None, MAX_DEFAULT_USER_ARGS as nat)
        } else {
            &&& r is Ok
            &&& after == with_args(m, args, None, args.len())
        },
    }
}

/// What adding an event's core attributes to `before` gives
pub open spec fn core_event_outcome(
    cfg: PluginConfig,
    freq: u32,
    code: u16,
    kind: EventKind,
    before: Map<KeyView, AttrValueView>,
    r: Result<(), Error>,
    after: Map<KeyView, AttrValueView>,
) -> bool {
    let m = code_attrs(before, code);
    match kind {
        EventKind::User(ev) => user_outcome(cfg, ev, m, r, after),
        _ => r is Ok && after == kind_attrs(m, freq, kind),
    }
}

/// The attribute value of a user event argument
fn arg_to_attr_val(arg: &Argument) -> (r: AttrValue)
    ensures
        r@ == arg_attr(*arg),
{
    match arg {
        Argument::Char(c) => {
            let mut s = String::new();
            crate::text::push_char(&mut s, *c);
            assert(s@ =~= seq![*c]);
            AttrValue::String(s)
        },
        Argument::I8(v) => AttrValue::Integer(*v as i64),
        Argument::U8(v) => AttrValue::Integer(*v as i64),
        Argument::I16(v) => AttrValue::Integer(*v as i64),
        Argument::U16(v) => AttrValue::Integer(*v as i64),
        Argument::I32(v) => AttrValue::Integer(*v as i64),
        Argument::U32(v) => AttrValue::Integer(*v as i64),
        Argument::F32(bits) => AttrValue::Float(*bits),
        Argument::F64(bits) => AttrValue::Float(*bits),
        Argument::String(s) => AttrValue::String(s.clone()),
    }
}

/// The default key of argument `idx`
fn default_arg_key_of(idx: usize) -> (r: EventAttrKey)
    requires
        idx < MAX_DEFAULT_USER_ARGS,
    ensures
        r == default_arg_key(idx as int),
{
    match idx {
        0 => EventAttrKey::UserArg0,
        1 => EventAttrKey::UserArg1,
        2 => EventAttrKey::UserArg2,
        3 => EventAttrKey::UserArg3,
        4 => EventAttrKey::UserArg4,
        5 => EventAttrKey::UserArg5,
        6 => EventAttrKey::UserArg6,
        7 => EventAttrKey::UserArg7,
        8 => EventAttrKey::UserArg8,
        9 => EventAttrKey::UserArg9,
        10 => EventAttrKey::UserArg10,
        11 => EventAttrKey::UserArg11,
        12 => EventAttrKey::UserArg12,
        13 => EventAttrKey::UserArg13,
        _ => EventAttrKey::UserArg14,
    }
}

/// Copies of the given texts
fn copy_texts(v: &[String]) -> (r: Vec<String>)
    ensures
        texts_of(r@) == texts_of(v@),
{
    let mut r: Vec<String> = Vec::new();
    let mut i: usize = 0;
    while i < v.len()
        invariant
            i <= v@.len(),
            r@.len() == i,
            forall|j: int| 0 <= j < i ==> #[trigger] r@[j]@ == v@[j]@,
        decreases v@.len() - i,
    {
        r.push(v[i].clone());
        i = i + 1;
    }
    assert(texts_of(r@) =~= texts_of(v@));
    r
}

/// Adds the name, text and argument attributes of a user event
pub(crate) fn add_user_attrs(cfg: &PluginConfig, ev: &UserEvent, attrs: &mut EventAttributes) -> (r: Result<(), Error>)
    requires
        old(attrs).wf(),
        cfg.wf(),
    ensures
        final(attrs).wf(),
        user_outcome(*cfg, *ev, av(old(attrs)@), r, av(final(attrs)@)),
{
    let ghost m0 = av(attrs@);
    if cfg.user_event_channel {
        put_event_attr(attrs, EventAttrKey::Name, AttrValue::String(ev.channel.clone()));
    } else if cfg.user_event_format_string {
        put_event_attr(attrs, EventAttrKey::Name, AttrValue::String(ev.formatted_string.clone()));
    }
    match cfg.user_event_channel_rename_map.get(ev.channel.as_str()) {
        Some(name) => {
            put_event_attr(attrs, EventAttrKey::Name, AttrValue::from_str_slice(name));
        },
        None => {
            proof {
                reveal_strlit("#WFR");
                reveal_strlit("WARNING_FROM_RECORDER");
            }
            if crate::text::text_eq(ev.channel.as_str(), "#WFR") {
                put_event_attr(
                    attrs,
                    EventAttrKey::Name,
                    AttrValue::from_str_slice("WARNING_FROM_RECORDER"),
                );
            }
        },
    }
    match cfg.user_event_formatted_string_rename_map.get(ev.formatted_string.as_str()) {
        Some(name) => {
            put_event_attr(attrs, EventAttrKey::Name, AttrValue::from_str_slice(name));
        },
        None => {},
    }
    put_event_attr(attrs, EventAttrKey::UserChannel, AttrValue::String(ev.channel.clone()));
    put_event_attr(
        attrs,
        EventAttrKey::UserFormattedString,
        AttrValue::String(ev.formatted_string.clone()),
    );
    let ghost m = av(attrs@);
    assert(m == user_text_attrs(m0, *cfg, *ev));
    let custom = cfg.user_event_fmt_arg_attr_keys.arg_attr_keys(
        ev.channel.as_str(),
        ev.format_string.as_str(),
    );
    let ghost custom_view: Option<Seq<Seq<char>>> = match custom {
        Some(keys) => Some(texts_of(keys@)),
        None => None,
    };
    assert(custom_view == custom_arg_keys(*cfg, *ev));
    if let Some(keys) = custom {
        if keys.len() != ev.args.len() {
            return Err(
                Error::FmtArgAttrKeysCountMismatch(ev.format_string.clone(), copy_texts(keys)),
            );
        }
    }
    let n = ev.args.len();
    let mut idx: usize = 0;
    while idx < n
        invariant
            attrs.wf(),
            n == ev.args@.len(),
            idx <= n,
            custom_view == custom_arg_keys(*cfg, *ev),
            custom_view matches Some(ks) ==> ks.len() == n,
            match custom {
                Some(keys) => custom_view == Some(texts_of(keys@)),
                None => custom_view is None,
            },
            custom is None ==> idx <= MAX_DEFAULT_USER_ARGS,
            m == user_text_attrs(av(old(attrs)@), *cfg, *ev),
            av(attrs@) == with_args(m, ev.args@, custom_view, idx as nat),
        decreases n - idx,
    {
        let key = match custom {
            Some(keys) => EventAttrKey::CustomUserArg(keys[idx].clone()),
            None => {
                if idx >= MAX_DEFAULT_USER_ARGS {
                    assert(custom_view is None);
                    assert(idx == MAX_DEFAULT_USER_ARGS);
                    assert(ev.args@.len() > MAX_DEFAULT_USER_ARGS);
                    return Err(Error::ExceededMaxUserEventArgs);
                }
                default_arg_key_of(idx)
            },
        };
        assert(key.key_view() == arg_key(idx as int, custom_view));
        let v = arg_to_attr_val(&ev.args[idx]);
        put_event_attr(attrs, key, v);
        idx = idx + 1;
    }
    Ok(())
}

impl RecorderData {
    /// Adds the attributes that every event gets from its code and those its kind carries
    pub fn add_core_event_attributes(
        &self,
        cfg: &PluginConfig,
        event_code: u16,
        event: &EventKind,
        attrs: &mut EventAttributes,
    ) -> (r: Result<(), Error>)
        requires
            old(attrs).wf(),
            cfg.wf(),
        ensures
            final(attrs).wf(),
            core_event_outcome(
                *cfg,
                self.timer_frequency,
                event_code,
                *event,
                av(old(attrs)@),
                r,
                av(final(attrs)@),
            ),
    {
        let kind_name = event_type_name(event_id(event_code));
        put_event_attr(attrs, EventAttrKey::Name, AttrValue::String(kind_name.clone()));
        put_event_attr(attrs, EventAttrKey::EventCode, AttrValue::Integer(event_code as i64));
        put_event_attr(attrs, EventAttrKey::EventType, AttrValue::String(kind_name));
        put_event_attr(attrs, EventAttrKey::EventId, AttrValue::Integer(event_id(event_code) as i64));
        put_event_attr(
            attrs,
            EventAttrKey::ParameterCount,
            AttrValue::Integer(parameter_count(event_code) as i64),
        );
        let freq = self.timer_frequency;
        match event {
            EventKind::TraceStart(ev) => add_trace_start_attrs(attrs, ev),
            EventKind::IsrBegin(ev) | EventKind::IsrResume(ev) | EventKind::IsrDefine(ev) => add_isr_attrs(attrs, ev),
            EventKind::TaskBegin(ev)
            | EventKind::TaskReady(ev)
            | EventKind::TaskResume(ev)
            | EventKind::TaskCreate(ev)
            | EventKind::TaskActivate(ev)
            | EventKind::TaskPriority(ev)
            | EventKind::TaskPriorityInherit(ev)
            | EventKind::TaskPriorityDisinherit(ev) => add_task_attrs(attrs, ev),
            EventKind::TaskNotify(ev)
            | EventKind::TaskNotifyFromIsr(ev)
            | EventKind::TaskNotifyWait(ev)
            | EventKind::TaskNotifyWaitBlock(ev) => add_task_notify_attrs(attrs, freq, ev),
            EventKind::MemoryAlloc(ev) | EventKind::MemoryFree(ev) => add_memory_attrs(attrs, ev),
            EventKind::UnusedStack(ev) => add_unused_stack_attrs(attrs, ev),
            EventKind::QueueCreate(ev) => add_queue_create_attrs(attrs, ev),
            EventKind::QueueSend(ev)
            | EventKind::QueueSendBlock(ev)
            | EventKind::QueueSendFromIsr(ev)
            | EventKind::QueueReceive(ev)
            | EventKind::QueueReceiveBlock(ev)
            | EventKind::QueueReceiveFromIsr(ev)
            | EventKind::QueuePeek(ev)
            | EventKind::QueuePeekBlock(ev)
            | EventKind::QueueSendFront(ev)
            | EventKind::QueueSendFrontBlock(ev)
            | EventKind::QueueSendFrontFromIsr(ev) => add_queue_attrs(attrs, freq, ev),
            EventKind::MutexCreate(ev) => add_mutex_create_attrs(attrs, ev),
            EventKind::MutexGive(ev)
            | EventKind::MutexGiveBlock(ev)
            | EventKind::MutexGiveRecursive(ev)
            | EventKind::MutexTake(ev)
            | EventKind::MutexTakeBlock(ev)
            | EventKind::MutexTakeRecursive(ev)
            | EventKind::MutexTakeRecursiveBlock(ev) => add_mutex_attrs(attrs, freq, ev),
            EventKind::SemaphoreBinaryCreate(ev) | EventKind::SemaphoreCountingCreate(ev) => add_semaphore_create_attrs(attrs, ev),
            EventKind::SemaphoreGive(ev)
            | EventKind::SemaphoreGiveBlock(ev)
            | EventKind::SemaphoreGiveFromIsr(ev)
            | EventKind::SemaphoreTake(ev)
            | EventKind::SemaphoreTakeBlock(ev)
            | EventKind::SemaphoreTakeFromIsr(ev)
            | EventKind::SemaphorePeek(ev)
            | EventKind::SemaphorePeekBlock(ev) => add_semaphore_attrs(attrs, freq, ev),
            EventKind::EventGroupCreate(ev) => add_event_group_create_attrs(attrs, ev),
            EventKind::EventGroupSync(ev)
            | EventKind::EventGroupWaitBits(ev)
            | EventKind::EventGroupClearBits(ev)
            | EventKind::EventGroupClearBitsFromIsr(ev)
            | EventKind::EventGroupSetBits(ev)
            | EventKind::EventGroupSetBitsFromIsr(ev)
            | EventKind::EventGroupSyncBlock(ev)
            | EventKind::EventGroupWaitBitsBlock(ev) => add_event_group_attrs(attrs, ev),
            EventKind::MessageBufferCreate(ev) => add_message_buffer_create_attrs(attrs, ev),
            EventKind::MessageBufferSend(ev)
            | EventKind::MessageBufferSendFromIsr(ev)
            | EventKind::MessageBufferReceive(ev)
            | EventKind::MessageBufferReceiveFromIsr(ev)
            | EventKind::MessageBufferReset(ev) => add_message_buffer_attrs(attrs, ev),
            EventKind::MessageBufferSendBlock(ev) | EventKind::MessageBufferReceiveBlock(ev) => add_message_buffer_block_attrs(attrs, ev),
            EventKind::StateMachineCreate(ev) => add_state_machine_create_attrs(attrs, ev),
            EventKind::StateMachineStateCreate(ev) | EventKind::StateMachineStateChange(ev) => add_state_machine_state_attrs(attrs, ev),
            EventKind::User(ev) => {
                return add_user_attrs(cfg, ev, attrs);
            },
            EventKind::ObjectName | EventKind::TsConfig | EventKind::Unknown(_) => {},
        }
        Ok(())
    }
}


/// The version of this plugin, recorded on every timeline
pub const PLUGIN_VERSION: &'static str = "0.1.0";

/// The name the recorder gives objects that have none
pub open spec fn unnamed_object() -> Seq<char> {
    "<unnamed>"@
}

/// The name the recorder gives the startup task
pub open spec fn startup_task_name() -> Seq<char> {
    "(startup)"@
}

/// A task or ISR context, by its object handle
#[derive(Copy, Clone, PartialEq, Eq, Structural, Debug, Hash)]
pub enum ContextHandle {
    Task(ObjectHandle),
    Isr(ObjectHandle),
}

impl ContextHandle {
    pub open spec fn spec_object_handle(self) -> ObjectHandle {
        match self {
            ContextHandle::Task(h) => h,
            ContextHandle::Isr(h) => h,
        }
    }

    pub fn object_handle(self) -> (r: ObjectHandle)
        ensures
            r == self.spec_object_handle(),
    {
        match self {
            ContextHandle::Task(h) => h,
            ContextHandle::Isr(h) => h,
        }
    }
}

/// The entry of the first object, in table order, with handle `h`
pub open spec fn entry_for(objs: Seq<ObjectEntry>, h: ObjectHandle) -> Option<ObjectEntry>
    decreases objs.len(),
{
    if objs.len() == 0 {
        None
    } else if objs[0].handle == h {
        Some(objs[0])
    } else {
        entry_for(objs.drop_first(), h)
    }
}

/// The class of the object with handle `h`, if it is known
pub open spec fn class_for(objs: Seq<ObjectEntry>, h: ObjectHandle) -> Option<ObjectClass> {
    match entry_for(objs, h) {
        Some(e) => e.class,
        None => None,
    }
}

/// The symbol of the object with handle `h`, if it has one
pub open spec fn symbol_for(objs: Seq<ObjectEntry>, h: ObjectHandle) -> Option<Seq<char>> {
    match entry_for(objs, h) {
        Some(e) => match e.symbol {
            Some(s) => Some(s@),
            None => None,
        },
        None => None,
    }
}

/// The handle of the first object, in table order, with the given symbol and class
pub open spec fn handle_named(objs: Seq<ObjectEntry>, name: Seq<char>, class: ObjectClass) -> Option<
    ObjectHandle,
>
    decreases objs.len(),
{
    if objs.len() == 0 {
        None
    } else if objs[0].symbol matches Some(sym) && sym@ == name && objs[0].class == Some(class) {
        Some(objs[0].handle)
    } else {
        handle_named(objs.drop_first(), name, class)
    }
}

/// The display text of a possibly unknown object class
pub open spec fn class_text(class: Option<ObjectClass>) -> Seq<char> {
    match class {
        Some(c) => c.spec_name(),
        None => "Object"@,
    }
}

/// An object's name: its symbol, or `<unnamed>:<class>:<handle>` when the symbol is empty
pub open spec fn object_name_text(name: Seq<char>, class: Option<ObjectClass>, h: ObjectHandle) -> Seq<
    char,
> {
    if name.len() == 0 {
        unnamed_object() + ":"@ + class_text(class) + ":"@ + decimal(h as nat)
    } else {
        name
    }
}

/// A timeline description: `<kernel port> <class> '<name>'`
pub open spec fn description_text(port: Seq<char>, class: Option<ObjectClass>, name: Seq<char>) -> Seq<
    char,
> {
    port + " "@ + class_text(class) + " '"@ + name + "'"@
}

/// What adding a context's core timeline attributes to `before` gives: an error when the
/// object has no symbol, else its name (the configured startup task name in place of the
/// recorder's one), description and handle
pub open spec fn core_timeline_outcome(
    rd: RecorderData,
    cfg: PluginConfig,
    handle: ContextHandle,
    before: Map<KeyView, AttrValueView>,
    r: Result<(), Error>,
    after: Map<KeyView, AttrValueView>,
) -> bool {
    let h = handle.spec_object_handle();
    let class = class_for(rd.objects@, h);
    match symbol_for(rd.objects@, h) {
        None => {
            &&& after == before
            &&& match handle {
                ContextHandle::Task(_) => r == Err::<(), Error>(Error::TaskPropertiesLookup(h)),
                ContextHandle::Isr(_) => r == Err::<(), Error>(Error::IsrPropertiesLookup(h)),
            }
        },
        Some(sym) => {
            let name = object_name_text(sym, class, h);
            let desc = description_text(rd.kernel_port@, class, name);
            let tl_name = match (handle, cfg.startup_task_name) {
                (ContextHandle::Task(_), Some(n)) => if name == startup_task_name() {
                    n@
                } else {
                    name
                },
                _ => name,
            };
            &&& r is Ok
            &&& after == before.insert(tk(TimelineAttrKey::Name), str_attr(tl_name)).insert(
                tk(TimelineAttrKey::Description),
                str_attr(desc),
            ).insert(tk(TimelineAttrKey::ObjectHandle), iattr(h as int))
        },
    }
}

/// The display text of a possibly unknown object class
fn class_name(class: Option<ObjectClass>) -> (r: String)
    ensures
        r@ == class_text(class),
{
    match class {
        Some(c) => c.name(),
        None => {
            proof {
                reveal_strlit("Object");
            }
            String::from_str("Object")
        },
    }
}

/// An object's name: its symbol, or `<unnamed>:<class>:<handle>` when the symbol is empty
fn object_name(name: String, class: Option<ObjectClass>, h: ObjectHandle) -> (r: String)
    ensures
        r@ == object_name_text(name@, class, h),
{
    if name.as_str().is_empty() {
        proof {
            reveal_strlit("<unnamed>");
            reveal_strlit(":");
        }
        let mut s = String::from_str("<unnamed>");
        s.append(":");
        s.append(class_name(class).as_str());
        s.append(":");
        s.append(u64_to_decimal(h as u64).as_str());
        s
    } else {
        name
    }
}

impl RecorderData {
    /// The entry of the object with the given handle
    fn entry(&self, h: ObjectHandle) -> (r: Option<&ObjectEntry>)
        ensures
            match r {
                Some(e) => entry_for(self.objects@, h) == Some(*e),
                None => entry_for(self.objects@, h) is None,
            },
    {
        let ghost v = self.objects@;
        let mut i: usize = 0;
        assert(v.subrange(0, v.len() as int) =~= v);
        while i < self.objects.len()
            invariant
                i <= v.len(),
                v == self.objects@,
                entry_for(v, h) == entry_for(v.subrange(i as int, v.len() as int), h),
            decreases v.len() - i,
        {
            let ghost rest = v.subrange(i as int, v.len() as int);
            assert(rest[0] == v[i as int]);
            if self.objects[i].handle == h {
                return Some(&self.objects[i]);
            }
            assert(rest.drop_first() =~= v.subrange(i + 1, v.len() as int));
            i = i + 1;
        }
        None
    }

    /// The class of the object with the given handle, if it is known
    pub fn class_of(&self, h: ObjectHandle) -> (r: Option<ObjectClass>)
        ensures
            r == class_for(self.objects@, h),
    {
        match self.entry(h) {
            Some(e) => e.class,
            None => None,
        }
    }

    /// The handle of the first object with the given symbol and class
    fn handle_of(&self, name: &str, class: ObjectClass) -> (r: Option<ObjectHandle>)
        ensures
            r == handle_named(self.objects@, name@, class),
    {
        let ghost v = self.objects@;
        let mut i: usize = 0;
        assert(v.subrange(0, v.len() as int) =~= v);
        while i < self.objects.len()
            invariant
                i <= v.len(),
                v == self.objects@,
                handle_named(v, name@, class) == handle_named(
                    v.subrange(i as int, v.len() as int),
                    name@,
                    class,
                ),
            decreases v.len() - i,
        {
            let ghost rest = v.subrange(i as int, v.len() as int);
            assert(rest[0] == v[i as int]);
            let e = &self.objects[i];
            let class_match = match e.class {
                Some(c) => c == class,
                None => false,
            };
            let found = match &e.symbol {
                Some(sym) => class_match && text_eq(sym.as_str(), name),
                None => false,
            };
            if found {
                return Some(e.handle);
            }
            assert(rest.drop_first() =~= v.subrange(i + 1, v.len() as int));
            i = i + 1;
        }
        None
    }

    /// The handle of the task, or else the ISR, named `obj_name`
    pub fn object_handle(&self, obj_name: &str) -> (r: Option<ObjectHandle>)
        ensures
            r == (match handle_named(self.objects@, obj_name@, ObjectClass::Task) {
                Some(h) => Some(h),
                None => handle_named(self.objects@, obj_name@, ObjectClass::Isr),
            }),
    {
        match self.handle_of(obj_name, ObjectClass::Task) {
            Some(h) => Some(h),
            None => self.handle_of(obj_name, ObjectClass::Isr),
        }
    }

    /// The handle of the startup task: the recorder's fixed handle for it
    pub fn startup_task_handle(&self) -> (r: Result<ObjectHandle, Error>)
        ensures
            r == Ok::<ObjectHandle, Error>(NO_TASK_HANDLE),
    {
        Ok(NO_TASK_HANDLE)
    }

    /// Adds the name, description and object handle of a task or ISR timeline
    pub fn add_core_timeline_attributes(
        &self,
        cfg: &PluginConfig,
        handle: ContextHandle,
        attrs: &mut TimelineAttributes,
    ) -> (r: Result<(), Error>)
        requires
            old(attrs).wf(),
        ensures
            final(attrs).wf(),
            core_timeline_outcome(*self, *cfg, handle, av(old(attrs)@), r, av(final(attrs)@)),
    {
        let h = handle.object_handle();
        let entry = self.entry(h);
        let class: Option<ObjectClass> = match entry {
            Some(e) => e.class,
            None => None,
        };
        let sym: Option<String> = match entry {
            Some(e) => match &e.symbol {
                Some(s) => Some(s.clone()),
                None => None,
            },
            None => None,
        };
        let sym = match sym {
            Some(s) => s,
            None => {
                return match handle {
                    ContextHandle::Task(_) => Err(Error::TaskPropertiesLookup(h)),
                    ContextHandle::Isr(_) => Err(Error::IsrPropertiesLookup(h)),
                };
            },
        };
        let name = object_name(sym, class, h);
        proof {
            reveal_strlit(" ");
            reveal_strlit(" '");
            reveal_strlit("'");
            reveal_strlit("(startup)");
        }
        let mut desc = self.kernel_port.clone();
        desc.append(" ");
        desc.append(class_name(class).as_str());
        desc.append(" '");
        desc.append(name.as_str());
        desc.append("'");
        let tl_name = match handle {
            ContextHandle::Task(_) => match &cfg.startup_task_name {
                Some(n) => if text_eq(name.as_str(), "(startup)") {
                    n.clone()
                } else {
                    name
                },
                None => name,
            },
            ContextHandle::Isr(_) => name,
        };
        put_timeline_attr(attrs, TimelineAttrKey::Name, AttrValue::String(tl_name));
        put_timeline_attr(attrs, TimelineAttrKey::Description, AttrValue::String(desc));
        put_timeline_attr(attrs, TimelineAttrKey::ObjectHandle, AttrValue::Integer(h as i64));
        Ok(())
    }
}


/// A lowercase hexadecimal digit
pub open spec fn is_lower_hex(c: char) -> bool {
    ('0' <= c <= '9') || ('a' <= c <= 'f')
}

/// The shape of a UUID in its hyphenated lowercase text form
pub open spec fn uuid_text_shape(t: Seq<char>) -> bool {
    &&& t.len() == 36
    &&& forall|i: int|
        0 <= i < 36 ==> if i == 8 || i == 13 || i == 18 || i == 23 {
            #[trigger] t[i] == '-'
        } else {
            is_lower_hex(t[i])
        }
}

/// `Uuid::new_v4` rendered by `to_string`: a random UUID in its hyphenated lowercase text
/// form. Which UUID comes out is left open (it is random); only the shape of the text is
/// stated.
#[verifier::external_body]
fn random_uuid_text() -> (r: String)
    ensures
        uuid_text_shape(r@),
{
    uuid::Uuid::new_v4().to_string()
}

/// The hyphenated lowercase text of the UUID that a text denotes, when it denotes one
pub uninterp spec fn uuid_canonical(text: Seq<char>) -> Option<Seq<char>>;

/// `Uuid::parse_str` followed by `to_string`: the UUID that the text denotes (in its
/// simple, hyphenated, braced or URN form, hex digits in either case), rendered in its
/// hyphenated lowercase form. The accepted forms are not written out here; the result is
/// named by `uuid_canonical`. What is stated besides: a result has that form, and a text
/// already in that form denotes itself.
#[verifier::external_body]
fn uuid_canonical_text(s: &str) -> (r: Option<String>)
    ensures
        match r {
            Some(t) => uuid_canonical(s@) == Some(t@) && uuid_text_shape(t@),
            None => uuid_canonical(s@) is None,
        },
        uuid_text_shape(s@) ==> r is Some && r->Some_0@ == s@,
{
    match uuid::Uuid::parse_str(s) {
        Ok(u) => Some(u.to_string()),
        Err(_) => None,
    }
}

/// What a configured run ID or time domain becomes: its number when it parses as an
/// unsigned 64-bit integer, else the text of the UUID it denotes (itself when it is
/// already a hyphenated lowercase UUID), else a fresh random UUID text; without one, a
/// fresh random UUID text
pub open spec fn id_attr_ok(id: Option<String>, v: AttrValueView) -> bool {
    let random = v matches AttrValueView::String(t) && uuid_text_shape(t);
    match id {
        None => random,
        Some(s) => match parse_u64_text(s@) {
            Some(n) => v == int_attr(n as int),
            None => if uuid_text_shape(s@) {
                v == AttrValueView::String(s@)
            } else {
                match uuid_canonical(s@) {
                    Some(t) => v == AttrValueView::String(t),
                    None => random,
                }
            },
        },
    }
}

/// The attribute value of a configured run ID or time domain
pub(crate) fn id_attr_value(id: &Option<String>) -> (r: AttrValue)
    ensures
        id_attr_ok(*id, r@),
{
    match id {
        None => AttrValue::String(random_uuid_text()),
        Some(s) => match parse_u64(s.as_str()) {
            Some(n) => AttrValue::from_u64(n),
            None => match uuid_canonical_text(s.as_str()) {
                Some(t) => AttrValue::String(t),
                None => AttrValue::String(random_uuid_text()),
            },
        },
    }
}

/// The first `n` configured attributes set on `m`, each under a custom key
pub open spec fn merged_attrs(
    m: Map<KeyView, AttrValueView>,
    pairs: Seq<(String, AttrValue)>,
    n: nat,
) -> Map<KeyView, AttrValueView>
    decreases n,
{
    if n == 0 {
        m
    } else {
        merged_attrs(m, pairs, (n - 1) as nat).insert(
            TimelineAttrKey::Custom(pairs[n - 1].0).key_view(),
            pairs[n - 1].1@,
        )
    }
}

/// Sets each configured attribute under a custom key, in order
pub fn merge_cfg_attributes(attrs_to_merge: &[(String, AttrValue)], attrs: &mut TimelineAttributes)
    requires
        old(attrs).wf(),
    ensures
        final(attrs).wf(),
        av(final(attrs)@) == merged_attrs(av(old(attrs)@), attrs_to_merge@, attrs_to_merge@.len()),
{
    let mut i: usize = 0;
    while i < attrs_to_merge.len()
        invariant
            i <= attrs_to_merge@.len(),
            attrs.wf(),
            av(attrs@) == merged_attrs(av(old(attrs)@), attrs_to_merge@, i as nat),
        decreases attrs_to_merge@.len() - i,
    {
        let k = TimelineAttrKey::Custom(attrs_to_merge[i].0.clone());
        let v = attrs_to_merge[i].1.duplicate();
        put_timeline_attr(attrs, k, v);
        i = i + 1;
    }
}

/// The timeline attributes every timeline of a recording shares, given the run ID and
/// time domain values
#[verifier::opaque]
pub open spec fn common_attrs(
    rd: RecorderData,
    cfg: TraceRecorderConfig,
    run_id: AttrValueView,
    time_domain: AttrValueView,
) -> Map<KeyView, AttrValueView> {
    let m0 = Map::<KeyView, AttrValueView>::empty();
    let m1 = match resolution_of(rd.timer_frequency) {
        Some(r) => m0.insert(tk(TimelineAttrKey::TimeResolution), AttrValueView::Timestamp(r)),
        None => m0,
    };
    let m2 = m1.insert(tk(TimelineAttrKey::RunId), run_id).insert(
        tk(TimelineAttrKey::TimeDomain),
        time_domain,
    ).insert(tk(TimelineAttrKey::ClockStyle), str_attr("relative"@)).insert(
        tk(TimelineAttrKey::Protocol),
        str_attr(rd.protocol@),
    ).insert(tk(TimelineAttrKey::KernelVersion), str_attr(rd.kernel_version@)).insert(
        tk(TimelineAttrKey::KernelPort),
        str_attr(rd.kernel_port@),
    ).insert(tk(TimelineAttrKey::Endianness), str_attr(rd.endianness.spec_name())).insert(
        tk(TimelineAttrKey::IrqPriorityOrder),
        iattr(rd.irq_priority_order as int),
    ).insert(tk(TimelineAttrKey::Frequency), iattr(rd.timer_frequency as int)).insert(
        tk(TimelineAttrKey::IsrChainingThreshold),
        iattr(rd.isr_tail_chaining_threshold as int),
    ).insert(tk(TimelineAttrKey::PluginVersion), str_attr(PLUGIN_VERSION@)).insert(
        tk(TimelineAttrKey::FormatVersion),
        iattr(rd.format_version as int),
    ).insert(tk(TimelineAttrKey::NumCores), iattr(rd.num_cores as int)).insert(
        tk(TimelineAttrKey::PlatformCfg),
        str_attr(rd.platform_cfg@),
    ).insert(tk(TimelineAttrKey::PlatformCfgVersion), str_attr(rd.platform_cfg_version@)).insert(
        tk(TimelineAttrKey::PlatformCfgVersionMajor),
        iattr(rd.platform_cfg_version_major as int),
    ).insert(
        tk(TimelineAttrKey::PlatformCfgVersionMinor),
        iattr(rd.platform_cfg_version_minor as int),
    ).insert(
        tk(TimelineAttrKey::PlatformCfgVersionPatch),
        iattr(rd.platform_cfg_version_patch as int),
    ).insert(tk(TimelineAttrKey::HeapSize), iattr(rd.heap_max as int)).insert(
        tk(TimelineAttrKey::TimerType),
        str_attr(rd.timer_type@),
    ).insert(tk(TimelineAttrKey::TimerFreq), iattr(rd.timer_frequency as int)).insert(
        tk(TimelineAttrKey::TimerPeriod),
        iattr(rd.timer_period as int),
    ).insert(tk(TimelineAttrKey::TimerWraps), iattr(rd.timer_wraparounds as int)).insert(
        tk(TimelineAttrKey::TickRateHz),
        iattr(rd.os_tick_rate_hz as int),
    ).insert(tk(TimelineAttrKey::TickCount), iattr(rd.os_tick_count as int)).insert(
        tk(TimelineAttrKey::LatestTimestampTicks),
        int_attr(rd.latest_timestamp as int),
    );
    let m3 = match ns_of(rd.timer_frequency, rd.latest_timestamp as int) {
        Some(ns) => m2.insert(tk(TimelineAttrKey::LatestTimestamp), AttrValueView::Timestamp(ns)),
        None => m2,
    };
    let m4 = m3.insert(
        tk(TimelineAttrKey::InteractionMode),
        str_attr(cfg.plugin.interaction_mode.spec_name()),
    );
    let added = cfg.ingest.additional_timeline_attributes@;
    let overridden = cfg.ingest.override_timeline_attributes@;
    merged_attrs(merged_attrs(m4, added, added.len()), overridden, overridden.len())
}

impl RecorderData {
    /// The attributes every timeline of this recording shares, with the given run ID and
    /// time domain values
    pub fn common_timeline_attributes_with(
        &self,
        cfg: &TraceRecorderConfig,
        run_id: AttrValue,
        time_domain: AttrValue,
    ) -> (r: TimelineAttributes)
        requires
            self.timer_frequency != 0 ==> self.latest_timestamp * ONE_SECOND <= u64::MAX,
        ensures
            r.wf(),
            av(r@) == common_attrs(*self, *cfg, run_id@, time_domain@),
    {
        let ghost rid = run_id@;
        let ghost td = time_domain@;
        reveal(common_attrs);
        let mut attrs = TimelineAttributes::new();
        assert(av(attrs@) =~= Map::<KeyView, AttrValueView>::empty());
        if let Some(r) = resolution_ns(self.timer_frequency) {
            put_timeline_attr(&mut attrs, TimelineAttrKey::TimeResolution, AttrValue::Timestamp(r));
        }
        proof {
            reveal_strlit("relative");
        }
        put_timeline_attr(&mut attrs, TimelineAttrKey::RunId, run_id);
        put_timeline_attr(&mut attrs, TimelineAttrKey::TimeDomain, time_domain);
        put_timeline_attr(&mut attrs, TimelineAttrKey::ClockStyle, AttrValue::from_str_slice("relative"));
        put_timeline_attr(&mut attrs, TimelineAttrKey::Protocol, AttrValue::String(self.protocol.clone()));
        put_timeline_attr(
            &mut attrs,
            TimelineAttrKey::KernelVersion,
            AttrValue::String(self.kernel_version.clone()),
        );
        put_timeline_attr(&mut attrs, TimelineAttrKey::KernelPort, AttrValue::String(self.kernel_port.clone()));
        put_timeline_attr(&mut attrs, TimelineAttrKey::Endianness, AttrValue::String(self.endianness.name()));
        put_timeline_attr(
            &mut attrs,
            TimelineAttrKey::IrqPriorityOrder,
            AttrValue::Integer(self.irq_priority_order as i64),
        );
        put_timeline_attr(&mut attrs, TimelineAttrKey::Frequency, AttrValue::Integer(self.timer_frequency as i64));
        put_timeline_attr(
            &mut attrs,
            TimelineAttrKey::IsrChainingThreshold,
            AttrValue::Integer(self.isr_tail_chaining_threshold as i64),
        );
        put_timeline_attr(&mut attrs, TimelineAttrKey::PluginVersion, AttrValue::from_str_slice(PLUGIN_VERSION));
        put_timeline_attr(&mut attrs, TimelineAttrKey::FormatVersion, AttrValue::Integer(self.format_version as i64));
        put_timeline_attr(&mut attrs, TimelineAttrKey::NumCores, AttrValue::Integer(self.num_cores as i64));
        put_timeline_attr(&mut attrs, TimelineAttrKey::PlatformCfg, AttrValue::String(self.platform_cfg.clone()));
        put_timeline_attr(
            &mut attrs,
            TimelineAttrKey::PlatformCfgVersion,
            AttrValue::String(self.platform_cfg_version.clone()),
        );
        put_timeline_attr(
            &mut attrs,
            TimelineAttrKey::PlatformCfgVersionMajor,
            AttrValue::Integer(self.platform_cfg_version_major as i64),
        );
        put_timeline_attr(
            &mut attrs,
            TimelineAttrKey::PlatformCfgVersionMinor,
            AttrValue::Integer(self.platform_cfg_version_minor as i64),
        );
        put_timeline_attr(
            &mut attrs,
            TimelineAttrKey::PlatformCfgVersionPatch,
            AttrValue::Integer(self.platform_cfg_version_patch as i64),
        );
        put_timeline_attr(&mut attrs, TimelineAttrKey::HeapSize, AttrValue::Integer(self.heap_max as i64));
        put_timeline_attr(&mut attrs, TimelineAttrKey::TimerType, AttrValue::String(self.timer_type.clone()));
        put_timeline_attr(&mut attrs, TimelineAttrKey::TimerFreq, AttrValue::Integer(self.timer_frequency as i64));
        put_timeline_attr(&mut attrs, TimelineAttrKey::TimerPeriod, AttrValue::Integer(self.timer_period as i64));
        put_timeline_attr(&mut attrs, TimelineAttrKey::TimerWraps, AttrValue::Integer(self.timer_wraparounds as i64));
        put_timeline_attr(&mut attrs, TimelineAttrKey::TickRateHz, AttrValue::Integer(self.os_tick_rate_hz as i64));
        put_timeline_attr(&mut attrs, TimelineAttrKey::TickCount, AttrValue::Integer(self.os_tick_count as i64));
        put_timeline_attr(
            &mut attrs,
            TimelineAttrKey::LatestTimestampTicks,
            AttrValue::from_u64(self.latest_timestamp),
        );
        if let Some(ns) = convert_timestamp(self.timer_frequency, self.latest_timestamp) {
            put_timeline_attr(&mut attrs, TimelineAttrKey::LatestTimestamp, AttrValue::Timestamp(ns));
        }
        put_timeline_attr(
            &mut attrs,
            TimelineAttrKey::InteractionMode,
            AttrValue::String(cfg.plugin.interaction_mode.name()),
        );
        merge_cfg_attributes(cfg.ingest.additional_timeline_attributes.as_slice(), &mut attrs);
        merge_cfg_attributes(cfg.ingest.override_timeline_attributes.as_slice(), &mut attrs);
        attrs
    }

    /// The attributes every timeline of this recording shares. The run ID and time domain
    /// are the configured numbers or UUIDs, or fresh random UUIDs where none is configured
    /// or the configured text is neither.
    pub fn common_timeline_attributes(&self, cfg: &TraceRecorderConfig) -> (r: TimelineAttributes)
        requires
            self.timer_frequency != 0 ==> self.latest_timestamp * ONE_SECOND <= u64::MAX,
        ensures
            r.wf(),
            exists|run_id: AttrValueView, time_domain: AttrValueView|
                #![trigger common_attrs(*self, *cfg, run_id, time_domain)]
                id_attr_ok(cfg.plugin.run_id, run_id) && id_attr_ok(cfg.plugin.time_domain, time_domain)
                    && av(r@) == common_attrs(*self, *cfg, run_id, time_domain),
    {
        let run_id = id_attr_value(&cfg.plugin.run_id);
        let time_domain = id_attr_value(&cfg.plugin.time_domain);
        let ghost (a, b) = (run_id@, time_domain@);
        let r = self.common_timeline_attributes_with(cfg, run_id, time_domain);
        assert(id_attr_ok(cfg.plugin.run_id, a) && id_attr_ok(cfg.plugin.time_domain, b)
            && av(r@) == common_attrs(*self, *cfg, a, b));
        r
    }
}

/// A memory event's attributes give its address, size and the heap's current usage, high
/// water mark and maximum, each from the field of the same meaning
pub proof fn lemma_memory_event_attributes(
    cfg: PluginConfig,
    freq: u32,
    code: u16,
    kind: EventKind,
    before: Map<KeyView, AttrValueView>,
    r: Result<(), Error>,
    after: Map<KeyView, AttrValueView>,
)
    requires
        kind is MemoryAlloc || kind is MemoryFree,
        core_event_outcome(cfg, freq, code, kind, before, r, after),
    ensures
        ({
            let ev = match kind {
                EventKind::MemoryAlloc(e) => e,
                EventKind::MemoryFree(e) => e,
                _ => arbitrary(),
            };
            &&& r is Ok
            &&& after.contains_key(ek(EventAttrKey::MemoryAddress))
            &&& after[ek(EventAttrKey::MemoryAddress)] == AttrValueView::Integer(ev.address as i64)
            &&& after.contains_key(ek(EventAttrKey::MemorySize))
            &&& after[ek(EventAttrKey::MemorySize)] == AttrValueView::Integer(ev.size as i64)
            &&& after.contains_key(ek(EventAttrKey::MemoryHeapCurrent))
            &&& after[ek(EventAttrKey::MemoryHeapCurrent)] == AttrValueView::Integer(ev.heap_current as i64)
            &&& after.contains_key(ek(EventAttrKey::MemoryHeapHighMark))
            &&& after[ek(EventAttrKey::MemoryHeapHighMark)] == AttrValueView::Integer(
                ev.heap_high_water_mark as i64,
            )
            &&& after.contains_key(ek(EventAttrKey::MemoryHeapMax))
            &&& after[ek(EventAttrKey::MemoryHeapMax)] == AttrValueView::Integer(ev.heap_max as i64)
        }),
{
}

/// The attribute under `k` is the integer `i`
pub open spec fn has_int(m: Map<KeyView, AttrValueView>, k: EventAttrKey, i: int) -> bool {
    m.contains_key(k.key_view()) && m[k.key_view()] == AttrValueView::Integer(i as i64)
}

/// The attribute under `k` is the text `t`
pub open spec fn has_text(m: Map<KeyView, AttrValueView>, k: EventAttrKey, t: Seq<char>) -> bool {
    m.contains_key(k.key_view()) && m[k.key_view()] == AttrValueView::String(t)
}

/// The attribute under `k` is the text of `name` when there is one
pub open spec fn opt_text(m: Map<KeyView, AttrValueView>, k: EventAttrKey, name: Option<String>) -> bool {
    name matches Some(n) ==> has_text(m, k, n@)
}

/// The ticks to wait, when given, are recorded, and in nanoseconds when the frequency
/// is known
pub open spec fn wait_ticks(m: Map<KeyView, AttrValueView>, freq: u32, ticks: Option<u32>) -> bool {
    ticks matches Some(t) ==> {
        &&& has_int(m, EventAttrKey::TicksToWait, t as int)
        &&& freq != 0 ==> m.contains_key(ek(EventAttrKey::NanosToWait)) && m[ek(
            EventAttrKey::NanosToWait,
        )] == AttrValueView::Timestamp(((t * 1_000_000_000) / (freq as int)) as u64)
    }
}

/// Every event other than a user event is named by its type, and records its code, its
/// ID (the lower 12 bits of the code) and its parameter count (the upper 4 bits)
pub proof fn lemma_event_code_attributes(
    cfg: PluginConfig,
    freq: u32,
    code: u16,
    kind: EventKind,
    before: Map<KeyView, AttrValueView>,
    r: Result<(), Error>,
    after: Map<KeyView, AttrValueView>,
)
    requires
        !(kind is User),
        core_event_outcome(cfg, freq, code, kind, before, r, after),
    ensures
        r is Ok,
        has_int(after, EventAttrKey::EventCode, code as int),
        has_int(after, EventAttrKey::EventId, (code % 4096) as int),
        has_int(after, EventAttrKey::ParameterCount, (code / 4096) as int),
        has_text(after, EventAttrKey::EventType, event_type_text((code % 4096) as u16)),
        has_text(after, EventAttrKey::Name, event_type_text((code % 4096) as u16)),
{
}

/// A trace start event names the task running at the start and its handle
pub proof fn lemma_trace_start_attributes(
    cfg: PluginConfig,
    freq: u32,
    code: u16,
    kind: EventKind,
    before: Map<KeyView, AttrValueView>,
    r: Result<(), Error>,
    after: Map<KeyView, AttrValueView>,
)
    requires
        kind is TraceStart,
        core_event_outcome(cfg, freq, code, kind, before, r, after),
    ensures
        ({
            let e: TraceStartEvent = match kind {
                EventKind::TraceStart(x) => x,
                _ => arbitrary(),
            };
            &&& r is Ok
            &&& has_int(after, EventAttrKey::ObjectHandle, e.current_task_handle as int)
            &&& has_text(after, EventAttrKey::TaskName, e.current_task@)
        }),
{
}

/// A task event names the task, its priority and its handle
pub proof fn lemma_task_event_attributes(
    cfg: PluginConfig,
    freq: u32,
    code: u16,
    kind: EventKind,
    before: Map<KeyView, AttrValueView>,
    r: Result<(), Error>,
    after: Map<KeyView, AttrValueView>,
)
    requires
        kind is TaskBegin || kind is TaskReady || kind is TaskResume || kind is TaskCreate || kind is TaskActivate || kind is TaskPriority || kind is TaskPriorityInherit || kind is TaskPriorityDisinherit,
        core_event_outcome(cfg, freq, code, kind, before, r, after),
    ensures
        ({
            let e: TaskEvent = match kind {
                EventKind::TaskBegin(x) => x,
                EventKind::TaskReady(x) => x,
                EventKind::TaskResume(x) => x,
                EventKind::TaskCreate(x) => x,
                EventKind::TaskActivate(x) => x,
                EventKind::TaskPriority(x) => x,
                EventKind::TaskPriorityInherit(x) => x,
                EventKind::TaskPriorityDisinherit(x) => x,
                _ => arbitrary(),
            };
            &&& r is Ok
            &&& has_text(after, EventAttrKey::TaskName, e.name@)
            &&& has_int(after, EventAttrKey::TaskPriority, e.priority as int)
            &&& has_int(after, EventAttrKey::ObjectHandle, e.handle as int)
        }),
{
}

/// An ISR event names the ISR, its priority and its handle
pub proof fn lemma_isr_event_attributes(
    cfg: PluginConfig,
    freq: u32,
    code: u16,
    kind: EventKind,
    before: Map<KeyView, AttrValueView>,
    r: Result<(), Error>,
    after: Map<KeyView, AttrValueView>,
)
    requires
        kind is IsrBegin || kind is IsrResume || kind is IsrDefine,
        core_event_outcome(cfg, freq, code, kind, before, r, after),
    ensures
        ({
            let e: IsrEvent = match kind {
                EventKind::IsrBegin(x) => x,
                EventKind::IsrResume(x) => x,
                EventKind::IsrDefine(x) => x,
                _ => arbitrary(),
            };
            &&& r is Ok
            &&& has_text(after, EventAttrKey::IsrName, e.name@)
            &&& has_int(after, EventAttrKey::IsrPriority, e.priority as int)
            &&& has_int(after, EventAttrKey::ObjectHandle, e.handle as int)
        }),
{
}

/// A task notification names the task when known, its handle and the ticks to wait when given
pub proof fn lemma_task_notify_attributes(
    cfg: PluginConfig,
    freq: u32,
    code: u16,
    kind: EventKind,
    before: Map<KeyView, AttrValueView>,
    r: Result<(), Error>,
    after: Map<KeyView, AttrValueView>,
)
    requires
        kind is TaskNotify || kind is TaskNotifyFromIsr || kind is TaskNotifyWait || kind is TaskNotifyWaitBlock,
        core_event_outcome(cfg, freq, code, kind, before, r, after),
    ensures
        ({
            let e: TaskNotifyEvent = match kind {
                EventKind::TaskNotify(x) => x,
                EventKind::TaskNotifyFromIsr(x) => x,
                EventKind::TaskNotifyWait(x) => x,
                EventKind::TaskNotifyWaitBlock(x) => x,
                _ => arbitrary(),
            };
            &&& r is Ok
            &&& has_int(after, EventAttrKey::ObjectHandle, e.handle as int)
            &&& opt_text(after, EventAttrKey::TaskName, e.task_name)
            &&& wait_ticks(after, freq, e.ticks_to_wait)
        }),
{
}

/// An unused stack event names the task, its handle and the stack's low mark
pub proof fn lemma_unused_stack_attributes(
    cfg: PluginConfig,
    freq: u32,
    code: u16,
    kind: EventKind,
    before: Map<KeyView, AttrValueView>,
    r: Result<(), Error>,
    after: Map<KeyView, AttrValueView>,
)
    requires
        kind is UnusedStack,
        core_event_outcome(cfg, freq, code, kind, before, r, after),
    ensures
        ({
            let e: UnusedStackEvent = match kind {
                EventKind::UnusedStack(x) => x,
                _ => arbitrary(),
            };
            &&& r is Ok
            &&& has_text(after, EventAttrKey::TaskName, e.task@)
            &&& has_int(after, EventAttrKey::ObjectHandle, e.handle as int)
            &&& has_int(after, EventAttrKey::StackLowMark, e.low_mark as int)
        }),
{
}

/// A queue creation names the queue when known, its handle and its length
pub proof fn lemma_queue_create_attributes(
    cfg: PluginConfig,
    freq: u32,
    code: u16,
    kind: EventKind,
    before: Map<KeyView, AttrValueView>,
    r: Result<(), Error>,
    after: Map<KeyView, AttrValueView>,
)
    requires
        kind is QueueCreate,
        core_event_outcome(cfg, freq, code, kind, before, r, after),
    ensures
        ({
            let e: QueueCreateEvent = match kind {
                EventKind::QueueCreate(x) => x,
                _ => arbitrary(),
            };
            &&& r is Ok
            &&& opt_text(after, EventAttrKey::QueueName, e.name)
            &&& has_int(after, EventAttrKey::ObjectHandle, e.handle as int)
            &&& has_int(after, EventAttrKey::QueueLength, e.queue_length as int)
        }),
{
}

/// A queue event names the queue when known, its handle, the messages waiting and the ticks to wait when given
pub proof fn lemma_queue_event_attributes(
    cfg: PluginConfig,
    freq: u32,
    code: u16,
    kind: EventKind,
    before: Map<KeyView, AttrValueView>,
    r: Result<(), Error>,
    after: Map<KeyView, AttrValueView>,
)
    requires
        kind is QueueSend || kind is QueueSendBlock || kind is QueueSendFromIsr || kind is QueueReceive || kind is QueueReceiveBlock || kind is QueueReceiveFromIsr || kind is QueuePeek || kind is QueuePeekBlock || kind is QueueSendFront || kind is QueueSendFrontBlock || kind is QueueSendFrontFromIsr,
        core_event_outcome(cfg, freq, code, kind, before, r, after),
    ensures
        ({
            let e: QueueEvent = match kind {
                EventKind::QueueSend(x) => x,
                EventKind::QueueSendBlock(x) => x,
                EventKind::QueueSendFromIsr(x) => x,
                EventKind::QueueReceive(x) => x,
                EventKind::QueueReceiveBlock(x) => x,
                EventKind::QueueReceiveFromIsr(x) => x,
                EventKind::QueuePeek(x) => x,
                EventKind::QueuePeekBlock(x) => x,
                EventKind::QueueSendFront(x) => x,
                EventKind::QueueSendFrontBlock(x) => x,
                EventKind::QueueSendFrontFromIsr(x) => x,
                _ => arbitrary(),
            };
            &&& r is Ok
            &&& opt_text(after, EventAttrKey::QueueName, e.name)
            &&& has_int(after, EventAttrKey::ObjectHandle, e.handle as int)
            &&& has_int(after, EventAttrKey::QueueMessagesWaiting, e.messages_waiting as int)
            &&& wait_ticks(after, freq, e.ticks_to_wait)
        }),
{
}

/// A mutex creation names the mutex when known and its handle
pub proof fn lemma_mutex_create_attributes(
    cfg: PluginConfig,
    freq: u32,
    code: u16,
    kind: EventKind,
    before: Map<KeyView, AttrValueView>,
    r: Result<(), Error>,
    after: Map<KeyView, AttrValueView>,
)
    requires
        kind is MutexCreate,
        core_event_outcome(cfg, freq, code, kind, before, r, after),
    ensures
        ({
            let e: MutexCreateEvent = match kind {
                EventKind::MutexCreate(x) => x,
                _ => arbitrary(),
            };
            &&& r is Ok
            &&& opt_text(after, EventAttrKey::MutexName, e.name)
            &&& has_int(after, EventAttrKey::ObjectHandle, e.handle as int)
        }),
{
}

/// A mutex event names the mutex when known, its handle and the ticks to wait when given
pub proof fn lemma_mutex_event_attributes(
    cfg: PluginConfig,
    freq: u32,
    code: u16,
    kind: EventKind,
    before: Map<KeyView, AttrValueView>,
    r: Result<(), Error>,
    after: Map<KeyView, AttrValueView>,
)
    requires
        kind is MutexGive || kind is MutexGiveBlock || kind is MutexGiveRecursive || kind is MutexTake || kind is MutexTakeBlock || kind is MutexTakeRecursive || kind is MutexTakeRecursiveBlock,
        core_event_outcome(cfg, freq, code, kind, before, r, after),
    ensures
        ({
            let e: MutexEvent = match kind {
                EventKind::MutexGive(x) => x,
                EventKind::MutexGiveBlock(x) => x,
                EventKind::MutexGiveRecursive(x) => x,
                EventKind::MutexTake(x) => x,
                EventKind::MutexTakeBlock(x) => x,
                EventKind::MutexTakeRecursive(x) => x,
                EventKind::MutexTakeRecursiveBlock(x) => x,
                _ => arbitrary(),
            };
            &&& r is Ok
            &&& opt_text(after, EventAttrKey::MutexName, e.name)
            &&& has_int(after, EventAttrKey::ObjectHandle, e.handle as int)
            &&& wait_ticks(after, freq, e.ticks_to_wait)
        }),
{
}

/// A semaphore creation names the semaphore when known, its handle and its count when given
pub proof fn lemma_semaphore_create_attributes(
    cfg: PluginConfig,
    freq: u32,
    code: u16,
    kind: EventKind,
    before: Map<KeyView, AttrValueView>,
    r: Result<(), Error>,
    after: Map<KeyView, AttrValueView>,
)
    requires
        kind is SemaphoreBinaryCreate || kind is SemaphoreCountingCreate,
        core_event_outcome(cfg, freq, code, kind, before, r, after),
    ensures
        ({
            let e: SemaphoreCreateEvent = match kind {
                EventKind::SemaphoreBinaryCreate(x) => x,
                EventKind::SemaphoreCountingCreate(x) => x,
                _ => arbitrary(),
            };
            &&& r is Ok
            &&& opt_text(after, EventAttrKey::SemaphoreName, e.name)
            &&& has_int(after, EventAttrKey::ObjectHandle, e.handle as int)
            &&& (e.count matches Some(c) ==> has_int(after, EventAttrKey::SemaphoreCount, c as int))
        }),
{
}

/// A semaphore event names the semaphore when known, its handle, its count and the ticks to wait when given
pub proof fn lemma_semaphore_event_attributes(
    cfg: PluginConfig,
    freq: u32,
    code: u16,
    kind: EventKind,
    before: Map<KeyView, AttrValueView>,
    r: Result<(), Error>,
    after: Map<KeyView, AttrValueView>,
)
    requires
        kind is SemaphoreGive || kind is SemaphoreGiveBlock || kind is SemaphoreGiveFromIsr || kind is SemaphoreTake || kind is SemaphoreTakeBlock || kind is SemaphoreTakeFromIsr || kind is SemaphorePeek || kind is SemaphorePeekBlock,
        core_event_outcome(cfg, freq, code, kind, before, r, after),
    ensures
        ({
            let e: SemaphoreEvent = match kind {
                EventKind::SemaphoreGive(x) => x,
                EventKind::SemaphoreGiveBlock(x) => x,
                EventKind::SemaphoreGiveFromIsr(x) => x,
                EventKind::SemaphoreTake(x) => x,
                EventKind::SemaphoreTakeBlock(x) => x,
                EventKind::SemaphoreTakeFromIsr(x) => x,
                EventKind::SemaphorePeek(x) => x,
                EventKind::SemaphorePeekBlock(x) => x,
                _ => arbitrary(),
            };
            &&& r is Ok
            &&& opt_text(after, EventAttrKey::SemaphoreName, e.name)
            &&& has_int(after, EventAttrKey::ObjectHandle, e.handle as int)
            &&& has_int(after, EventAttrKey::SemaphoreCount, e.count as int)
            &&& wait_ticks(after, freq, e.ticks_to_wait)
        }),
{
}

/// An event group creation names the group when known, its handle and its bits
pub proof fn lemma_event_group_create_attributes(
    cfg: PluginConfig,
    freq: u32,
    code: u16,
    kind: EventKind,
    before: Map<KeyView, AttrValueView>,
    r: Result<(), Error>,
    after: Map<KeyView, AttrValueView>,
)
    requires
        kind is EventGroupCreate,
        core_event_outcome(cfg, freq, code, kind, before, r, after),
    ensures
        ({
            let e: EventGroupCreateEvent = match kind {
                EventKind::EventGroupCreate(x) => x,
                _ => arbitrary(),
            };
            &&& r is Ok
            &&& opt_text(after, EventAttrKey::EventGroupName, e.name)
            &&& has_int(after, EventAttrKey::ObjectHandle, e.handle as int)
            &&& has_int(after, EventAttrKey::EventGroupBits, e.event_bits as int)
        }),
{
}

/// An event group event names the group when known, its handle and its bits
pub proof fn lemma_event_group_event_attributes(
    cfg: PluginConfig,
    freq: u32,
    code: u16,
    kind: EventKind,
    before: Map<KeyView, AttrValueView>,
    r: Result<(), Error>,
    after: Map<KeyView, AttrValueView>,
)
    requires
        kind is EventGroupSync || kind is EventGroupWaitBits || kind is EventGroupClearBits || kind is EventGroupClearBitsFromIsr || kind is EventGroupSetBits || kind is EventGroupSetBitsFromIsr || kind is EventGroupSyncBlock || kind is EventGroupWaitBitsBlock,
        core_event_outcome(cfg, freq, code, kind, before, r, after),
    ensures
        ({
            let e: EventGroupEvent = match kind {
                EventKind::EventGroupSync(x) => x,
                EventKind::EventGroupWaitBits(x) => x,
                EventKind::EventGroupClearBits(x) => x,
                EventKind::EventGroupClearBitsFromIsr(x) => x,
                EventKind::EventGroupSetBits(x) => x,
                EventKind::EventGroupSetBitsFromIsr(x) => x,
                EventKind::EventGroupSyncBlock(x) => x,
                EventKind::EventGroupWaitBitsBlock(x) => x,
                _ => arbitrary(),
            };
            &&& r is Ok
            &&& opt_text(after, EventAttrKey::EventGroupName, e.name)
            &&& has_int(after, EventAttrKey::ObjectHandle, e.handle as int)
            &&& has_int(after, EventAttrKey::EventGroupBits, e.bits as int)
        }),
{
}

/// A message buffer creation names the buffer when known, its handle and its size
pub proof fn lemma_message_buffer_create_attributes(
    cfg: PluginConfig,
    freq: u32,
    code: u16,
    kind: EventKind,
    before: Map<KeyView, AttrValueView>,
    r: Result<(), Error>,
    after: Map<KeyView, AttrValueView>,
)
    requires
        kind is MessageBufferCreate,
        core_event_outcome(cfg, freq, code, kind, before, r, after),
    ensures
        ({
            let e: MessageBufferCreateEvent = match kind {
                EventKind::MessageBufferCreate(x) => x,
                _ => arbitrary(),
            };
            &&& r is Ok
            &&& opt_text(after, EventAttrKey::MessageBufferName, e.name)
            &&& has_int(after, EventAttrKey::ObjectHandle, e.handle as int)
            &&& has_int(after, EventAttrKey::MessageBufferSize, e.buffer_size as int)
        }),
{
}

/// A message buffer event names the buffer when known, its handle and the bytes in it
pub proof fn lemma_message_buffer_event_attributes(
    cfg: PluginConfig,
    freq: u32,
    code: u16,
    kind: EventKind,
    before: Map<KeyView, AttrValueView>,
    r: Result<(), Error>,
    after: Map<KeyView, AttrValueView>,
)
    requires
        kind is MessageBufferSend || kind is MessageBufferSendFromIsr || kind is MessageBufferReceive || kind is MessageBufferReceiveFromIsr || kind is MessageBufferReset,
        core_event_outcome(cfg, freq, code, kind, before, r, after),
    ensures
        ({
            let e: MessageBufferEvent = match kind {
                EventKind::MessageBufferSend(x) => x,
                EventKind::MessageBufferSendFromIsr(x) => x,
                EventKind::MessageBufferReceive(x) => x,
                EventKind::MessageBufferReceiveFromIsr(x) => x,
                EventKind::MessageBufferReset(x) => x,
                _ => arbitrary(),
            };
            &&& r is Ok
            &&& opt_text(after, EventAttrKey::MessageBufferName, e.name)
            &&& has_int(after, EventAttrKey::ObjectHandle, e.handle as int)
            &&& has_int(after, EventAttrKey::MessageBufferBytesInBuffer, e.bytes_in_buffer as int)
        }),
{
}

/// A blocking message buffer event names the buffer when known and its handle
pub proof fn lemma_message_buffer_block_attributes(
    cfg: PluginConfig,
    freq: u32,
    code: u16,
    kind: EventKind,
    before: Map<KeyView, AttrValueView>,
    r: Result<(), Error>,
    after: Map<KeyView, AttrValueView>,
)
    requires
        kind is MessageBufferSendBlock || kind is MessageBufferReceiveBlock,
        core_event_outcome(cfg, freq, code, kind, before, r, after),
    ensures
        ({
            let e: MessageBufferBlockEvent = match kind {
                EventKind::MessageBufferSendBlock(x) => x,
                EventKind::MessageBufferReceiveBlock(x) => x,
                _ => arbitrary(),
            };
            &&& r is Ok
            &&& opt_text(after, EventAttrKey::MessageBufferName, e.name)
            &&& has_int(after, EventAttrKey::ObjectHandle, e.handle as int)
        }),
{
}

/// A state machine creation names the machine and its handle
pub proof fn lemma_state_machine_create_attributes(
    cfg: PluginConfig,
    freq: u32,
    code: u16,
    kind: EventKind,
    before: Map<KeyView, AttrValueView>,
    r: Result<(), Error>,
    after: Map<KeyView, AttrValueView>,
)
    requires
        kind is StateMachineCreate,
        core_event_outcome(cfg, freq, code, kind, before, r, after),
    ensures
        ({
            let e: StateMachineCreateEvent = match kind {
                EventKind::StateMachineCreate(x) => x,
                _ => arbitrary(),
            };
            &&& r is Ok
            &&& has_text(after, EventAttrKey::StateMachineName, e.name@)
            &&& has_int(after, EventAttrKey::ObjectHandle, e.handle as int)
        }),
{
}

/// A state machine state event names the machine, its handle, the state and the state's handle
pub proof fn lemma_state_machine_state_attributes(
    cfg: PluginConfig,
    freq: u32,
    code: u16,
    kind: EventKind,
    before: Map<KeyView, AttrValueView>,
    r: Result<(), Error>,
    after: Map<KeyView, AttrValueView>,
)
    requires
        kind is StateMachineStateCreate || kind is StateMachineStateChange,
        core_event_outcome(cfg, freq, code, kind, before, r, after),
    ensures
        ({
            let e: StateMachineStateEvent = match kind {
                EventKind::StateMachineStateCreate(x) => x,
                EventKind::StateMachineStateChange(x) => x,
                _ => arbitrary(),
            };
            &&& r is Ok
            &&& has_text(after, EventAttrKey::StateMachineName, e.name@)
            &&& has_int(after, EventAttrKey::ObjectHandle, e.handle as int)
            &&& has_text(after, EventAttrKey::StateMachineState, e.state@)
            &&& has_int(after, EventAttrKey::StateMachineStateHandle, e.state_handle as int)
        }),
{
}


proof fn lemma_default_arg_tag(i: int)
    requires
        0 <= i < 15,
    ensures
        ek(default_arg_key(i)) == (49 + i, Seq::<char>::empty()),
{
}

proof fn lemma_with_args_keeps(
    m: Map<KeyView, AttrValueView>,
    args: Seq<Argument>,
    custom: Option<Seq<Seq<char>>>,
    n: nat,
    k: KeyView,
)
    requires
        custom is None ==> n <= 15,
        k.0 < 49 || (k.0 > 63 && k.0 != 73),
    ensures
        with_args(m, args, custom, n).contains_key(k) == m.contains_key(k),
        with_args(m, args, custom, n)[k] == m[k],
    decreases n,
{
    if n > 0 {
        lemma_with_args_keeps(m, args, custom, (n - 1) as nat, k);
        if custom is None {
            lemma_default_arg_tag(n - 1);
        }
    }
}

proof fn lemma_with_args_default(m: Map<KeyView, AttrValueView>, args: Seq<Argument>, n: nat, i: int)
    requires
        n <= 15,
        0 <= i < n,
    ensures
        with_args(m, args, None, n).contains_key((49 + i, Seq::<char>::empty())),
        with_args(m, args, None, n)[(49 + i, Seq::<char>::empty())] == arg_attr(args[i]),
    decreases n,
{
    lemma_default_arg_tag(n - 1);
    if i < n - 1 {
        lemma_with_args_default(m, args, (n - 1) as nat, i);
    }
}

proof fn lemma_with_args_custom(
    m: Map<KeyView, AttrValueView>,
    args: Seq<Argument>,
    keys: Seq<Seq<char>>,
    n: nat,
    i: int,
)
    requires
        n <= keys.len(),
        0 <= i < n,
        forall|j: int| i < j < n ==> keys[j] != keys[i],
    ensures
        with_args(m, args, Some(keys), n).contains_key((73, keys[i])),
        with_args(m, args, Some(keys), n)[(73, keys[i])] == arg_attr(args[i]),
    decreases n,
{
    if i < n - 1 {
        lemma_with_args_custom(m, args, keys, (n - 1) as nat, i);
    }
}

/// The argument `i` of a user event is recorded under the default key `k` when there
/// are more than `i` arguments
pub open spec fn has_default_arg(
    m: Map<KeyView, AttrValueView>,
    args: Seq<Argument>,
    k: EventAttrKey,
    i: int,
) -> bool {
    i < args.len() ==> m.contains_key(ek(k)) && m[ek(k)] == arg_attr(args[i])
}

/// A user event records its channel and formatted string, and is named, in decreasing
/// precedence: by the rename of its formatted string, by the rename of its channel, as a
/// recorder warning when it comes on the `#WFR` channel, by its channel or by its
/// formatted string when so configured, else by its event type.
pub proof fn lemma_user_event_name(
    cfg: PluginConfig,
    freq: u32,
    code: u16,
    ev: UserEvent,
    before: Map<KeyView, AttrValueView>,
    r: Result<(), Error>,
    after: Map<KeyView, AttrValueView>,
)
    requires
        core_event_outcome(cfg, freq, code, EventKind::User(ev), before, r, after),
    ensures
        has_text(after, EventAttrKey::UserChannel, ev.channel@),
        has_text(after, EventAttrKey::UserFormattedString, ev.formatted_string@),
        has_int(after, EventAttrKey::EventCode, code as int),
        has_int(after, EventAttrKey::EventId, (code % 4096) as int),
        has_int(after, EventAttrKey::ParameterCount, (code / 4096) as int),
        has_text(after, EventAttrKey::EventType, event_type_text((code % 4096) as u16)),
        ({
            let fs_rename = first_rename(cfg.user_event_formatted_string_rename_map@, ev.formatted_string@);
            let ch_rename = first_rename(cfg.user_event_channel_rename_map@, ev.channel@);
            &&& fs_rename matches Some(n) ==> has_text(after, EventAttrKey::Name, n)
            &&& fs_rename is None ==> (ch_rename matches Some(n) ==> has_text(after, EventAttrKey::Name, n))
            &&& fs_rename is None && ch_rename is None && ev.channel@ == "#WFR"@ ==> has_text(
                after,
                EventAttrKey::Name,
                "WARNING_FROM_RECORDER"@,
            )
            &&& fs_rename is None && ch_rename is None && ev.channel@ != "#WFR"@
                && cfg.user_event_channel ==> has_text(after, EventAttrKey::Name, ev.channel@)
            &&& fs_rename is None && ch_rename is None && ev.channel@ != "#WFR"@
                && !cfg.user_event_channel && cfg.user_event_format_string ==> has_text(
                after,
                EventAttrKey::Name,
                ev.formatted_string@,
            )
            &&& fs_rename is None && ch_rename is None && ev.channel@ != "#WFR"@
                && !cfg.user_event_channel && !cfg.user_event_format_string ==> has_text(
                after,
                EventAttrKey::Name,
                event_type_text((code % 4096) as u16),
            )
        }),
{
    let m = user_text_attrs(code_attrs(before, code), cfg, ev);
    let args = ev.args@;
    let custom = custom_arg_keys(cfg, ev);
    let n: nat = match custom {
        Some(keys) => if keys.len() != args.len() { 0 } else { args.len() },
        None => if args.len() > MAX_DEFAULT_USER_ARGS { 15 } else { args.len() },
    };
    assert(after == with_args(m, args, custom, n));
    lemma_with_args_keeps(m, args, custom, n, ek(EventAttrKey::UserChannel));
    lemma_with_args_keeps(m, args, custom, n, ek(EventAttrKey::UserFormattedString));
    lemma_with_args_keeps(m, args, custom, n, ek(EventAttrKey::EventCode));
    lemma_with_args_keeps(m, args, custom, n, ek(EventAttrKey::EventId));
    lemma_with_args_keeps(m, args, custom, n, ek(EventAttrKey::ParameterCount));
    lemma_with_args_keeps(m, args, custom, n, ek(EventAttrKey::EventType));
    lemma_with_args_keeps(m, args, custom, n, ek(EventAttrKey::Name));
    assert(warning_channel() == "#WFR"@);
}

/// A user event's arguments are recorded in order. With custom keys configured for its
/// channel and format string, it succeeds exactly when there is one key per argument,
/// and each argument is recorded under its key (the last of arguments sharing a key
/// wins); a count mismatch records no argument. Without, at most fifteen arguments are
/// recorded under `event.arg0` to `event.arg14`, and more is an error.
pub proof fn lemma_user_event_args(
    cfg: PluginConfig,
    freq: u32,
    code: u16,
    ev: UserEvent,
    before: Map<KeyView, AttrValueView>,
    r: Result<(), Error>,
    after: Map<KeyView, AttrValueView>,
)
    requires
        core_event_outcome(cfg, freq, code, EventKind::User(ev), before, r, after),
    ensures
        custom_arg_keys(cfg, ev) matches Some(keys) ==> ((r is Ok) == (keys.len() == ev.args@.len())),
        custom_arg_keys(cfg, ev) matches Some(keys) ==> (keys.len() != ev.args@.len() ==> (r matches Err(
            Error::FmtArgAttrKeysCountMismatch(f, _),
        ) && f@ == ev.format_string@)),
        custom_arg_keys(cfg, ev) matches Some(keys) ==> (keys.len() == ev.args@.len() ==> forall|
            i: int,
            s: String,
        |
            0 <= i < keys.len() && #[trigger] keys[i] == s@ && (forall|j: int|
                i < j < keys.len() ==> keys[j] != keys[i]) ==> after.contains_key(
                #[trigger] ek(EventAttrKey::CustomUserArg(s)),
            ) && after[ek(EventAttrKey::CustomUserArg(s))] == arg_attr(ev.args@[i])),
        custom_arg_keys(cfg, ev) is None ==> ((r is Ok) == (ev.args@.len() <= 15)),
        custom_arg_keys(cfg, ev) is None && ev.args@.len() > 15 ==> r == Err::<(), Error>(
            Error::ExceededMaxUserEventArgs,
        ),
        custom_arg_keys(cfg, ev) is None ==> {
            let (a, m) = (ev.args@, after);
            &&& has_default_arg(m, a, EventAttrKey::UserArg0, 0)
            &&& has_default_arg(m, a, EventAttrKey::UserArg1, 1)
            &&& has_default_arg(m, a, EventAttrKey::UserArg2, 2)
            &&& has_default_arg(m, a, EventAttrKey::UserArg3, 3)
            &&& has_default_arg(m, a, EventAttrKey::UserArg4, 4)
            &&& has_default_arg(m, a, EventAttrKey::UserArg5, 5)
            &&& has_default_arg(m, a, EventAttrKey::UserArg6, 6)
            &&& has_default_arg(m, a, EventAttrKey::UserArg7, 7)
            &&& has_default_arg(m, a, EventAttrKey::UserArg8, 8)
            &&& has_default_arg(m, a, EventAttrKey::UserArg9, 9)
            &&& has_default_arg(m, a, EventAttrKey::UserArg10, 10)
            &&& has_default_arg(m, a, EventAttrKey::UserArg11, 11)
            &&& has_default_arg(m, a, EventAttrKey::UserArg12, 12)
            &&& has_default_arg(m, a, EventAttrKey::UserArg13, 13)
            &&& has_default_arg(m, a, EventAttrKey::UserArg14, 14)
        },
{
    let m = user_text_attrs(code_attrs(before, code), cfg, ev);
    let args = ev.args@;
    match custom_arg_keys(cfg, ev) {
        Some(keys) => {
            if keys.len() == args.len() {
                assert forall|i: int, s: String|
                    0 <= i < keys.len() && #[trigger] keys[i] == s@ && (forall|j: int|
                        i < j < keys.len() ==> keys[j] != keys[i]) implies after.contains_key(
                    #[trigger] ek(EventAttrKey::CustomUserArg(s)),
                ) && after[ek(EventAttrKey::CustomUserArg(s))] == arg_attr(args[i]) by {
                    lemma_with_args_custom(m, args, keys, args.len(), i);
                    assert(ek(EventAttrKey::CustomUserArg(s)) == (73int, keys[i]));
                }
            }
        },
        None => {
            let n: nat = if args.len() > 15 { 15 } else { args.len() };
            assert forall|i: int| 0 <= i < n implies with_args(m, args, None, n).contains_key(
                (49 + i, Seq::<char>::empty()),
            ) && with_args(m, args, None, n)[(49 + i, Seq::<char>::empty())] == arg_attr(args[i]) by {
                lemma_with_args_default(m, args, n, i);
            }
            assert(ek(EventAttrKey::UserArg0) == (49int, Seq::<char>::empty()));
        },
    }
}


/// The timeline attribute under `k` is `v`
pub open spec fn has_tl(m: Map<KeyView, AttrValueView>, k: TimelineAttrKey, v: AttrValueView) -> bool {
    m.contains_key(tk(k)) && m[tk(k)] == v
}

/// No configured pair after position `i` has the key of pair `i`
pub open spec fn last_for_key(pairs: Seq<(String, AttrValue)>, i: int) -> bool {
    forall|j: int| i < j < pairs.len() ==> pairs[j].0@ != pairs[i].0@
}

/// No configured pair has the key `key`
pub open spec fn key_absent(pairs: Seq<(String, AttrValue)>, key: Seq<char>) -> bool {
    forall|j: int| 0 <= j < pairs.len() ==> pairs[j].0@ != key
}

proof fn lemma_merged_keeps(
    m: Map<KeyView, AttrValueView>,
    pairs: Seq<(String, AttrValue)>,
    n: nat,
    k: KeyView,
)
    requires
        n <= pairs.len(),
        k.0 != 36 || key_absent(pairs, k.1),
    ensures
        merged_attrs(m, pairs, n).contains_key(k) == m.contains_key(k),
        merged_attrs(m, pairs, n)[k] == m[k],
    decreases n,
{
    if n > 0 {
        lemma_merged_keeps(m, pairs, (n - 1) as nat, k);
        assert(TimelineAttrKey::Custom(pairs[n - 1].0).key_view() != k);
    }
}

proof fn lemma_merged_last(
    m: Map<KeyView, AttrValueView>,
    pairs: Seq<(String, AttrValue)>,
    n: nat,
    i: int,
)
    requires
        n <= pairs.len(),
        0 <= i < n,
        forall|j: int| i < j < n ==> pairs[j].0@ != pairs[i].0@,
    ensures
        merged_attrs(m, pairs, n).contains_key((36, pairs[i].0@)),
        merged_attrs(m, pairs, n)[(36, pairs[i].0@)] == pairs[i].1@,
    decreases n,
{
    if i < n - 1 {
        lemma_merged_last(m, pairs, (n - 1) as nat, i);
    }
}

/// Configured timeline attributes are merged over `base`, overrides after additions: an
/// override is set under `timeline.<key>` (the last for its key wins), an addition is
/// set where no override has its key (again the last wins), and every attribute that is
/// not under a custom key is kept.
pub proof fn lemma_configured_attrs_merge(
    base: Map<KeyView, AttrValueView>,
    added: Seq<(String, AttrValue)>,
    overridden: Seq<(String, AttrValue)>,
    k: KeyView,
)
    ensures
        ({
            let m = merged_attrs(merged_attrs(base, added, added.len()), overridden, overridden.len());
            &&& forall|i: int|
                0 <= i < overridden.len() && #[trigger] last_for_key(overridden, i) ==> m.contains_key(
                    TimelineAttrKey::Custom(overridden[i].0).key_view(),
                ) && m[TimelineAttrKey::Custom(overridden[i].0).key_view()] == overridden[i].1@
            &&& forall|i: int|
                0 <= i < added.len() && #[trigger] last_for_key(added, i) && key_absent(
                    overridden,
                    added[i].0@,
                ) ==> m.contains_key(TimelineAttrKey::Custom(added[i].0).key_view())
                    && m[TimelineAttrKey::Custom(added[i].0).key_view()] == added[i].1@
            &&& k.0 != 36 ==> m.contains_key(k) == base.contains_key(k) && m[k] == base[k]
        }),
{
    let m1 = merged_attrs(base, added, added.len());
    assert forall|i: int|
        0 <= i < overridden.len() && #[trigger] last_for_key(overridden, i) implies merged_attrs(
        m1,
        overridden,
        overridden.len(),
    ).contains_key(TimelineAttrKey::Custom(overridden[i].0).key_view()) && merged_attrs(
        m1,
        overridden,
        overridden.len(),
    )[TimelineAttrKey::Custom(overridden[i].0).key_view()] == overridden[i].1@ by {
        lemma_merged_last(m1, overridden, overridden.len(), i);
    }
    assert forall|i: int|
        0 <= i < added.len() && #[trigger] last_for_key(added, i) && key_absent(
            overridden,
            added[i].0@,
        ) implies merged_attrs(m1, overridden, overridden.len()).contains_key(
        TimelineAttrKey::Custom(added[i].0).key_view(),
    ) && merged_attrs(m1, overridden, overridden.len())[TimelineAttrKey::Custom(
        added[i].0,
    ).key_view()] == added[i].1@ by {
        lemma_merged_last(base, added, added.len(), i);
        lemma_merged_keeps(m1, overridden, overridden.len(), (36, added[i].0@));
    }
    if k.0 != 36 {
        lemma_merged_keeps(base, added, added.len(), k);
        lemma_merged_keeps(m1, overridden, overridden.len(), k);
    }
}

pub(crate) proof fn lemma_fixed_keys_survive_merge(added: Seq<(String, AttrValue)>, overridden: Seq<(String, AttrValue)>)
    ensures
        forall|b: Map<KeyView, AttrValueView>, k: KeyView|
            #![trigger merged_attrs(merged_attrs(b, added, added.len()), overridden, overridden.len()).contains_key(k)]
            #![trigger merged_attrs(merged_attrs(b, added, added.len()), overridden, overridden.len())[k]]
            k.0 != 36 ==> merged_attrs(merged_attrs(b, added, added.len()), overridden, overridden.len()).contains_key(k)
                == b.contains_key(k) && merged_attrs(merged_attrs(b, added, added.len()), overridden, overridden.len())[k] == b[k],
{
    assert forall|b: Map<KeyView, AttrValueView>, k: KeyView|
        #![trigger merged_attrs(merged_attrs(b, added, added.len()), overridden, overridden.len()).contains_key(k)]
        #![trigger merged_attrs(merged_attrs(b, added, added.len()), overridden, overridden.len())[k]]
        k.0 != 36 implies merged_attrs(merged_attrs(b, added, added.len()), overridden, overridden.len()).contains_key(k)
            == b.contains_key(k) && merged_attrs(merged_attrs(b, added, added.len()), overridden, overridden.len())[k] == b[k] by {
        lemma_configured_attrs_merge(b, added, overridden, k);
    }
}

/// Every timeline of a recording carries the run ID and time domain it was given, the
/// recording's header fields each under its own key, and the interaction mode; the time
/// resolution and the latest timestamp in nanoseconds only when the timer frequency is
/// known. Configured attributes are merged over these as
/// `lemma_configured_attrs_merge` states, under custom keys only.
pub proof fn lemma_common_timeline_attributes(
    rd: RecorderData,
    cfg: TraceRecorderConfig,
    run_id: AttrValueView,
    time_domain: AttrValueView,
)
    ensures
        ({
            let m = common_attrs(rd, cfg, run_id, time_domain);
            &&& has_tl(m, TimelineAttrKey::RunId, run_id)
            &&& has_tl(m, TimelineAttrKey::TimeDomain, time_domain)
            &&& has_tl(m, TimelineAttrKey::ClockStyle, AttrValueView::String("relative"@))
            &&& has_tl(m, TimelineAttrKey::Protocol, AttrValueView::String(rd.protocol@))
            &&& has_tl(m, TimelineAttrKey::KernelVersion, AttrValueView::String(rd.kernel_version@))
            &&& has_tl(m, TimelineAttrKey::KernelPort, AttrValueView::String(rd.kernel_port@))
            &&& has_tl(m, TimelineAttrKey::Endianness, AttrValueView::String(rd.endianness.spec_name()))
            &&& has_tl(m, TimelineAttrKey::IrqPriorityOrder, AttrValueView::Integer(rd.irq_priority_order as i64))
            &&& has_tl(m, TimelineAttrKey::Frequency, AttrValueView::Integer(rd.timer_frequency as i64))
            &&& has_tl(
                m,
                TimelineAttrKey::IsrChainingThreshold,
                AttrValueView::Integer(rd.isr_tail_chaining_threshold as i64),
            )
            &&& has_tl(m, TimelineAttrKey::PluginVersion, AttrValueView::String(PLUGIN_VERSION@))
            &&& has_tl(m, TimelineAttrKey::FormatVersion, AttrValueView::Integer(rd.format_version as i64))
            &&& has_tl(m, TimelineAttrKey::NumCores, AttrValueView::Integer(rd.num_cores as i64))
            &&& has_tl(m, TimelineAttrKey::PlatformCfg, AttrValueView::String(rd.platform_cfg@))
            &&& has_tl(m, TimelineAttrKey::PlatformCfgVersion, AttrValueView::String(rd.platform_cfg_version@))
            &&& has_tl(
                m,
                TimelineAttrKey::PlatformCfgVersionMajor,
                AttrValueView::Integer(rd.platform_cfg_version_major as i64),
            )
            &&& has_tl(
                m,
                TimelineAttrKey::PlatformCfgVersionMinor,
                AttrValueView::Integer(rd.platform_cfg_version_minor as i64),
            )
            &&& has_tl(
                m,
                TimelineAttrKey::PlatformCfgVersionPatch,
                AttrValueView::Integer(rd.platform_cfg_version_patch as i64),
            )
            &&& has_tl(m, TimelineAttrKey::HeapSize, AttrValueView::Integer(rd.heap_max as i64))
            &&& has_tl(m, TimelineAttrKey::TimerType, AttrValueView::String(rd.timer_type@))
            &&& has_tl(m, TimelineAttrKey::TimerFreq, AttrValueView::Integer(rd.timer_frequency as i64))
            &&& has_tl(m, TimelineAttrKey::TimerPeriod, AttrValueView::Integer(rd.timer_period as i64))
            &&& has_tl(m, TimelineAttrKey::TimerWraps, AttrValueView::Integer(rd.timer_wraparounds as i64))
            &&& has_tl(m, TimelineAttrKey::TickRateHz, AttrValueView::Integer(rd.os_tick_rate_hz as i64))
            &&& has_tl(m, TimelineAttrKey::TickCount, AttrValueView::Integer(rd.os_tick_count as i64))
            &&& has_tl(m, TimelineAttrKey::LatestTimestampTicks, int_attr(rd.latest_timestamp as int))
            &&& has_tl(
                m,
                TimelineAttrKey::InteractionMode,
                AttrValueView::String(cfg.plugin.interaction_mode.spec_name()),
            )
            &&& rd.timer_frequency != 0 ==> has_tl(
                m,
                TimelineAttrKey::TimeResolution,
                AttrValueView::Timestamp((1_000_000_000int / (rd.timer_frequency as int)) as u64),
            )
            &&& rd.timer_frequency == 0 ==> !m.contains_key(tk(TimelineAttrKey::TimeResolution))
            &&& rd.timer_frequency != 0 ==> has_tl(
                m,
                TimelineAttrKey::LatestTimestamp,
                AttrValueView::Timestamp(
                    ((rd.latest_timestamp * 1_000_000_000int) / (rd.timer_frequency as int)) as u64,
                ),
            )
            &&& rd.timer_frequency == 0 ==> !m.contains_key(tk(TimelineAttrKey::LatestTimestamp))
        }),
{
    reveal(common_attrs);
    lemma_fixed_keys_survive_merge(
        cfg.ingest.additional_timeline_attributes@,
        cfg.ingest.override_timeline_attributes@,
    );
}

} // verus!
