//! The streaming-protocol trace events that the library processes, held as plain values.

use vstd::prelude::*;

verus! {

/// A kernel object handle
pub type ObjectHandle = u32;

/// The handle the recorder uses for the startup task, before any task has started
pub const NO_TASK_HANDLE: ObjectHandle = 2;

#[derive(Clone, Debug)]
pub struct TraceStartEvent {
    pub current_task_handle: ObjectHandle,
    pub current_task: String,
}

/// ISR define, begin and resume events
#[derive(Clone, Debug)]
pub struct IsrEvent {
    pub handle: ObjectHandle,
    pub name: String,
    pub priority: u32,
}

/// Task create, ready, begin, resume, activate and priority events
#[derive(Clone, Debug)]
pub struct TaskEvent {
    pub handle: ObjectHandle,
    pub name: String,
    pub priority: u32,
}

/// Task notification events. `handle` is the task to notify for notify events and the
/// current task for wait events.
#[derive(Clone, Debug)]
pub struct TaskNotifyEvent {
    pub handle: ObjectHandle,
    pub task_name: Option<String>,
    pub ticks_to_wait: Option<u32>,
}

#[derive(Clone, Debug)]
pub struct MemoryEvent {
    pub address: u32,
    pub size: u32,
    pub heap_current: u32,
    pub heap_high_water_mark: u32,
    pub heap_max: u32,
}

#[derive(Clone, Debug)]
pub struct UnusedStackEvent {
    pub handle: ObjectHandle,
    pub task: String,
    pub low_mark: u32,
}

#[derive(Clone, Debug)]
pub struct QueueCreateEvent {
    pub handle: ObjectHandle,
    pub name: Option<String>,
    pub queue_length: u32,
}

#[derive(Clone, Debug)]
pub struct QueueEvent {
    pub handle: ObjectHandle,
    pub name: Option<String>,
    pub ticks_to_wait: Option<u32>,
    pub messages_waiting: u32,
}

#[derive(Clone, Debug)]
pub struct MutexCreateEvent {
    pub handle: ObjectHandle,
    pub name: Option<String>,
}

#[derive(Clone, Debug)]
pub struct MutexEvent {
    pub handle: ObjectHandle,
    pub name: Option<String>,
    pub ticks_to_wait: Option<u32>,
}

#[derive(Clone, Debug)]
pub struct SemaphoreCreateEvent {
    pub handle: ObjectHandle,
    pub name: Option<String>,
    pub count: Option<u32>,
}

#[derive(Clone, Debug)]
pub struct SemaphoreEvent {
    pub handle: ObjectHandle,
    pub name: Option<String>,
    pub ticks_to_wait: Option<u32>,
    pub count: u32,
}

#[derive(Clone, Debug)]
pub struct EventGroupCreateEvent {
    pub handle: ObjectHandle,
    pub name: Option<String>,
    pub event_bits: u32,
}

#[derive(Clone, Debug)]
pub struct EventGroupEvent {
    pub handle: ObjectHandle,
    pub name: Option<String>,
    pub bits: u32,
}

#[derive(Clone, Debug)]
pub struct MessageBufferCreateEvent {
    pub handle: ObjectHandle,
    pub name: Option<String>,
    pub buffer_size: u32,
}

#[derive(Clone, Debug)]
pub struct MessageBufferEvent {
    pub handle: ObjectHandle,
    pub name: Option<String>,
    pub bytes_in_buffer: u32,
}

#[derive(Clone, Debug)]
pub struct MessageBufferBlockEvent {
    pub handle: ObjectHandle,
    pub name: Option<String>,
}

#[derive(Clone, Debug)]
pub struct StateMachineCreateEvent {
    pub handle: ObjectHandle,
    pub name: String,
}

#[derive(Clone, Debug)]
pub struct StateMachineStateEvent {
    pub handle: ObjectHandle,
    pub name: String,
    pub state_handle: ObjectHandle,
    pub state: String,
}

/// A user event argument. Floating point arguments are held as the bit pattern of the
/// value widened to `f64`.
#[derive(Clone, Debug)]
pub enum Argument {
    Char(char),
    I8(i8),
    U8(u8),
    I16(i16),
    U16(u16),
    I32(i32),
    U32(u32),
    F32(u64),
    F64(u64),
    String(String),
}

#[derive(Clone, Debug)]
pub struct UserEvent {
    pub channel: String,
    pub format_string: String,
    pub formatted_string: String,
    pub args: Vec<Argument>,
}

/// An event the parser does not know, with its raw 32-bit parameters
#[derive(Clone, Debug)]
pub struct UnknownEvent {
    pub parameters: Vec<u32>,
}

/// What an event carries, by event kind
#[derive(Clone, Debug)]
pub enum EventKind {
    TraceStart(TraceStartEvent),
    TsConfig,
    ObjectName,
    TaskPriority(TaskEvent),
    TaskPriorityInherit(TaskEvent),
    TaskPriorityDisinherit(TaskEvent),
    IsrDefine(IsrEvent),
    TaskCreate(TaskEvent),
    QueueCreate(QueueCreateEvent),
    MutexCreate(MutexCreateEvent),
    SemaphoreBinaryCreate(SemaphoreCreateEvent),
    SemaphoreCountingCreate(SemaphoreCreateEvent),
    TaskReady(TaskEvent),
    IsrBegin(IsrEvent),
    IsrResume(IsrEvent),
    TaskBegin(TaskEvent),
    TaskResume(TaskEvent),
    TaskActivate(TaskEvent),
    TaskNotify(TaskNotifyEvent),
    TaskNotifyFromIsr(TaskNotifyEvent),
    TaskNotifyWait(TaskNotifyEvent),
    TaskNotifyWaitBlock(TaskNotifyEvent),
    MemoryAlloc(MemoryEvent),
    MemoryFree(MemoryEvent),
    QueueSend(QueueEvent),
    QueueSendBlock(QueueEvent),
    QueueSendFromIsr(QueueEvent),
    QueueReceive(QueueEvent),
    QueueReceiveBlock(QueueEvent),
    QueueReceiveFromIsr(QueueEvent),
    QueuePeek(QueueEvent),
    QueuePeekBlock(QueueEvent),
    QueueSendFront(QueueEvent),
    QueueSendFrontBlock(QueueEvent),
    QueueSendFrontFromIsr(QueueEvent),
    MutexGive(MutexEvent),
    MutexGiveBlock(MutexEvent),
    MutexGiveRecursive(MutexEvent),
    MutexTake(MutexEvent),
    MutexTakeBlock(MutexEvent),
    MutexTakeRecursive(MutexEvent),
    MutexTakeRecursiveBlock(MutexEvent),
    SemaphoreGive(SemaphoreEvent),
    SemaphoreGiveBlock(SemaphoreEvent),
    SemaphoreGiveFromIsr(SemaphoreEvent),
    SemaphoreTake(SemaphoreEvent),
    SemaphoreTakeBlock(SemaphoreEvent),
    SemaphoreTakeFromIsr(SemaphoreEvent),
    SemaphorePeek(SemaphoreEvent),
    SemaphorePeekBlock(SemaphoreEvent),
    EventGroupCreate(EventGroupCreateEvent),
    EventGroupSync(EventGroupEvent),
    EventGroupWaitBits(EventGroupEvent),
    EventGroupClearBits(EventGroupEvent),
    EventGroupClearBitsFromIsr(EventGroupEvent),
    EventGroupSetBits(EventGroupEvent),
    EventGroupSetBitsFromIsr(EventGroupEvent),
    EventGroupSyncBlock(EventGroupEvent),
    EventGroupWaitBitsBlock(EventGroupEvent),
    MessageBufferCreate(MessageBufferCreateEvent),
    MessageBufferSend(MessageBufferEvent),
    MessageBufferReceive(MessageBufferEvent),
    MessageBufferSendFromIsr(MessageBufferEvent),
    MessageBufferReceiveFromIsr(MessageBufferEvent),
    MessageBufferReset(MessageBufferEvent),
    MessageBufferSendBlock(MessageBufferBlockEvent),
    MessageBufferReceiveBlock(MessageBufferBlockEvent),
    StateMachineCreate(StateMachineCreateEvent),
    StateMachineStateCreate(StateMachineStateEvent),
    StateMachineStateChange(StateMachineStateEvent),
    User(UserEvent),
    UnusedStack(UnusedStackEvent),
    Unknown(UnknownEvent),
}

/// A streaming-protocol event: its 16-bit event code (upper 4 bits parameter count,
/// lower 12 bits event ID), its 16-bit event counter, its timer reading and its content
#[derive(Clone, Debug)]
pub struct Event {
    pub code: u16,
    pub event_count: u16,
    pub timestamp: u64,
    pub kind: EventKind,
}

/// The event ID: the lower 12 bits of the event code
pub open spec fn spec_event_id(code: u16) -> u16 {
    (code % 4096) as u16
}

/// The number of 32-bit parameters: the upper 4 bits of the event code
pub open spec fn spec_parameter_count(code: u16) -> u8 {
    (code / 4096) as u8
}

pub fn event_id(code: u16) -> (r: u16)
    ensures
        r == spec_event_id(code),
{
    code % 4096
}

pub fn parameter_count(code: u16) -> (r: u8)
    ensures
        r == spec_parameter_count(code),
{
    (code / 4096) as u8
}

/// The name of the event type that an event ID stands for
pub uninterp spec fn event_type_text(event_id: u16) -> Seq<char>;

/// `EventType::from(EventId)` followed by its `Display`: the name of the event type that
/// the parser assigns to an event ID. The table is not written out here; the result is
/// named by `event_type_text`.
#[verifier::external_body]
pub(crate) fn event_type_name(event_id: u16) -> (r: String)
    ensures
        r@ == event_type_text(event_id),
{
    trace_recorder_parser::streaming::event::EventType::from(
        trace_recorder_parser::streaming::event::EventId(event_id),
    ).to_string()
}

} // verus!
