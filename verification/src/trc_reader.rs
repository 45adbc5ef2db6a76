//! The decisions of the streaming read loop: which read errors stop it, and the one-event
//! buffer that lets a context switch mark the previous event's nonce before it is sent.

use crate::attr_keys::av;
use crate::context_manager::{promoted, ContextEvent};
use crate::error::Error;
use crate::recorder_data::RecorderData;
use crate::text::text_eq;
use std::collections::HashSet;
use vstd::prelude::*;
use vstd::string::*;

verus! {

broadcast use vstd::std_specs::hash::group_hash_axioms;

/// The kernel port this plugin supports
pub open spec fn supported_kernel_port() -> Seq<char> {
    "FreeRTOS"@
}

/// Accepts recordings of the supported kernel port only
pub fn check_kernel_port(trd: &RecorderData) -> (r: Result<(), Error>)
    ensures
        trd.kernel_port@ == supported_kernel_port() ==> r is Ok,
        trd.kernel_port@ != supported_kernel_port() ==> (r matches Err(
            Error::UnsupportedKernelPortIdentity(p),
        ) && p@ == trd.kernel_port@),
{
    proof {
        reveal_strlit("FreeRTOS");
    }
    if text_eq(trd.kernel_port.as_str(), "FreeRTOS") {
        Ok(())
    } else {
        Err(Error::UnsupportedKernelPortIdentity(trd.kernel_port.clone()))
    }
}

/// The kinds of errors from reading the next event of a stream
#[derive(Copy, Clone, PartialEq, Eq, Structural, Debug)]
pub enum ReadErrorKind {
    ObjectLookup,
    InvalidObjectHandle,
    FixedUserEventFmtStringLookup,
    FormattedString,
    TraceRestarted,
    Other,
}

/// What the read loop does about a read error
#[derive(Copy, Clone, PartialEq, Eq, Structural, Debug)]
pub enum ReadErrorAction {
    /// The data can no longer be trusted: fall back to one timeline and go on
    Degrade,
    /// Skip the invalid user event and go on
    SkipEvent,
    /// The target restarted its trace: read the new header and go on
    RestartTrace,
    /// Stop reading, send what is buffered and report the error
    Stop,
}

/// What the read loop does about a read error: object lookups degrade, invalid user events
/// are skipped, a restarted trace is followed, anything else stops the loop
pub fn read_error_action(kind: ReadErrorKind) -> (r: ReadErrorAction)
    ensures
        r == match kind {
            ReadErrorKind::ObjectLookup | ReadErrorKind::InvalidObjectHandle => ReadErrorAction::Degrade,
            ReadErrorKind::FixedUserEventFmtStringLookup | ReadErrorKind::FormattedString => ReadErrorAction::SkipEvent,
            ReadErrorKind::TraceRestarted => ReadErrorAction::RestartTrace,
            ReadErrorKind::Other => ReadErrorAction::Stop,
        },
{
    match kind {
        ReadErrorKind::ObjectLookup | ReadErrorKind::InvalidObjectHandle => ReadErrorAction::Degrade,
        ReadErrorKind::FixedUserEventFmtStringLookup | ReadErrorKind::FormattedString => ReadErrorAction::SkipEvent,
        ReadErrorKind::TraceRestarted => ReadErrorAction::RestartTrace,
        ReadErrorKind::Other => ReadErrorAction::Stop,
    }
}

/// The sending side of the read loop: one processed event waits until the next, and each
/// timeline's attributes go along the first time an event is sent to it
pub struct EventSender {
    pub buffered_event: Option<ContextEvent>,
    pub observed_timelines: HashSet<u128>,
}

/// The previous event as it is sent when `next` follows it: with its internal nonce
/// promoted when `next` names it as an interaction source
pub open spec fn sent_as(prev: ContextEvent, next_names_prev: bool, sent: ContextEvent) -> bool {
    &&& sent.context == prev.context
    &&& sent.global_ordering == prev.global_ordering
    &&& sent.add_previous_event_nonce == prev.add_previous_event_nonce
    &&& sent.cpu_utilization == prev.cpu_utilization
    &&& sent.attributes.wf()
    &&& av(sent.attributes@) == if next_names_prev {
        promoted(av(prev.attributes@))
    } else {
        av(prev.attributes@)
    }
}

/// What buffering an event does: it waits, and the event that waited before comes out to
/// be sent
pub open spec fn buffer_rel(s: EventSender, ev: ContextEvent, r: Option<ContextEvent>, s2: EventSender) -> bool {
    &&& s2.buffered_event == Some(ev)
    &&& s2.observed_timelines == s.observed_timelines
    &&& match s.buffered_event {
        None => r is None,
        Some(prev) => r matches Some(sent) && sent_as(prev, ev.add_previous_event_nonce, sent),
    }
}

impl EventSender {
    pub open spec fn wf(&self) -> bool {
        self.buffered_event matches Some(e) ==> e.attributes.wf()
    }

    pub fn new() -> (r: EventSender)
        ensures
            r.wf(),
            r.buffered_event is None,
            r.observed_timelines@ == Set::<u128>::empty(),
    {
        EventSender { buffered_event: None, observed_timelines: HashSet::new() }
    }

    /// Buffers a processed event; returns the previous one, which is to be sent now
    pub fn buffer(&mut self, ctx_event: ContextEvent) -> (r: Option<ContextEvent>)
        requires
            old(self).wf(),
            ctx_event.attributes.wf(),
        ensures
            final(self).wf(),
            buffer_rel(*old(self), ctx_event, r, *final(self)),
    {
        match self.buffered_event.take() {
            Some(prev) => {
                let mut prev = prev;
                if ctx_event.add_previous_event_nonce {
                    prev.promote_internal_nonce();
                }
                self.buffered_event = Some(ctx_event);
                Some(prev)
            },
            None => {
                self.buffered_event = Some(ctx_event);
                None
            },
        }
    }

    /// The last event, which is to be sent when reading ends
    pub fn flush(&mut self) -> (r: Option<ContextEvent>)
        ensures
            r == old(self).buffered_event,
            final(self).buffered_event is None,
            final(self).observed_timelines == old(self).observed_timelines,
    {
        self.buffered_event.take()
    }

    /// Marks the timeline as sent to; true the first time only, when its attributes go along
    pub fn observe_timeline(&mut self, id: u128) -> (r: bool)
        ensures
            r == !old(self).observed_timelines@.contains(id),
            final(self).observed_timelines@ == old(self).observed_timelines@.insert(id),
            final(self).buffered_event == old(self).buffered_event,
    {
        self.observed_timelines.insert(id)
    }
}


/// Nothing is lost and nothing reordered: from an empty buffer, the first of two events
/// comes out when the second is buffered (its nonce promoted when the second names it),
/// and the second comes out at the flush
pub proof fn lemma_events_sent_in_order(
    s0: EventSender,
    a: ContextEvent,
    r1: Option<ContextEvent>,
    s1: EventSender,
    b: ContextEvent,
    r2: Option<ContextEvent>,
    s2: EventSender,
)
    requires
        s0.buffered_event is None,
        buffer_rel(s0, a, r1, s1),
        buffer_rel(s1, b, r2, s2),
    ensures
        r1 is None,
        r2 matches Some(sent) && sent_as(a, b.add_previous_event_nonce, sent),
        s2.buffered_event == Some(b),
{
}

} // verus!
