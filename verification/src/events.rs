//! Events, which the engine queues on a context for whoever polls it.
use vstd::prelude::*;
use crate::context::Context;
use crate::errors::{check_error, Error, STATUS_OK};
use crate::handle::{EngineCall, Handle, ToSyzHandle};

verus! {

/// The kind of an event, with its payload where it has one.
#[derive(Copy, Clone, Debug, PartialEq, Eq, Structural)]
#[non_exhaustive]
pub enum EventType {
    Finished,
    Looped,
    UserAutomation { param: u64 },
}

/// What the engine wrote for a poll.
#[derive(Copy, Clone, Debug, PartialEq, Eq, Structural)]
pub enum RawEventKind {
    /// No event: the queue is empty.
    Invalid,
    Finished,
    Looped,
    UserAutomation,
}

/// An event as the engine hands it over: its kind, the identifiers of its
/// source and its context (zero for none), and the parameter of a user
/// event.
#[derive(Copy, Clone, Debug, PartialEq, Eq, Structural)]
pub struct RawEvent {
    pub kind: RawEventKind,
    pub source: u64,
    pub context: u64,
    pub param: u64,
}

/// An event, with handles of its own to its source and its context.
#[derive(Debug)]
pub struct Event {
    pub source: Handle,
    pub context: Option<Context>,
    /// The kind of the event, with its payload where it has one.
    pub event_type: EventType,
}

/// The type of the event that the engine handed over as of kind `kind`
/// with the parameter `param`, or `None` where it handed over no event.
pub open spec fn event_type_of(kind: RawEventKind, param: u64) -> Option<EventType> {
    match kind {
        RawEventKind::Invalid => None,
        RawEventKind::Finished => Some(EventType::Finished),
        RawEventKind::Looped => Some(EventType::Looped),
        RawEventKind::UserAutomation => Some(EventType::UserAutomation { param }),
    }
}

/// The increments owed for the handles that an event holds: one for its
/// source, then one for its context if it has one.
pub open spec fn increments_owed(raw: RawEvent) -> Seq<EngineCall> {
    if raw.context == 0 {
        seq![EngineCall::IncRef(raw.source)]
    } else {
        seq![EngineCall::IncRef(raw.source), EngineCall::IncRef(raw.context)]
    }
}

/// Whether `event` is the event that the engine handed over as `raw`.
pub open spec fn event_matches(event: Event, raw: RawEvent) -> bool {
    &&& event.source.id() == raw.source
    &&& Some(event.event_type) == event_type_of(raw.kind, raw.param)
    &&& match event.context {
        Some(ctx) => raw.context != 0 && ctx.syz_handle() == raw.context,
        None => raw.context == 0,
    }
}

/// The events that are pending on a context. Polling stops for good at the
/// first error.
pub struct EventIterator<'a> {
    context: &'a Context,
    errored: bool,
}

impl<'a> EventIterator<'a> {
    /// Whether an earlier poll gave an error, after which nothing is
    /// polled any more.
    pub closed spec fn errored_spec(&self) -> bool {
        self.errored
    }

    /// The identifier of the context that is polled.
    pub closed spec fn context_id(&self) -> u64 {
        self.context.syz_handle()
    }

    /// The iteration over the events of `context`, before any poll.
    pub fn new(context: &'a Context) -> (r: EventIterator<'a>)
        ensures
            !r.errored_spec(),
            r.context_id() == context.syz_handle(),
    {
        EventIterator { context, errored: false }
    }

    /// Whether an earlier poll gave an error. The engine must not be
    /// polled then.
    pub fn is_errored(&self) -> (r: bool)
        ensures
            r == self.errored_spec(),
    {
        self.errored
    }

    /// The identifier of the context to poll.
    pub fn context_handle(&self) -> (r: u64)
        ensures
            r == self.context_id(),
    {
        self.context.to_syz_handle()
    }

    /// Reads the engine's answer to one poll: the status, the event that it
    /// wrote, and the engine's last error message.
    ///
    /// A failed status gives the engine's error. An empty queue gives
    /// `Ok(None)`. Otherwise the result is the event, whose handles are new
    /// ones: the increments owed for them come with it.
    pub fn get_next(&self, status: i32, raw: RawEvent, last_message: &str) -> (r: Result<
        Option<(Event, Vec<EngineCall>)>,
        Error,
    >)
        ensures
            r is Ok <==> status == STATUS_OK,
            r matches Ok(found) ==> match found {
                None => raw.kind == RawEventKind::Invalid,
                Some(pair) => raw.kind != RawEventKind::Invalid && event_matches(pair.0, raw)
                    && pair.1@ == increments_owed(raw),
            },
            r matches Err(e) ==> e.is_error(status, last_message@),
    {
        match check_error(status, last_message) {
            Err(e) => { return Err(e); },
            Ok(_) => {},
        }
        let event_type = match raw.kind {
            RawEventKind::Invalid => { return Ok(None); },
            RawEventKind::Finished => EventType::Finished,
            RawEventKind::Looped => EventType::Looped,
            RawEventKind::UserAutomation => EventType::UserAutomation { param: raw.param },
        };
        let mut owed: Vec<EngineCall> = Vec::new();
        owed.push(EngineCall::IncRef(raw.source));
        let source = Handle::new(raw.source);
        let context = if raw.context == 0 {
            None
        } else {
            owed.push(EngineCall::IncRef(raw.context));
            Some(Context::from_handle_internal(Handle::new(raw.context)))
        };
        proof {
            assert(owed@ =~= increments_owed(raw));
        }
        Ok(Some((Event { source, context, event_type }, owed)))
    }

    /// The next item of the iteration, for the result of one poll.
    ///
    /// After an error the iteration is over, whatever the poll gave.
    /// Before that, an event is passed on, an empty queue ends this round,
    /// and an error is passed on once and ends the iteration for good.
    pub fn next(&mut self, polled: Result<Option<Event>, Error>) -> (r: Option<
        Result<Event, Error>,
    >)
        ensures
            final(self).context_id() == old(self).context_id(),
            final(self).errored_spec() == (old(self).errored_spec() || polled is Err),
            r == if old(self).errored_spec() {
                None
            } else {
                match polled {
                    Ok(Some(e)) => Some(Ok(e)),
                    Ok(None) => None,
                    Err(e) => Some(Err(e)),
                }
            },
    {
        if self.errored {
            if polled.is_err() {
                self.errored = true;
            }
            return None;
        }
        match polled {
            Ok(Some(e)) => Some(Ok(e)),
            Ok(None) => None,
            Err(e) => {
                self.errored = true;
                Some(Err(e))
            },
        }
    }
}

} // verus!
