use vstd::prelude::*;

use crate::codec::EventMessage;
use crate::handler::{string_result_view, ExtractError, HandlerWrapper, WsHandler};
use crate::json::Json;

verus! {

/// Why a message got no reply from a handler.
#[derive(Clone, Copy, Debug, PartialEq, Eq, Structural)]
pub enum DispatchError {
    /// No handler is registered for the message's event.
    UnknownEvent,
    /// The handler refused the message's arguments.
    BadArguments(ExtractError),
}

/// The handler that the later of the entries registers for `event`.
pub open spec fn find_handler<H>(entries: Seq<(String, HandlerWrapper<H>)>, event: Seq<char>) -> Option<H>
    decreases entries.len(),
{
    if entries.len() == 0 {
        None
    } else if entries.last().0@ == event {
        Some(entries.last().1.hnd)
    } else {
        find_handler(entries.drop_last(), event)
    }
}

/// Handlers by event name. A later registration for a name replaces the
/// earlier one.
pub struct HandlerRegistry<H> {
    entries: Vec<(String, HandlerWrapper<H>)>,
}

/// What dispatching `args` for `event` replies, given the handler found.
pub open spec fn dispatch_result<H: WsHandler>(handler: Option<H>, args: Seq<Json>) -> Result<
    Seq<char>,
    DispatchError,
> {
    match handler {
        None => Err(DispatchError::UnknownEvent),
        Some(h) => match h.reply(args) {
            Ok(text) => Ok(text),
            Err(e) => Err(DispatchError::BadArguments(e)),
        },
    }
}

pub open spec fn dispatch_view(r: Result<String, DispatchError>) -> Result<Seq<char>, DispatchError> {
    match r {
        Ok(s) => Ok(s@),
        Err(e) => Err(e),
    }
}

impl<H: WsHandler> HandlerRegistry<H> {
    /// The handler registered for `event`, if any.
    pub closed spec fn handler_for(&self, event: Seq<char>) -> Option<H> {
        find_handler(self.entries@, event)
    }

    pub fn new() -> (r: HandlerRegistry<H>)
        ensures
            forall|e: Seq<char>| #[trigger] r.handler_for(e) is None,
    {
        HandlerRegistry { entries: Vec::new() }
    }

    /// Binds `handler` to `event`, replacing any handler bound to it before.
    pub fn on(&mut self, event: String, handler: H)
        ensures
            forall|e: Seq<char>| #[trigger] final(self).handler_for(e) == if e == event@ {
                Some(handler)
            } else {
                old(self).handler_for(e)
            },
    {
        let ghost before = self.entries@;
        self.entries.push((event, HandlerWrapper::new(handler)));
        proof {
            assert(self.entries@.drop_last() =~= before);
        }
    }

    /// The handler registered for `event`.
    pub fn lookup(&self, event: &String) -> (r: Option<&HandlerWrapper<H>>)
        ensures
            match r {
                Some(w) => self.handler_for(event@) == Some(w.hnd),
                None => self.handler_for(event@) is None,
            },
    {
        let ghost s = self.entries@;
        let mut i: usize = self.entries.len();
        assert(s.subrange(0, i as int) =~= s);
        while i > 0
            invariant
                i <= s.len(),
                s == self.entries@,
                find_handler(s, event@) == find_handler(s.subrange(0, i as int), event@),
            decreases i,
        {
            assert(s.subrange(0, i as int).drop_last() =~= s.subrange(0, i - 1));
            if self.entries[i - 1].0 == *event {
                return Some(&self.entries[i - 1].1);
            }
            i = i - 1;
        }
        None
    }

    /// Hands the message to the handler of its event and returns the reply.
    pub fn dispatch(&self, msg: &EventMessage) -> (r: Result<String, DispatchError>)
        ensures
            dispatch_view(r) == dispatch_result(self.handler_for(msg.event@), msg.args@),
    {
        match self.lookup(&msg.event) {
            None => Err(DispatchError::UnknownEvent),
            Some(w) => match w.call(&msg.args) {
                Ok(text) => Ok(text),
                Err(e) => Err(DispatchError::BadArguments(e)),
            },
        }
    }
}

/// Registering a handler for an event and then looking the event up finds
/// exactly that handler; other events keep what they had.
pub proof fn lemma_register_then_dispatch<H: WsHandler>(
    before: HandlerRegistry<H>,
    after: HandlerRegistry<H>,
    event: Seq<char>,
    handler: H,
    args: Seq<Json>,
    other: Seq<char>,
)
    requires
        forall|e: Seq<char>| #[trigger] after.handler_for(e) == if e == event {
            Some(handler)
        } else {
            before.handler_for(e)
        },
    ensures
        dispatch_result(after.handler_for(event), args) == match handler.reply(args) {
            Ok(text) => Ok(text),
            Err(e) => Err(DispatchError::BadArguments(e)),
        },
        other != event ==> dispatch_result(after.handler_for(other), args) == dispatch_result(
            before.handler_for(other),
            args,
        ),
{
    assert(after.handler_for(event) == Some(handler));
    assert(other != event ==> after.handler_for(other) == before.handler_for(other));
}

} // verus!
