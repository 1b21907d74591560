use vstd::prelude::*;

use crate::handler::WsHandler;
use crate::registry::HandlerRegistry;
use vstd::string::StringExecFns;

verus! {

/// A string written as a JSON string literal, quotes and escapes included.
pub uninterp spec fn json_quoted(s: Seq<char>) -> Seq<char>;

/// Relies on serde_json::to_string on a `&str`: it writes the string as a
/// JSON string literal. Writing into memory does not fail.
#[verifier::external_body]
fn quote_json(s: &str) -> (r: String)
    ensures
        r@ == json_quoted(s@),
{
    serde_json::to_string(s).unwrap_or_default()
}

/// The outbound text frame of an event: `[<event>,<data>]`, with the event
/// already written as a JSON string and the data as JSON text.
pub open spec fn envelope_text(quoted_event: Seq<char>, data: Seq<char>) -> Seq<char> {
    seq!['['] + quoted_event + seq![','] + data + seq![']']
}

/// Builds the outbound text of an event from its quoted name and its data.
pub fn envelope(quoted_event: &str, data: &str) -> (r: String)
    ensures
        r@ == envelope_text(quoted_event@, data@),
{
    let mut out = String::from_str("[");
    out.append(quoted_event);
    out.append(",");
    out.append(data);
    out.append("]");
    proof {
        reveal_strlit("[");
        reveal_strlit(",");
        reveal_strlit("]");
        assert(out@ =~= envelope_text(quoted_event@, data@));
    }
    out
}

/// One connected peer: its identity and the handlers of its events.
pub struct WsClient<H> {
    pub id: String,
    pub handlers: HandlerRegistry<H>,
}

impl<H: WsHandler> WsClient<H> {
    pub fn new(id: String) -> (r: WsClient<H>)
        ensures
            r.id == id,
            forall|e: Seq<char>| #[trigger] r.handlers.handler_for(e) is None,
    {
        WsClient { id, handlers: HandlerRegistry::new() }
    }

    /// Binds `handler` to `event`, replacing any handler bound to it before.
    pub fn on(&mut self, event: &str, handler: H)
        ensures
            final(self).id == old(self).id,
            forall|e: Seq<char>| #[trigger] final(self).handlers.handler_for(e) == if e == event@ {
                Some(handler)
            } else {
                old(self).handlers.handler_for(e)
            },
    {
        self.handlers.on(event.to_owned(), handler);
    }

    /// The text frame that sends `event` with `data` to the peer.
    pub fn emit(&self, event: &str, data: &str) -> (r: String)
        ensures
            r@ == envelope_text(json_quoted(event@), data@),
    {
        let quoted = quote_json(event);
        envelope(quoted.as_str(), data)
    }
}

} // verus!
