//! The event sink an embedder implements to receive parse events.

use vstd::prelude::*;
use crate::parser::HttpParser;

verus! {

/// What the sink decided at `on_headers_complete`: parse the body as framed
/// (`Nothing`), or treat the message as having no body (`SkipBody`), as for
/// the response to a HEAD request.
#[derive(Clone, Copy, PartialEq, Eq, Structural, Debug)]
pub enum CallbackDecision {
    Nothing,
    SkipBody,
}

/// A failure reported by the sink. The parser records it as the matching
/// `CB`-prefixed error kind and stops at the current byte.
#[derive(Clone, Copy, PartialEq, Eq, Structural, Debug)]
pub struct CallbackError;

/// What every sink method returns.
pub type CallbackResult = Result<CallbackDecision, CallbackError>;

/// One sink invocation, as recorded in the parser's ghost event log. A
/// data event carries exactly the bytes that were handed to the sink;
/// `HeadersComplete` carries the decision the sink returned. Events are
/// recorded only for calls the sink answered without error.
pub enum Event {
    MessageBegin,
    Url(Seq<u8>),
    Status(Seq<u8>),
    HeaderField(Seq<u8>),
    HeaderValue(Seq<u8>),
    HeadersComplete(CallbackDecision),
    Body(Seq<u8>),
    MessageComplete,
}

/// The total body bytes among the logged events: how many bytes the sink
/// has received through `on_body` so far.
pub open spec fn spec_body_bytes(log: Seq<Event>) -> int
    decreases log.len(),
{
    if log.len() == 0 {
        0
    } else {
        spec_body_bytes(log.drop_last()) + (match log.last() {
            Event::Body(s) => s.len() as int,
            _ => 0,
        })
    }
}

/// Appending one event adds that event's body bytes (and nothing else) to
/// the total.
pub broadcast proof fn lemma_body_bytes_push(log: Seq<Event>, e: Event)
    ensures
        #[trigger] spec_body_bytes(log.push(e)) == spec_body_bytes(log) + (match e {
            Event::Body(s) => s.len() as int,
            _ => 0,
        }),
{
    assert(log.push(e).drop_last() =~= log);
}

/// Every sequence is a prefix of itself.
pub proof fn lemma_prefix_refl(log: Seq<Event>)
    ensures
        log.is_prefix_of(log),
{
    assert(log.subrange(0, log.len() as int) =~= log);
}

/// A prefix of a log is still a prefix after one more event is appended.
pub broadcast proof fn lemma_prefix_push(a: Seq<Event>, b: Seq<Event>, e: Event)
    requires
        a.is_prefix_of(b),
    ensures
        #[trigger] a.is_prefix_of(b.push(e)),
{
    assert(b.push(e).subrange(0, a.len() as int) =~= a);
}

/// The event sink. `execute` calls these methods synchronously, in byte
/// order, as it walks a chunk. Data callbacks receive a slice borrowed from
/// the chunk, valid only for the duration of the call; a span split across
/// chunks is delivered as one call per chunk. A sink that returns `Err`
/// halts the parse with the matching `CB` error.
///
/// Every method has a default body that returns `Ok(CallbackDecision::Nothing)`,
/// so a sink implements only the events it cares about.
pub trait HttpParserCallback {
    /// The first byte of a new message was seen.
    fn on_message_begin(&mut self, parser: &HttpParser) -> CallbackResult {
        Ok(CallbackDecision::Nothing)
    }

    /// A span of the request URL.
    fn on_url(&mut self, parser: &HttpParser, data: &[u8]) -> CallbackResult {
        Ok(CallbackDecision::Nothing)
    }

    /// A span of the response status phrase.
    fn on_status(&mut self, parser: &HttpParser, data: &[u8]) -> CallbackResult {
        Ok(CallbackDecision::Nothing)
    }

    /// A span of a header name.
    fn on_header_field(&mut self, parser: &HttpParser, data: &[u8]) -> CallbackResult {
        Ok(CallbackDecision::Nothing)
    }

    /// A span of a header value.
    fn on_header_value(&mut self, parser: &HttpParser, data: &[u8]) -> CallbackResult {
        Ok(CallbackDecision::Nothing)
    }

    /// The header section ended. Returning `Ok(CallbackDecision::SkipBody)`
    /// makes the parser treat the message as having no body.
    fn on_headers_complete(&mut self, parser: &HttpParser) -> CallbackResult {
        Ok(CallbackDecision::Nothing)
    }

    /// A span of body bytes (identity-framed, or the payload of one chunk).
    fn on_body(&mut self, parser: &HttpParser, data: &[u8]) -> CallbackResult {
        Ok(CallbackDecision::Nothing)
    }

    /// The message ended.
    fn on_message_complete(&mut self, parser: &HttpParser) -> CallbackResult {
        Ok(CallbackDecision::Nothing)
    }
}

} // verus!
