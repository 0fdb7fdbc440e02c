//! The parser context and its driver.

use vstd::prelude::*;
use crate::callback::Event;
use crate::callback::lemma_prefix_refl;
use crate::callback::spec_body_bytes;
use crate::callback::HttpParserCallback;
use crate::chars::spec_is_alpha;
use crate::error::HttpErrno;
use crate::flags::Flags;
use crate::http_method::HttpMethod;
use crate::http_version::HttpVersion;
use crate::state::HeaderState;
use crate::state::State;
use crate::state::is_url_state;
use crate::state::parsing_header;
use crate::state::spec_is_url_state;
use crate::steps::Step;

verus! {

broadcast use crate::callback::lemma_body_bytes_push, crate::callback::lemma_prefix_push;

/// The total size of a message's start line, header lines and chunk-size
/// lines may not exceed this many bytes.
pub const HTTP_MAX_HEADER_SIZE: usize = 80 * 1024;

/// The sentinel stored in `content_length` while no `Content-Length` header
/// (or chunk size) has been seen.
pub const ULLONG_MAX: u64 = u64::MAX - 1;

pub(crate) const CR: u8 = 13;
pub(crate) const LF: u8 = 10;

/// What the parser expects: requests, responses, or either (resolved by the
/// first bytes of the first message).
#[derive(Clone, Copy, PartialEq, Eq, Structural, Debug)]
pub enum HttpParserType {
    Request,
    Response,
    Both,
}

/// The parser context: one per connection, reused across the messages of
/// that connection.
pub struct HttpParser {
    /// Version of the current message, from its start line.
    pub http_version: HttpVersion,
    /// The sticky error slot: `None` while parsing may continue.
    pub errno: Option<HttpErrno>,
    /// Status code of the current response message.
    pub status_code: u16,
    /// Method of the current request message.
    pub method: HttpMethod,
    /// Set at headers-complete when the message is a CONNECT request or
    /// carries an `Upgrade:` header; remaining bytes belong to the embedder.
    pub upgrade: bool,
    /// Strict mode: require literal CRLF line ends and reject tab and form
    /// feed in URLs.
    pub strict: bool,

    /// What the parser expects; `Both` resolves on the first message.
    pub tp: HttpParserType,
    /// Current node of the main state machine.
    pub state: State,
    /// Current node of the header-recognition sub-machine.
    pub header_state: HeaderState,
    /// Framing facts gathered from the current message's headers.
    pub flags: Flags,
    /// Cursor into the keyword being matched (method name, header name or
    /// header value keyword).
    pub index: usize,
    /// Bytes consumed since the last message boundary, capped at
    /// [`HTTP_MAX_HEADER_SIZE`].
    pub nread: usize,
    /// Remaining body or chunk bytes; [`ULLONG_MAX`] while unset.
    pub content_length: u64,
    /// Ghost tally of the body bytes handed to `on_body` since the parser
    /// was created.
    pub body_total: Ghost<int>,
    /// Ghost target for the body span now being read (an identity body or
    /// one chunk's payload): the value `body_total` must reach when that
    /// span completes.
    pub body_expect: Ghost<int>,
    /// Ghost log of the sink invocations made so far, in order, with the
    /// exact bytes each data callback received and the decision
    /// `on_headers_complete` returned.
    pub log: Ghost<Seq<Event>>,
}

/// Bound on the keyword cursor while the header-recognition sub-machine is
/// mid-match: the cursor stays below the last position of the keyword being
/// matched ("connection", "proxy-connection", "content-length",
/// "transfer-encoding", "upgrade", "chunked", "keep-alive", "close"), since
/// reaching the last position promotes to a terminal state and overrunning
/// demotes to `General`.
pub open spec fn header_index_ok(hs: HeaderState, index: usize) -> bool {
    match hs {
        HeaderState::C => index == 0,
        HeaderState::CO => index == 1,
        HeaderState::CON => index == 2,
        HeaderState::MatchingConnection => index <= 8,
        HeaderState::MatchingProxyConnection => index <= 14,
        HeaderState::MatchingContentLength => index <= 12,
        HeaderState::MatchingTransferEncoding => index <= 15,
        HeaderState::MatchingUpgrade => index <= 5,
        HeaderState::MatchingTransferEncodingChunked => index <= 5,
        HeaderState::MatchingConnectionKeepAlive => index <= 8,
        HeaderState::MatchingConnectionClose => index <= 3,
        _ => true,
    }
}

impl HttpParser {
    /// The structural facts that hold of a live parser between bytes:
    /// the header-size counter is capped, the numeric fields are within
    /// their documented ranges, a body or chunk-data state owes at least
    /// one more byte, and the keyword cursor is in range for the keyword
    /// being matched.
    pub open spec fn core_inv(self) -> bool {
        &&& self.nread <= HTTP_MAX_HEADER_SIZE
        &&& self.content_length <= ULLONG_MAX
        &&& self.status_code <= 999
        &&& self.http_version.major <= 99
        &&& self.http_version.minor <= 99
        &&& (self.state == State::BodyIdentity || self.state == State::ChunkData) ==> (
            self.content_length != 0 && self.content_length != ULLONG_MAX)
        &&& (self.state == State::ChunkSize || self.state == State::ChunkParameters
            || self.state == State::ChunkSizeAlmostDone) ==> self.content_length != ULLONG_MAX
        &&& self.state == State::ChunkDataAlmostDone ==> self.content_length == 0
        &&& (self.state == State::HeaderField || self.state == State::HeaderValue) ==>
            header_index_ok(self.header_state, self.index)
        &&& (self.state == State::StartReqOrRes || self.state == State::ResOrRespH) ==>
            self.tp == HttpParserType::Both
    }

    /// The delivery tally for body data. The tally always equals the
    /// total bytes of the `Body` events in the log, i.e. the bytes the
    /// sink has actually received through `on_body`. Entering an identity
    /// body or a chunk's data fixes the target at the tally plus the
    /// announced length; each `on_body` call advances the tally by the
    /// bytes handed over; and the span completes exactly when the tally
    /// reaches the target. So a message framed by `Content-Length: n`
    /// hands exactly `n` body bytes to `on_body` before it completes, and
    /// a chunk of announced size `n` hands exactly `n` bytes before its
    /// trailing line end.
    pub open spec fn body_delivery_ok(self) -> bool {
        &&& self.body_total@ == spec_body_bytes(self.log@)
        &&& self.state == State::BodyIdentity ==> self.body_expect@ == self.body_total@
            + self.content_length
        &&& self.state == State::MessageDone ==> self.body_expect@ == self.body_total@
        &&& self.state == State::ChunkData ==> self.body_expect@ == self.body_total@
            + self.content_length
        &&& self.state == State::ChunkDataAlmostDone ==> self.body_expect@
            == self.body_total@
    }

    /// Well-formedness: every parser this library hands out satisfies it,
    /// and `execute` preserves it. A parser whose error slot is set is not
    /// parsing, so nothing is required of its other fields.
    pub open spec fn wf(self) -> bool {
        self.errno is Some || (self.core_inv() && self.body_delivery_ok())
    }

    /// A fresh parser expecting messages of kind `tp`, in strict mode.
    pub fn new(tp: HttpParserType) -> (p: HttpParser)
        ensures
            p.http_version == (HttpVersion { major: 1, minor: 0 }),
            p.errno is None,
            p.status_code == 0,
            p.method == HttpMethod::Get,
            !p.upgrade,
            p.strict,
            p.tp == tp,
            p.state == (match tp {
                HttpParserType::Request => State::StartReq,
                HttpParserType::Response => State::StartRes,
                HttpParserType::Both => State::StartReqOrRes,
            }),
            p.header_state == HeaderState::General,
            p.flags == (Flags {
                chunked: false,
                connection_keep_alive: false,
                connection_close: false,
                trailing: false,
                upgrade: false,
                skipbody: false,
            }),
            p.index == 0,
            p.nread == 0,
            p.content_length == ULLONG_MAX,
            p.body_total@ == 0,
            p.body_expect@ == 0,
            p.log@ == Seq::<Event>::empty(),
            p.wf(),
    {
        HttpParser {
            http_version: HttpVersion { major: 1, minor: 0 },
            errno: None,
            status_code: 0,
            method: HttpMethod::Get,
            upgrade: false,
            strict: true,
            tp: tp,
            state: match tp {
                HttpParserType::Request => State::StartReq,
                HttpParserType::Response => State::StartRes,
                HttpParserType::Both => State::StartReqOrRes,
            },
            header_state: HeaderState::General,
            flags: Flags::none(),
            index: 0,
            nread: 0,
            content_length: ULLONG_MAX,
            body_total: Ghost(0),
            body_expect: Ghost(0),
            log: Ghost(Seq::empty()),
        }
    }

    /// True iff the current message's body has been fully delivered.
    pub fn http_body_is_final(&self) -> (r: bool)
        ensures
            r == (self.state == State::MessageDone),
    {
        self.state == State::MessageDone
    }

    /// Latch or release the pause error. Releasing is allowed only while
    /// the parser is paused or error-free; pausing over any other error
    /// would lose it, so that is excluded.
    pub fn pause(&mut self, pause: bool)
        requires
            old(self).errno is None || old(self).errno == Some(HttpErrno::Paused),
        ensures
            pause ==> *final(self) == spec_paused(*old(self)),
            !pause ==> *final(self) == (HttpParser { errno: None, ..*old(self) }),
    {
        self.errno = if pause {
            Some(HttpErrno::Paused)
        } else {
            None
        };
    }

    /// Whether the end of the current message can only be the end of the
    /// transport stream: a response that is not chunked, carries no
    /// `Content-Length`, and is not bodiless by its status or by the sink's
    /// decision. Requests never need EOF.
    pub fn http_message_needs_eof(&self) -> (r: bool)
        ensures
            r == spec_needs_eof(*self),
    {
        if self.tp == HttpParserType::Request {
            return false;
        }

        if self.status_code / 100 == 1 || self.status_code == 204 || self.status_code == 304
            || self.flags.skipbody {
            return false;
        }

        if self.flags.chunked || self.content_length != ULLONG_MAX {
            return false;
        }

        true
    }

    /// True iff this message's framing permits another message to follow on
    /// the same connection: HTTP/1.1 unless `Connection: close` was seen,
    /// earlier versions only with `Connection: keep-alive`, and never when
    /// the message ends only at EOF.
    pub fn http_should_keep_alive(&self) -> (r: bool)
        ensures
            r == spec_should_keep_alive(*self),
    {
        if self.http_version.major > 1 || (self.http_version.major == 1
            && self.http_version.minor >= 1) {
            // HTTP/1.1 or later
            if self.flags.connection_close {
                return false;
            }
        } else {
            // HTTP/1.0 or earlier
            if !self.flags.connection_keep_alive {
                return false;
            }
        }

        !self.http_message_needs_eof()
    }
}

/// The parser state after `pause(true)`: only the error slot changes.
pub open spec fn spec_paused(p: HttpParser) -> HttpParser {
    HttpParser { errno: Some(HttpErrno::Paused), ..p }
}

/// Pausing is idempotent: pausing an already-paused parser changes nothing,
/// so `pause(true); pause(true)` leaves the same state as `pause(true)`.
pub proof fn lemma_pause_idempotent(p: HttpParser)
    ensures
        spec_paused(spec_paused(p)) == spec_paused(p),
{
}

/// The header-size cap: between calls, a live parser has consumed at most
/// [`HTTP_MAX_HEADER_SIZE`] bytes since the last message boundary, in every
/// state.
pub proof fn lemma_nread_capped(p: HttpParser)
    requires
        p.wf(),
        p.errno is None,
    ensures
        p.nread <= HTTP_MAX_HEADER_SIZE,
{
}

/// When an identity body completes, the bytes handed to `on_body` have
/// reached the target fixed when the body began, so a `Content-Length: n`
/// body was delivered in full.
pub proof fn lemma_body_delivered_at_completion(p: HttpParser)
    requires
        p.wf(),
        p.errno is None,
        p.state == State::MessageDone,
    ensures
        p.body_expect@ == p.body_total@,
        p.body_total@ == spec_body_bytes(p.log@),
{
}

/// While an identity body or a chunk's payload is still being read, the
/// bytes handed to `on_body` plus the bytes still owed equal the target:
/// nothing is delivered twice and nothing is skipped.
pub proof fn lemma_body_delivery_in_progress(p: HttpParser)
    requires
        p.wf(),
        p.errno is None,
        p.state == State::BodyIdentity || p.state == State::ChunkData,
    ensures
        p.body_expect@ == p.body_total@ + p.content_length,
        p.body_total@ == spec_body_bytes(p.log@),
{
}

/// [`HttpParser::http_message_needs_eof`] as a predicate on the parser state.
pub open spec fn spec_needs_eof(p: HttpParser) -> bool {
    if p.tp == HttpParserType::Request {
        false
    } else if p.status_code / 100 == 1 || p.status_code == 204 || p.status_code == 304
        || p.flags.skipbody {
        false
    } else if p.flags.chunked || p.content_length != ULLONG_MAX {
        false
    } else {
        true
    }
}

/// [`HttpParser::http_should_keep_alive`] as a predicate on the parser state:
/// a version of 1.1 or later keeps the connection unless `Connection: close`
/// was seen; an older version drops it unless `Connection: keep-alive` was
/// seen; and a message that only EOF can end closes it either way.
pub open spec fn spec_should_keep_alive(p: HttpParser) -> bool {
    &&& (if p.http_version.major > 1 || (p.http_version.major == 1 && p.http_version.minor
        >= 1) {
        !p.flags.connection_close
    } else {
        p.flags.connection_keep_alive
    })
    &&& !spec_needs_eof(p)
}

/// The state that begins the next message on this connection: the mode's
/// start state, or `Dead` when strict mode forbids a further message.
pub open spec fn spec_new_message_state(p: HttpParser) -> State {
    if p.strict && !spec_should_keep_alive(p) {
        State::Dead
    } else if p.tp == HttpParserType::Request {
        State::StartReq
    } else {
        State::StartRes
    }
}

/// Ranking of the states that may ask for the current byte to be
/// re-executed, decreasing along every such re-execution, so that the
/// per-byte dispatch terminates.
pub open spec fn retry_rank(s: State) -> int {
    match s {
        State::HeaderValueLws => 3,
        State::HeaderValueDiscardLws => 3,
        State::HeaderValueStart => 2,
        State::HeaderValue => 2,
        State::HeaderFieldStart => 2,
        State::HeadersAlmostDone => 1,
        State::StartReqOrRes => 1,
        State::BodyIdentity => 1,
        _ => 0,
    }
}

impl HttpParser {
    /// Executable form of [`spec_new_message_state`].
    pub fn new_message_state(&self) -> (s: State)
        ensures
            s == spec_new_message_state(*self),
    {
        if self.strict && !self.http_should_keep_alive() {
            State::Dead
        } else if self.tp == HttpParserType::Request {
            State::StartReq
        } else {
            State::StartRes
        }
    }

    /// Feed the parser one chunk of transport bytes, invoking `cb` for each
    /// structural event found, and return how many bytes were consumed.
    ///
    /// A zero-length chunk signals EOF: it completes a read-until-EOF body,
    /// is ignored in a start or dead state, and is an error anywhere else.
    /// While the error slot is set, nothing is consumed and 0 is returned.
    /// On success the whole chunk is consumed; a shorter count signals
    /// either an error (the error slot says which, and the count points at
    /// the offending byte) or an upgrade (the remaining bytes belong to the
    /// embedder's next protocol).
    ///
    /// Every sink invocation is recorded in the ghost event log, which this
    /// call only appends to; the per-state steps state exactly which event
    /// each of them may append, with the bytes it hands over as a
    /// contiguous span of the chunk, and well-formedness keeps the body
    /// tally equal to the total bytes of the logged `Body` events.
    #[verifier::rlimit(100)]
    pub fn execute<T: HttpParserCallback>(&mut self, cb: &mut T, data: &[u8]) -> (r: u64)
        requires
            old(self).wf(),
        ensures
            final(self).wf(),
            final(self).strict == old(self).strict,
            old(self).tp != HttpParserType::Both ==> final(self).tp == old(self).tp,
            old(self).errno is Some ==> r == 0 && *final(self) == *old(self),
            final(self).errno is None ==> (r as int == data@.len() || final(self).upgrade),
            r as int <= data@.len() + 1,
            data@.len() > 0 ==> r as int <= data@.len(),
            (old(self).errno is None && data@.len() == 0 && old(self).state
                == State::BodyIdentityEof) ==> (r == 0 && *final(self) == (HttpParser {
                errno: final(self).errno,
                log: final(self).log,
                ..*old(self)
            }) && (final(self).errno is None ==> final(self).log@ == old(self).log@.push(
                Event::MessageComplete,
            )) && (final(self).errno is None || final(self).errno == Some(
                HttpErrno::CBMessageComplete,
            )) && (final(self).errno is Some ==> final(self).log@ == old(self).log@)),
            (old(self).errno is None && data@.len() == 0 && (old(self).state == State::Dead
                || old(self).state == State::StartReqOrRes || old(self).state == State::StartReq
                || old(self).state == State::StartRes)) ==> (r == 0 && *final(self) == *old(self)),
            (old(self).errno is None && data@.len() == 0 && old(self).state
                != State::BodyIdentityEof && old(self).state != State::Dead && old(self).state
                != State::StartReqOrRes && old(self).state != State::StartReq && old(self).state
                != State::StartRes) ==> (r == 1 && *final(self) == (HttpParser {
                errno: Some(HttpErrno::InvalidEofState),
                ..*old(self)
            })),
            old(self).log@.is_prefix_of(final(self).log@),
            (old(self).errno is None && final(self).errno == Some(HttpErrno::HeaderOverflow))
                ==> (final(self).nread == HTTP_MAX_HEADER_SIZE + 1 && (r as int) < data@.len()),
            (old(self).errno is None && data@.len() > 0 && (old(self).state == State::StartReq
                || old(self).state == State::StartRes || old(self).state == State::StartReqOrRes
                || old(self).state == State::Dead) && old(self).nread + data@.len()
                <= HTTP_MAX_HEADER_SIZE && (forall|i: int|
                0 <= i < data@.len() ==> data@[i] == 13 || data@[i] == 10)) ==> (r as int
                == data@.len() && final(self).errno is None && final(self).state == old(self).state
                && final(self).log@ == old(self).log@),
            (old(self).errno is None && data@.len() > 0 && old(self).state == State::StartReq
                && old(self).nread < HTTP_MAX_HEADER_SIZE && data@[0] != 13 && data@[0] != 10
                && !spec_is_alpha(data@[0])) ==> (r == 0 && final(self).errno == Some(
                HttpErrno::InvalidMethod,
            )),
            (old(self).errno is None && data@.len() > 0 && old(self).state == State::StartReq
                && old(self).nread < HTTP_MAX_HEADER_SIZE && spec_is_alpha(data@[0])
                && final(self).errno is None) ==> final(self).log@.len() > old(self).log@.len(),
    {
        proof {
            lemma_prefix_refl(self.log@);
        }
        let len: usize = data.len();
        let mut index: usize = 0;
        let mut header_field_mark: Option<usize> = None;
        let mut header_value_mark: Option<usize> = None;
        let mut url_mark: Option<usize> = None;
        let mut body_mark: Option<usize> = None;
        let mut status_mark: Option<usize> = None;

        if self.errno.is_some() {
            return 0;
        }

        if len == 0 {
            // EOF from the transport.
            match self.state {
                State::BodyIdentityEof => {
                    match cb.on_message_complete(self) {
                        Err(_) => {
                            self.errno = Some(HttpErrno::CBMessageComplete);
                        },
                        _ => {
                            self.log = Ghost(self.log@.push(Event::MessageComplete));
                        },
                    }
                    return 0;
                },
                State::Dead | State::StartReqOrRes | State::StartReq | State::StartRes => {
                    return 0;
                },
                _ => {
                    self.errno = Some(HttpErrno::InvalidEofState);
                    return 1;
                },
            }
        }

        // A span that was still open at the end of the previous chunk
        // continues at offset 0 of this one.
        if self.state == State::HeaderField {
            header_field_mark = Some(0);
        }
        if self.state == State::HeaderValue {
            header_value_mark = Some(0);
        }
        if is_url_state(self.state) {
            url_mark = Some(0);
        }
        if self.state == State::ResStatus {
            status_mark = Some(0);
        }

        while index < len
            invariant
                index <= len,
                len == data@.len(),
                old(self).errno is None,
                self.errno is None,
                self.core_inv(),
                self.strict == old(self).strict,
                old(self).tp != HttpParserType::Both ==> self.tp == old(self).tp,
                (header_field_mark is Some) <==> (self.state == State::HeaderField),
                (header_value_mark is Some) <==> (self.state == State::HeaderValue),
                (url_mark is Some) <==> spec_is_url_state(self.state),
                (status_mark is Some) <==> (self.state == State::ResStatus),
                body_mark is Some ==> (self.state == State::ChunkDataAlmostDone || ((self.state
                    == State::ChunkData || self.state == State::BodyIdentity || self.state
                    == State::BodyIdentityEof) && index == len)),
                self.state == State::BodyIdentity ==> self.body_expect@ == self.body_total@
                    + self.content_length + (match body_mark {
                    Some(m) => index - m,
                    None => 0int,
                }),
                self.state == State::MessageDone ==> self.body_expect@ == self.body_total@,
                self.body_total@ == spec_body_bytes(self.log@),
                old(self).log@.is_prefix_of(self.log@),
                self.state == State::ChunkData ==> self.body_expect@ == self.body_total@
                    + self.content_length + (match body_mark {
                    Some(m) => index - m,
                    None => 0int,
                }),
                self.state == State::ChunkDataAlmostDone ==> self.body_expect@
                    == self.body_total@ + (match body_mark {
                    Some(m) => index - m,
                    None => 0int,
                }),
                (header_field_mark matches Some(m) ==> m <= index),
                (header_value_mark matches Some(m) ==> m <= index),
                (url_mark matches Some(m) ==> m <= index),
                (body_mark matches Some(m) ==> m <= index),
                (status_mark matches Some(m) ==> m <= index),
                ((old(self).state == State::StartReq || old(self).state == State::StartRes
                    || old(self).state == State::StartReqOrRes || old(self).state
                    == State::Dead) && old(self).nread + data@.len() <= HTTP_MAX_HEADER_SIZE
                    && (forall|i: int| 0 <= i < data@.len() ==> data@[i] == 13 || data@[i]
                    == 10)) ==> (self.state == old(self).state && self.nread == old(self).nread + index
                    && self.log@ == old(self).log@),
                (old(self).state == State::StartReq && data@.len() > 0 && old(self).nread
                    < HTTP_MAX_HEADER_SIZE && data@[0] != 13 && data@[0] != 10
                    && !spec_is_alpha(data@[0])) ==> (index == 0 && self.state
                    == State::StartReq && self.nread == old(self).nread),
                index == 0 ==> (self.state == old(self).state && self.log@ == old(self).log@
                    && self.nread == old(self).nread),
                (old(self).state == State::StartReq && data@.len() > 0 && old(self).nread
                    < HTTP_MAX_HEADER_SIZE && spec_is_alpha(data@[0]) && index > 0)
                    ==> self.log@.len() > old(self).log@.len(),
            decreases len - index,
        {
            let ch: u8 = data[index];

            if parsing_header(self.state) {
                // Cap the total size of the start line, header lines and
                // chunk-size lines, so that an embedder buffering spans is
                // not fed a never-ending header.
                self.nread += 1;
                if self.nread > HTTP_MAX_HEADER_SIZE {
                    self.errno = Some(HttpErrno::HeaderOverflow);
                    return index as u64;
                }
            }

            let ghost index0 = index;
            // Dispatch on the current state; a state that rewrites itself
            // without consuming the byte asks for a retry.
            loop
                invariant_except_break
                    index0 <= index < len,
                    len == data@.len(),
                    old(self).errno is None,
                    self.errno is None,
                    self.core_inv(),
                    self.strict == old(self).strict,
                    old(self).tp != HttpParserType::Both ==> self.tp == old(self).tp,
                    (header_field_mark is Some) <==> (self.state == State::HeaderField),
                    (header_value_mark is Some) <==> (self.state == State::HeaderValue),
                    (url_mark is Some) <==> spec_is_url_state(self.state),
                    (status_mark is Some) <==> (self.state == State::ResStatus),
                    body_mark is Some ==> self.state == State::ChunkDataAlmostDone,
                    self.state == State::BodyIdentity ==> self.body_expect@ == self.body_total@
                        + self.content_length,
                    self.state == State::MessageDone ==> self.body_expect@ == self.body_total@,
                    self.body_total@ == spec_body_bytes(self.log@),
                    old(self).log@.is_prefix_of(self.log@),
                    self.state == State::ChunkData ==> self.body_expect@ == self.body_total@
                        + self.content_length,
                    self.state == State::ChunkDataAlmostDone ==> self.body_expect@
                        == self.body_total@ + (match body_mark {
                        Some(m) => index - m,
                        None => 0int,
                    }),
                    (header_field_mark matches Some(m) ==> m <= index),
                    (header_value_mark matches Some(m) ==> m <= index),
                    (url_mark matches Some(m) ==> m <= index),
                    (body_mark matches Some(m) ==> m <= index),
                    (status_mark matches Some(m) ==> m <= index),
                    ch == data@[index0 as int],
                    ((old(self).state == State::StartReq || old(self).state == State::StartRes
                        || old(self).state == State::StartReqOrRes || old(self).state
                        == State::Dead) && old(self).nread + data@.len()
                        <= HTTP_MAX_HEADER_SIZE && (forall|i: int|
                        0 <= i < data@.len() ==> data@[i] == 13 || data@[i] == 10)) ==> (
                        self.state == old(self).state && self.nread == old(self).nread + index
                        + 1 && self.log@ == old(self).log@),
                    (old(self).state == State::StartReq && data@.len() > 0 && old(self).nread
                        < HTTP_MAX_HEADER_SIZE && data@[0] != 13 && data@[0] != 10
                        && !spec_is_alpha(data@[0])) ==> (index == 0 && index0 == 0
                        && self.state == State::StartReq),
                    (old(self).state == State::StartReq && data@.len() > 0 && old(self).nread
                        < HTTP_MAX_HEADER_SIZE && spec_is_alpha(data@[0]) && index0 == 0)
                        ==> (self.state == State::StartReq && self.log@ == old(self).log@),
                    (old(self).state == State::StartReq && data@.len() > 0 && old(self).nread
                        < HTTP_MAX_HEADER_SIZE && spec_is_alpha(data@[0]) && index0 > 0)
                        ==> self.log@.len() > old(self).log@.len(),
                ensures
                    index0 <= index < len,
                    len == data@.len(),
                    self.errno is None,
                    self.core_inv(),
                    self.strict == old(self).strict,
                    old(self).tp != HttpParserType::Both ==> self.tp == old(self).tp,
                    (header_field_mark is Some) <==> (self.state == State::HeaderField),
                    (header_value_mark is Some) <==> (self.state == State::HeaderValue),
                    (url_mark is Some) <==> spec_is_url_state(self.state),
                    (status_mark is Some) <==> (self.state == State::ResStatus),
                    body_mark is Some ==> (self.state == State::ChunkDataAlmostDone || ((
                        self.state == State::ChunkData || self.state == State::BodyIdentity
                        || self.state == State::BodyIdentityEof) && index + 1 == len)),
                    self.state == State::BodyIdentity ==> self.body_expect@ == self.body_total@
                        + self.content_length + (match body_mark {
                        Some(m) => index + 1 - m,
                        None => 0int,
                    }),
                    self.state == State::MessageDone ==> self.body_expect@ == self.body_total@,
                    self.body_total@ == spec_body_bytes(self.log@),
                    old(self).log@.is_prefix_of(self.log@),
                    self.state == State::ChunkData ==> self.body_expect@ == self.body_total@
                        + self.content_length + (match body_mark {
                        Some(m) => index + 1 - m,
                        None => 0int,
                    }),
                    self.state == State::ChunkDataAlmostDone ==> self.body_expect@
                        == self.body_total@ + (match body_mark {
                        Some(m) => index + 1 - m,
                        None => 0int,
                    }),
                    (header_field_mark matches Some(m) ==> m <= index),
                    (header_value_mark matches Some(m) ==> m <= index),
                    (url_mark matches Some(m) ==> m <= index),
                    (body_mark matches Some(m) ==> m <= index),
                    (status_mark matches Some(m) ==> m <= index),
                    ((old(self).state == State::StartReq || old(self).state == State::StartRes
                        || old(self).state == State::StartReqOrRes || old(self).state
                        == State::Dead) && old(self).nread + data@.len()
                        <= HTTP_MAX_HEADER_SIZE && (forall|i: int|
                        0 <= i < data@.len() ==> data@[i] == 13 || data@[i] == 10)) ==> (
                        self.state == old(self).state && self.nread == old(self).nread + index
                        + 1 && self.log@ == old(self).log@),
                    !(old(self).state == State::StartReq && data@.len() > 0 && old(self).nread
                        < HTTP_MAX_HEADER_SIZE && data@[0] != 13 && data@[0] != 10
                        && !spec_is_alpha(data@[0])),
                    (old(self).state == State::StartReq && data@.len() > 0 && old(self).nread
                        < HTTP_MAX_HEADER_SIZE && spec_is_alpha(data@[0])) ==> self.log@.len()
                        > old(self).log@.len(),
                decreases retry_rank(self.state),
            {
                let mut retry: bool = false;

                let f: Step = match self.state {
                    State::Dead | State::ResOrRespH | State::ResH | State::ResHT | State::ResHTT
                        | State::ResHTTP | State::ResFirstHttpMajor | State::ResHttpMajor
                        | State::ResFirstHttpMinor | State::ResHttpMinor
                        | State::ResFirstStatusCode | State::ResStatusCode
                        | State::ResLineAlmostDone | State::ReqHttpStart | State::ReqHttpH
                        | State::ReqHttpHT | State::ReqHttpHTT | State::ReqHttpHTTP
                        | State::ReqFirstHttpMajor | State::ReqHttpMajor
                        | State::ReqFirstHttpMinor | State::ReqHttpMinor
                        | State::ReqLineAlmostDone | State::HeaderAlmostDone
                        | State::HeaderValueLws | State::HeaderValueDiscardWsAlmostDone
                        | State::ChunkSizeStart | State::ChunkSize | State::ChunkParameters
                        | State::ChunkSizeAlmostDone | State::ChunkDataDone => {
                        self.step_simple(ch)
                    },
                    State::StartReqOrRes => self.step_start_req_or_res(cb, ch),
                    State::StartRes => self.step_start_res(cb, ch),
                    State::StartReq => self.step_start_req(cb, ch),
                    State::ReqMethod => self.step_req_method(ch),
                    State::ResStatusStart | State::ResStatus => {
                        self.run_status(cb, data, index, &mut status_mark, ch)
                    },
                    State::ReqSpacesBeforeUrl | State::ReqSchema | State::ReqSchemaSlash
                        | State::ReqSchemaSlashSlash | State::ReqServerStart | State::ReqServer
                        | State::ReqServerWithAt | State::ReqPath | State::ReqQueryStringStart
                        | State::ReqQueryString | State::ReqFragmentStart
                        | State::ReqFragment => {
                        self.run_url(cb, data, index, &mut url_mark, ch)
                    },
                    State::HeaderFieldStart | State::HeaderField => {
                        self.run_header_field(cb, data, index, &mut header_field_mark, ch)
                    },
                    State::HeaderValueDiscardWs | State::HeaderValueStart | State::HeaderValue
                        | State::HeaderValueDiscardLws => {
                        self.run_header_value(cb, data, index, &mut header_value_mark, ch)
                    },
                    State::HeadersAlmostDone => self.step_headers_almost_done(cb, ch),
                    State::HeadersDone => self.step_headers_done(cb, ch),
                    State::MessageDone => self.step_message_done(cb),
                    State::BodyIdentity | State::BodyIdentityEof | State::ChunkData
                        | State::ChunkDataAlmostDone => {
                        self.run_body(cb, data, &mut index, &mut body_mark, ch)
                    },
                };

                match f {
                    Step::Advance => {},
                    Step::Reexecute => {
                        retry = true;
                    },
                    Step::HaltHere => {
                        return index as u64;
                    },
                    Step::HaltAfter => {
                        return (index + 1) as u64;
                    },
                    Step::Upgrade => {
                        return (index + 1) as u64;
                    },
                }

                if !retry {
                    break;
                }
            }

            index += 1;
        }

        // At most one span can still be open when the chunk runs out; flush
        // it with the bytes through the end of the chunk, so that the span
        // continues seamlessly in the next chunk.
        assert((if header_field_mark is Some { 1int } else { 0int }) + (
            if header_value_mark is Some { 1int } else { 0int }) + (if url_mark is Some {
            1int
        } else {
            0int
        }) + (if body_mark is Some { 1int } else { 0int }) + (if status_mark is Some {
            1int
        } else {
            0int
        }) <= 1);

        if header_field_mark.is_some() {
            let m = header_field_mark.unwrap();
            match cb.on_header_field(self, &data[m..index]) {
                Err(_) => {
                    self.errno = Some(HttpErrno::CBHeaderField);
                },
                _ => {},
            }
            if self.errno.is_some() {
                return index as u64;
            }
            self.log = Ghost(self.log@.push(Event::HeaderField(data@.subrange(
                m as int,
                index as int,
            ))));
        }
        if header_value_mark.is_some() {
            let m = header_value_mark.unwrap();
            match cb.on_header_value(self, &data[m..index]) {
                Err(_) => {
                    self.errno = Some(HttpErrno::CBHeaderValue);
                },
                _ => {},
            }
            if self.errno.is_some() {
                return index as u64;
            }
            self.log = Ghost(self.log@.push(Event::HeaderValue(data@.subrange(
                m as int,
                index as int,
            ))));
        }
        if url_mark.is_some() {
            let m = url_mark.unwrap();
            match cb.on_url(self, &data[m..index]) {
                Err(_) => {
                    self.errno = Some(HttpErrno::CBUrl);
                },
                _ => {},
            }
            if self.errno.is_some() {
                return index as u64;
            }
            self.log = Ghost(self.log@.push(Event::Url(data@.subrange(
                m as int,
                index as int,
            ))));
        }
        if body_mark.is_some() {
            let m = body_mark.unwrap();
            match cb.on_body(self, &data[m..index]) {
                Err(_) => {
                    self.errno = Some(HttpErrno::CBBody);
                },
                _ => {},
            }
            if self.errno.is_some() {
                return index as u64;
            }
            self.body_total = Ghost(self.body_total@ + (index - m));
            self.log = Ghost(self.log@.push(Event::Body(data@.subrange(
                m as int,
                index as int,
            ))));
        }
        if status_mark.is_some() {
            let m = status_mark.unwrap();
            match cb.on_status(self, &data[m..index]) {
                Err(_) => {
                    self.errno = Some(HttpErrno::CBStatus);
                },
                _ => {},
            }
            if self.errno.is_some() {
                return index as u64;
            }
            self.log = Ghost(self.log@.push(Event::Status(data@.subrange(
                m as int,
                index as int,
            ))));
        }

        len as u64
    }

}

} // verus!
