//! The per-byte dispatch steps of the main state machine, grouped by the
//! family of states they serve. The driver in `execute` hands each byte to
//! the step for the current state and follows the outcome.

use vstd::prelude::*;
use crate::callback::CallbackDecision;
use crate::callback::Event;
use crate::callback::HttpParserCallback;
use crate::chars::is_alpha;
use crate::chars::spec_is_alpha;
use crate::chars::spec_is_num;
use crate::chars::spec_unhex;
use crate::chars::is_num;
use crate::chars::lower;
use crate::chars::token;
use crate::chars::unhex;
use crate::error::HttpErrno;
use crate::flags::Flags;
use crate::http_method::HttpMethod;
use crate::keywords::kw_chunked;
use crate::keywords::kw_close;
use crate::keywords::kw_connection;
use crate::keywords::kw_content_length;
use crate::keywords::kw_keep_alive;
use crate::keywords::kw_proxy_connection;
use crate::keywords::kw_transfer_encoding;
use crate::keywords::kw_upgrade;
use crate::parser::CR;
use crate::parser::HttpParser;
use crate::parser::HttpParserType;
use crate::parser::LF;
use crate::parser::ULLONG_MAX;
use crate::parser::retry_rank;
use crate::callback::spec_body_bytes;
use crate::state::HeaderState;
use crate::state::State;
use crate::state::spec_is_url_state;
use crate::url::lemma_parse_url_char_stays_url;

verus! {

broadcast use crate::callback::lemma_body_bytes_push, crate::callback::lemma_prefix_push;

/// States in which a data span is open, so that the driver holds a mark
/// for them: header field, header value, URL and status.
pub open spec fn spec_is_marked_state(s: State) -> bool {
    s == State::HeaderField || s == State::HeaderValue || spec_is_url_state(s)
        || s == State::ResStatus
}

/// The states whose handling touches only the parser itself: no callback,
/// no mark, no movement of the chunk cursor.
pub open spec fn spec_is_simple_state(s: State) -> bool {
    s == State::Dead || s == State::ResOrRespH || s == State::ResH || s == State::ResHT
        || s == State::ResHTT || s == State::ResHTTP || s == State::ResFirstHttpMajor
        || s == State::ResHttpMajor || s == State::ResFirstHttpMinor || s == State::ResHttpMinor
        || s == State::ResFirstStatusCode || s == State::ResStatusCode
        || s == State::ResLineAlmostDone || s == State::ReqHttpStart || s == State::ReqHttpH
        || s == State::ReqHttpHT || s == State::ReqHttpHTT || s == State::ReqHttpHTTP
        || s == State::ReqFirstHttpMajor || s == State::ReqHttpMajor
        || s == State::ReqFirstHttpMinor || s == State::ReqHttpMinor
        || s == State::ReqLineAlmostDone || s == State::HeaderAlmostDone
        || s == State::HeaderValueLws || s == State::HeaderValueDiscardWsAlmostDone
        || s == State::ChunkSizeStart || s == State::ChunkSize || s == State::ChunkParameters
        || s == State::ChunkSizeAlmostDone || s == State::ChunkDataDone
}

/// What a per-byte dispatch step asks the driver to do next.
pub(crate) enum Step {
    /// Move on to the next byte.
    Advance,
    /// Run the same byte through the state just entered.
    Reexecute,
    /// Stop; the error is recorded and the current byte is the answer.
    HaltHere,
    /// Stop; the error is recorded and the byte after this one is the
    /// answer.
    HaltAfter,
    /// Stop after this byte with the message complete and the upgrade flag
    /// set: the rest of the stream belongs to the embedder.
    Upgrade,
}

impl HttpParser {
    /// Dispatch `ch` in a state that touches only the parser itself.
    #[verifier::rlimit(100)]
    pub(crate) fn step_simple(&mut self, ch: u8) -> (f: Step)
        requires
            old(self).errno is None,
            old(self).core_inv(),
            spec_is_simple_state(old(self).state),
        ensures
            final(self).strict == old(self).strict,
            old(self).tp != HttpParserType::Both ==> final(self).tp == old(self).tp,
            final(self).body_total@ == old(self).body_total@,
            (final(self).log@ == old(self).log@ || (exists|e: Event|
                final(self).log@ == old(self).log@.push(e))),
            match f {
                Step::Advance => final(self).errno is None && final(self).core_inv()
                    && !spec_is_marked_state(final(self).state)
                    && final(self).state != State::ChunkDataAlmostDone
                    && final(self).state != State::BodyIdentity
                    && final(self).state != State::MessageDone,
                Step::Reexecute => final(self).errno is None && final(self).core_inv()
                    && !spec_is_marked_state(final(self).state)
                    && final(self).state != State::ChunkDataAlmostDone
                    && final(self).state != State::BodyIdentity
                    && final(self).state != State::MessageDone
                    && final(self).state != State::ChunkData
                    && retry_rank(final(self).state) < retry_rank(old(self).state),
                Step::HaltHere => (final(self).errno == Some(HttpErrno::ClosedConnection) || final(self).errno == Some(HttpErrno::InvalidConstant) || final(self).errno == Some(HttpErrno::Strict) || final(self).errno == Some(HttpErrno::InvalidVersion) || final(self).errno == Some(HttpErrno::InvalidStatus) || final(self).errno == Some(HttpErrno::LFExpected) || final(self).errno == Some(HttpErrno::InvalidChunkSize) || final(self).errno == Some(HttpErrno::InvalidContentLength)),
                _ => false,
            },
            (f is Advance && final(self).state == State::ChunkData) ==> final(self).body_expect@
                == final(self).body_total@ + final(self).content_length,
            (old(self).state == State::Dead && (ch == 13 || ch == 10)) ==> *final(self)
                == *old(self),
            final(self).log@ == old(self).log@,
            (old(self).state == State::ChunkSizeStart && f is Advance) ==> final(self).content_length == spec_unhex(ch),
            (old(self).state == State::ChunkSize && f is Advance && ch != 13 && ch != 59
                && ch != 32) ==> final(self).content_length == old(self).content_length * 16
                + spec_unhex(ch),
            (old(self).state == State::ChunkSize && f is Advance && (ch == 13 || ch == 59
                || ch == 32)) ==> final(self).content_length == old(self).content_length,
    {
        match self.state {
            State::Dead => {
                if ch != CR && ch != LF {
                    self.errno = Some(HttpErrno::ClosedConnection);
                    return Step::HaltHere;
                }
                Step::Advance
            },
            State::ResOrRespH => {
                if ch == ('T' as u8) {
                    self.tp = HttpParserType::Response;
                    self.state = State::ResHT;
                } else {
                    if ch != ('E' as u8) {
                        self.errno = Some(HttpErrno::InvalidConstant);
                        return Step::HaltHere;
                    }
                    // "HE..." can only start a HEAD request.
                    self.tp = HttpParserType::Request;
                    self.method = HttpMethod::Head;
                    self.index = 2;
                    self.state = State::ReqMethod;
                }
                Step::Advance
            },
            State::ResH => {
                if self.strict && ch != ('T' as u8) {
                    self.errno = Some(HttpErrno::Strict);
                    return Step::HaltHere;
                }
                self.state = State::ResHT;
                Step::Advance
            },
            State::ResHT => {
                if self.strict && ch != ('T' as u8) {
                    self.errno = Some(HttpErrno::Strict);
                    return Step::HaltHere;
                }
                self.state = State::ResHTT;
                Step::Advance
            },
            State::ResHTT => {
                if self.strict && ch != ('P' as u8) {
                    self.errno = Some(HttpErrno::Strict);
                    return Step::HaltHere;
                }
                self.state = State::ResHTTP;
                Step::Advance
            },
            State::ResHTTP => {
                if self.strict && ch != ('/' as u8) {
                    self.errno = Some(HttpErrno::Strict);
                    return Step::HaltHere;
                }
                self.state = State::ResFirstHttpMajor;
                Step::Advance
            },
            State::ResFirstHttpMajor => {
                if ch < ('0' as u8) || ch > ('9' as u8) {
                    self.errno = Some(HttpErrno::InvalidVersion);
                    return Step::HaltHere;
                }
                self.http_version.major = ch - ('0' as u8);
                self.state = State::ResHttpMajor;
                Step::Advance
            },
            State::ResHttpMajor => {
                if ch == ('.' as u8) {
                    self.state = State::ResFirstHttpMinor;
                } else {
                    if !is_num(ch) {
                        self.errno = Some(HttpErrno::InvalidVersion);
                        return Step::HaltHere;
                    }
                    // At most two digits.
                    let t: u16 = (self.http_version.major as u16) * 10 + ((ch - ('0' as u8))
                        as u16);
                    if t > 99 {
                        self.errno = Some(HttpErrno::InvalidVersion);
                        return Step::HaltHere;
                    }
                    self.http_version.major = t as u8;
                }
                Step::Advance
            },
            State::ResFirstHttpMinor => {
                if !is_num(ch) {
                    self.errno = Some(HttpErrno::InvalidVersion);
                    return Step::HaltHere;
                }
                self.http_version.minor = ch - ('0' as u8);
                self.state = State::ResHttpMinor;
                Step::Advance
            },
            State::ResHttpMinor => {
                if ch == (' ' as u8) {
                    self.state = State::ResFirstStatusCode;
                } else {
                    if !is_num(ch) {
                        self.errno = Some(HttpErrno::InvalidVersion);
                        return Step::HaltHere;
                    }
                    let t: u16 = (self.http_version.minor as u16) * 10 + ((ch - ('0' as u8))
                        as u16);
                    if t > 99 {
                        self.errno = Some(HttpErrno::InvalidVersion);
                        return Step::HaltHere;
                    }
                    self.http_version.minor = t as u8;
                }
                Step::Advance
            },
            State::ResFirstStatusCode => {
                if !is_num(ch) {
                    if ch != (' ' as u8) {
                        self.errno = Some(HttpErrno::InvalidStatus);
                        return Step::HaltHere;
                    }
                } else {
                    self.status_code = (ch - ('0' as u8)) as u16;
                    self.state = State::ResStatusCode;
                }
                Step::Advance
            },
            State::ResStatusCode => {
                if !is_num(ch) {
                    if ch == (' ' as u8) {
                        self.state = State::ResStatusStart;
                    } else if ch == CR {
                        self.state = State::ResLineAlmostDone;
                    } else if ch == LF {
                        self.state = State::HeaderFieldStart;
                    } else {
                        self.errno = Some(HttpErrno::InvalidStatus);
                        return Step::HaltHere;
                    }
                } else {
                    // At most three digits.
                    let t: u32 = (self.status_code as u32) * 10 + ((ch - ('0' as u8)) as u32);
                    if t > 999 {
                        self.errno = Some(HttpErrno::InvalidStatus);
                        return Step::HaltHere;
                    }
                    self.status_code = t as u16;
                }
                Step::Advance
            },
            State::ResLineAlmostDone => {
                if self.strict && ch != LF {
                    self.errno = Some(HttpErrno::Strict);
                    return Step::HaltHere;
                }
                self.state = State::HeaderFieldStart;
                Step::Advance
            },
            State::ReqHttpStart => {
                if ch == ('H' as u8) {
                    self.state = State::ReqHttpH;
                } else if ch == (' ' as u8) {
                    // Extra spaces before the version are tolerated.
                } else {
                    self.errno = Some(HttpErrno::InvalidConstant);
                    return Step::HaltHere;
                }
                Step::Advance
            },
            State::ReqHttpH => {
                if self.strict && ch != ('T' as u8) {
                    self.errno = Some(HttpErrno::Strict);
                    return Step::HaltHere;
                }
                self.state = State::ReqHttpHT;
                Step::Advance
            },
            State::ReqHttpHT => {
                if self.strict && ch != ('T' as u8) {
                    self.errno = Some(HttpErrno::Strict);
                    return Step::HaltHere;
                }
                self.state = State::ReqHttpHTT;
                Step::Advance
            },
            State::ReqHttpHTT => {
                if self.strict && ch != ('P' as u8) {
                    self.errno = Some(HttpErrno::Strict);
                    return Step::HaltHere;
                }
                self.state = State::ReqHttpHTTP;
                Step::Advance
            },
            State::ReqHttpHTTP => {
                if self.strict && ch != ('/' as u8) {
                    self.errno = Some(HttpErrno::Strict);
                    return Step::HaltHere;
                }
                self.state = State::ReqFirstHttpMajor;
                Step::Advance
            },
            State::ReqFirstHttpMajor => {
                if ch < ('1' as u8) || ch > ('9' as u8) {
                    self.errno = Some(HttpErrno::InvalidVersion);
                    return Step::HaltHere;
                }
                self.http_version.major = ch - ('0' as u8);
                self.state = State::ReqHttpMajor;
                Step::Advance
            },
            State::ReqHttpMajor => {
                if ch == ('.' as u8) {
                    self.state = State::ReqFirstHttpMinor;
                } else {
                    if !is_num(ch) {
                        self.errno = Some(HttpErrno::InvalidVersion);
                        return Step::HaltHere;
                    }
                    let t: u16 = (self.http_version.major as u16) * 10 + ((ch - ('0' as u8))
                        as u16);
                    if t > 99 {
                        self.errno = Some(HttpErrno::InvalidVersion);
                        return Step::HaltHere;
                    }
                    self.http_version.major = t as u8;
                }
                Step::Advance
            },
            State::ReqFirstHttpMinor => {
                if !is_num(ch) {
                    self.errno = Some(HttpErrno::InvalidVersion);
                    return Step::HaltHere;
                }
                self.http_version.minor = ch - ('0' as u8);
                self.state = State::ReqHttpMinor;
                Step::Advance
            },
            State::ReqHttpMinor => {
                if ch == CR {
                    self.state = State::ReqLineAlmostDone;
                } else if ch == LF {
                    self.state = State::HeaderFieldStart;
                } else if !is_num(ch) {
                    self.errno = Some(HttpErrno::InvalidVersion);
                    return Step::HaltHere;
                } else {
                    let t: u16 = (self.http_version.minor as u16) * 10 + ((ch - ('0' as u8))
                        as u16);
                    if t > 99 {
                        self.errno = Some(HttpErrno::InvalidVersion);
                        return Step::HaltHere;
                    }
                    self.http_version.minor = t as u8;
                }
                Step::Advance
            },
            State::ReqLineAlmostDone => {
                if ch != LF {
                    self.errno = Some(HttpErrno::LFExpected);
                    return Step::HaltHere;
                }
                self.state = State::HeaderFieldStart;
                Step::Advance
            },
            State::HeaderAlmostDone => {
                if self.strict && ch != LF {
                    self.errno = Some(HttpErrno::Strict);
                    return Step::HaltHere;
                }
                self.state = State::HeaderValueLws;
                Step::Advance
            },
            State::HeaderValueLws => {
                if ch == (' ' as u8) || ch == 9 {
                    // Obsolete line folding: the value continues.
                    self.state = State::HeaderValueStart;
                    Step::Reexecute
                } else {
                    // The header line is finished: commit what its value
                    // established.
                    match self.header_state {
                        HeaderState::ConnectionKeepAlive => {
                            self.flags.connection_keep_alive = true;
                        },
                        HeaderState::ConnectionClose => {
                            self.flags.connection_close = true;
                        },
                        HeaderState::TransferEncodingChunked => {
                            self.flags.chunked = true;
                        },
                        _ => {},
                    }
                    self.state = State::HeaderFieldStart;
                    Step::Reexecute
                }
            },
            State::HeaderValueDiscardWsAlmostDone => {
                if self.strict && ch != LF {
                    self.errno = Some(HttpErrno::Strict);
                    return Step::HaltHere;
                }
                self.state = State::HeaderValueDiscardLws;
                Step::Advance
            },
            State::ChunkSizeStart => {
                let unhex_val = unhex(ch);
                if unhex_val == -1i8 {
                    self.errno = Some(HttpErrno::InvalidChunkSize);
                    return Step::HaltHere;
                }
                self.content_length = unhex_val as u64;
                self.state = State::ChunkSize;
                Step::Advance
            },
            State::ChunkSize => {
                if ch == CR {
                    self.state = State::ChunkSizeAlmostDone;
                } else {
                    let unhex_val = unhex(ch);
                    if unhex_val == -1i8 {
                        if ch == (';' as u8) || ch == (' ' as u8) {
                            self.state = State::ChunkParameters;
                        } else {
                            self.errno = Some(HttpErrno::InvalidChunkSize);
                            return Step::HaltHere;
                        }
                    } else {
                        // Guard against overflow with a conservative limit.
                        if (ULLONG_MAX - 16) / 16 < self.content_length {
                            self.errno = Some(HttpErrno::InvalidContentLength);
                            return Step::HaltHere;
                        }
                        self.content_length = self.content_length * 16 + (unhex_val as u64);
                    }
                }
                Step::Advance
            },
            State::ChunkParameters => {
                // Chunk extensions are ignored through the CR.
                if ch == CR {
                    self.state = State::ChunkSizeAlmostDone;
                }
                Step::Advance
            },
            State::ChunkSizeAlmostDone => {
                if self.strict && ch != LF {
                    self.errno = Some(HttpErrno::Strict);
                    return Step::HaltHere;
                }
                self.nread = 0;
                if self.content_length == 0 {
                    // The terminating chunk: what follows are trailers,
                    // parsed as header lines.
                    self.flags.trailing = true;
                    self.state = State::HeaderFieldStart;
                } else {
                    self.state = State::ChunkData;
                    // The chunk's payload now owed to the sink.
                    self.body_expect = Ghost(self.body_total@ + self.content_length as int);
                }
                Step::Advance
            },
            State::ChunkDataDone => {
                if self.strict && ch != LF {
                    self.errno = Some(HttpErrno::Strict);
                    return Step::HaltHere;
                }
                self.nread = 0;
                self.state = State::ChunkSizeStart;
                Step::Advance
            },
            _ => {
                proof {
                    assert(false);
                }
                Step::Advance
            },
        }
    }

    /// Dispatch `ch` at the very start of a connection whose kind is still
    /// open: the first byte decides between request and response.
    pub(crate) fn step_start_req_or_res<T: HttpParserCallback>(&mut self, cb: &mut T, ch: u8) -> (f: Step)
        requires
            old(self).errno is None,
            old(self).core_inv(),
            old(self).state == State::StartReqOrRes,
        ensures
            final(self).strict == old(self).strict,
            old(self).tp != HttpParserType::Both ==> final(self).tp == old(self).tp,
            final(self).body_total@ == old(self).body_total@,
            (final(self).log@ == old(self).log@ || (exists|e: Event|
                final(self).log@ == old(self).log@.push(e))),
            match f {
                Step::Advance => final(self).errno is None && final(self).core_inv()
                    && !spec_is_marked_state(final(self).state)
                    && final(self).state != State::ChunkDataAlmostDone
                    && final(self).state != State::BodyIdentity
                    && final(self).state != State::MessageDone
                    && final(self).state != State::ChunkData,
                Step::Reexecute => final(self).errno is None && final(self).core_inv()
                    && !spec_is_marked_state(final(self).state)
                    && final(self).state != State::ChunkDataAlmostDone
                    && final(self).state != State::BodyIdentity
                    && final(self).state != State::MessageDone
                    && final(self).state != State::ChunkData
                    && retry_rank(final(self).state) < retry_rank(old(self).state),
                Step::HaltAfter => final(self).errno == Some(HttpErrno::CBMessageBegin),
                _ => false,
            },
            (ch == 13 || ch == 10) ==> *final(self) == *old(self),
            (final(self).log@ == old(self).log@ || final(self).log@ == old(self).log@.push(
                Event::MessageBegin,
            )),
            f is Reexecute ==> final(self).log@ == old(self).log@,
    {
        if ch == CR || ch == LF {
            return Step::Advance;
        }
        self.flags = Flags::none();
        self.content_length = ULLONG_MAX;
        if ch == ('H' as u8) {
            self.state = State::ResOrRespH;
            match cb.on_message_begin(self) {
                Err(_) => {
                    self.errno = Some(HttpErrno::CBMessageBegin);
                    return Step::HaltAfter;
                },
                _ => {
                    self.log = Ghost(self.log@.push(Event::MessageBegin));
                },
            }
            Step::Advance
        } else {
            self.tp = HttpParserType::Request;
            self.state = State::StartReq;
            Step::Reexecute
        }
    }

    /// Dispatch `ch` at the start of a response message.
    pub(crate) fn step_start_res<T: HttpParserCallback>(&mut self, cb: &mut T, ch: u8) -> (f: Step)
        requires
            old(self).errno is None,
            old(self).core_inv(),
            old(self).state == State::StartRes,
        ensures
            final(self).strict == old(self).strict,
            final(self).tp == old(self).tp,
            final(self).body_total@ == old(self).body_total@,
            (final(self).log@ == old(self).log@ || (exists|e: Event|
                final(self).log@ == old(self).log@.push(e))),
            match f {
                Step::Advance => final(self).errno is None && final(self).core_inv()
                    && !spec_is_marked_state(final(self).state)
                    && final(self).state != State::ChunkDataAlmostDone
                    && final(self).state != State::BodyIdentity
                    && final(self).state != State::MessageDone
                    && final(self).state != State::ChunkData,
                Step::HaltHere => final(self).errno == Some(HttpErrno::InvalidConstant),
                Step::HaltAfter => final(self).errno == Some(HttpErrno::CBMessageBegin),
                _ => false,
            },
            (ch == 13 || ch == 10) ==> *final(self) == (HttpParser {
                flags: Flags {
                    chunked: false,
                    connection_keep_alive: false,
                    connection_close: false,
                    trailing: false,
                    upgrade: false,
                    skipbody: false,
                },
                content_length: ULLONG_MAX,
                ..*old(self)
            }),
            (final(self).log@ == old(self).log@ || final(self).log@ == old(self).log@.push(
                Event::MessageBegin,
            )),
    {
        self.flags = Flags::none();
        self.content_length = ULLONG_MAX;
        if ch == ('H' as u8) {
            self.state = State::ResH;
            match cb.on_message_begin(self) {
                Err(_) => {
                    self.errno = Some(HttpErrno::CBMessageBegin);
                    return Step::HaltAfter;
                },
                _ => {
                    self.log = Ghost(self.log@.push(Event::MessageBegin));
                },
            }
            Step::Advance
        } else if ch == CR || ch == LF {
            // Blank lines between messages are tolerated.
            Step::Advance
        } else {
            self.errno = Some(HttpErrno::InvalidConstant);
            Step::HaltHere
        }
    }

    /// Dispatch `ch` at the start of a request message: the first method
    /// byte picks the candidate method.
    pub(crate) fn step_start_req<T: HttpParserCallback>(&mut self, cb: &mut T, ch: u8) -> (f: Step)
        requires
            old(self).errno is None,
            old(self).core_inv(),
            old(self).state == State::StartReq,
        ensures
            final(self).strict == old(self).strict,
            final(self).tp == old(self).tp,
            final(self).body_total@ == old(self).body_total@,
            (final(self).log@ == old(self).log@ || (exists|e: Event|
                final(self).log@ == old(self).log@.push(e))),
            match f {
                Step::Advance => final(self).errno is None && final(self).core_inv()
                    && !spec_is_marked_state(final(self).state)
                    && final(self).state != State::ChunkDataAlmostDone
                    && final(self).state != State::BodyIdentity
                    && final(self).state != State::MessageDone
                    && final(self).state != State::ChunkData,
                Step::HaltHere => final(self).errno == Some(HttpErrno::InvalidMethod),
                Step::HaltAfter => final(self).errno == Some(HttpErrno::CBMessageBegin),
                _ => false,
            },
            (ch == 13 || ch == 10) ==> *final(self) == *old(self),
            (ch != 13 && ch != 10 && !spec_is_alpha(ch)) ==> f is HaltHere,
            (final(self).log@ == old(self).log@ || final(self).log@ == old(self).log@.push(
                Event::MessageBegin,
            )),
            (f is Advance && ch != 13 && ch != 10) ==> final(self).log@ == old(self).log@.push(
                Event::MessageBegin,
            ),
    {
        if ch == CR || ch == LF {
            return Step::Advance;
        }
        self.flags = Flags::none();
        self.content_length = ULLONG_MAX;
        if !is_alpha(ch) {
            self.errno = Some(HttpErrno::InvalidMethod);
            return Step::HaltHere;
        }
        self.index = 1;
        if ch == ('C' as u8) {
            self.method = HttpMethod::Connect;  // or Checkout, Copy
        } else if ch == ('D' as u8) {
            self.method = HttpMethod::Delete;
        } else if ch == ('G' as u8) {
            self.method = HttpMethod::Get;
        } else if ch == ('H' as u8) {
            self.method = HttpMethod::Head;
        } else if ch == ('L' as u8) {
            self.method = HttpMethod::Lock;
        } else if ch == ('M' as u8) {
            self.method = HttpMethod::MKCol;  // or Move, Merge, MSearch, MKActivity, MKCalendar
        } else if ch == ('N' as u8) {
            self.method = HttpMethod::Notify;
        } else if ch == ('O' as u8) {
            self.method = HttpMethod::Options;
        } else if ch == ('P' as u8) {
            self.method = HttpMethod::Post;  // or PropFind, PropPatch, Put, Patch, Purge
        } else if ch == ('R' as u8) {
            self.method = HttpMethod::Report;
        } else if ch == ('S' as u8) {
            self.method = HttpMethod::Subscribe;  // or Search
        } else if ch == ('T' as u8) {
            self.method = HttpMethod::Trace;
        } else if ch == ('U' as u8) {
            self.method = HttpMethod::Unlock;  // or Unsubscribe
        } else {
            self.errno = Some(HttpErrno::InvalidMethod);
            return Step::HaltHere;
        }
        self.state = State::ReqMethod;
        match cb.on_message_begin(self) {
            Err(_) => {
                self.errno = Some(HttpErrno::CBMessageBegin);
                return Step::HaltAfter;
            },
            _ => {
                self.log = Ghost(self.log@.push(Event::MessageBegin));
            },
        }
        Step::Advance
    }

    /// Dispatch `ch` inside the method name: extend or pivot the candidate
    /// method, or leave for the URL on a space at the end of the name.
    pub(crate) fn step_req_method(&mut self, ch: u8) -> (f: Step)
        requires
            old(self).errno is None,
            old(self).core_inv(),
            old(self).state == State::ReqMethod,
        ensures
            final(self).strict == old(self).strict,
            final(self).tp == old(self).tp,
            final(self).body_total@ == old(self).body_total@,
            (final(self).log@ == old(self).log@ || (exists|e: Event|
                final(self).log@ == old(self).log@.push(e))),
            match f {
                Step::Advance => final(self).errno is None && final(self).core_inv()
                    && (final(self).state == State::ReqMethod || final(self).state
                    == State::ReqSpacesBeforeUrl),
                Step::HaltHere => final(self).errno == Some(HttpErrno::InvalidMethod),
                _ => false,
            },
            final(self).log@ == old(self).log@,
    {
        let matcher = self.method.name();
        if ch == (' ' as u8) && self.index == matcher.len() {
            self.state = State::ReqSpacesBeforeUrl;
        } else if self.index < matcher.len() && ch == matcher[self.index] {
            // Still on the candidate's name.
        } else if self.method == HttpMethod::Connect {
            if self.index == 1 && ch == ('H' as u8) {
                self.method = HttpMethod::Checkout;
            } else if self.index == 2 && ch == ('P' as u8) {
                self.method = HttpMethod::Copy;
            } else {
                self.errno = Some(HttpErrno::InvalidMethod);
                return Step::HaltHere;
            }
        } else if self.method == HttpMethod::MKCol {
            if self.index == 1 && ch == ('O' as u8) {
                self.method = HttpMethod::Move;
            } else if self.index == 1 && ch == ('E' as u8) {
                self.method = HttpMethod::Merge;
            } else if self.index == 1 && ch == ('-' as u8) {
                self.method = HttpMethod::MSearch;
            } else if self.index == 2 && ch == ('A' as u8) {
                self.method = HttpMethod::MKActivity;
            } else if self.index == 3 && ch == ('A' as u8) {
                self.method = HttpMethod::MKCalendar;
            } else {
                self.errno = Some(HttpErrno::InvalidMethod);
                return Step::HaltHere;
            }
        } else if self.method == HttpMethod::Subscribe {
            if self.index == 1 && ch == ('E' as u8) {
                self.method = HttpMethod::Search;
            } else {
                self.errno = Some(HttpErrno::InvalidMethod);
                return Step::HaltHere;
            }
        } else if self.index == 1 && self.method == HttpMethod::Post {
            if ch == ('R' as u8) {
                self.method = HttpMethod::PropFind;  // or PropPatch
            } else if ch == ('U' as u8) {
                self.method = HttpMethod::Put;  // or Purge
            } else if ch == ('A' as u8) {
                self.method = HttpMethod::Patch;
            } else {
                self.errno = Some(HttpErrno::InvalidMethod);
                return Step::HaltHere;
            }
        } else if self.index == 2 {
            if self.method == HttpMethod::Put {
                if ch == ('R' as u8) {
                    self.method = HttpMethod::Purge;
                } else {
                    self.errno = Some(HttpErrno::InvalidMethod);
                    return Step::HaltHere;
                }
            } else if self.method == HttpMethod::Unlock {
                if ch == ('S' as u8) {
                    self.method = HttpMethod::Unsubscribe;
                } else {
                    self.errno = Some(HttpErrno::InvalidMethod);
                    return Step::HaltHere;
                }
            } else {
                self.errno = Some(HttpErrno::InvalidMethod);
                return Step::HaltHere;
            }
        } else if self.index == 4 && self.method == HttpMethod::PropFind && ch == ('P' as u8) {
            self.method = HttpMethod::PropPatch;
        } else {
            self.errno = Some(HttpErrno::InvalidMethod);
            return Step::HaltHere;
        }
        self.index += 1;
        Step::Advance
    }

    /// Dispatch a token byte of a header name: walk the header-recognition
    /// sub-machine. `c` is the token-folded form of `ch`.
    pub(crate) fn step_header_field_char(&mut self, c: u8, ch: u8)
        requires
            old(self).errno is None,
            old(self).core_inv(),
            old(self).state == State::HeaderField,
        ensures
            final(self).strict == old(self).strict,
            final(self).tp == old(self).tp,
            final(self).body_total@ == old(self).body_total@,
            (final(self).log@ == old(self).log@ || (exists|e: Event|
                final(self).log@ == old(self).log@.push(e))),
            final(self).errno is None,
            final(self).core_inv(),
            final(self).state == State::HeaderField,
            final(self).log@ == old(self).log@,
    {
        match self.header_state {
            HeaderState::General => {},
            HeaderState::C => {
                self.index += 1;
                self.header_state = if c == ('o' as u8) {
                    HeaderState::CO
                } else {
                    HeaderState::General
                };
            },
            HeaderState::CO => {
                self.index += 1;
                self.header_state = if c == ('n' as u8) {
                    HeaderState::CON
                } else {
                    HeaderState::General
                };
            },
            HeaderState::CON => {
                self.index += 1;
                if c == ('n' as u8) {
                    self.header_state = HeaderState::MatchingConnection;
                } else if c == ('t' as u8) {
                    self.header_state = HeaderState::MatchingContentLength;
                } else {
                    self.header_state = HeaderState::General;
                }
            },
            HeaderState::MatchingConnection => {
                self.index += 1;
                let kw = kw_connection();
                if self.index >= kw.len() || c != kw[self.index] {
                    self.header_state = HeaderState::General;
                } else if self.index == kw.len() - 1 {
                    self.header_state = HeaderState::Connection;
                }
            },
            HeaderState::MatchingProxyConnection => {
                self.index += 1;
                let kw = kw_proxy_connection();
                if self.index >= kw.len() || c != kw[self.index] {
                    self.header_state = HeaderState::General;
                } else if self.index == kw.len() - 1 {
                    self.header_state = HeaderState::Connection;
                }
            },
            HeaderState::MatchingContentLength => {
                self.index += 1;
                let kw = kw_content_length();
                if self.index >= kw.len() || c != kw[self.index] {
                    self.header_state = HeaderState::General;
                } else if self.index == kw.len() - 1 {
                    self.header_state = HeaderState::ContentLength;
                }
            },
            HeaderState::MatchingTransferEncoding => {
                self.index += 1;
                let kw = kw_transfer_encoding();
                if self.index >= kw.len() || c != kw[self.index] {
                    self.header_state = HeaderState::General;
                } else if self.index == kw.len() - 1 {
                    self.header_state = HeaderState::TransferEncoding;
                }
            },
            HeaderState::MatchingUpgrade => {
                self.index += 1;
                let kw = kw_upgrade();
                if self.index >= kw.len() || c != kw[self.index] {
                    self.header_state = HeaderState::General;
                } else if self.index == kw.len() - 1 {
                    self.header_state = HeaderState::Upgrade;
                }
            },
            HeaderState::Connection | HeaderState::ContentLength | HeaderState::TransferEncoding
                | HeaderState::Upgrade => {
                // A recognized name keeps its identity over trailing spaces.
                if ch != (' ' as u8) {
                    self.header_state = HeaderState::General;
                }
            },
            _ => {
                self.header_state = HeaderState::General;
            },
        }
    }

    /// Dispatch the first byte of a header value: seed the value keyword
    /// matcher, or start accumulating a Content-Length.
    pub(crate) fn step_header_value_start(&mut self, ch: u8) -> (f: Step)
        requires
            old(self).errno is None,
            old(self).core_inv(),
            old(self).state == State::HeaderValueDiscardWs || old(self).state
                == State::HeaderValueStart,
        ensures
            final(self).strict == old(self).strict,
            final(self).tp == old(self).tp,
            final(self).body_total@ == old(self).body_total@,
            (final(self).log@ == old(self).log@ || (exists|e: Event|
                final(self).log@ == old(self).log@.push(e))),
            final(self).state == State::HeaderValue,
            final(self).log@ == old(self).log@,
            match f {
                Step::Advance => final(self).errno is None && final(self).core_inv(),
                Step::HaltHere => final(self).errno == Some(HttpErrno::InvalidContentLength),
                _ => false,
            },
            (old(self).header_state == HeaderState::ContentLength && f is Advance) ==> (
                spec_is_num(ch) && final(self).content_length == ch - 48),
    {
        self.state = State::HeaderValue;
        self.index = 0;
        let c = lower(ch);
        match self.header_state {
            HeaderState::Upgrade => {
                self.flags.upgrade = true;
                self.header_state = HeaderState::General;
            },
            HeaderState::TransferEncoding => {
                if c == ('c' as u8) {
                    self.header_state = HeaderState::MatchingTransferEncodingChunked;
                } else {
                    self.header_state = HeaderState::General;
                }
            },
            HeaderState::ContentLength => {
                if !is_num(ch) {
                    self.errno = Some(HttpErrno::InvalidContentLength);
                    return Step::HaltHere;
                }
                self.content_length = (ch - ('0' as u8)) as u64;
            },
            HeaderState::Connection => {
                if c == ('k' as u8) {
                    self.header_state = HeaderState::MatchingConnectionKeepAlive;
                } else if c == ('c' as u8) {
                    self.header_state = HeaderState::MatchingConnectionClose;
                } else {
                    self.header_state = HeaderState::General;
                }
            },
            _ => {
                self.header_state = HeaderState::General;
            },
        }
        Step::Advance
    }

    /// Dispatch a non-terminator byte of a header value: accumulate a
    /// Content-Length or walk the value keyword matcher.
    pub(crate) fn step_header_value_char(&mut self, ch: u8) -> (f: Step)
        requires
            old(self).errno is None,
            old(self).core_inv(),
            old(self).state == State::HeaderValue,
        ensures
            final(self).strict == old(self).strict,
            final(self).tp == old(self).tp,
            final(self).body_total@ == old(self).body_total@,
            (final(self).log@ == old(self).log@ || (exists|e: Event|
                final(self).log@ == old(self).log@.push(e))),
            final(self).state == State::HeaderValue,
            final(self).log@ == old(self).log@,
            match f {
                Step::Advance => final(self).errno is None && final(self).core_inv(),
                Step::HaltHere => final(self).errno == Some(HttpErrno::InvalidContentLength),
                _ => false,
            },
            (old(self).header_state == HeaderState::ContentLength && f is Advance && ch != 32)
                ==> (spec_is_num(ch) && final(self).content_length == old(self).content_length
                * 10 + (ch - 48)),
            (old(self).header_state == HeaderState::ContentLength && f is Advance && ch == 32)
                ==> final(self).content_length == old(self).content_length,
    {
        let c = lower(ch);
        match self.header_state {
            HeaderState::General => {},
            HeaderState::ContentLength => {
                if ch != (' ' as u8) {
                    if !is_num(ch) {
                        self.errno = Some(HttpErrno::InvalidContentLength);
                        return Step::HaltHere;
                    }
                    // Guard against overflow with a conservative limit.
                    if (ULLONG_MAX - 10) / 10 < self.content_length {
                        self.errno = Some(HttpErrno::InvalidContentLength);
                        return Step::HaltHere;
                    }
                    self.content_length = self.content_length * 10 + ((ch - ('0' as u8))
                        as u64);
                }
            },
            HeaderState::MatchingTransferEncodingChunked => {
                self.index += 1;
                let kw = kw_chunked();
                if self.index >= kw.len() || c != kw[self.index] {
                    self.header_state = HeaderState::General;
                } else if self.index == kw.len() - 1 {
                    self.header_state = HeaderState::TransferEncodingChunked;
                }
            },
            HeaderState::MatchingConnectionKeepAlive => {
                self.index += 1;
                let kw = kw_keep_alive();
                if self.index >= kw.len() || c != kw[self.index] {
                    self.header_state = HeaderState::General;
                } else if self.index == kw.len() - 1 {
                    self.header_state = HeaderState::ConnectionKeepAlive;
                }
            },
            HeaderState::MatchingConnectionClose => {
                self.index += 1;
                let kw = kw_close();
                if self.index >= kw.len() || c != kw[self.index] {
                    self.header_state = HeaderState::General;
                } else if self.index == kw.len() - 1 {
                    self.header_state = HeaderState::ConnectionClose;
                }
            },
            HeaderState::TransferEncodingChunked | HeaderState::ConnectionKeepAlive
                | HeaderState::ConnectionClose => {
                // A recognized value keeps its identity over trailing spaces.
                if ch != (' ' as u8) {
                    self.header_state = HeaderState::General;
                }
            },
            _ => {
                self.header_state = HeaderState::General;
            },
        }
        Step::Advance
    }

    /// Dispatch the LF that ends the header section, or a trailer section's
    /// final line end.
    pub(crate) fn step_headers_almost_done<T: HttpParserCallback>(&mut self, cb: &mut T, ch: u8) -> (f:
        Step)
        requires
            old(self).errno is None,
            old(self).core_inv(),
            old(self).state == State::HeadersAlmostDone,
        ensures
            final(self).strict == old(self).strict,
            old(self).tp != HttpParserType::Both ==> final(self).tp == old(self).tp,
            final(self).body_total@ == old(self).body_total@,
            (final(self).log@ == old(self).log@ || (exists|e: Event|
                final(self).log@ == old(self).log@.push(e))),
            match f {
                Step::Advance => final(self).errno is None && final(self).core_inv()
                    && !spec_is_marked_state(final(self).state)
                    && final(self).state != State::ChunkDataAlmostDone
                    && final(self).state != State::BodyIdentity
                    && final(self).state != State::MessageDone
                    && final(self).state != State::ChunkData,
                Step::Reexecute => final(self).errno is None && final(self).core_inv()
                    && !spec_is_marked_state(final(self).state)
                    && final(self).state != State::ChunkDataAlmostDone
                    && final(self).state != State::BodyIdentity
                    && final(self).state != State::MessageDone
                    && final(self).state != State::ChunkData
                    && retry_rank(final(self).state) < retry_rank(old(self).state),
                Step::HaltHere => (final(self).errno == Some(HttpErrno::Strict) || final(self).errno == Some(HttpErrno::CBHeadersComplete)),
                Step::HaltAfter => final(self).errno == Some(HttpErrno::CBMessageComplete),
                _ => false,
            },
            f is Advance ==> final(self).log@ == old(self).log@.push(Event::MessageComplete),
            f is Reexecute ==> (final(self).log@.last() matches Event::HeadersComplete(d)
                && final(self).log@ == old(self).log@.push(Event::HeadersComplete(d))
                && final(self).flags.skipbody == (old(self).flags.skipbody || d
                == CallbackDecision::SkipBody)),
    {
        if self.strict && ch != LF {
            self.errno = Some(HttpErrno::Strict);
            return Step::HaltHere;
        }
        if self.flags.trailing {
            // The trailers after the terminating chunk ended: the chunked
            // message is complete.
            self.state = self.new_message_state();
            match cb.on_message_complete(self) {
                Err(_) => {
                    self.errno = Some(HttpErrno::CBMessageComplete);
                    return Step::HaltAfter;
                },
                _ => {
                    self.log = Ghost(self.log@.push(Event::MessageComplete));
                },
            }
            Step::Advance
        } else {
            self.state = State::HeadersDone;
            // Set before the callback so the sink can see it.
            self.upgrade = self.flags.upgrade || self.method == HttpMethod::Connect;
            match cb.on_headers_complete(self) {
                Ok(CallbackDecision::Nothing) => {
                    self.log = Ghost(self.log@.push(Event::HeadersComplete(
                        CallbackDecision::Nothing,
                    )));
                },
                Ok(CallbackDecision::SkipBody) => {
                    self.flags.skipbody = true;
                    self.log = Ghost(self.log@.push(Event::HeadersComplete(
                        CallbackDecision::SkipBody,
                    )));
                },
                _ => {
                    self.errno = Some(HttpErrno::CBHeadersComplete);
                    return Step::HaltHere;
                },
            }
            Step::Reexecute
        }
    }

    /// Decide the body framing once the headers are complete: upgrade,
    /// skipped body, chunked coding, identity body of known length, no
    /// body, or a body that runs to EOF.
    pub(crate) fn step_headers_done<T: HttpParserCallback>(&mut self, cb: &mut T, ch: u8) -> (f: Step)
        requires
            old(self).errno is None,
            old(self).core_inv(),
            old(self).state == State::HeadersDone,
        ensures
            final(self).strict == old(self).strict,
            old(self).tp != HttpParserType::Both ==> final(self).tp == old(self).tp,
            final(self).body_total@ == old(self).body_total@,
            (final(self).log@ == old(self).log@ || (exists|e: Event|
                final(self).log@ == old(self).log@.push(e))),
            match f {
                Step::Advance => final(self).errno is None && final(self).core_inv()
                    && !spec_is_marked_state(final(self).state)
                    && final(self).state != State::ChunkDataAlmostDone,
                Step::HaltHere => final(self).errno == Some(HttpErrno::Strict),
                Step::HaltAfter => final(self).errno == Some(HttpErrno::CBMessageComplete),
                Step::Upgrade => final(self).upgrade && final(self).state
                    != State::BodyIdentity && final(self).state != State::MessageDone
                    && final(self).state != State::ChunkData && final(self).state
                    != State::ChunkDataAlmostDone && (final(self).errno is None
                    || final(self).errno == Some(HttpErrno::CBMessageComplete)) && (
                    final(self).errno is None ==> final(self).core_inv()),
                _ => false,
            },
            (f is Advance && final(self).state == State::BodyIdentity) ==> final(self).body_expect@ == final(self).body_total@ + final(self).content_length,
            f is Advance ==> (final(self).state != State::MessageDone && final(self).state
                != State::ChunkData),
            (final(self).log@ == old(self).log@ || final(self).log@ == old(self).log@.push(
                Event::MessageComplete,
            )),
    {
        if self.strict && ch != LF {
            self.errno = Some(HttpErrno::Strict);
            return Step::HaltHere;
        }
        self.nread = 0;
        if self.upgrade {
            // The rest of the stream is another protocol: hand the
            // remaining bytes back to the embedder.
            self.state = self.new_message_state();
            match cb.on_message_complete(self) {
                Err(_) => {
                    self.errno = Some(HttpErrno::CBMessageComplete);
                },
                _ => {
                    self.log = Ghost(self.log@.push(Event::MessageComplete));
                },
            }
            return Step::Upgrade;
        }
        if self.flags.skipbody {
            self.state = self.new_message_state();
            match cb.on_message_complete(self) {
                Err(_) => {
                    self.errno = Some(HttpErrno::CBMessageComplete);
                    return Step::HaltAfter;
                },
                _ => {
                    self.log = Ghost(self.log@.push(Event::MessageComplete));
                },
            }
        } else if self.flags.chunked {
            // Chunked coding overrides any Content-Length.
            self.state = State::ChunkSizeStart;
        } else {
            if self.content_length == 0 {
                // Content-Length given but zero.
                self.state = self.new_message_state();
                match cb.on_message_complete(self) {
                    Err(_) => {
                        self.errno = Some(HttpErrno::CBMessageComplete);
                        return Step::HaltAfter;
                    },
                    _ => {
                        self.log = Ghost(self.log@.push(Event::MessageComplete));
                    },
                }
            } else if self.content_length != ULLONG_MAX {
                self.state = State::BodyIdentity;
                // The body now owed: this many bytes are to be handed to
                // the sink before the message completes.
                self.body_expect = Ghost(self.body_total@ + self.content_length as int);
            } else {
                if self.tp == HttpParserType::Request || !self.http_message_needs_eof() {
                    // No body: read the next message.
                    self.state = self.new_message_state();
                    match cb.on_message_complete(self) {
                        Err(_) => {
                            self.errno = Some(HttpErrno::CBMessageComplete);
                            return Step::HaltAfter;
                        },
                        _ => {
                            self.log = Ghost(self.log@.push(Event::MessageComplete));
                        },
                    }
                } else {
                    self.state = State::BodyIdentityEof;
                }
            }
        }
        Step::Advance
    }

    /// The byte after a completed message: start the next message on this
    /// connection.
    pub(crate) fn step_message_done<T: HttpParserCallback>(&mut self, cb: &mut T) -> (f: Step)
        requires
            old(self).errno is None,
            old(self).core_inv(),
            old(self).state == State::MessageDone,
        ensures
            final(self).strict == old(self).strict,
            old(self).tp != HttpParserType::Both ==> final(self).tp == old(self).tp,
            final(self).body_total@ == old(self).body_total@,
            (final(self).log@ == old(self).log@ || (exists|e: Event|
                final(self).log@ == old(self).log@.push(e))),
            match f {
                Step::Advance => final(self).errno is None && final(self).core_inv()
                    && !spec_is_marked_state(final(self).state)
                    && final(self).state != State::ChunkDataAlmostDone
                    && final(self).state != State::BodyIdentity
                    && final(self).state != State::MessageDone
                    && final(self).state != State::ChunkData,
                Step::HaltAfter => final(self).errno == Some(HttpErrno::CBMessageComplete),
                _ => false,
            },
            f is Advance ==> final(self).log@ == old(self).log@.push(Event::MessageComplete),
    {
        self.state = self.new_message_state();
        match cb.on_message_complete(self) {
            Err(_) => {
                self.errno = Some(HttpErrno::CBMessageComplete);
                return Step::HaltAfter;
            },
            _ => {
                self.log = Ghost(self.log@.push(Event::MessageComplete));
            },
        }
        Step::Advance
    }

    /// Dispatch `ch` in the status-phrase states, holding the status mark.
    pub(crate) fn run_status<T: HttpParserCallback>(
        &mut self,
        cb: &mut T,
        data: &[u8],
        index: usize,
        status_mark: &mut Option<usize>,
        ch: u8,
    ) -> (f: Step)
        requires
            old(self).errno is None,
            old(self).core_inv(),
            old(self).state == State::ResStatusStart || old(self).state == State::ResStatus,
            index < data@.len(),
            ((*old(status_mark)) is Some <==> old(self).state == State::ResStatus),
            (*old(status_mark) matches Some(m) ==> m <= index),
        ensures
            final(self).strict == old(self).strict,
            final(self).tp == old(self).tp,
            final(self).body_total@ == old(self).body_total@,
            (final(self).log@ == old(self).log@ || (exists|e: Event|
                final(self).log@ == old(self).log@.push(e))),
            (*final(status_mark) matches Some(m) ==> m <= index),
            match f {
                Step::Advance => final(self).errno is None && final(self).core_inv() && (
                    (*final(status_mark)) is Some <==> final(self).state == State::ResStatus) && (
                    final(self).state == State::ResStatus || final(self).state
                    == State::ResLineAlmostDone || final(self).state == State::HeaderFieldStart),
                Step::HaltAfter => final(self).errno == Some(HttpErrno::CBStatus),
                _ => false,
            },
            (final(self).log@ == old(self).log@ || (exists|m: int|
                0 <= m <= index && final(self).log@ == old(self).log@.push(Event::Status(
                data@.subrange(m, index as int))))),
    {
        if self.state == State::ResStatusStart {
            if ch == CR {
                self.state = State::ResLineAlmostDone;
            } else if ch == LF {
                self.state = State::HeaderFieldStart;
            } else {
                if status_mark.is_none() {
                    *status_mark = Some(index);
                }
                self.state = State::ResStatus;
                self.index = 0;
            }
            Step::Advance
        } else {
            if ch == CR || ch == LF {
                self.state = if ch == CR {
                    State::ResLineAlmostDone
                } else {
                    State::HeaderFieldStart
                };
                if status_mark.is_some() {
                    let m = status_mark.unwrap();
                    match cb.on_status(self, &data[m..index]) {
                        Err(_) => {
                            self.errno = Some(HttpErrno::CBStatus);
                            return Step::HaltAfter;
                        },
                        _ => {},
                    }
                    self.log = Ghost(self.log@.push(Event::Status(data@.subrange(
                        m as int,
                        index as int,
                    ))));
                    *status_mark = None;
                }
            }
            Step::Advance
        }
    }

    /// Dispatch `ch` in the URL states, holding the URL mark.
    pub(crate) fn run_url<T: HttpParserCallback>(
        &mut self,
        cb: &mut T,
        data: &[u8],
        index: usize,
        url_mark: &mut Option<usize>,
        ch: u8,
    ) -> (f: Step)
        requires
            old(self).errno is None,
            old(self).core_inv(),
            old(self).state == State::ReqSpacesBeforeUrl || spec_is_url_state(old(self).state),
            index < data@.len(),
            ((*old(url_mark)) is Some <==> spec_is_url_state(old(self).state)),
            (*old(url_mark) matches Some(m) ==> m <= index),
        ensures
            final(self).strict == old(self).strict,
            final(self).tp == old(self).tp,
            final(self).body_total@ == old(self).body_total@,
            (final(self).log@ == old(self).log@ || (exists|e: Event|
                final(self).log@ == old(self).log@.push(e))),
            (*final(url_mark) matches Some(m) ==> m <= index),
            match f {
                Step::Advance => final(self).errno is None && final(self).core_inv() && (
                    (*final(url_mark)) is Some <==> spec_is_url_state(final(self).state)) && (
                    spec_is_url_state(final(self).state) || final(self).state
                    == State::ReqSpacesBeforeUrl || final(self).state == State::ReqHttpStart
                    || final(self).state == State::ReqLineAlmostDone || final(self).state
                    == State::HeaderFieldStart),
                Step::HaltHere => final(self).errno == Some(HttpErrno::InvalidUrl),
                Step::HaltAfter => final(self).errno == Some(HttpErrno::CBUrl),
                _ => false,
            },
            (final(self).log@ == old(self).log@ || (exists|m: int|
                0 <= m <= index && final(self).log@ == old(self).log@.push(Event::Url(
                data@.subrange(m, index as int))))),
    {
        if self.state == State::ReqSpacesBeforeUrl {
            if ch != (' ' as u8) {
                if url_mark.is_none() {
                    *url_mark = Some(index);
                }
                if self.method == HttpMethod::Connect {
                    // CONNECT is followed by an authority, not a path.
                    self.state = State::ReqServerStart;
                }
                proof {
                    lemma_parse_url_char_stays_url(self.strict, self.state, ch);
                }
                self.state = self.parse_url_char(self.state, ch);
                if self.state == State::Dead {
                    self.errno = Some(HttpErrno::InvalidUrl);
                    return Step::HaltHere;
                }
            }
            Step::Advance
        } else if self.state == State::ReqSchema || self.state == State::ReqSchemaSlash
            || self.state == State::ReqSchemaSlashSlash || self.state == State::ReqServerStart {
            if ch == (' ' as u8) || ch == CR || ch == LF {
                // No whitespace is allowed before the authority ends.
                self.errno = Some(HttpErrno::InvalidUrl);
                return Step::HaltHere;
            }
            proof {
                lemma_parse_url_char_stays_url(self.strict, self.state, ch);
            }
            self.state = self.parse_url_char(self.state, ch);
            if self.state == State::Dead {
                self.errno = Some(HttpErrno::InvalidUrl);
                return Step::HaltHere;
            }
            Step::Advance
        } else {
            if ch == (' ' as u8) {
                self.state = State::ReqHttpStart;
                if url_mark.is_some() {
                    let m = url_mark.unwrap();
                    match cb.on_url(self, &data[m..index]) {
                        Err(_) => {
                            self.errno = Some(HttpErrno::CBUrl);
                            return Step::HaltAfter;
                        },
                        _ => {},
                    }
                    self.log = Ghost(self.log@.push(Event::Url(data@.subrange(
                        m as int,
                        index as int,
                    ))));
                    *url_mark = None;
                }
            } else if ch == CR || ch == LF {
                // A request line without a version is HTTP/0.9.
                self.http_version.major = 0;
                self.http_version.minor = 9;
                self.state = if ch == CR {
                    State::ReqLineAlmostDone
                } else {
                    State::HeaderFieldStart
                };
                if url_mark.is_some() {
                    let m = url_mark.unwrap();
                    match cb.on_url(self, &data[m..index]) {
                        Err(_) => {
                            self.errno = Some(HttpErrno::CBUrl);
                            return Step::HaltAfter;
                        },
                        _ => {},
                    }
                    self.log = Ghost(self.log@.push(Event::Url(data@.subrange(
                        m as int,
                        index as int,
                    ))));
                    *url_mark = None;
                }
            } else {
                proof {
                    lemma_parse_url_char_stays_url(self.strict, self.state, ch);
                }
                self.state = self.parse_url_char(self.state, ch);
                if self.state == State::Dead {
                    self.errno = Some(HttpErrno::InvalidUrl);
                    return Step::HaltHere;
                }
            }
            Step::Advance
        }
    }

    /// Dispatch `ch` in the header-name states, holding the field mark.
    pub(crate) fn run_header_field<T: HttpParserCallback>(
        &mut self,
        cb: &mut T,
        data: &[u8],
        index: usize,
        header_field_mark: &mut Option<usize>,
        ch: u8,
    ) -> (f: Step)
        requires
            old(self).errno is None,
            old(self).core_inv(),
            old(self).state == State::HeaderFieldStart || old(self).state == State::HeaderField,
            index < data@.len(),
            ((*old(header_field_mark)) is Some <==> old(self).state == State::HeaderField),
            (*old(header_field_mark) matches Some(m) ==> m <= index),
        ensures
            final(self).strict == old(self).strict,
            final(self).tp == old(self).tp,
            final(self).body_total@ == old(self).body_total@,
            (final(self).log@ == old(self).log@ || (exists|e: Event|
                final(self).log@ == old(self).log@.push(e))),
            (*final(header_field_mark) matches Some(m) ==> m <= index),
            match f {
                Step::Advance => final(self).errno is None && final(self).core_inv() && (
                    (*final(header_field_mark)) is Some <==> final(self).state
                    == State::HeaderField) && (final(self).state == State::HeaderField || final(self).state == State::HeadersAlmostDone || final(self).state
                    == State::HeaderValueDiscardWs),
                Step::Reexecute => final(self).errno is None && final(self).core_inv() && final(self).state == State::HeadersAlmostDone && (*final(header_field_mark)) is None
                    && retry_rank(final(self).state) < retry_rank(old(self).state),
                Step::HaltHere => final(self).errno == Some(HttpErrno::InvalidHeaderToken),
                Step::HaltAfter => final(self).errno == Some(HttpErrno::CBHeaderField),
                _ => false,
            },
            (final(self).log@ == old(self).log@ || (exists|m: int|
                0 <= m <= index && final(self).log@ == old(self).log@.push(
                Event::HeaderField(data@.subrange(m, index as int))))),
    {
        if self.state == State::HeaderFieldStart {
            if ch == CR {
                self.state = State::HeadersAlmostDone;
                Step::Advance
            } else if ch == LF {
                // A bare LF here is the second line end that closes the
                // header section.
                self.state = State::HeadersAlmostDone;
                Step::Reexecute
            } else {
                let c_opt = token(self.strict, ch);
                if c_opt.is_none() {
                    self.errno = Some(HttpErrno::InvalidHeaderToken);
                    return Step::HaltHere;
                }
                if header_field_mark.is_none() {
                    *header_field_mark = Some(index);
                }
                self.index = 0;
                self.state = State::HeaderField;
                let c = c_opt.unwrap();
                if c == ('c' as u8) {
                    self.header_state = HeaderState::C;
                } else if c == ('p' as u8) {
                    self.header_state = HeaderState::MatchingProxyConnection;
                } else if c == ('t' as u8) {
                    self.header_state = HeaderState::MatchingTransferEncoding;
                } else if c == ('u' as u8) {
                    self.header_state = HeaderState::MatchingUpgrade;
                } else {
                    self.header_state = HeaderState::General;
                }
                Step::Advance
            }
        } else {
            let c_opt = token(self.strict, ch);
            if c_opt.is_some() {
                self.step_header_field_char(c_opt.unwrap(), ch);
                Step::Advance
            } else if ch == (':' as u8) {
                self.state = State::HeaderValueDiscardWs;
                if header_field_mark.is_some() {
                    let m = header_field_mark.unwrap();
                    match cb.on_header_field(self, &data[m..index]) {
                        Err(_) => {
                            self.errno = Some(HttpErrno::CBHeaderField);
                            return Step::HaltAfter;
                        },
                        _ => {},
                    }
                    self.log = Ghost(self.log@.push(Event::HeaderField(data@.subrange(
                        m as int,
                        index as int,
                    ))));
                    *header_field_mark = None;
                }
                Step::Advance
            } else {
                self.errno = Some(HttpErrno::InvalidHeaderToken);
                Step::HaltHere
            }
        }
    }

    /// Dispatch `ch` in the header-value states, holding the value mark.
    pub(crate) fn run_header_value<T: HttpParserCallback>(
        &mut self,
        cb: &mut T,
        data: &[u8],
        index: usize,
        header_value_mark: &mut Option<usize>,
        ch: u8,
    ) -> (f: Step)
        requires
            old(self).errno is None,
            old(self).core_inv(),
            old(self).state == State::HeaderValueDiscardWs || old(self).state
                == State::HeaderValueStart || old(self).state == State::HeaderValue || old(self).state == State::HeaderValueDiscardLws,
            index < data@.len(),
            ((*old(header_value_mark)) is Some <==> old(self).state == State::HeaderValue),
            (*old(header_value_mark) matches Some(m) ==> m <= index),
        ensures
            final(self).strict == old(self).strict,
            final(self).tp == old(self).tp,
            final(self).body_total@ == old(self).body_total@,
            (final(self).log@ == old(self).log@ || (exists|e: Event|
                final(self).log@ == old(self).log@.push(e))),
            (*final(header_value_mark) matches Some(m) ==> m <= index),
            match f {
                Step::Advance => final(self).errno is None && final(self).core_inv() && (
                    (*final(header_value_mark)) is Some <==> final(self).state
                    == State::HeaderValue) && (final(self).state == State::HeaderValue || final(self).state == State::HeaderValueDiscardWs || final(self).state
                    == State::HeaderValueDiscardWsAlmostDone || final(self).state
                    == State::HeaderValueDiscardLws || final(self).state
                    == State::HeaderAlmostDone),
                Step::Reexecute => final(self).errno is None && final(self).core_inv() && (
                    final(self).state == State::HeaderAlmostDone || final(self).state
                    == State::HeaderFieldStart) && (*final(header_value_mark)) is None
                    && retry_rank(final(self).state) < retry_rank(old(self).state),
                Step::HaltHere => (final(self).errno == Some(HttpErrno::InvalidContentLength) || final(self).errno == Some(HttpErrno::CBHeaderValue)),
                Step::HaltAfter => final(self).errno == Some(HttpErrno::CBHeaderValue),
                _ => false,
            },
            (final(self).log@ == old(self).log@ || (exists|m: int|
                0 <= m <= index && final(self).log@ == old(self).log@.push(
                Event::HeaderValue(data@.subrange(m, index as int))))),
    {
        if self.state == State::HeaderValueDiscardWs || self.state == State::HeaderValueStart {
            if self.state == State::HeaderValueDiscardWs && (ch == (' ' as u8) || ch == 9) {
                // Skip whitespace before the value.
                Step::Advance
            } else if self.state == State::HeaderValueDiscardWs && ch == CR {
                self.state = State::HeaderValueDiscardWsAlmostDone;
                Step::Advance
            } else if self.state == State::HeaderValueDiscardWs && ch == LF {
                self.state = State::HeaderValueDiscardLws;
                Step::Advance
            } else {
                if header_value_mark.is_none() {
                    *header_value_mark = Some(index);
                }
                match self.step_header_value_start(ch) {
                    Step::HaltHere => Step::HaltHere,
                    _ => Step::Advance,
                }
            }
        } else if self.state == State::HeaderValue {
            if ch == CR || ch == LF {
                self.state = State::HeaderAlmostDone;
                if header_value_mark.is_some() {
                    let m = header_value_mark.unwrap();
                    match cb.on_header_value(self, &data[m..index]) {
                        Err(_) => {
                            self.errno = Some(HttpErrno::CBHeaderValue);
                            if ch == CR {
                                return Step::HaltAfter;
                            }
                            return Step::HaltHere;
                        },
                        _ => {},
                    }
                    self.log = Ghost(self.log@.push(Event::HeaderValue(data@.subrange(
                        m as int,
                        index as int,
                    ))));
                    *header_value_mark = None;
                }
                if ch == LF {
                    Step::Reexecute
                } else {
                    Step::Advance
                }
            } else {
                match self.step_header_value_char(ch) {
                    Step::HaltHere => Step::HaltHere,
                    _ => Step::Advance,
                }
            }
        } else {
            // HeaderValueDiscardLws
            if ch == (' ' as u8) || ch == 9 {
                self.state = State::HeaderValueDiscardWs;
                Step::Advance
            } else {
                // The header value was empty.
                if header_value_mark.is_none() {
                    *header_value_mark = Some(index);
                }
                self.state = State::HeaderFieldStart;
                if header_value_mark.is_some() {
                    let m = header_value_mark.unwrap();
                    match cb.on_header_value(self, &data[m..index]) {
                        Err(_) => {
                            self.errno = Some(HttpErrno::CBHeaderValue);
                            return Step::HaltHere;
                        },
                        _ => {},
                    }
                    self.log = Ghost(self.log@.push(Event::HeaderValue(data@.subrange(
                        m as int,
                        index as int,
                    ))));
                    *header_value_mark = None;
                }
                Step::Reexecute
            }
        }
    }

    /// Dispatch `ch` in the body and chunk-data states, holding the body
    /// mark and moving the chunk cursor over the span taken.
    pub(crate) fn run_body<T: HttpParserCallback>(
        &mut self,
        cb: &mut T,
        data: &[u8],
        index: &mut usize,
        body_mark: &mut Option<usize>,
        ch: u8,
    ) -> (f: Step)
        requires
            old(self).errno is None,
            old(self).core_inv(),
            old(self).state == State::BodyIdentity || old(self).state == State::BodyIdentityEof
                || old(self).state == State::ChunkData || old(self).state
                == State::ChunkDataAlmostDone,
            *old(index) < data@.len(),
            ((*old(body_mark)) is Some ==> old(self).state == State::ChunkDataAlmostDone),
            (*old(body_mark) matches Some(m) ==> m <= *old(index)),
            old(self).state == State::BodyIdentity ==> old(self).body_expect@ == old(self).body_total@ + old(self).content_length,
            old(self).state == State::ChunkData ==> old(self).body_expect@ == old(self).body_total@ + old(self).content_length,
            old(self).state == State::ChunkDataAlmostDone ==> old(self).body_expect@ == old(self).body_total@ + (match *old(body_mark) {
                Some(m) => *old(index) - m,
                None => 0int,
            }),
        ensures
            final(self).strict == old(self).strict,
            final(self).tp == old(self).tp,
            final(self).body_total@ + spec_body_bytes(old(self).log@) == old(self).body_total@
                + spec_body_bytes(final(self).log@),
            (final(self).log@ == old(self).log@ || (exists|e: Event|
                final(self).log@ == old(self).log@.push(e))),
            *old(index) <= *final(index) < data@.len(),
            (*final(body_mark) matches Some(m) ==> m <= *final(index)),
            match f {
                Step::Advance => final(self).errno is None && final(self).core_inv() && (
                    (*final(body_mark)) is Some ==> (final(self).state
                    == State::ChunkDataAlmostDone || ((final(self).state == State::ChunkData
                    || final(self).state == State::BodyIdentity || final(self).state
                    == State::BodyIdentityEof) && *final(index) + 1 == data@.len()))) && (
                    final(self).state == State::BodyIdentity || final(self).state
                    == State::BodyIdentityEof || final(self).state == State::ChunkData || final(self).state == State::ChunkDataAlmostDone || final(self).state
                    == State::ChunkDataDone),
                Step::Reexecute => final(self).errno is None && final(self).core_inv() && final(self).state == State::MessageDone && (*final(body_mark)) is None && retry_rank(
                    final(self).state,
                ) < retry_rank(old(self).state) && final(self).body_expect@
                    == final(self).body_total@,
                Step::HaltHere => (final(self).errno == Some(HttpErrno::CBBody) || final(self).errno == Some(HttpErrno::Strict)),
                Step::HaltAfter => final(self).errno == Some(HttpErrno::CBBody),
                _ => false,
            },
            (final(self).log@ == old(self).log@ || (exists|m: int, j: int|
                0 <= m <= j <= data@.len() && final(self).log@ == old(self).log@.push(
                Event::Body(data@.subrange(m, j))))),
            (f is Advance && final(self).state == State::BodyIdentity) ==> final(self).body_expect@
                == final(self).body_total@ + final(self).content_length + (match *final(body_mark) {
                Some(m) => *final(index) + 1 - m,
                None => 0int,
            }),
            (f is Advance && final(self).state == State::ChunkData) ==> final(self).body_expect@
                == final(self).body_total@ + final(self).content_length + (match *final(body_mark) {
                Some(m) => *final(index) + 1 - m,
                None => 0int,
            }),
            (f is Advance && final(self).state == State::ChunkDataAlmostDone) ==> final(self).body_expect@
                == final(self).body_total@ + (match *final(body_mark) {
                Some(m) => *final(index) + 1 - m,
                None => 0int,
            }),
            f is Advance ==> final(self).state != State::MessageDone,
    {
        if self.state == State::BodyIdentity {
            let remaining: u64 = (data.len() - *index) as u64;
            let to_read: u64 = if self.content_length < remaining {
                self.content_length
            } else {
                remaining
            };
            if body_mark.is_none() {
                *body_mark = Some(*index);
            }
            // The cursor lands on the last byte taken, so that the byte
            // after the body is seen by the next state; the driver's own
            // advance covers that byte.
            self.content_length = self.content_length - to_read;
            *index = *index + ((to_read - 1) as usize);
            if self.content_length == 0 {
                self.state = State::MessageDone;
                // Deliver through the current byte at once, so that
                // completion by length is visible without waiting for more
                // input.
                if body_mark.is_some() {
                    let m = body_mark.unwrap();
                    match cb.on_body(self, &data[m..*index + 1]) {
                        Err(_) => {
                            self.errno = Some(HttpErrno::CBBody);
                            return Step::HaltHere;
                        },
                        _ => {},
                    }
                    self.body_total = Ghost(self.body_total@ + (*index + 1 - m));
                    self.log = Ghost(self.log@.push(Event::Body(data@.subrange(
                        m as int,
                        *index + 1,
                    ))));
                    *body_mark = None;
                }
                Step::Reexecute
            } else {
                Step::Advance
            }
        } else if self.state == State::BodyIdentityEof {
            if body_mark.is_none() {
                *body_mark = Some(*index);
            }
            *index = data.len() - 1;
            Step::Advance
        } else if self.state == State::ChunkData {
            let remaining: u64 = (data.len() - *index) as u64;
            let to_read: u64 = if self.content_length < remaining {
                self.content_length
            } else {
                remaining
            };
            if body_mark.is_none() {
                *body_mark = Some(*index);
            }
            self.content_length = self.content_length - to_read;
            *index = *index + ((to_read - 1) as usize);
            if self.content_length == 0 {
                self.state = State::ChunkDataAlmostDone;
            }
            Step::Advance
        } else {
            // ChunkDataAlmostDone
            if self.strict && ch != CR {
                self.errno = Some(HttpErrno::Strict);
                return Step::HaltHere;
            }
            self.state = State::ChunkDataDone;
            if body_mark.is_some() {
                let m = body_mark.unwrap();
                match cb.on_body(self, &data[m..*index]) {
                    Err(_) => {
                        self.errno = Some(HttpErrno::CBBody);
                        return Step::HaltAfter;
                    },
                    _ => {},
                }
                self.body_total = Ghost(self.body_total@ + (*index - m));
                self.log = Ghost(self.log@.push(Event::Body(data@.subrange(
                    m as int,
                    *index as int,
                ))));
                *body_mark = None;
            }
            Step::Advance
        }
    }
}

} // verus!
