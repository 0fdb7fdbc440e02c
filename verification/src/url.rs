//! The URL sub-machine: a pure step function the main machine consults
//! while inside URL-bearing states.

use vstd::prelude::*;
use crate::chars::is_alpha;
use crate::chars::is_url_char;
use crate::chars::is_userinfo_char;
use crate::chars::spec_is_alpha;
use crate::chars::spec_is_url_char;
use crate::chars::spec_is_userinfo_char;
use crate::parser::HttpParser;
use crate::state::State;
use crate::state::spec_is_url_state;

verus! {

/// One step of the URL sub-machine: the state after reading `ch` in state
/// `s`. A step to `State::Dead` rejects the byte; the caller decides
/// whether that ends the URL or the message. Space, CR and LF always
/// reject; in strict mode tab and form feed reject too.
pub open spec fn spec_parse_url_char(strict: bool, s: State, ch: u8) -> State {
    if ch == (' ' as u8) || ch == 13 || ch == 10 {
        State::Dead
    } else if strict && (ch == 9 || ch == 12) {
        State::Dead
    } else {
        match s {
            State::ReqSpacesBeforeUrl => {
                if ch == ('/' as u8) || ch == ('*' as u8) {
                    State::ReqPath
                } else if spec_is_alpha(ch) {
                    State::ReqSchema
                } else {
                    State::Dead
                }
            },
            State::ReqSchema => {
                if spec_is_alpha(ch) {
                    s
                } else if ch == (':' as u8) {
                    State::ReqSchemaSlash
                } else {
                    State::Dead
                }
            },
            State::ReqSchemaSlash => {
                if ch == ('/' as u8) {
                    State::ReqSchemaSlashSlash
                } else {
                    State::Dead
                }
            },
            State::ReqSchemaSlashSlash => {
                if ch == ('/' as u8) {
                    State::ReqServerStart
                } else {
                    State::Dead
                }
            },
            State::ReqServerStart | State::ReqServer | State::ReqServerWithAt => {
                if ch == ('@' as u8) && s == State::ReqServerWithAt {
                    // A second '@' would make the userinfo ambiguous.
                    State::Dead
                } else if ch == ('/' as u8) {
                    State::ReqPath
                } else if ch == ('?' as u8) {
                    State::ReqQueryStringStart
                } else if ch == ('@' as u8) {
                    State::ReqServerWithAt
                } else if spec_is_userinfo_char(ch) || ch == ('[' as u8) || ch == (']' as u8) {
                    State::ReqServer
                } else {
                    State::Dead
                }
            },
            State::ReqPath => {
                if spec_is_url_char(strict, ch) {
                    s
                } else if ch == ('?' as u8) {
                    State::ReqQueryStringStart
                } else if ch == ('#' as u8) {
                    State::ReqFragmentStart
                } else {
                    State::Dead
                }
            },
            State::ReqQueryStringStart | State::ReqQueryString => {
                if spec_is_url_char(strict, ch) {
                    State::ReqQueryString
                } else if ch == ('?' as u8) {
                    // Allow an extra '?' in the query string.
                    State::ReqQueryString
                } else if ch == ('#' as u8) {
                    State::ReqFragmentStart
                } else {
                    State::Dead
                }
            },
            State::ReqFragmentStart => {
                if spec_is_url_char(strict, ch) {
                    State::ReqFragment
                } else if ch == ('?' as u8) {
                    State::ReqFragment
                } else if ch == ('#' as u8) {
                    s
                } else {
                    State::Dead
                }
            },
            State::ReqFragment => {
                if spec_is_url_char(strict, ch) || ch == ('?' as u8) || ch == ('#' as u8) {
                    s
                } else {
                    State::Dead
                }
            },
            _ => State::Dead,
        }
    }
}

/// The URL sub-machine never leaves its own states: a step from a URL state
/// or from `ReqSpacesBeforeUrl` lands in a URL state or in `Dead`.
pub proof fn lemma_parse_url_char_stays_url(strict: bool, s: State, ch: u8)
    requires
        spec_is_url_state(s) || s == State::ReqSpacesBeforeUrl,
    ensures
        spec_is_url_state(spec_parse_url_char(strict, s, ch))
            || spec_parse_url_char(strict, s, ch) == State::Dead,
{
}

impl HttpParser {
    /// Executable form of [`spec_parse_url_char`]: a pure function of the
    /// strict flag, the state and the byte, with no side effects.
    pub fn parse_url_char(&self, s: State, ch: u8) -> (r: State)
        ensures
            r == spec_parse_url_char(self.strict, s, ch),
    {
        if ch == (' ' as u8) || ch == 13 || ch == 10 {
            return State::Dead;
        }

        if self.strict && (ch == 9 || ch == 12) {
            return State::Dead;
        }

        match s {
            State::ReqSpacesBeforeUrl => {
                // Proxied requests are followed by the scheme of an absolute
                // URI; all methods except CONNECT are followed by '/' or '*'.
                if ch == ('/' as u8) || ch == ('*' as u8) {
                    State::ReqPath
                } else if is_alpha(ch) {
                    State::ReqSchema
                } else {
                    State::Dead
                }
            },
            State::ReqSchema => {
                if is_alpha(ch) {
                    s
                } else if ch == (':' as u8) {
                    State::ReqSchemaSlash
                } else {
                    State::Dead
                }
            },
            State::ReqSchemaSlash => {
                if ch == ('/' as u8) {
                    State::ReqSchemaSlashSlash
                } else {
                    State::Dead
                }
            },
            State::ReqSchemaSlashSlash => {
                if ch == ('/' as u8) {
                    State::ReqServerStart
                } else {
                    State::Dead
                }
            },
            State::ReqServerStart | State::ReqServer | State::ReqServerWithAt => {
                if ch == ('@' as u8) && s == State::ReqServerWithAt {
                    State::Dead
                } else if ch == ('/' as u8) {
                    State::ReqPath
                } else if ch == ('?' as u8) {
                    State::ReqQueryStringStart
                } else if ch == ('@' as u8) {
                    State::ReqServerWithAt
                } else if is_userinfo_char(ch) || ch == ('[' as u8) || ch == (']' as u8) {
                    State::ReqServer
                } else {
                    State::Dead
                }
            },
            State::ReqPath => {
                if is_url_char(self.strict, ch) {
                    s
                } else if ch == ('?' as u8) {
                    State::ReqQueryStringStart
                } else if ch == ('#' as u8) {
                    State::ReqFragmentStart
                } else {
                    State::Dead
                }
            },
            State::ReqQueryStringStart | State::ReqQueryString => {
                if is_url_char(self.strict, ch) {
                    State::ReqQueryString
                } else if ch == ('?' as u8) {
                    State::ReqQueryString
                } else if ch == ('#' as u8) {
                    State::ReqFragmentStart
                } else {
                    State::Dead
                }
            },
            State::ReqFragmentStart => {
                if is_url_char(self.strict, ch) {
                    State::ReqFragment
                } else if ch == ('?' as u8) {
                    State::ReqFragment
                } else if ch == ('#' as u8) {
                    s
                } else {
                    State::Dead
                }
            },
            State::ReqFragment => {
                if is_url_char(self.strict, ch) || ch == ('?' as u8) || ch == ('#' as u8) {
                    s
                } else {
                    State::Dead
                }
            },
            _ => State::Dead,
        }
    }
}

} // verus!
