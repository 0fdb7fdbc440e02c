//! Error kinds reported by the parser.
//!
//! An error is sticky: once the parser records one in its `errno` slot, every
//! later call of `execute` returns 0 until the parser is unpaused or rebuilt.
//! The `CB`-prefixed kinds report a failure signalled by the event sink; the
//! others report a violation of the HTTP/1.x wire grammar.

use vstd::prelude::*;

verus! {

/// The error kinds the parser can record in its `errno` slot.
#[derive(Clone, Copy, PartialEq, Eq, Structural, Debug)]
pub enum HttpErrno {
    Unknown,
    HeaderOverflow,
    ClosedConnection,
    InvalidVersion,
    InvalidStatus,
    InvalidMethod,
    InvalidUrl,
    InvalidHost,
    InvalidPort,
    InvalidPath,
    InvalidQueryString,
    InvalidFragment,
    LFExpected,
    InvalidHeaderToken,
    InvalidContentLength,
    InvalidChunkSize,
    InvalidConstant,
    InvalidInternalState,
    Strict,
    Paused,
    CBMessageBegin,
    CBUrl,
    CBHeaderField,
    CBHeaderValue,
    CBHeadersComplete,
    CBBody,
    CBMessageComplete,
    CBStatus,
    InvalidEofState,
}

} // verus!
