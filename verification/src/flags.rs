//! Per-message framing facts gathered while the headers are parsed.

use vstd::prelude::*;

verus! {

/// The framing facts a message's headers can establish. All are cleared at
/// the start of every message.
///
/// * `chunked` — a `Transfer-Encoding: chunked` header was seen.
/// * `connection_keep_alive` — a `Connection: keep-alive` header was seen.
/// * `connection_close` — a `Connection: close` header was seen.
/// * `trailing` — the terminating zero-size chunk was seen; the header lines
///   now being read are trailers.
/// * `upgrade` — an `Upgrade:` header was seen.
/// * `skipbody` — the event sink asked that the body be skipped.
#[derive(Clone, Copy, PartialEq, Eq, Structural, Debug)]
pub struct Flags {
    pub chunked: bool,
    pub connection_keep_alive: bool,
    pub connection_close: bool,
    pub trailing: bool,
    pub upgrade: bool,
    pub skipbody: bool,
}

impl Flags {
    /// The state with no fact established, as at the start of a message.
    pub fn none() -> (f: Flags)
        ensures
            f == (Flags {
                chunked: false,
                connection_keep_alive: false,
                connection_close: false,
                trailing: false,
                upgrade: false,
                skipbody: false,
            }),
    {
        Flags {
            chunked: false,
            connection_keep_alive: false,
            connection_close: false,
            trailing: false,
            upgrade: false,
            skipbody: false,
        }
    }
}

} // verus!
