//! The HTTP version carried by a message's start line.

use vstd::prelude::*;

verus! {

/// An HTTP version as a `(major, minor)` pair. The parser keeps each
/// component at two decimal digits at most; a third digit is an error.
#[derive(Clone, Copy, PartialEq, Eq, Structural, Debug)]
pub struct HttpVersion {
    pub major: u8,
    pub minor: u8,
}

} // verus!
