//! Incremental, streaming HTTP/1.x message parser.
//!
//! The parser consumes a sequence of byte chunks and emits structural events
//! (message begin, URL, status, header field and value, headers complete,
//! body fragments, message complete) to a caller-supplied event sink, without
//! buffering the input. Messages may be split across chunk boundaries at any
//! byte position.

pub mod callback;
pub mod chars;
pub mod error;
pub mod flags;
pub mod http_method;
pub mod http_version;
pub mod keywords;
pub mod parser;
pub mod state;
pub mod steps;
pub mod url;

pub use callback::CallbackDecision;
pub use callback::CallbackError;
pub use callback::CallbackResult;
pub use callback::HttpParserCallback;
pub use error::HttpErrno;
pub use http_method::HttpMethod;
pub use http_version::HttpVersion;
pub use parser::HttpParser;
pub use parser::HttpParserType;
pub use state::HeaderState;
pub use state::State;
