//! The nodes of the main state machine and of the header-recognition
//! sub-machine.

use vstd::prelude::*;

verus! {

/// A node of the main state machine. The names group as: start states,
/// response status line, request line (with the embedded URL sub-machine
/// states `ReqSchema` through `ReqFragment`), header lines, chunk framing,
/// and body.
#[derive(Clone, Copy, PartialEq, Eq, Structural, Debug)]
pub enum State {
    Dead,
    StartReqOrRes,
    ResOrRespH,
    StartRes,
    ResH,
    ResHT,
    ResHTT,
    ResHTTP,
    ResFirstHttpMajor,
    ResHttpMajor,
    ResFirstHttpMinor,
    ResHttpMinor,
    ResFirstStatusCode,
    ResStatusCode,
    ResStatusStart,
    ResStatus,
    ResLineAlmostDone,
    StartReq,
    ReqMethod,
    ReqSpacesBeforeUrl,
    ReqSchema,
    ReqSchemaSlash,
    ReqSchemaSlashSlash,
    ReqServerStart,
    ReqServer,
    ReqServerWithAt,
    ReqPath,
    ReqQueryStringStart,
    ReqQueryString,
    ReqFragmentStart,
    ReqFragment,
    ReqHttpStart,
    ReqHttpH,
    ReqHttpHT,
    ReqHttpHTT,
    ReqHttpHTTP,
    ReqFirstHttpMajor,
    ReqHttpMajor,
    ReqFirstHttpMinor,
    ReqHttpMinor,
    ReqLineAlmostDone,
    HeaderFieldStart,
    HeaderField,
    HeaderValueDiscardWs,
    HeaderValueDiscardWsAlmostDone,
    HeaderValueDiscardLws,
    HeaderValueStart,
    HeaderValue,
    HeaderValueLws,
    HeaderAlmostDone,
    ChunkSizeStart,
    ChunkSize,
    ChunkParameters,
    ChunkSizeAlmostDone,
    HeadersAlmostDone,
    HeadersDone,
    ChunkData,
    ChunkDataAlmostDone,
    ChunkDataDone,
    BodyIdentity,
    BodyIdentityEof,
    MessageDone,
}

/// Whether bytes read in state `s` count towards the per-message header-size
/// limit. Every state counts except the body and chunk-data states: the
/// start lines, header lines and chunk-size lines are all capped, so that a
/// peer cannot feed an endless header section or an endless run of
/// chunk-size lines.
pub open spec fn spec_parsing_header(s: State) -> bool {
    !(s == State::ChunkData || s == State::ChunkDataAlmostDone || s == State::ChunkDataDone
        || s == State::BodyIdentity || s == State::BodyIdentityEof || s == State::MessageDone)
}

/// Executable form of [`spec_parsing_header`].
pub fn parsing_header(s: State) -> (r: bool)
    ensures
        r == spec_parsing_header(s),
{
    !(matches!(s, State::ChunkData | State::ChunkDataAlmostDone | State::ChunkDataDone
        | State::BodyIdentity | State::BodyIdentityEof | State::MessageDone))
}

/// Whether `s` is a node of the URL sub-machine, i.e. a state in which the
/// bytes being read belong to the request URL.
pub open spec fn spec_is_url_state(s: State) -> bool {
    s == State::ReqSchema || s == State::ReqSchemaSlash || s == State::ReqSchemaSlashSlash
        || s == State::ReqServerStart || s == State::ReqServer || s == State::ReqServerWithAt
        || s == State::ReqPath || s == State::ReqQueryStringStart || s == State::ReqQueryString
        || s == State::ReqFragmentStart || s == State::ReqFragment
}

/// Executable form of [`spec_is_url_state`].
pub fn is_url_state(s: State) -> (r: bool)
    ensures
        r == spec_is_url_state(s),
{
    matches!(s, State::ReqSchema | State::ReqSchemaSlash | State::ReqSchemaSlashSlash
        | State::ReqServerStart | State::ReqServer | State::ReqServerWithAt
        | State::ReqPath | State::ReqQueryStringStart | State::ReqQueryString
        | State::ReqFragmentStart | State::ReqFragment)
}

/// A node of the header-recognition sub-machine, which watches header names
/// and values for the framing headers `Connection`, `Proxy-Connection`,
/// `Content-Length`, `Transfer-Encoding` and `Upgrade`, and for the framing
/// values `chunked`, `keep-alive` and `close`.
#[derive(Clone, Copy, PartialEq, Eq, Structural, Debug)]
pub enum HeaderState {
    General,
    C,
    CO,
    CON,
    MatchingConnection,
    MatchingProxyConnection,
    MatchingContentLength,
    MatchingTransferEncoding,
    MatchingUpgrade,
    Connection,
    ContentLength,
    TransferEncoding,
    Upgrade,
    MatchingTransferEncodingChunked,
    MatchingConnectionKeepAlive,
    MatchingConnectionClose,
    TransferEncodingChunked,
    ConnectionKeepAlive,
    ConnectionClose,
}

} // verus!
