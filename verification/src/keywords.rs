//! The lower-case header keywords the header-recognition sub-machine
//! compares against, as byte tables.

use vstd::prelude::*;

verus! {

/// The bytes of "connection".
pub open spec fn spec_kw_connection() -> Seq<u8> {
    seq![('c' as u8), ('o' as u8), ('n' as u8), ('n' as u8), ('e' as u8), ('c' as u8), ('t' as u8), ('i' as u8), ('o' as u8), ('n' as u8)]
}

/// Executable form of [`spec_kw_connection`].
pub fn kw_connection() -> (v: Vec<u8>)
    ensures
        v@ == spec_kw_connection(),
{
    let mut v: Vec<u8> = Vec::new();
    v.push(('c' as u8)); v.push(('o' as u8)); v.push(('n' as u8)); v.push(('n' as u8)); v.push(('e' as u8)); v.push(('c' as u8)); v.push(('t' as u8)); v.push(('i' as u8)); v.push(('o' as u8)); v.push(('n' as u8));
    v
}

/// The bytes of "proxy-connection".
pub open spec fn spec_kw_proxy_connection() -> Seq<u8> {
    seq![('p' as u8), ('r' as u8), ('o' as u8), ('x' as u8), ('y' as u8), ('-' as u8), ('c' as u8), ('o' as u8), ('n' as u8), ('n' as u8), ('e' as u8), ('c' as u8), ('t' as u8), ('i' as u8), ('o' as u8), ('n' as u8)]
}

/// Executable form of [`spec_kw_proxy_connection`].
pub fn kw_proxy_connection() -> (v: Vec<u8>)
    ensures
        v@ == spec_kw_proxy_connection(),
{
    let mut v: Vec<u8> = Vec::new();
    v.push(('p' as u8)); v.push(('r' as u8)); v.push(('o' as u8)); v.push(('x' as u8)); v.push(('y' as u8)); v.push(('-' as u8)); v.push(('c' as u8)); v.push(('o' as u8)); v.push(('n' as u8)); v.push(('n' as u8)); v.push(('e' as u8)); v.push(('c' as u8)); v.push(('t' as u8)); v.push(('i' as u8)); v.push(('o' as u8)); v.push(('n' as u8));
    v
}

/// The bytes of "content-length".
pub open spec fn spec_kw_content_length() -> Seq<u8> {
    seq![('c' as u8), ('o' as u8), ('n' as u8), ('t' as u8), ('e' as u8), ('n' as u8), ('t' as u8), ('-' as u8), ('l' as u8), ('e' as u8), ('n' as u8), ('g' as u8), ('t' as u8), ('h' as u8)]
}

/// Executable form of [`spec_kw_content_length`].
pub fn kw_content_length() -> (v: Vec<u8>)
    ensures
        v@ == spec_kw_content_length(),
{
    let mut v: Vec<u8> = Vec::new();
    v.push(('c' as u8)); v.push(('o' as u8)); v.push(('n' as u8)); v.push(('t' as u8)); v.push(('e' as u8)); v.push(('n' as u8)); v.push(('t' as u8)); v.push(('-' as u8)); v.push(('l' as u8)); v.push(('e' as u8)); v.push(('n' as u8)); v.push(('g' as u8)); v.push(('t' as u8)); v.push(('h' as u8));
    v
}

/// The bytes of "transfer-encoding".
pub open spec fn spec_kw_transfer_encoding() -> Seq<u8> {
    seq![('t' as u8), ('r' as u8), ('a' as u8), ('n' as u8), ('s' as u8), ('f' as u8), ('e' as u8), ('r' as u8), ('-' as u8), ('e' as u8), ('n' as u8), ('c' as u8), ('o' as u8), ('d' as u8), ('i' as u8), ('n' as u8), ('g' as u8)]
}

/// Executable form of [`spec_kw_transfer_encoding`].
pub fn kw_transfer_encoding() -> (v: Vec<u8>)
    ensures
        v@ == spec_kw_transfer_encoding(),
{
    let mut v: Vec<u8> = Vec::new();
    v.push(('t' as u8)); v.push(('r' as u8)); v.push(('a' as u8)); v.push(('n' as u8)); v.push(('s' as u8)); v.push(('f' as u8)); v.push(('e' as u8)); v.push(('r' as u8)); v.push(('-' as u8)); v.push(('e' as u8)); v.push(('n' as u8)); v.push(('c' as u8)); v.push(('o' as u8)); v.push(('d' as u8)); v.push(('i' as u8)); v.push(('n' as u8)); v.push(('g' as u8));
    v
}

/// The bytes of "upgrade".
pub open spec fn spec_kw_upgrade() -> Seq<u8> {
    seq![('u' as u8), ('p' as u8), ('g' as u8), ('r' as u8), ('a' as u8), ('d' as u8), ('e' as u8)]
}

/// Executable form of [`spec_kw_upgrade`].
pub fn kw_upgrade() -> (v: Vec<u8>)
    ensures
        v@ == spec_kw_upgrade(),
{
    let mut v: Vec<u8> = Vec::new();
    v.push(('u' as u8)); v.push(('p' as u8)); v.push(('g' as u8)); v.push(('r' as u8)); v.push(('a' as u8)); v.push(('d' as u8)); v.push(('e' as u8));
    v
}

/// The bytes of "chunked".
pub open spec fn spec_kw_chunked() -> Seq<u8> {
    seq![('c' as u8), ('h' as u8), ('u' as u8), ('n' as u8), ('k' as u8), ('e' as u8), ('d' as u8)]
}

/// Executable form of [`spec_kw_chunked`].
pub fn kw_chunked() -> (v: Vec<u8>)
    ensures
        v@ == spec_kw_chunked(),
{
    let mut v: Vec<u8> = Vec::new();
    v.push(('c' as u8)); v.push(('h' as u8)); v.push(('u' as u8)); v.push(('n' as u8)); v.push(('k' as u8)); v.push(('e' as u8)); v.push(('d' as u8));
    v
}

/// The bytes of "keep-alive".
pub open spec fn spec_kw_keep_alive() -> Seq<u8> {
    seq![('k' as u8), ('e' as u8), ('e' as u8), ('p' as u8), ('-' as u8), ('a' as u8), ('l' as u8), ('i' as u8), ('v' as u8), ('e' as u8)]
}

/// Executable form of [`spec_kw_keep_alive`].
pub fn kw_keep_alive() -> (v: Vec<u8>)
    ensures
        v@ == spec_kw_keep_alive(),
{
    let mut v: Vec<u8> = Vec::new();
    v.push(('k' as u8)); v.push(('e' as u8)); v.push(('e' as u8)); v.push(('p' as u8)); v.push(('-' as u8)); v.push(('a' as u8)); v.push(('l' as u8)); v.push(('i' as u8)); v.push(('v' as u8)); v.push(('e' as u8));
    v
}

/// The bytes of "close".
pub open spec fn spec_kw_close() -> Seq<u8> {
    seq![('c' as u8), ('l' as u8), ('o' as u8), ('s' as u8), ('e' as u8)]
}

/// Executable form of [`spec_kw_close`].
pub fn kw_close() -> (v: Vec<u8>)
    ensures
        v@ == spec_kw_close(),
{
    let mut v: Vec<u8> = Vec::new();
    v.push(('c' as u8)); v.push(('l' as u8)); v.push(('o' as u8)); v.push(('s' as u8)); v.push(('e' as u8));
    v
}

} // verus!
