use http_parser::HttpParser;
use http_parser::HttpParserType;
use http_parser::State;
use http_parser::chars::is_alpha;
use http_parser::chars::is_alphanum;
use http_parser::chars::is_mark;
use http_parser::chars::is_num;
use http_parser::chars::is_url_char;
use http_parser::chars::is_userinfo_char;
use http_parser::chars::lower;
use http_parser::chars::token;
use http_parser::chars::unhex;

#[test]
fn token_folds_upper() {
    assert_eq!(token(true, b'A'), Some(b'a'));
    assert_eq!(token(true, b'Z'), Some(b'z'));
    assert_eq!(token(true, b'g'), Some(b'g'));
    assert_eq!(token(true, b'7'), Some(b'7'));
    assert_eq!(token(true, b'-'), Some(b'-'));
    assert_eq!(token(true, b'~'), Some(b'~'));
}

#[test]
fn token_rejects_separators() {
    for ch in [b'(', b')', b'<', b'>', b'@', b',', b';', b':', b'\\', b'"', b'/', b'[', b']',
        b'?', b'=', b'{', b'}', b'\r', b'\n', 0u8, 127u8] {
        assert_eq!(token(true, ch), None);
    }
}

#[test]
fn token_space_depends_on_strict() {
    assert_eq!(token(true, b' '), None);
    assert_eq!(token(false, b' '), Some(b' '));
}

#[test]
fn url_char_bitmap() {
    // Visible ASCII is accepted except '#' and '?'.
    assert!(is_url_char(true, b'a'));
    assert!(is_url_char(true, b'"'));
    assert!(is_url_char(true, b'<'));
    assert!(is_url_char(true, b'~'));
    assert!(!is_url_char(true, b'#'));
    assert!(!is_url_char(true, b'?'));
    assert!(!is_url_char(true, b' '));
    assert!(!is_url_char(true, 127));
    // Horizontal tab and form feed are in the table.
    assert!(is_url_char(true, 9));
    assert!(is_url_char(true, 12));
    // Bytes with the high bit set pass only in non-strict mode.
    assert!(!is_url_char(true, 0xC3));
    assert!(is_url_char(false, 0xC3));
}

#[test]
fn unhex_values() {
    assert_eq!(unhex(b'0'), 0);
    assert_eq!(unhex(b'9'), 9);
    assert_eq!(unhex(b'a'), 10);
    assert_eq!(unhex(b'f'), 15);
    assert_eq!(unhex(b'A'), 10);
    assert_eq!(unhex(b'F'), 15);
    assert_eq!(unhex(b'g'), -1);
    assert_eq!(unhex(b' '), -1);
}

#[test]
fn lower_ascii() {
    assert_eq!(lower(b'K'), b'k');
    assert_eq!(lower(b'k'), b'k');
}

#[test]
fn ascii_predicates() {
    assert!(is_num(b'0') && is_num(b'9') && !is_num(b'a'));
    assert!(is_alpha(b'a') && is_alpha(b'Z') && !is_alpha(b'0'));
    assert!(is_alphanum(b'0') && is_alphanum(b'z') && !is_alphanum(b'-'));
    assert!(is_mark(b'-') && is_mark(b'!') && is_mark(b')') && !is_mark(b'a'));
    assert!(is_userinfo_char(b'a') && is_userinfo_char(b'%') && is_userinfo_char(b';'));
    assert!(!is_userinfo_char(b'/') && !is_userinfo_char(b'@'));
}

#[test]
fn parse_url_char_transitions() {
    let p = HttpParser::new(HttpParserType::Request);
    assert_eq!(p.parse_url_char(State::ReqSpacesBeforeUrl, b'/'), State::ReqPath);
    assert_eq!(p.parse_url_char(State::ReqSpacesBeforeUrl, b'*'), State::ReqPath);
    assert_eq!(p.parse_url_char(State::ReqSpacesBeforeUrl, b'h'), State::ReqSchema);
    assert_eq!(p.parse_url_char(State::ReqSpacesBeforeUrl, b'1'), State::Dead);
    assert_eq!(p.parse_url_char(State::ReqSchema, b't'), State::ReqSchema);
    assert_eq!(p.parse_url_char(State::ReqSchema, b':'), State::ReqSchemaSlash);
    assert_eq!(p.parse_url_char(State::ReqSchemaSlash, b'/'), State::ReqSchemaSlashSlash);
    assert_eq!(p.parse_url_char(State::ReqSchemaSlashSlash, b'/'), State::ReqServerStart);
    assert_eq!(p.parse_url_char(State::ReqServerStart, b'u'), State::ReqServer);
    assert_eq!(p.parse_url_char(State::ReqServer, b'@'), State::ReqServerWithAt);
    // A second '@' in the authority is rejected.
    assert_eq!(p.parse_url_char(State::ReqServerWithAt, b'@'), State::Dead);
    assert_eq!(p.parse_url_char(State::ReqServer, b'/'), State::ReqPath);
    assert_eq!(p.parse_url_char(State::ReqServer, b'?'), State::ReqQueryStringStart);
    assert_eq!(p.parse_url_char(State::ReqPath, b'x'), State::ReqPath);
    assert_eq!(p.parse_url_char(State::ReqPath, b'?'), State::ReqQueryStringStart);
    assert_eq!(p.parse_url_char(State::ReqPath, b'#'), State::ReqFragmentStart);
    assert_eq!(p.parse_url_char(State::ReqQueryStringStart, b'a'), State::ReqQueryString);
    assert_eq!(p.parse_url_char(State::ReqQueryString, b'?'), State::ReqQueryString);
    assert_eq!(p.parse_url_char(State::ReqQueryString, b'#'), State::ReqFragmentStart);
    assert_eq!(p.parse_url_char(State::ReqFragmentStart, b'?'), State::ReqFragment);
    assert_eq!(p.parse_url_char(State::ReqFragmentStart, b'#'), State::ReqFragmentStart);
    assert_eq!(p.parse_url_char(State::ReqFragment, b'z'), State::ReqFragment);
    // Space, CR and LF always end or reject the URL.
    assert_eq!(p.parse_url_char(State::ReqPath, b' '), State::Dead);
    assert_eq!(p.parse_url_char(State::ReqPath, b'\r'), State::Dead);
    assert_eq!(p.parse_url_char(State::ReqPath, b'\n'), State::Dead);
}

#[test]
fn parse_url_char_strict_tab_and_ff() {
    let mut p = HttpParser::new(HttpParserType::Request);
    assert_eq!(p.parse_url_char(State::ReqPath, 9), State::Dead);
    assert_eq!(p.parse_url_char(State::ReqPath, 12), State::Dead);
    p.strict = false;
    assert_eq!(p.parse_url_char(State::ReqPath, 9), State::ReqPath);
    assert_eq!(p.parse_url_char(State::ReqPath, 12), State::ReqPath);
}

#[test]
fn parse_url_char_is_pure() {
    // The step is a function of (strict, state, byte) alone: repeated calls
    // and calls on another parser with the same strict flag agree.
    let p = HttpParser::new(HttpParserType::Request);
    let q = HttpParser::new(HttpParserType::Both);
    for st in [State::ReqSpacesBeforeUrl, State::ReqSchema, State::ReqPath,
        State::ReqQueryString, State::ReqFragment, State::ReqServer] {
        for ch in 0u8..=255 {
            let a = p.parse_url_char(st, ch);
            let b = p.parse_url_char(st, ch);
            let c = q.parse_url_char(st, ch);
            assert_eq!(a, b);
            assert_eq!(a, c);
        }
    }
}
