use http_parser::CallbackDecision;
use http_parser::CallbackError;
use http_parser::CallbackResult;
use http_parser::HttpErrno;
use http_parser::HttpParser;
use http_parser::HttpParserCallback;
use http_parser::HttpParserType;

struct Sink {
    fail_on: Option<&'static str>,
}

impl HttpParserCallback for Sink {
    fn on_message_begin(&mut self, _parser: &HttpParser) -> CallbackResult {
        if self.fail_on == Some("message_begin") {
            return Err(CallbackError);
        }
        Ok(CallbackDecision::Nothing)
    }

    fn on_headers_complete(&mut self, _parser: &HttpParser) -> CallbackResult {
        if self.fail_on == Some("headers_complete") {
            return Err(CallbackError);
        }
        Ok(CallbackDecision::Nothing)
    }

    fn on_message_complete(&mut self, _parser: &HttpParser) -> CallbackResult {
        if self.fail_on == Some("message_complete") {
            return Err(CallbackError);
        }
        Ok(CallbackDecision::Nothing)
    }
}

fn ok_sink() -> Sink {
    Sink { fail_on: None }
}

#[test]
fn error_invalid_eof_state() {
    let mut p = HttpParser::new(HttpParserType::Request);
    let mut s = ok_sink();
    assert_eq!(p.execute(&mut s, b"GET"), 3);
    let r = p.execute(&mut s, b"");
    assert_eq!(r, 1);
    assert_eq!(p.errno, Some(HttpErrno::InvalidEofState));
}

#[test]
fn error_eof_in_start_state_is_fine() {
    let mut p = HttpParser::new(HttpParserType::Request);
    let mut s = ok_sink();
    assert_eq!(p.execute(&mut s, b""), 0);
    assert_eq!(p.errno, None);
}

#[test]
fn error_closed_connection() {
    // A strict-mode HTTP/1.0 response without keep-alive leaves the
    // connection dead; further bytes are an error.
    let mut p = HttpParser::new(HttpParserType::Response);
    let mut s = ok_sink();
    let msg = b"HTTP/1.0 204 NC\r\n\r\n";
    assert_eq!(p.execute(&mut s, msg), msg.len() as u64);
    assert_eq!(p.errno, None);
    assert!(!p.http_should_keep_alive());
    let r = p.execute(&mut s, b"HTTP/1.0 204 NC\r\n\r\n");
    assert_eq!(r, 0);
    assert_eq!(p.errno, Some(HttpErrno::ClosedConnection));
}

#[test]
fn error_invalid_version() {
    let mut p = HttpParser::new(HttpParserType::Request);
    let mut s = ok_sink();
    let msg = b"GET / HTTP/A";
    let r = p.execute(&mut s, msg);
    assert_eq!(p.errno, Some(HttpErrno::InvalidVersion));
    assert_eq!(r, 11);
}

#[test]
fn error_invalid_version_three_digits() {
    let mut p = HttpParser::new(HttpParserType::Request);
    let mut s = ok_sink();
    let msg = b"GET / HTTP/1.100\r\n\r\n";
    p.execute(&mut s, msg);
    assert_eq!(p.errno, Some(HttpErrno::InvalidVersion));
}

#[test]
fn error_invalid_status() {
    let mut p = HttpParser::new(HttpParserType::Response);
    let mut s = ok_sink();
    let msg = b"HTTP/1.1 x";
    let r = p.execute(&mut s, msg);
    assert_eq!(p.errno, Some(HttpErrno::InvalidStatus));
    assert_eq!(r, 9);
}

#[test]
fn error_invalid_status_four_digits() {
    let mut p = HttpParser::new(HttpParserType::Response);
    let mut s = ok_sink();
    let msg = b"HTTP/1.1 2000 OK\r\n\r\n";
    p.execute(&mut s, msg);
    assert_eq!(p.errno, Some(HttpErrno::InvalidStatus));
}

#[test]
fn error_invalid_method_first_byte() {
    let mut p = HttpParser::new(HttpParserType::Request);
    let mut s = ok_sink();
    let r = p.execute(&mut s, b"FOO / HTTP/1.1\r\n\r\n");
    assert_eq!(p.errno, Some(HttpErrno::InvalidMethod));
    assert_eq!(r, 0);
}

#[test]
fn error_invalid_method_pivot() {
    let mut p = HttpParser::new(HttpParserType::Request);
    let mut s = ok_sink();
    let r = p.execute(&mut s, b"GEX / HTTP/1.1\r\n\r\n");
    assert_eq!(p.errno, Some(HttpErrno::InvalidMethod));
    assert_eq!(r, 2);
}

#[test]
fn error_invalid_url() {
    let mut p = HttpParser::new(HttpParserType::Request);
    let mut s = ok_sink();
    let r = p.execute(&mut s, b"GET \x01 HTTP/1.1\r\n\r\n");
    assert_eq!(p.errno, Some(HttpErrno::InvalidUrl));
    assert_eq!(r, 4);
}

#[test]
fn error_lf_expected() {
    let mut p = HttpParser::new(HttpParserType::Request);
    let mut s = ok_sink();
    let r = p.execute(&mut s, b"GET / HTTP/1.1\rX");
    assert_eq!(p.errno, Some(HttpErrno::LFExpected));
    assert_eq!(r, 15);
}

#[test]
fn error_invalid_header_token() {
    let mut p = HttpParser::new(HttpParserType::Request);
    let mut s = ok_sink();
    let r = p.execute(&mut s, b"GET / HTTP/1.1\r\n(: v\r\n\r\n");
    assert_eq!(p.errno, Some(HttpErrno::InvalidHeaderToken));
    assert_eq!(r, 16);
}

#[test]
fn error_invalid_content_length() {
    let mut p = HttpParser::new(HttpParserType::Response);
    let mut s = ok_sink();
    p.execute(&mut s, b"HTTP/1.1 200 OK\r\nContent-Length: x\r\n\r\n");
    assert_eq!(p.errno, Some(HttpErrno::InvalidContentLength));
}

#[test]
fn error_content_length_overflow() {
    let mut p = HttpParser::new(HttpParserType::Response);
    let mut s = ok_sink();
    // 21 nines cannot fit in 64 bits.
    p.execute(
        &mut s,
        b"HTTP/1.1 200 OK\r\nContent-Length: 999999999999999999999\r\n\r\n",
    );
    assert_eq!(p.errno, Some(HttpErrno::InvalidContentLength));
}

#[test]
fn error_invalid_chunk_size() {
    let mut p = HttpParser::new(HttpParserType::Request);
    let mut s = ok_sink();
    p.execute(
        &mut s,
        b"POST / HTTP/1.1\r\nTransfer-Encoding: chunked\r\n\r\nz\r\n",
    );
    assert_eq!(p.errno, Some(HttpErrno::InvalidChunkSize));
}

#[test]
fn error_chunk_size_overflow() {
    let mut p = HttpParser::new(HttpParserType::Request);
    let mut s = ok_sink();
    p.execute(
        &mut s,
        b"POST / HTTP/1.1\r\nTransfer-Encoding: chunked\r\n\r\nffffffffffffffffff\r\n",
    );
    assert_eq!(p.errno, Some(HttpErrno::InvalidContentLength));
}

#[test]
fn error_invalid_constant() {
    let mut p = HttpParser::new(HttpParserType::Response);
    let mut s = ok_sink();
    let r = p.execute(&mut s, b"X");
    assert_eq!(p.errno, Some(HttpErrno::InvalidConstant));
    assert_eq!(r, 0);
}

#[test]
fn error_strict() {
    let mut p = HttpParser::new(HttpParserType::Response);
    let mut s = ok_sink();
    let r = p.execute(&mut s, b"HX");
    assert_eq!(p.errno, Some(HttpErrno::Strict));
    assert_eq!(r, 1);
}

#[test]
fn error_cb_message_begin() {
    let mut p = HttpParser::new(HttpParserType::Request);
    let mut s = Sink { fail_on: Some("message_begin") };
    let r = p.execute(&mut s, b"GET / HTTP/1.1\r\n\r\n");
    assert_eq!(p.errno, Some(HttpErrno::CBMessageBegin));
    assert_eq!(r, 1);
}

#[test]
fn error_cb_headers_complete() {
    let mut p = HttpParser::new(HttpParserType::Request);
    let mut s = Sink { fail_on: Some("headers_complete") };
    let msg = b"GET / HTTP/1.1\r\n\r\n";
    let r = p.execute(&mut s, msg);
    assert_eq!(p.errno, Some(HttpErrno::CBHeadersComplete));
    // The error is reported at the final LF.
    assert_eq!(r, (msg.len() - 1) as u64);
}

#[test]
fn error_cb_message_complete() {
    let mut p = HttpParser::new(HttpParserType::Request);
    let mut s = Sink { fail_on: Some("message_complete") };
    let msg = b"GET / HTTP/1.1\r\n\r\n";
    p.execute(&mut s, msg);
    assert_eq!(p.errno, Some(HttpErrno::CBMessageComplete));
}

#[test]
fn execute_returns_zero_after_error() {
    // Once an error is recorded, every further call consumes nothing.
    let mut p = HttpParser::new(HttpParserType::Request);
    let mut s = ok_sink();
    p.execute(&mut s, b"FOO");
    assert_eq!(p.errno, Some(HttpErrno::InvalidMethod));
    assert_eq!(p.execute(&mut s, b"GET / HTTP/1.1\r\n\r\n"), 0);
    assert_eq!(p.execute(&mut s, b""), 0);
    assert_eq!(p.execute(&mut s, b"x"), 0);
    assert_eq!(p.errno, Some(HttpErrno::InvalidMethod));
}
