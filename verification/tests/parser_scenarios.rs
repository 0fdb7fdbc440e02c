use http_parser::CallbackDecision;
use http_parser::CallbackError;
use http_parser::CallbackResult;
use http_parser::HttpMethod;
use http_parser::HttpParser;
use http_parser::HttpErrno;
use http_parser::HttpParserCallback;
use http_parser::HttpParserType;

struct Recorder {
    events: Vec<String>,
    url: Vec<u8>,
    status: Vec<u8>,
    field: Vec<u8>,
    value: Vec<u8>,
    body: Vec<u8>,
    body_calls: usize,
    body_final_seen: bool,
    fail_on: Option<&'static str>,
    skip_body: bool,
}

impl Recorder {
    fn new() -> Recorder {
        Recorder {
            events: Vec::new(),
            url: Vec::new(),
            status: Vec::new(),
            field: Vec::new(),
            value: Vec::new(),
            body: Vec::new(),
            body_calls: 0,
            body_final_seen: false,
            fail_on: None,
            skip_body: false,
        }
    }
}

impl HttpParserCallback for Recorder {
    fn on_message_begin(&mut self, _parser: &HttpParser) -> CallbackResult {
        if self.fail_on == Some("message_begin") {
            return Err(CallbackError);
        }
        self.events.push("message_begin".to_string());
        Ok(CallbackDecision::Nothing)
    }

    fn on_url(&mut self, _parser: &HttpParser, data: &[u8]) -> CallbackResult {
        self.url.extend_from_slice(data);
        Ok(CallbackDecision::Nothing)
    }

    fn on_status(&mut self, _parser: &HttpParser, data: &[u8]) -> CallbackResult {
        self.status.extend_from_slice(data);
        Ok(CallbackDecision::Nothing)
    }

    fn on_header_field(&mut self, _parser: &HttpParser, data: &[u8]) -> CallbackResult {
        self.field.extend_from_slice(data);
        Ok(CallbackDecision::Nothing)
    }

    fn on_header_value(&mut self, _parser: &HttpParser, data: &[u8]) -> CallbackResult {
        self.value.extend_from_slice(data);
        Ok(CallbackDecision::Nothing)
    }

    fn on_headers_complete(&mut self, _parser: &HttpParser) -> CallbackResult {
        if self.fail_on == Some("headers_complete") {
            return Err(CallbackError);
        }
        self.events.push("headers_complete".to_string());
        if self.skip_body {
            Ok(CallbackDecision::SkipBody)
        } else {
            Ok(CallbackDecision::Nothing)
        }
    }

    fn on_body(&mut self, parser: &HttpParser, data: &[u8]) -> CallbackResult {
        self.body.extend_from_slice(data);
        self.body_calls += 1;
        if parser.http_body_is_final() {
            self.body_final_seen = true;
        }
        Ok(CallbackDecision::Nothing)
    }

    fn on_message_complete(&mut self, _parser: &HttpParser) -> CallbackResult {
        if self.fail_on == Some("message_complete") {
            return Err(CallbackError);
        }
        self.events.push("message_complete".to_string());
        Ok(CallbackDecision::Nothing)
    }
}

#[test]
fn minimal_get() {
    let mut p = HttpParser::new(HttpParserType::Request);
    let mut rec = Recorder::new();
    let msg = b"GET / HTTP/1.1\r\n\r\n";
    let r = p.execute(&mut rec, msg);
    assert_eq!(r, msg.len() as u64);
    assert_eq!(p.errno, None);
    assert_eq!(
        rec.events,
        vec!["message_begin", "headers_complete", "message_complete"]
    );
    assert_eq!(rec.url, b"/".to_vec());
    assert_eq!(p.method, HttpMethod::Get);
    assert_eq!(p.http_version.major, 1);
    assert_eq!(p.http_version.minor, 1);
    assert!(p.http_should_keep_alive());
}

#[test]
fn content_length_response() {
    let mut p = HttpParser::new(HttpParserType::Response);
    let mut rec = Recorder::new();
    let msg = b"HTTP/1.1 200 OK\r\nContent-Length: 5\r\n\r\nhello";
    let r = p.execute(&mut rec, msg);
    assert_eq!(r, msg.len() as u64);
    assert_eq!(p.errno, None);
    assert_eq!(p.status_code, 200);
    assert_eq!(rec.status, b"OK".to_vec());
    assert_eq!(rec.body, b"hello".to_vec());
    assert_eq!(rec.body_calls, 1);
    assert_eq!(
        rec.events,
        vec!["message_begin", "headers_complete", "message_complete"]
    );
}

#[test]
fn chunked_request() {
    let mut p = HttpParser::new(HttpParserType::Request);
    let mut rec = Recorder::new();
    let msg = b"POST /x HTTP/1.1\r\nTransfer-Encoding: chunked\r\n\r\n5\r\nhello\r\n0\r\n\r\n";
    let r = p.execute(&mut rec, msg);
    assert_eq!(r, msg.len() as u64);
    assert_eq!(p.errno, None);
    assert!(p.flags.chunked);
    assert_eq!(rec.body, b"hello".to_vec());
    assert_eq!(rec.body_calls, 1);
    assert_eq!(p.method, HttpMethod::Post);
    assert_eq!(rec.url, b"/x".to_vec());
    assert_eq!(
        rec.events,
        vec!["message_begin", "headers_complete", "message_complete"]
    );
}

#[test]
fn upgrade_request() {
    let mut p = HttpParser::new(HttpParserType::Request);
    let mut rec = Recorder::new();
    let msg = b"GET / HTTP/1.1\r\nUpgrade: websocket\r\nConnection: Upgrade\r\n\r\nRAW";
    let r = p.execute(&mut rec, msg);
    assert!(p.upgrade);
    assert_eq!(p.errno, None);
    // The parser stops at the first byte after the headers; the residual
    // "RAW" belongs to the embedder.
    assert_eq!(r, (msg.len() - 3) as u64);
    assert_eq!(&msg[r as usize..], b"RAW");
    assert_eq!(
        rec.events,
        vec!["message_begin", "headers_complete", "message_complete"]
    );
}

#[test]
fn split_headers_single_byte() {
    // The message of minimal_get, fed one byte per call, yields the same
    // events and the same slice concatenations.
    let msg = b"GET / HTTP/1.1\r\n\r\n";

    let mut p1 = HttpParser::new(HttpParserType::Request);
    let mut whole = Recorder::new();
    assert_eq!(p1.execute(&mut whole, msg), msg.len() as u64);

    let mut p2 = HttpParser::new(HttpParserType::Request);
    let mut split = Recorder::new();
    for i in 0..msg.len() {
        let r = p2.execute(&mut split, &msg[i..i + 1]);
        assert_eq!(r, 1);
    }

    assert_eq!(whole.events, split.events);
    assert_eq!(whole.url, split.url);
    assert_eq!(whole.field, split.field);
    assert_eq!(whole.value, split.value);
    assert_eq!(whole.body, split.body);
    assert_eq!(p1.method, p2.method);
    assert_eq!(p1.http_version, p2.http_version);
    assert_eq!(p1.errno, None);
    assert_eq!(p2.errno, None);
}

#[test]
fn header_overflow() {
    let mut p = HttpParser::new(HttpParserType::Request);
    let mut rec = Recorder::new();
    let mut msg: Vec<u8> = Vec::new();
    msg.extend_from_slice(b"GET / HTTP/1.1\r\nX: ");
    msg.extend_from_slice(&vec![b'a'; 82000]);
    msg.extend_from_slice(b"\r\n\r\n");
    let r = p.execute(&mut rec, &msg);
    assert_eq!(p.errno, Some(HttpErrno::HeaderOverflow));
    // The limit is 80 KiB: the byte whose count first exceeds it is at
    // index 80 * 1024.
    assert_eq!(r, 80 * 1024);
}

#[test]
fn content_length_exact_body_bytes() {
    // A Content-Length body delivers exactly N bytes before the message
    // completes, across chunk boundaries.
    let mut p = HttpParser::new(HttpParserType::Response);
    let mut rec = Recorder::new();
    let head = b"HTTP/1.1 200 OK\r\nContent-Length: 12\r\n\r\nhello ";
    let tail = b"world!";
    assert_eq!(p.execute(&mut rec, head), head.len() as u64);
    assert_eq!(rec.events, vec!["message_begin", "headers_complete"]);
    assert_eq!(p.execute(&mut rec, tail), tail.len() as u64);
    assert_eq!(rec.body, b"hello world!".to_vec());
    assert_eq!(rec.body.len(), 12);
    assert_eq!(
        rec.events,
        vec!["message_begin", "headers_complete", "message_complete"]
    );
}

#[test]
fn chunked_concat_across_chunks() {
    // The concatenation of body slices equals the de-chunked payload, also
    // when the chunked body is split across calls.
    let mut p = HttpParser::new(HttpParserType::Request);
    let mut rec = Recorder::new();
    let parts: [&[u8]; 4] = [
        b"POST / HTTP/1.1\r\nTransfer-Encoding: chunked\r\n\r\n6\r\nhel",
        b"lo \r\n5\r\nwo",
        b"rld\r\n0\r\n",
        b"\r\n",
    ];
    for part in parts.iter() {
        let r = p.execute(&mut rec, part);
        assert_eq!(r, part.len() as u64);
    }
    assert_eq!(p.errno, None);
    assert_eq!(rec.body, b"hello world".to_vec());
    assert_eq!(
        rec.events,
        vec!["message_begin", "headers_complete", "message_complete"]
    );
}

#[test]
fn chunked_trailers() {
    let mut p = HttpParser::new(HttpParserType::Request);
    let mut rec = Recorder::new();
    let msg = b"POST / HTTP/1.1\r\nTransfer-Encoding: chunked\r\n\r\n3\r\nabc\r\n0\r\nX-Sum: 9\r\n\r\n";
    let r = p.execute(&mut rec, msg);
    assert_eq!(r, msg.len() as u64);
    assert_eq!(p.errno, None);
    assert_eq!(rec.body, b"abc".to_vec());
    // The trailer line is delivered like a header line.
    assert_eq!(rec.field, b"Transfer-EncodingX-Sum".to_vec());
    assert_eq!(rec.value, b"chunked9".to_vec());
}

#[test]
fn pipelined_requests() {
    let mut p = HttpParser::new(HttpParserType::Request);
    let mut rec = Recorder::new();
    let msg = b"GET /a HTTP/1.1\r\n\r\nGET /b HTTP/1.1\r\n\r\n";
    let r = p.execute(&mut rec, msg);
    assert_eq!(r, msg.len() as u64);
    assert_eq!(p.errno, None);
    assert_eq!(rec.url, b"/a/b".to_vec());
    assert_eq!(
        rec.events,
        vec![
            "message_begin",
            "headers_complete",
            "message_complete",
            "message_begin",
            "headers_complete",
            "message_complete"
        ]
    );
}

#[test]
fn folded_header_value() {
    let mut p = HttpParser::new(HttpParserType::Request);
    let mut rec = Recorder::new();
    let msg = b"GET / HTTP/1.1\r\nA: b\r\n c\r\n\r\n";
    let r = p.execute(&mut rec, msg);
    assert_eq!(r, msg.len() as u64);
    assert_eq!(p.errno, None);
    assert_eq!(rec.value, b"b c".to_vec());
}

#[test]
fn skip_body_decision() {
    let mut p = HttpParser::new(HttpParserType::Response);
    let mut rec = Recorder::new();
    rec.skip_body = true;
    let msg = b"HTTP/1.1 200 OK\r\nContent-Length: 5\r\n\r\n";
    let r = p.execute(&mut rec, msg);
    assert_eq!(r, msg.len() as u64);
    assert_eq!(p.errno, None);
    assert!(p.flags.skipbody);
    assert_eq!(rec.body_calls, 0);
    assert_eq!(
        rec.events,
        vec!["message_begin", "headers_complete", "message_complete"]
    );
}

#[test]
fn body_is_final_during_last_body() {
    let mut p = HttpParser::new(HttpParserType::Response);
    let mut rec = Recorder::new();
    let msg = b"HTTP/1.1 200 OK\r\nContent-Length: 3\r\n\r\nxyz";
    p.execute(&mut rec, msg);
    assert_eq!(p.errno, None);
    assert!(rec.body_final_seen);
}

#[test]
fn eof_terminated_response() {
    let mut p = HttpParser::new(HttpParserType::Response);
    let mut rec = Recorder::new();
    let msg = b"HTTP/1.1 200 OK\r\n\r\nsome data";
    let r = p.execute(&mut rec, msg);
    assert_eq!(r, msg.len() as u64);
    assert!(!p.http_should_keep_alive());
    assert_eq!(rec.body, b"some data".to_vec());
    assert_eq!(rec.events, vec!["message_begin", "headers_complete"]);
    // EOF completes the message.
    let r2 = p.execute(&mut rec, b"");
    assert_eq!(r2, 0);
    assert_eq!(p.errno, None);
    assert_eq!(
        rec.events,
        vec!["message_begin", "headers_complete", "message_complete"]
    );
}

#[test]
fn leading_blank_lines_tolerated() {
    let mut p = HttpParser::new(HttpParserType::Request);
    let mut rec = Recorder::new();
    let msg = b"\r\n\r\nGET / HTTP/1.1\r\n\r\n";
    let r = p.execute(&mut rec, msg);
    assert_eq!(r, msg.len() as u64);
    assert_eq!(p.errno, None);
    assert_eq!(
        rec.events,
        vec!["message_begin", "headers_complete", "message_complete"]
    );
}

#[test]
fn http09_request_line() {
    let mut p = HttpParser::new(HttpParserType::Request);
    let mut rec = Recorder::new();
    let msg = b"GET /\r\n\r\n";
    let r = p.execute(&mut rec, msg);
    assert_eq!(r, msg.len() as u64);
    assert_eq!(p.errno, None);
    assert_eq!(p.http_version.major, 0);
    assert_eq!(p.http_version.minor, 9);
    assert_eq!(rec.url, b"/".to_vec());
}

#[test]
fn both_mode_resolves_request() {
    let mut p = HttpParser::new(HttpParserType::Both);
    let mut rec = Recorder::new();
    let msg = b"GET / HTTP/1.1\r\n\r\n";
    let r = p.execute(&mut rec, msg);
    assert_eq!(r, msg.len() as u64);
    assert_eq!(p.errno, None);
    assert_eq!(p.method, HttpMethod::Get);
}

#[test]
fn both_mode_resolves_response() {
    let mut p = HttpParser::new(HttpParserType::Both);
    let mut rec = Recorder::new();
    let msg = b"HTTP/1.1 204 No Content\r\n\r\n";
    let r = p.execute(&mut rec, msg);
    assert_eq!(r, msg.len() as u64);
    assert_eq!(p.errno, None);
    assert_eq!(p.status_code, 204);
    assert_eq!(rec.status, b"No Content".to_vec());
}

#[test]
fn connect_method_upgrades() {
    let mut p = HttpParser::new(HttpParserType::Request);
    let mut rec = Recorder::new();
    let msg = b"CONNECT example.com:443 HTTP/1.1\r\n\r\n";
    let r = p.execute(&mut rec, msg);
    assert_eq!(p.errno, None);
    assert_eq!(p.method, HttpMethod::Connect);
    assert!(p.upgrade);
    assert_eq!(r, msg.len() as u64);
    assert_eq!(rec.url, b"example.com:443".to_vec());
}

#[test]
fn method_pivot_names() {
    let cases: [(&[u8], HttpMethod); 6] = [
        (b"MKCOL / HTTP/1.1\r\n\r\n", HttpMethod::MKCol),
        (b"M-SEARCH / HTTP/1.1\r\n\r\n", HttpMethod::MSearch),
        (b"PROPPATCH / HTTP/1.1\r\n\r\n", HttpMethod::PropPatch),
        (b"PURGE / HTTP/1.1\r\n\r\n", HttpMethod::Purge),
        (b"UNSUBSCRIBE / HTTP/1.1\r\n\r\n", HttpMethod::Unsubscribe),
        (b"CHECKOUT / HTTP/1.1\r\n\r\n", HttpMethod::Checkout),
    ];
    for (msg, want) in cases.iter() {
        let mut p = HttpParser::new(HttpParserType::Request);
        let mut rec = Recorder::new();
        let r = p.execute(&mut rec, msg);
        assert_eq!(p.errno, None);
        assert_eq!(r, msg.len() as u64);
        assert_eq!(p.method, *want);
    }
}

#[test]
fn chunk_extensions_ignored() {
    let mut p = HttpParser::new(HttpParserType::Request);
    let mut rec = Recorder::new();
    let msg = b"POST / HTTP/1.1\r\nTransfer-Encoding: chunked\r\n\r\n5;name=v\r\nhello\r\n0\r\n\r\n";
    let r = p.execute(&mut rec, msg);
    assert_eq!(r, msg.len() as u64);
    assert_eq!(p.errno, None);
    assert_eq!(rec.body, b"hello".to_vec());
}

#[test]
fn chunk_size_in_hex() {
    let mut p = HttpParser::new(HttpParserType::Request);
    let mut rec = Recorder::new();
    let msg = b"POST / HTTP/1.1\r\nTransfer-Encoding: chunked\r\n\r\na\r\n0123456789\r\n0\r\n\r\n";
    let r = p.execute(&mut rec, msg);
    assert_eq!(r, msg.len() as u64);
    assert_eq!(p.errno, None);
    assert_eq!(rec.body, b"0123456789".to_vec());
}

#[test]
fn status_line_without_phrase() {
    let mut p = HttpParser::new(HttpParserType::Response);
    let mut rec = Recorder::new();
    let msg = b"HTTP/1.1 200\r\nContent-Length: 0\r\n\r\n";
    let r = p.execute(&mut rec, msg);
    assert_eq!(r, msg.len() as u64);
    assert_eq!(p.errno, None);
    assert_eq!(p.status_code, 200);
    assert_eq!(rec.status, b"".to_vec());
    assert_eq!(
        rec.events,
        vec!["message_begin", "headers_complete", "message_complete"]
    );
}

#[test]
fn content_length_trailing_space() {
    let mut p = HttpParser::new(HttpParserType::Response);
    let mut rec = Recorder::new();
    let msg = b"HTTP/1.1 200 OK\r\nContent-Length: 3 \r\n\r\nabc";
    let r = p.execute(&mut rec, msg);
    assert_eq!(r, msg.len() as u64);
    assert_eq!(p.errno, None);
    assert_eq!(rec.body, b"abc".to_vec());
}

#[test]
fn split_chunked_per_byte() {
    // A chunked message fed one byte at a time delivers the same events
    // and the same de-chunked body as the single-chunk parse.
    let msg = b"POST / HTTP/1.1\r\nTransfer-Encoding: chunked\r\n\r\n3\r\nabc\r\n0\r\n\r\n";

    let mut p1 = HttpParser::new(HttpParserType::Request);
    let mut whole = Recorder::new();
    assert_eq!(p1.execute(&mut whole, msg), msg.len() as u64);

    let mut p2 = HttpParser::new(HttpParserType::Request);
    let mut split = Recorder::new();
    for i in 0..msg.len() {
        let r = p2.execute(&mut split, &msg[i..i + 1]);
        assert_eq!(r, 1);
    }

    assert_eq!(whole.events, split.events);
    assert_eq!(whole.body, split.body);
    assert_eq!(whole.field, split.field);
    assert_eq!(whole.value, split.value);
    assert_eq!(p2.errno, None);
}

#[test]
fn header_value_keyword_demoted_by_suffix() {
    // "closedown" must not count as "close".
    let mut p = HttpParser::new(HttpParserType::Request);
    let mut rec = Recorder::new();
    let msg = b"GET / HTTP/1.1\r\nConnection: closedown\r\n\r\n";
    let r = p.execute(&mut rec, msg);
    assert_eq!(r, msg.len() as u64);
    assert_eq!(p.errno, None);
    assert!(!p.flags.connection_close);
    assert!(p.http_should_keep_alive());
}

#[test]
fn header_name_prefix_not_recognized() {
    // "Content-Lengthy" must not count as "Content-Length".
    let mut p = HttpParser::new(HttpParserType::Request);
    let mut rec = Recorder::new();
    let msg = b"GET / HTTP/1.1\r\nContent-Lengthy: 5\r\n\r\n";
    let r = p.execute(&mut rec, msg);
    assert_eq!(r, msg.len() as u64);
    assert_eq!(p.errno, None);
    // No body follows: the header did not set a length.
    assert_eq!(
        rec.events,
        vec!["message_begin", "headers_complete", "message_complete"]
    );
}
