use http_echo::handler::{handle, HandlerError};
use http_echo::request::{IncomingRequest, Method, Scheme};
use http_echo::response::ResponseOutparam;
use http_echo::stream::{BodyStream, ReadResult};

fn plain_request(method: Method, events: Vec<ReadResult>) -> IncomingRequest {
    IncomingRequest {
        method,
        scheme: None,
        authority: None,
        path_with_query: None,
        headers: Vec::new(),
        body: BodyStream { events },
    }
}

fn transcript_string(req: IncomingRequest) -> String {
    let mut outparam = ResponseOutparam::new();
    let body = handle(req, &mut outparam).expect("handler failed");
    String::from_utf8(body.bytes().to_vec()).expect("transcript is not UTF-8")
}

#[test]
fn get_status_scenario() {
    let req = IncomingRequest {
        method: Method::Get,
        scheme: Some(Scheme::Https),
        authority: Some("example.test".to_string()),
        path_with_query: Some("/status?x=1".to_string()),
        headers: vec![("x-a".to_string(), b"1".to_vec())],
        body: BodyStream { events: vec![ReadResult::Closed] },
    };
    let mut outparam = ResponseOutparam::new();
    let body = handle(req, &mut outparam).expect("handler failed");
    let response = outparam.response().as_ref().expect("nothing committed");
    assert_eq!(response.status, 200);
    let expected = " * Welcome to the component model in Rust! *\n\n[Request Info]\nREQUEST_PATH = /status?x=1\nMETHOD = GET\nSCHEME = https\nAUTHORITY = example.test\n\n[Request Headers]\nx-a = 1\n";
    assert_eq!(body.bytes(), expected.as_bytes());
    assert_eq!(response.headers.entries.len(), 2);
    assert_eq!(response.headers.entries[0].0, "content-type");
    assert_eq!(response.headers.entries[0].1, b"text/plain".to_vec());
    assert_eq!(response.headers.entries[1].0, "content-length");
    assert_eq!(
        response.headers.entries[1].1,
        expected.len().to_string().into_bytes()
    );
}

#[test]
fn post_two_chunk_body() {
    let events = vec![
        ReadResult::Chunk(b"hel".to_vec()),
        ReadResult::Chunk(b"lo".to_vec()),
        ReadResult::Closed,
    ];
    let text = transcript_string(plain_request(Method::Post, events));
    let expected = " * Welcome to the component model in Rust! *\n\n[Request Info]\nMETHOD = POST\n\n[Request Headers]\n\n[Request Data]\nhello";
    assert_eq!(text, expected);
}

#[test]
fn empty_body_has_no_data_section() {
    let text = transcript_string(plain_request(Method::Get, vec![ReadResult::Closed]));
    assert!(!text.contains("[Request Data]"));
}

#[test]
fn not_ready_reads_only_still_no_data_section() {
    let events = vec![
        ReadResult::Chunk(Vec::new()),
        ReadResult::Chunk(Vec::new()),
        ReadResult::Closed,
    ];
    let text = transcript_string(plain_request(Method::Get, events));
    assert!(!text.contains("[Request Data]"));
}

#[test]
fn not_ready_reads_do_not_truncate_body() {
    let events = vec![
        ReadResult::Chunk(Vec::new()),
        ReadResult::Chunk(b"a".to_vec()),
        ReadResult::Chunk(Vec::new()),
        ReadResult::Chunk(b"bc".to_vec()),
        ReadResult::Closed,
    ];
    let text = transcript_string(plain_request(Method::Put, events));
    assert!(text.ends_with("\n[Request Data]\nabc"));
}

#[test]
fn reading_stops_at_stream_closure() {
    let events = vec![
        ReadResult::Chunk(b"a".to_vec()),
        ReadResult::Closed,
        ReadResult::Chunk(b"zzz".to_vec()),
        ReadResult::Failed,
    ];
    let text = transcript_string(plain_request(Method::Get, events));
    assert!(text.ends_with("\n[Request Data]\na"));
    assert!(!text.contains("zzz"));
}

#[test]
fn headers_in_order_each_once() {
    let mut req = plain_request(Method::Get, vec![ReadResult::Closed]);
    req.headers = vec![
        ("h".to_string(), b"1".to_vec()),
        ("h".to_string(), b"2".to_vec()),
        ("x-b".to_string(), b"last".to_vec()),
    ];
    let text = transcript_string(req);
    let expected_tail = "\n[Request Headers]\nh = 1\nh = 2\nx-b = last\n";
    assert!(text.ends_with(expected_tail));
}

#[test]
fn header_value_decoded_leniently() {
    let mut req = plain_request(Method::Get, vec![ReadResult::Closed]);
    req.headers = vec![("x-raw".to_string(), vec![0xff, 0xfe])];
    let text = transcript_string(req);
    assert!(text.ends_with("x-raw = \u{fffd}\u{fffd}\n"));
}

#[test]
fn body_decoded_leniently() {
    let events = vec![ReadResult::Chunk(vec![b'o', b'k', 0xff]), ReadResult::Closed];
    let text = transcript_string(plain_request(Method::Post, events));
    assert!(text.ends_with("\n[Request Data]\nok\u{fffd}"));
}

#[test]
fn content_length_matches_body_bytes() {
    let events = vec![ReadResult::Chunk(b"some body".to_vec()), ReadResult::Closed];
    let mut req = plain_request(Method::Post, events);
    req.path_with_query = Some("/p".to_string());
    let mut outparam = ResponseOutparam::new();
    let body = handle(req, &mut outparam).expect("handler failed");
    let response = outparam.response().as_ref().expect("nothing committed");
    assert_eq!(response.headers.entries[1].0, "content-length");
    assert_eq!(
        response.headers.entries[1].1,
        body.bytes().len().to_string().into_bytes()
    );
}

#[test]
fn commit_happens_once_on_success() {
    let req = plain_request(Method::Get, vec![ReadResult::Closed]);
    let mut outparam = ResponseOutparam::new();
    let result = handle(req, &mut outparam);
    assert!(result.is_ok());
    assert!(outparam.response().is_some());
}

#[test]
fn read_failure_aborts_without_commit() {
    let events = vec![ReadResult::Chunk(b"x".to_vec()), ReadResult::Failed];
    let req = plain_request(Method::Get, events);
    let mut outparam = ResponseOutparam::new();
    let result = handle(req, &mut outparam);
    assert!(matches!(result, Err(HandlerError::BodyReadFailed)));
    assert!(outparam.response().is_none());
}

#[test]
fn immediate_failure_aborts_without_commit() {
    let req = plain_request(Method::Get, vec![ReadResult::Failed]);
    let mut outparam = ResponseOutparam::new();
    let result = handle(req, &mut outparam);
    assert!(matches!(result, Err(HandlerError::BodyReadFailed)));
    assert!(outparam.response().is_none());
}

#[test]
fn extension_method_passes_through() {
    let req = plain_request(
        Method::Other("PROPFIND".to_string()),
        vec![ReadResult::Closed],
    );
    let text = transcript_string(req);
    assert!(text.contains("METHOD = PROPFIND\n"));
}

#[test]
fn extension_scheme_passes_through() {
    let mut req = plain_request(Method::Get, vec![ReadResult::Closed]);
    req.scheme = Some(Scheme::Other("ftp".to_string()));
    let text = transcript_string(req);
    assert!(text.contains("SCHEME = ftp\n"));
}

#[test]
fn absent_fields_omit_their_lines() {
    let text = transcript_string(plain_request(Method::Get, vec![ReadResult::Closed]));
    assert!(!text.contains("REQUEST_PATH"));
    assert!(!text.contains("SCHEME"));
    assert!(!text.contains("AUTHORITY"));
    assert!(text.contains("METHOD = GET\n"));
}
