//! The request handler: reads one request into a transcript, fully drains the
//! body, then commits exactly one response carrying the transcript.

use vstd::prelude::*;
use vstd::utf8::encode_utf8;
use crate::request::{IncomingRequest, Method, Scheme, method_str, method_to_str, scheme_str,
    scheme_to_str};
use crate::response::{FinishedBody, ResponseOutparam, is_response_headers, respond};
use crate::stream::{BodyStream, ReadResult, body_section, body_text, has_data, stream_fails};
use crate::transcript::{Transcript, decode_lossy, lossy_decode};

verus! {

/// The fatal conditions that abort a request.  In this model the body stream
/// is the only collaborator that can fail, so a read failure is the only one.
#[derive(Debug)]
pub enum HandlerError {
    BodyReadFailed,
}

/// One transcript line: a label, a text, and the line break.
pub open spec fn labeled_line(label: Seq<char>, text: Seq<char>) -> Seq<u8> {
    encode_utf8(label) + encode_utf8(text) + encode_utf8("\n"@)
}

/// The `REQUEST_PATH` line, omitted entirely when the request has no path.
pub open spec fn path_line(path: Option<String>) -> Seq<u8> {
    match path {
        Some(p) => labeled_line("REQUEST_PATH = "@, p@),
        None => Seq::<u8>::empty(),
    }
}

/// The `METHOD` line, always present.
pub open spec fn method_line(method: Method) -> Seq<u8> {
    labeled_line("METHOD = "@, method_str(method))
}

/// The `SCHEME` line, omitted entirely when the request has no scheme.
pub open spec fn scheme_line(scheme: Option<Scheme>) -> Seq<u8> {
    match scheme {
        Some(s) => labeled_line("SCHEME = "@, scheme_str(s)),
        None => Seq::<u8>::empty(),
    }
}

/// The `AUTHORITY` line, omitted entirely when the request has no authority.
pub open spec fn authority_line(authority: Option<String>) -> Seq<u8> {
    match authority {
        Some(a) => labeled_line("AUTHORITY = "@, a@),
        None => Seq::<u8>::empty(),
    }
}

/// The banner and the request-info section, up to and including the header
/// section marker.
pub open spec fn info_lines(
    path: Option<String>,
    method: Method,
    scheme: Option<Scheme>,
    authority: Option<String>,
) -> Seq<u8> {
    encode_utf8(" * Welcome to the component model in Rust! *\n\n[Request Info]\n"@)
        + path_line(path) + method_line(method) + scheme_line(scheme) + authority_line(authority)
        + encode_utf8("\n[Request Headers]\n"@)
}

/// The transcript line of one header pair: its name, then the value decoded
/// leniently from raw bytes.
pub open spec fn header_line(h: (String, Vec<u8>)) -> Seq<u8> {
    encode_utf8(h.0@) + encode_utf8(" = "@) + encode_utf8(lossy_decode(h.1@)) + encode_utf8("\n"@)
}

/// The lines of all header pairs, one each, in the collection's order.
pub open spec fn header_lines(hs: Seq<(String, Vec<u8>)>) -> Seq<u8>
    decreases hs.len(),
{
    if hs.len() == 0 {
        Seq::<u8>::empty()
    } else {
        header_lines(hs.drop_last()) + header_line(hs.last())
    }
}

/// The whole transcript of a request: banner and info lines, one line per
/// header pair, then the body section (absent when no body data arrived).
pub open spec fn transcript_of(req: IncomingRequest) -> Seq<u8> {
    info_lines(req.path_with_query, req.method, req.scheme, req.authority)
        + header_lines(req.headers@) + body_section(req.body.events@)
}

/// Splitting a header collection splits its lines.
pub proof fn lemma_header_lines_concat(a: Seq<(String, Vec<u8>)>, b: Seq<(String, Vec<u8>)>)
    ensures
        header_lines(a + b) == header_lines(a) + header_lines(b),
    decreases b.len(),
{
    if b.len() == 0 {
        assert(a + b =~= a);
        assert(header_lines(a) + header_lines(b) =~= header_lines(a));
    } else {
        assert((a + b).drop_last() =~= a + b.drop_last());
        assert((a + b).last() == b.last());
        lemma_header_lines_concat(a, b.drop_last());
        assert(header_lines(a) + (header_lines(b.drop_last()) + header_line(b.last())) =~= (
        header_lines(a) + header_lines(b.drop_last())) + header_line(b.last()));
    }
}

/// Every header pair appears in the transcript's header section exactly once
/// and in the collection's original order: the section is the lines of the
/// pairs before it, its own line, then the lines of the pairs after it.
pub proof fn lemma_header_in_place(hs: Seq<(String, Vec<u8>)>, i: int)
    requires
        0 <= i < hs.len(),
    ensures
        header_lines(hs) == header_lines(hs.take(i)) + header_line(hs[i]) + header_lines(
            hs.skip(i + 1),
        ),
{
    let middle = seq![hs[i]];
    assert(hs =~= (hs.take(i) + middle) + hs.skip(i + 1));
    lemma_header_lines_concat(hs.take(i) + middle, hs.skip(i + 1));
    lemma_header_lines_concat(hs.take(i), middle);
    assert(middle.drop_last() =~= Seq::<(String, Vec<u8>)>::empty());
    assert(middle.last() == hs[i]);
    assert(header_lines(middle) == header_lines(middle.drop_last()) + header_line(middle.last()));
    assert(Seq::<u8>::empty() + header_line(hs[i]) =~= header_line(hs[i]));
}

/// A request whose body closes before any non-empty chunk produces a
/// transcript with no data section at all: exactly the banner, the info
/// lines and the header lines.
pub proof fn lemma_empty_body_no_data_section(req: IncomingRequest)
    requires
        !has_data(req.body.events@),
    ensures
        transcript_of(req) == info_lines(req.path_with_query, req.method, req.scheme, req.authority)
            + header_lines(req.headers@),
{
    assert(body_section(req.body.events@) =~= Seq::<u8>::empty());
    assert(transcript_of(req) =~= info_lines(
        req.path_with_query,
        req.method,
        req.scheme,
        req.authority,
    ) + header_lines(req.headers@));
}

/// Appends one labeled line: the label, the text, and the line break.
fn append_labeled(t: &mut Transcript, label: &str, text: &str)
    ensures
        final(t)@ == old(t)@ + labeled_line(label@, text@),
{
    t.append_text(label);
    t.append_text(text);
    t.append_text("\n");
    proof {
        assert(t@ =~= old(t)@ + labeled_line(label@, text@));
    }
}

/// Writes the banner and the request-info section: the path, method, scheme
/// and authority lines, each optional one omitted when absent.
pub fn write_request_info(
    t: &mut Transcript,
    path: &Option<String>,
    method: &Method,
    scheme: &Option<Scheme>,
    authority: &Option<String>,
)
    ensures
        final(t)@ == old(t)@ + info_lines(*path, *method, *scheme, *authority),
{
    t.append_text(" * Welcome to the component model in Rust! *\n\n[Request Info]\n");
    let ghost acc1 = encode_utf8(
        " * Welcome to the component model in Rust! *\n\n[Request Info]\n"@,
    );
    if let Some(p) = path {
        append_labeled(t, "REQUEST_PATH = ", p.as_str());
    }
    let ghost acc2 = acc1 + path_line(*path);
    proof {
        assert(t@ =~= old(t)@ + acc2);
    }
    append_labeled(t, "METHOD = ", method_to_str(method));
    let ghost acc3 = acc2 + method_line(*method);
    proof {
        assert(t@ =~= old(t)@ + acc3);
    }
    if let Some(s) = scheme {
        append_labeled(t, "SCHEME = ", scheme_to_str(s));
    }
    let ghost acc4 = acc3 + scheme_line(*scheme);
    proof {
        assert(t@ =~= old(t)@ + acc4);
    }
    if let Some(a) = authority {
        append_labeled(t, "AUTHORITY = ", a.as_str());
    }
    let ghost acc5 = acc4 + authority_line(*authority);
    proof {
        assert(t@ =~= old(t)@ + acc5);
    }
    t.append_text("\n[Request Headers]\n");
    proof {
        assert(t@ =~= old(t)@ + (acc5 + encode_utf8("\n[Request Headers]\n"@)));
    }
}

/// Writes one line per header pair, in original order, each value decoded
/// leniently.
pub fn write_headers(t: &mut Transcript, headers: &Vec<(String, Vec<u8>)>)
    ensures
        final(t)@ == old(t)@ + header_lines(headers@),
{
    let ghost t0 = t@;
    let n = headers.len();
    let mut i: usize = 0;
    while i < n
        invariant
            i <= n,
            n == headers@.len(),
            t@ == t0 + header_lines(headers@.take(i as int)),
        decreases n - i,
    {
        let entry = &headers[i];
        t.append_text(entry.0.as_str());
        t.append_text(" = ");
        let decoded = decode_lossy(entry.1.as_slice());
        t.append_text(decoded.as_str());
        t.append_text("\n");
        proof {
            assert(headers@.take(i as int + 1).drop_last() =~= headers@.take(i as int));
            assert(headers@.take(i as int + 1).last() == headers@[i as int]);
            assert(t@ =~= t0 + header_lines(headers@.take(i as int + 1)));
        }
        i += 1;
    }
    proof {
        assert(headers@.take(n as int) =~= headers@);
    }
}

/// The body-consumption loop.  It reads the stream to its end, skipping
/// "not yet ready" empty chunks, emits the data-section marker before the
/// first non-empty chunk, and appends each chunk's decoded text; the stream
/// closing is normal termination and a reported failure is fatal.  Either
/// way the transcript gains exactly the body section of the stream.
pub fn drain_body(stream: BodyStream, t: &mut Transcript) -> (r: Result<(), HandlerError>)
    ensures
        final(t)@ == old(t)@ + body_section(stream.events@),
        r is Ok <==> !stream_fails(stream.events@),
{
    let ghost t0 = t@;
    let events = stream.events;
    let n = events.len();
    let mut any = false;
    let mut i: usize = 0;
    proof {
        assert(events@.skip(0) =~= events@);
    }
    while i < n
        invariant
            i <= n,
            n == events@.len(),
            t0 == old(t)@,
            events@ == stream.events@,
            t0 + body_section(events@) == t@ + (if any {
                body_text(events@.skip(i as int))
            } else {
                body_section(events@.skip(i as int))
            }),
            stream_fails(events@) == stream_fails(events@.skip(i as int)),
        decreases n - i,
    {
        let ghost suffix = events@.skip(i as int);
        let ghost rest = events@.skip(i as int + 1);
        proof {
            assert(suffix.len() == n - i);
            assert(suffix[0] == events@[i as int]);
            assert(suffix.drop_first() =~= rest);
        }
        match &events[i] {
            ReadResult::Chunk(b) => {
                proof {
                    assert(suffix[0] == ReadResult::Chunk(*b));
                    assert(stream_fails(suffix) == stream_fails(rest));
                }
                let ghost was_any = any;
                let ghost before = t@;
                if b.len() > 0 {
                    if !any {
                        t.append_text("\n[Request Data]\n");
                        any = true;
                    }
                    let decoded = decode_lossy(b.as_slice());
                    t.append_text(decoded.as_str());
                    proof {
                        assert(has_data(suffix));
                        assert(body_text(suffix) == encode_utf8(lossy_decode(b@))
                            + body_text(rest));
                        if !was_any {
                            assert(body_section(suffix) == encode_utf8("\n[Request Data]\n"@)
                                + body_text(suffix));
                            assert(before + body_section(suffix) =~= t@ + body_text(rest));
                        } else {
                            assert(before + body_text(suffix) =~= t@ + body_text(rest));
                        }
                    }
                } else {
                    proof {
                        assert(body_text(suffix) == body_text(rest));
                        assert(has_data(suffix) == has_data(rest));
                        assert(body_section(suffix) == body_section(rest));
                    }
                }
                i += 1;
            },
            ReadResult::Closed => {
                proof {
                    assert(!has_data(suffix));
                    assert(body_text(suffix) == Seq::<u8>::empty());
                    assert(body_section(suffix) == Seq::<u8>::empty());
                    assert(t@ + Seq::<u8>::empty() =~= t@);
                    assert(!stream_fails(suffix));
                }
                return Ok(());
            },
            ReadResult::Failed => {
                proof {
                    assert(!has_data(suffix));
                    assert(body_text(suffix) == Seq::<u8>::empty());
                    assert(body_section(suffix) == Seq::<u8>::empty());
                    assert(t@ + Seq::<u8>::empty() =~= t@);
                    assert(stream_fails(suffix));
                }
                return Err(HandlerError::BodyReadFailed);
            },
        }
    }
    proof {
        assert(events@.skip(n as int) =~= Seq::<ReadResult>::empty());
        assert(body_text(Seq::<ReadResult>::empty()) == Seq::<u8>::empty());
        assert(!has_data(Seq::<ReadResult>::empty()));
        assert(body_section(Seq::<ReadResult>::empty()) == Seq::<u8>::empty());
        assert(!stream_fails(Seq::<ReadResult>::empty()));
        assert(t@ + Seq::<u8>::empty() =~= t@);
    }
    Ok(())
}

/// The Request Reader: produces the transcript of the request and fully
/// drains its body, or reports the fatal read failure without producing one.
pub fn read_request(request: IncomingRequest) -> (r: Result<Transcript, HandlerError>)
    ensures
        r is Ok <==> !stream_fails(request.body.events@),
        r matches Ok(t) ==> t@ == transcript_of(request),
{
    let IncomingRequest { method, scheme, authority, path_with_query, headers, body } = request;
    let mut t = Transcript::new();
    write_request_info(&mut t, &path_with_query, &method, &scheme, &authority);
    write_headers(&mut t, &headers);
    match drain_body(body, &mut t) {
        Ok(()) => Ok(t),
        Err(e) => Err(e),
    }
}

/// Handles one request to completion: reads and drains it, then commits
/// exactly one status-200 response whose body is the transcript.  On a body
/// read failure it aborts instead: nothing is committed and the slot is left
/// untouched, so no code path commits twice or commits a partial response.
pub fn handle(request: IncomingRequest, outparam: &mut ResponseOutparam) -> (r: Result<
    FinishedBody,
    HandlerError,
>)
    requires
        !old(outparam).is_committed(),
    ensures
        r is Ok <==> !stream_fails(request.body.events@),
        r matches Ok(body) ==> final(outparam).committed_response() matches Some(c)
            && c.status == 200 && is_response_headers(c.headers@, transcript_of(request).len())
            && body@ == transcript_of(request),
        r is Err ==> *final(outparam) == *old(outparam),
{
    match read_request(request) {
        Ok(t) => Ok(respond(t, outparam)),
        Err(e) => Err(e),
    }
}

} // verus!
