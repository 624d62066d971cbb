//! The outgoing response and its two-phase handoff.  A pending response is
//! built, committed exactly once into the single-use output slot (after which
//! status and headers are immutable), and only the commit yields the
//! write-only body channel, which must be finished exactly once.

use vstd::prelude::*;
use vstd::utf8::encode_utf8;
use crate::transcript::Transcript;

verus! {

/// The decimal digits of a number, most significant first, as ASCII bytes.
pub open spec fn decimal_digits(n: nat) -> Seq<u8>
    decreases n,
{
    if n < 10 {
        seq![(48 + n) as u8]
    } else {
        decimal_digits(n / 10) + seq![(48 + n % 10) as u8]
    }
}

/// The number a sequence of ASCII digits denotes.
pub open spec fn digits_value(s: Seq<u8>) -> nat
    decreases s.len(),
{
    if s.len() == 0 {
        0
    } else {
        (digits_value(s.drop_last()) * 10 + (s.last() - 48)) as nat
    }
}

/// `decimal_digits` is a faithful decimal notation: it is never empty, every
/// byte is an ASCII digit, and reading the digits back yields the number.
pub proof fn lemma_decimal_digits_value(n: nat)
    ensures
        decimal_digits(n).len() >= 1,
        forall|i: int| 0 <= i < decimal_digits(n).len()
            ==> 48 <= #[trigger] decimal_digits(n)[i] <= 57,
        digits_value(decimal_digits(n)) == n,
    decreases n,
{
    if n < 10 {
        let s = decimal_digits(n);
        assert(s.drop_last() =~= Seq::<u8>::empty());
        assert(s.last() == (48 + n) as u8);
        assert((48 + n) as u8 == 48 + n);
        assert(digits_value(s) == digits_value(s.drop_last()) * 10 + (s.last() - 48));
    } else {
        lemma_decimal_digits_value(n / 10);
        let s = decimal_digits(n);
        let d = decimal_digits(n / 10);
        assert(s.drop_last() =~= d);
        assert(s.last() == (48 + n % 10) as u8);
        assert((48 + n % 10) as u8 == 48 + n % 10);
        assert(digits_value(s) == digits_value(d) * 10 + (s.last() - 48));
        assert((n / 10) * 10 + n % 10 == n) by {
            vstd::arithmetic::div_mod::lemma_fundamental_div_mod(n as int, 10);
        }
        assert(forall|i: int| 0 <= i < s.len() ==> 48 <= #[trigger] s[i] <= 57) by {
            assert(forall|i: int| 0 <= i < d.len() ==> s[i] == #[trigger] d[i]);
        }
    }
}

/// Renders a length as decimal ASCII bytes, exactly `decimal_digits`.
pub fn decimal_bytes(n: u64) -> (r: Vec<u8>)
    ensures
        r@ == decimal_digits(n as nat),
    decreases n,
{
    if n < 10 {
        let mut v: Vec<u8> = Vec::new();
        v.push(48 + n as u8);
        v
    } else {
        let mut v = decimal_bytes(n / 10);
        v.push(48 + (n % 10) as u8);
        v
    }
}

/// An ordered response header collection; names are not deduplicated.
pub struct Headers {
    pub entries: Vec<(String, Vec<u8>)>,
}

impl View for Headers {
    type V = Seq<(String, Vec<u8>)>;

    open spec fn view(&self) -> Seq<(String, Vec<u8>)> {
        self.entries@
    }
}

impl Headers {
    pub fn new() -> (h: Headers)
        ensures
            h@ == Seq::<(String, Vec<u8>)>::empty(),
    {
        Headers { entries: Vec::new() }
    }

    pub fn append(&mut self, name: String, value: Vec<u8>)
        ensures
            final(self)@ == old(self)@.push((name, value)),
    {
        self.entries.push((name, value));
    }
}

/// A response that is still pending: not yet visible to the caller, its
/// status and headers still free to change.
pub struct OutgoingResponse {
    pub status: u16,
    pub headers: Headers,
}

impl OutgoingResponse {
    pub fn new(status: u16, headers: Headers) -> (r: OutgoingResponse)
        ensures
            r.status == status,
            r.headers == headers,
    {
        OutgoingResponse { status, headers }
    }
}

/// A committed response: status and headers fixed forever.  No method of
/// this type mutates it.
pub struct CommittedResponse {
    pub status: u16,
    pub headers: Headers,
}

/// The caller-provided single-use output slot.  It accepts exactly one
/// commit: `set` consumes the pending response, and its precondition refuses
/// a slot that is already filled.
pub struct ResponseOutparam {
    slot: Option<CommittedResponse>,
}

impl ResponseOutparam {
    pub closed spec fn committed_response(&self) -> Option<CommittedResponse> {
        self.slot
    }

    pub open spec fn is_committed(&self) -> bool {
        self.committed_response() is Some
    }

    pub fn new() -> (r: ResponseOutparam)
        ensures
            !r.is_committed(),
    {
        ResponseOutparam { slot: None }
    }

    /// The commit: the one irreversible handoff of status and headers.  It
    /// consumes the pending response, fills the slot, and yields the empty
    /// write-only body channel, so no body can be written before the commit.
    pub fn set(&mut self, response: OutgoingResponse) -> (body: OutgoingBody)
        requires
            !old(self).is_committed(),
        ensures
            final(self).committed_response() == Some(
                (CommittedResponse { status: response.status, headers: response.headers }),
            ),
            body@ == Seq::<u8>::empty(),
    {
        self.slot = Some(CommittedResponse { status: response.status, headers: response.headers });
        OutgoingBody { written: Vec::new() }
    }

    /// What was committed, for inspection once the handler returns.
    pub fn response(&self) -> (r: &Option<CommittedResponse>)
        ensures
            *r == self.committed_response(),
    {
        &self.slot
    }
}

/// The write-only body channel bound to a committed response.  Only
/// `ResponseOutparam::set` creates one, and `finish` consumes it, so a body
/// is never written before the commit nor after it is finished.
pub struct OutgoingBody {
    written: Vec<u8>,
}

impl View for OutgoingBody {
    type V = Seq<u8>;

    closed spec fn view(&self) -> Seq<u8> {
        self.written@
    }
}

impl OutgoingBody {
    /// Writes the payload and flushes it, as one blocking operation.
    pub fn blocking_write_and_flush(&mut self, bytes: &[u8])
        ensures
            final(self)@ == old(self)@ + bytes@,
    {
        self.written.extend_from_slice(bytes);
    }

    /// Finishes the channel, with no trailing metadata: the explicit signal
    /// of completion.  Consuming the channel makes a second finish, or a
    /// write after the finish, impossible.
    pub fn finish(self) -> (r: FinishedBody)
        ensures
            r@ == self@,
    {
        FinishedBody { bytes: self.written }
    }
}

/// Witness that the body channel was finished; it holds the full payload the
/// caller will observe.
pub struct FinishedBody {
    bytes: Vec<u8>,
}

impl View for FinishedBody {
    type V = Seq<u8>;

    closed spec fn view(&self) -> Seq<u8> {
        self.bytes@
    }
}

impl FinishedBody {
    pub fn bytes(&self) -> (b: &[u8])
        ensures
            b@ == self@,
    {
        self.bytes.as_slice()
    }
}

/// Exactly the two headers the response carries: `content-type: text/plain`
/// and a `content-length` equal to the byte length of the body that follows.
pub open spec fn is_response_headers(hs: Seq<(String, Vec<u8>)>, body_len: nat) -> bool {
    &&& hs.len() == 2
    &&& hs[0].0@ == "content-type"@
    &&& hs[0].1@ == encode_utf8("text/plain"@)
    &&& hs[1].0@ == "content-length"@
    &&& hs[1].1@ == decimal_digits(body_len)
}

/// The Response Writer: builds the content-type and content-length headers,
/// commits a status-200 pending response exactly once into the slot, writes
/// the full transcript to the body channel as one blocking flushed write,
/// and finishes the channel.  The content-length header holds the decimal
/// byte length of exactly the bytes the finished body carries.
pub fn respond(transcript: Transcript, outparam: &mut ResponseOutparam) -> (body: FinishedBody)
    requires
        !old(outparam).is_committed(),
    ensures
        body@ == transcript@,
        final(outparam).committed_response() matches Some(c) && c.status == 200
            && is_response_headers(c.headers@, transcript@.len()),
{
    let mut headers = Headers::new();
    headers.append("content-type".to_owned(), vstd::slice::slice_to_vec("text/plain".as_bytes()));
    let length = decimal_bytes(transcript.byte_len() as u64);
    headers.append("content-length".to_owned(), length);
    let response = OutgoingResponse::new(200, headers);
    let mut channel = outparam.set(response);
    channel.blocking_write_and_flush(transcript.as_bytes());
    channel.finish()
}

} // verus!
