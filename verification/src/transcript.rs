//! The transcript: a growable text buffer, kept as the exact bytes that will
//! later form the response body.

use vstd::prelude::*;

verus! {

/// What `String::from_utf8_lossy` returns on the given bytes.
pub uninterp spec fn lossy_decode(bytes: Seq<u8>) -> Seq<char>;

/// Relies on `String::from_utf8_lossy`: best-effort text decoding that never
/// fails.  The result depends on the input bytes alone; valid UTF-8 input is
/// decoded losslessly, and invalid sequences are substituted, not rejected.
#[verifier::external_body]
pub fn decode_lossy(bytes: &[u8]) -> (r: String)
    ensures
        r@ == lossy_decode(bytes@),
        vstd::utf8::valid_utf8(bytes@) ==> vstd::utf8::encode_utf8(r@) == bytes@,
{
    String::from_utf8_lossy(bytes).into_owned()
}

/// The accumulated diagnostic document.  It is write-only while it is built
/// and is handed over unchanged as the response payload, so its view is the
/// byte sequence an external client will observe.
pub struct Transcript {
    buf: Vec<u8>,
}

impl View for Transcript {
    type V = Seq<u8>;

    closed spec fn view(&self) -> Seq<u8> {
        self.buf@
    }
}

impl Transcript {
    pub fn new() -> (t: Transcript)
        ensures
            t@ == Seq::<u8>::empty(),
    {
        Transcript { buf: Vec::new() }
    }

    /// Appends the UTF-8 bytes of the given text.
    pub fn append_text(&mut self, s: &str)
        ensures
            final(self)@ == old(self)@ + vstd::utf8::encode_utf8(s@),
    {
        self.buf.extend_from_slice(s.as_bytes());
    }

    /// The length in bytes of the text accumulated so far.
    pub fn byte_len(&self) -> (n: usize)
        ensures
            n == self@.len(),
    {
        self.buf.len()
    }

    pub fn as_bytes(&self) -> (b: &[u8])
        ensures
            b@ == self@,
    {
        self.buf.as_slice()
    }
}

} // verus!
