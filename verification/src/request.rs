//! The incoming request: method, scheme, authority, path, headers and body,
//! owned exclusively by one handler invocation.

use vstd::prelude::*;
use crate::stream::BodyStream;

verus! {

/// An HTTP request method: one of the nine standard methods, or an arbitrary
/// extension method carried as its literal string.
#[derive(Debug)]
pub enum Method {
    Get,
    Head,
    Post,
    Put,
    Delete,
    Connect,
    Options,
    Trace,
    Patch,
    Other(String),
}

/// A request scheme: http, https, or an arbitrary scheme carried verbatim.
#[derive(Debug)]
pub enum Scheme {
    Http,
    Https,
    Other(String),
}

/// The canonical text of a method: the upper-case literal for the standard
/// methods, and the carried string unchanged for extension methods.
pub open spec fn method_str(m: Method) -> Seq<char> {
    match m {
        Method::Get => "GET"@,
        Method::Head => "HEAD"@,
        Method::Post => "POST"@,
        Method::Put => "PUT"@,
        Method::Delete => "DELETE"@,
        Method::Connect => "CONNECT"@,
        Method::Options => "OPTIONS"@,
        Method::Trace => "TRACE"@,
        Method::Patch => "PATCH"@,
        Method::Other(s) => s@,
    }
}

/// The canonical text of a scheme: the lower-case literal for http and https,
/// and the carried string unchanged otherwise.
pub open spec fn scheme_str(s: Scheme) -> Seq<char> {
    match s {
        Scheme::Http => "http"@,
        Scheme::Https => "https"@,
        Scheme::Other(o) => o@,
    }
}

/// Stringifies a method; extension methods pass through verbatim.
pub fn method_to_str(method: &Method) -> (r: &str)
    ensures
        r@ == method_str(*method),
{
    match method {
        Method::Get => "GET",
        Method::Head => "HEAD",
        Method::Post => "POST",
        Method::Put => "PUT",
        Method::Delete => "DELETE",
        Method::Connect => "CONNECT",
        Method::Options => "OPTIONS",
        Method::Trace => "TRACE",
        Method::Patch => "PATCH",
        Method::Other(s) => s.as_str(),
    }
}

/// Stringifies a scheme; unrecognized schemes pass through verbatim.
pub fn scheme_to_str(scheme: &Scheme) -> (r: &str)
    ensures
        r@ == scheme_str(*scheme),
{
    match scheme {
        Scheme::Http => "http",
        Scheme::Https => "https",
        Scheme::Other(o) => o.as_str(),
    }
}

/// One inbound request.  Header names are not guaranteed unique and keep
/// their original order; header values are raw bytes.
pub struct IncomingRequest {
    pub method: Method,
    pub scheme: Option<Scheme>,
    pub authority: Option<String>,
    pub path_with_query: Option<String>,
    pub headers: Vec<(String, Vec<u8>)>,
    pub body: BodyStream,
}

} // verus!
