//! A verified diagnostic HTTP request handler.
//!
//! The library reads one incoming request, assembles a plain-text transcript
//! of its metadata and body, and commits exactly one response whose body is
//! that transcript.  The transcript bytes, the single commit of status and
//! headers, and the streaming body-read loop that tolerates "not yet ready"
//! reads are all specified and proved.

pub mod handler;
pub mod request;
pub mod response;
pub mod stream;
pub mod transcript;
