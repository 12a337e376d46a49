//! Serving of a single byte-addressable entity over HTTP GET/HEAD, with
//! conditional-request (RFC 7232) and byte-range-request (RFC 7233) semantics.
//!
//! The crate decides, from an entity's metadata and a request's conditional and
//! range headers, which status code to return, which headers to emit, and which
//! byte sub-ranges of the entity to transmit; for several disjoint ranges it
//! plans a lazily produced `multipart/byteranges` body whose total length is
//! known before the first byte is read. Transport concerns (sockets, header
//! wire parsing, response transmission) belong to the surrounding application.

pub mod compose;
pub mod cond;
pub mod entity;
pub mod etag;
pub mod laws;
pub mod multipart;
pub mod ranges;
pub mod render;
pub mod status;

pub use compose::serve;

use vstd::prelude::*;

verus! {

/// The request method, as far as this crate distinguishes it: `GET`, `HEAD`,
/// or anything else (which is rejected with `405 Method Not Allowed`).
#[derive(Clone, Copy, PartialEq, Eq, Debug, Structural)]
pub enum Method {
    Get,
    Head,
    Other,
}

impl Method {
    /// Whether the method is one this crate serves.
    pub fn is_get_or_head(&self) -> (r: bool)
        ensures
            r == (*self is Get || *self is Head),
    {
        match self {
            Method::Get => true,
            Method::Head => true,
            Method::Other => false,
        }
    }
}

} // verus!
