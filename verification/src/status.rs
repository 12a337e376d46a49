//! The status codes a response plan can carry.

use vstd::prelude::*;

verus! {

/// The HTTP status codes this crate decides between.
#[derive(Clone, Copy, PartialEq, Eq, Debug, Structural)]
pub enum StatusCode {
    /// 200: the whole entity is served.
    Okay,
    /// 206: one requested range, or a multipart set of ranges, is served.
    PartialContent,
    /// 304: the client's copy is current; no body.
    NotModified,
    /// 405: the method is neither GET nor HEAD.
    MethodNotAllowed,
    /// 412: a precondition (If-Match / If-Unmodified-Since) failed.
    PreconditionFailed,
    /// 416: a range was requested but no requested byte exists.
    RangeNotSatisfiable,
}

impl StatusCode {
    /// The numeric code on the wire.
    pub open spec fn spec_code(self) -> u16 {
        match self {
            StatusCode::Okay => 200,
            StatusCode::PartialContent => 206,
            StatusCode::NotModified => 304,
            StatusCode::MethodNotAllowed => 405,
            StatusCode::PreconditionFailed => 412,
            StatusCode::RangeNotSatisfiable => 416,
        }
    }

    /// The numeric code on the wire.
    pub fn code(&self) -> (r: u16)
        ensures
            r == self.spec_code(),
    {
        match self {
            StatusCode::Okay => 200,
            StatusCode::PartialContent => 206,
            StatusCode::NotModified => 304,
            StatusCode::MethodNotAllowed => 405,
            StatusCode::PreconditionFailed => 412,
            StatusCode::RangeNotSatisfiable => 416,
        }
    }
}

} // verus!
