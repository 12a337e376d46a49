//! The metadata an application hands over about the entity being served.
//!
//! The entity's bytes themselves are never touched here: the response plan
//! only names which sub-ranges of the entity the application must transmit,
//! so the bytes can be produced lazily by whatever storage backs the entity.

use vstd::prelude::*;
use crate::etag::EntityTag;

verus! {

/// One content header the entity wants included on full-content responses
/// (`content-type`, `content-encoding`, ...), as raw name and value bytes.
pub struct HeaderField {
    /// The header name, in the casing it should be rendered with.
    pub name: Vec<u8>,
    /// The header value bytes.
    pub value: Vec<u8>,
}

/// The metadata of the entity being served, stable for the duration of one
/// request.
pub struct EntityMeta {
    /// Total size of the entity in bytes.
    pub len: u64,
    /// The entity's validator, if it has one.
    pub etag: Option<EntityTag>,
    /// Coarse modification time, in whole seconds since the epoch, if known.
    pub last_modified: Option<u64>,
    /// Content headers to include on full-content responses, in order.
    pub content_headers: Vec<HeaderField>,
}

} // verus!
