//! Evaluation of the conditional headers of a request against the entity's
//! validator and modification time (RFC 7232 section 6 precedence).
//!
//! The evaluation only computes an outcome; it never touches response state.
//! `If-Match` uses the strong comparison, `If-None-Match` the weak one.
//! `If-Range` decides whether a concurrently present `Range:` header is
//! honored: only an entity tag that strong-compares equal to the validator
//! honors it; a date form never does, because sub-second changes cannot be
//! ruled out under strong validation (RFC 7232 section 2.2.2).

use vstd::prelude::*;
use crate::etag::{EntityTag, strong_match, weak_match};
use crate::ranges::RangeHeader;
use crate::status::StatusCode;

verus! {

/// The value of an `If-Match` or `If-None-Match` header.
pub enum TagList {
    /// `*`: matches any current representation.
    Any,
    /// An explicit list of entity tags.
    Items(Vec<EntityTag>),
}

/// The value of an `If-Range` header.
pub enum IfRange {
    /// An entity tag.
    Tag(EntityTag),
    /// A modification date, in whole seconds since the epoch.
    Date(u64),
}

/// The conditional and range headers of one request, in the structured form
/// the transport layer hands over. Absent fields stand for absent headers; a
/// header too malformed to parse is handed over as absent.
pub struct RequestHeaders {
    pub if_match: Option<TagList>,
    pub if_none_match: Option<TagList>,
    /// `If-Unmodified-Since`, in whole seconds since the epoch.
    pub if_unmodified_since: Option<u64>,
    /// `If-Modified-Since`, in whole seconds since the epoch.
    pub if_modified_since: Option<u64>,
    pub if_range: Option<IfRange>,
    pub range: Option<RangeHeader>,
}

/// What the conditional headers decided.
#[derive(Clone, Copy, PartialEq, Eq, Debug)]
pub struct ConditionalOutcome {
    /// Whether the request proceeds to range resolution and body selection.
    pub proceed: bool,
    /// The short-circuit status when it does not proceed.
    pub status_override: Option<StatusCode>,
    /// Whether a present `Range:` header is honored.
    pub honor_range: bool,
    /// Whether a range response should carry the entity's content headers.
    pub include_entity_headers_on_range: bool,
}

/// Some listed tag strong-compares equal to the entity's validator.
pub open spec fn spec_lists_strong_match(etag: Option<EntityTag>, tags: Seq<EntityTag>) -> bool {
    match etag {
        Option::Some(e) => exists|i: int| 0 <= i < tags.len() && strong_match(#[trigger] tags[i], e),
        Option::None => false,
    }
}

/// Some listed tag weak-compares equal to the entity's validator.
pub open spec fn spec_lists_weak_match(etag: Option<EntityTag>, tags: Seq<EntityTag>) -> bool {
    match etag {
        Option::Some(e) => exists|i: int| 0 <= i < tags.len() && weak_match(#[trigger] tags[i], e),
        Option::None => false,
    }
}

/// A list with a weak-matching element matches the validator.
pub proof fn lemma_weak_witness(e: EntityTag, tags: Seq<EntityTag>, i: int)
    requires
        0 <= i < tags.len(),
        weak_match(tags[i], e),
    ensures
        spec_lists_weak_match(Option::Some(e), tags),
{
}

/// A list with a strong-matching element matches the validator.
pub proof fn lemma_strong_witness(e: EntityTag, tags: Seq<EntityTag>, i: int)
    requires
        0 <= i < tags.len(),
        strong_match(tags[i], e),
    ensures
        spec_lists_strong_match(Option::Some(e), tags),
{
}

/// True when the request has no `If-Match` header, or one the entity's
/// validator satisfies: `*` always passes, a list passes only when some
/// listed tag strong-compares equal to the validator (so it always fails
/// when the entity has no validator).
pub open spec fn spec_any_match(etag: Option<EntityTag>, if_match: Option<TagList>) -> bool {
    match if_match {
        Option::None => true,
        Option::Some(TagList::Any) => true,
        Option::Some(TagList::Items(tags)) => spec_lists_strong_match(etag, tags@),
    }
}

/// True when the request has no `If-None-Match` header matching the entity:
/// `*` always matches; a list matches when some listed tag weak-compares
/// equal to the validator.
pub open spec fn spec_none_match(etag: Option<EntityTag>, if_none_match: Option<TagList>) -> bool {
    match if_none_match {
        Option::None => true,
        Option::Some(TagList::Any) => false,
        Option::Some(TagList::Items(tags)) => !spec_lists_weak_match(etag, tags@),
    }
}

/// A precondition failed: `If-Match` did not pass, or it passed and the
/// entity is known to have been modified strictly after the
/// `If-Unmodified-Since` timestamp.
pub open spec fn spec_precondition_failed(
    etag: Option<EntityTag>,
    last_modified: Option<u64>,
    h: RequestHeaders,
) -> bool {
    if !spec_any_match(etag, h.if_match) {
        true
    } else {
        &&& last_modified matches Some(m)
        &&& h.if_unmodified_since matches Some(since)
        &&& m > since
    }
}

/// The client's copy is current: `If-None-Match` matched, or (when it did
/// not force the decision) the entity is known not to have been modified
/// after the `If-Modified-Since` timestamp.
pub open spec fn spec_not_modified(
    etag: Option<EntityTag>,
    last_modified: Option<u64>,
    h: RequestHeaders,
) -> bool {
    if !spec_none_match(etag, h.if_none_match) {
        true
    } else {
        &&& last_modified matches Some(m)
        &&& h.if_modified_since matches Some(since)
        &&& m <= since
    }
}

/// Whether a present `Range:` header is honored: yes without `If-Range`;
/// with an `If-Range` tag, only when it strong-compares equal to the
/// validator; with an `If-Range` date, never.
pub open spec fn spec_honor_range(etag: Option<EntityTag>, if_range: Option<IfRange>) -> bool {
    match if_range {
        Option::None => true,
        Option::Some(IfRange::Date(_)) => false,
        Option::Some(IfRange::Tag(t)) => etag matches Some(e) && strong_match(t, e),
    }
}

/// Whether a range response should carry the entity's content headers: it
/// should, unless the client proved by a strong-matching `If-Range` tag that
/// it already holds them (RFC 7233 section 3.2).
pub open spec fn spec_include_entity_headers_on_range(
    etag: Option<EntityTag>,
    if_range: Option<IfRange>,
) -> bool {
    !(if_range matches Some(IfRange::Tag(t)) && etag matches Some(e) && strong_match(t, e))
}

/// Returns true if the request has no `If-Match` header or one which matches
/// the validator under the strong comparison.
#[verifier::loop_isolation(false)]
pub fn any_match(etag: &Option<EntityTag>, if_match: &Option<TagList>) -> (r: bool)
    ensures
        r == spec_any_match(*etag, *if_match),
{
    match if_match {
        Option::None => true,
        Option::Some(TagList::Any) => true,
        Option::Some(TagList::Items(tags)) => {
            match etag {
                Option::Some(e) => {
                    let n = tags.len();
                    let mut i: usize = 0;
                    while i < n
                        invariant
                            n == tags@.len(),
                            i <= n,
                            forall|j: int| 0 <= j < i ==> !strong_match(tags@[j], *e),
                        decreases n - i,
                    {
                        let t = &tags[i];
                        if t.strong_eq(e) {
                            assert(spec_lists_strong_match(*etag, tags@)) by {
                                assert(strong_match(tags@[i as int], *e));
                            }
                            return true;
                        }
                        i += 1;
                    }
                    false
                },
                Option::None => false,
            }
        },
    }
}

/// Returns true if the request has no `If-None-Match` header matching the
/// validator under the weak comparison.
#[verifier::loop_isolation(false)]
pub fn none_match(etag: &Option<EntityTag>, if_none_match: &Option<TagList>) -> (r: bool)
    ensures
        r == spec_none_match(*etag, *if_none_match),
{
    match if_none_match {
        Option::None => true,
        Option::Some(TagList::Any) => false,
        Option::Some(TagList::Items(tags)) => {
            match etag {
                Option::Some(e) => {
                    let n = tags.len();
                    let mut i: usize = 0;
                    while i < n
                        invariant
                            n == tags@.len(),
                            i <= n,
                            forall|j: int| 0 <= j < i ==> !weak_match(tags@[j], *e),
                        decreases n - i,
                    {
                        let t = &tags[i];
                        if t.weak_eq(e) {
                            assert(spec_lists_weak_match(*etag, tags@)) by {
                                assert(weak_match(tags@[i as int], *e));
                            }
                            return false;
                        }
                        i += 1;
                    }
                    true
                },
                Option::None => true,
            }
        },
    }
}

/// Evaluates the conditional headers: which of precondition-failed (412),
/// not-modified (304), or proceed applies — the 412 paths always win over
/// the 304 paths — and whether a present `Range:` header is honored and
/// whether a range response carries the entity's content headers.
pub fn evaluate(
    etag: &Option<EntityTag>,
    last_modified: Option<u64>,
    h: &RequestHeaders,
) -> (r: ConditionalOutcome)
    ensures
        r.proceed == (!spec_precondition_failed(*etag, last_modified, *h) && !spec_not_modified(
            *etag,
            last_modified,
            *h,
        )),
        r.status_override == (if spec_precondition_failed(*etag, last_modified, *h) {
            Some(StatusCode::PreconditionFailed)
        } else if spec_not_modified(*etag, last_modified, *h) {
            Some(StatusCode::NotModified)
        } else {
            None::<StatusCode>
        }),
        r.honor_range == spec_honor_range(*etag, h.if_range),
        r.include_entity_headers_on_range == spec_include_entity_headers_on_range(
            *etag,
            h.if_range,
        ),
{
    let precondition_failed = if !any_match(etag, &h.if_match) {
        true
    } else {
        match (last_modified, h.if_unmodified_since) {
            (Option::Some(m), Option::Some(since)) => m > since,
            _ => false,
        }
    };
    let not_modified = if !none_match(etag, &h.if_none_match) {
        true
    } else {
        match (last_modified, h.if_modified_since) {
            (Option::Some(m), Option::Some(since)) => m <= since,
            _ => false,
        }
    };
    let (honor_range, include_entity_headers_on_range) = match &h.if_range {
        Option::None => (true, true),
        Option::Some(IfRange::Date(_)) => (false, true),
        Option::Some(IfRange::Tag(t)) => {
            match etag {
                Option::Some(e) => {
                    if t.strong_eq(e) {
                        (true, false)
                    } else {
                        (false, true)
                    }
                },
                Option::None => (false, true),
            }
        },
    };
    let status_override = if precondition_failed {
        Some(StatusCode::PreconditionFailed)
    } else if not_modified {
        Some(StatusCode::NotModified)
    } else {
        None
    };
    ConditionalOutcome {
        proceed: !precondition_failed && !not_modified,
        status_override,
        honor_range,
        include_entity_headers_on_range,
    }
}

} // verus!
