//! Laws of the request-evaluation pipeline, stated and proved once over all
//! inputs: how the conditional headers interact, when a range request is
//! honored or ignored, and that `HEAD` mirrors `GET`.

use vstd::prelude::*;
use crate::Method;
use crate::compose::{ResponsePlan, plan_full, serve_contract, spec_resolution, spec_status};
use crate::cond::{
    IfRange, RequestHeaders, TagList, spec_any_match, spec_lists_strong_match,
    spec_lists_weak_match, spec_not_modified, spec_precondition_failed,
};
use crate::entity::EntityMeta;
use crate::etag::{EntityTag, strong_match, weak_match};
use crate::multipart::spec_est_len;
use crate::ranges::ResolutionView;
use crate::status::StatusCode;

verus! {

/// `If-Match: *` always passes, whatever validator the entity has or does
/// not have; with no `If-Unmodified-Since` constraint beside it, the request
/// never fails its preconditions.
pub proof fn lemma_if_match_any_passes(
    etag: Option<EntityTag>,
    last_modified: Option<u64>,
    h: RequestHeaders,
)
    requires
        h.if_match == Option::Some(TagList::Any),
    ensures
        spec_any_match(etag, h.if_match),
        h.if_unmodified_since is None ==> !spec_precondition_failed(etag, last_modified, h),
{
}

/// An `If-Match` list none of whose tags strong-compares equal to the
/// validator fails the request with 412 — even when `If-None-Match` would
/// match at the same time: the precondition path wins over the not-modified
/// path.
pub proof fn lemma_if_match_mismatch_fails(meta: EntityMeta, method: Method, h: RequestHeaders)
    requires
        method is Get || method is Head,
        h.if_match matches Some(TagList::Items(tags)) && !spec_lists_strong_match(
            meta.etag,
            tags@,
        ),
    ensures
        spec_status(meta, method, h) == StatusCode::PreconditionFailed,
{
}

/// A request against an entity with no validator fails with 412 whenever its
/// `If-Match` names any list of tags: nothing can strong-compare equal to a
/// validator that does not exist.
pub proof fn lemma_no_validator_if_match_fails(meta: EntityMeta, method: Method, h: RequestHeaders)
    requires
        method is Get || method is Head,
        meta.etag is None,
        h.if_match matches Some(TagList::Items(tags)),
    ensures
        spec_status(meta, method, h) == StatusCode::PreconditionFailed,
{
}

/// `If-None-Match` matches on value equality regardless of either side's
/// strength, while `If-Match` demands both sides strong with equal value.
pub proof fn lemma_comparison_strength(e: EntityTag, t: EntityTag)
    ensures
        spec_lists_weak_match(Option::Some(e), seq![t]) == (t.tag@ == e.tag@),
        spec_lists_strong_match(Option::Some(e), seq![t]) == (!t.weak && !e.weak && t.tag@
            == e.tag@),
{
    let tags = seq![t];
    assert(tags.len() == 1);
    assert(tags[0] == t);
    if spec_lists_weak_match(Option::Some(e), tags) {
        let i = choose|i: int| 0 <= i < tags.len() && #[trigger] weak_match(tags[i], e);
        assert(i == 0);
        assert(weak_match(t, e));
    } else {
        if t.tag@ == e.tag@ {
            assert(weak_match(tags[0], e));
            crate::cond::lemma_weak_witness(e, tags, 0);
        }
    }
    if spec_lists_strong_match(Option::Some(e), tags) {
        let i = choose|i: int| 0 <= i < tags.len() && #[trigger] strong_match(tags[i], e);
        assert(i == 0);
        assert(strong_match(t, e));
    } else {
        if !t.weak && !e.weak && t.tag@ == e.tag@ {
            assert(strong_match(tags[0], e));
            crate::cond::lemma_strong_witness(e, tags, 0);
        }
    }
}

/// An `If-Range` date never honors the range, whether or not the date agrees
/// with the entity's modification time: the `Range:` header is ignored, and
/// when the conditionals pass the whole entity is served with 200 and its
/// content headers.
pub proof fn lemma_if_range_date_ignores_range(
    meta: EntityMeta,
    method: Method,
    h: RequestHeaders,
    now: u64,
    r: ResponsePlan,
    d: u64,
)
    requires
        serve_contract(meta, method, h, now, r),
        method is Get || method is Head,
        h.if_range == Option::Some(IfRange::Date(d)),
        !spec_precondition_failed(meta.etag, meta.last_modified, h),
        !spec_not_modified(meta.etag, meta.last_modified, h),
    ensures
        r.status == StatusCode::Okay,
        plan_full(r, meta.len, method),
{
    assert(spec_resolution(meta, h) is Absent);
}

/// An `If-Range` tag that strong-compares equal to the validator honors the
/// range: a single satisfiable requested range is served as 206, and the
/// entity's content headers are omitted from that response.
pub proof fn lemma_if_range_match_honors(
    meta: EntityMeta,
    method: Method,
    h: RequestHeaders,
    now: u64,
    r: ResponsePlan,
    t: EntityTag,
)
    requires
        serve_contract(meta, method, h, now, r),
        method is Get || method is Head,
        !spec_precondition_failed(meta.etag, meta.last_modified, h),
        !spec_not_modified(meta.etag, meta.last_modified, h),
        h.if_range == Option::Some(IfRange::Tag(t)),
        meta.etag matches Some(e) && strong_match(t, e),
        spec_resolution(meta, h) matches ResolutionView::Satisfiable(rs) && rs.len() == 1,
    ensures
        r.status == StatusCode::PartialContent,
        !r.include_entity_headers,
{
}

/// An `If-Range` tag that does not strong-compare equal to the validator
/// (in particular any tag, when the entity has no validator) leaves the
/// range ignored: the whole entity is served with 200 and its content
/// headers.
pub proof fn lemma_if_range_mismatch_ignores(
    meta: EntityMeta,
    method: Method,
    h: RequestHeaders,
    now: u64,
    r: ResponsePlan,
    t: EntityTag,
)
    requires
        serve_contract(meta, method, h, now, r),
        method is Get || method is Head,
        !spec_precondition_failed(meta.etag, meta.last_modified, h),
        !spec_not_modified(meta.etag, meta.last_modified, h),
        h.if_range == Option::Some(IfRange::Tag(t)),
        !(meta.etag matches Some(e) && strong_match(t, e)),
    ensures
        r.status == StatusCode::Okay,
        plan_full(r, meta.len, method),
{
    assert(spec_resolution(meta, h) is Absent);
}

/// Requested ranges whose combined framing estimate (80 bytes per part plus
/// the parts' sizes) reaches the entity length fall back to 200 with the
/// whole entity.
pub proof fn lemma_wide_ranges_fall_back(
    meta: EntityMeta,
    method: Method,
    h: RequestHeaders,
    now: u64,
    r: ResponsePlan,
)
    requires
        serve_contract(meta, method, h, now, r),
        method is Get || method is Head,
        !spec_precondition_failed(meta.etag, meta.last_modified, h),
        !spec_not_modified(meta.etag, meta.last_modified, h),
        spec_resolution(meta, h) matches ResolutionView::Satisfiable(rs) && rs.len() >= 2 && spec_est_len(rs)
            >= meta.len,
    ensures
        r.status == StatusCode::Okay,
        plan_full(r, meta.len, method),
{
}

/// Two optional byte vectors hold the same bytes.
pub open spec fn opt_bytes_eq(a: Option<Vec<u8>>, b: Option<Vec<u8>>) -> bool {
    match (a, b) {
        (Option::None, Option::None) => true,
        (Option::Some(x), Option::Some(y)) => x@ == y@,
        _ => false,
    }
}

/// `HEAD` decides exactly as `GET` does on the same request: the same status
/// code and the same headers, `Content-Length` included; and on the paths
/// that answer 200 or 206 the `HEAD` response carries no body.
pub proof fn lemma_head_matches_get(
    meta: EntityMeta,
    h: RequestHeaders,
    now: u64,
    rg: ResponsePlan,
    rh: ResponsePlan,
)
    requires
        serve_contract(meta, Method::Get, h, now, rg),
        serve_contract(meta, Method::Head, h, now, rh),
    ensures
        rh.status == rg.status,
        rh.content_length == rg.content_length,
        rh.content_range == rg.content_range,
        rh.include_entity_headers == rg.include_entity_headers,
        rh.last_modified == rg.last_modified,
        rh.date == rg.date,
        rh.allow_get_head == rg.allow_get_head,
        crate::compose::opt_same_tag(rh.etag, rg.etag),
        opt_bytes_eq(rh.content_type, rg.content_type),
        (rh.status == StatusCode::Okay || rh.status == StatusCode::PartialContent)
            ==> rh.body is Empty,
{
    assert(spec_status(meta, Method::Get, h) == spec_status(meta, Method::Head, h));
}

} // verus!
