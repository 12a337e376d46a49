//! Serving a small in-memory entity: conditional requests, single ranges,
//! and the fallbacks, checked against the response plan and a materialized
//! body.

use http_serve::Method;
use http_serve::compose::{BodyPlan, ContentRange, ResponsePlan};
use http_serve::cond::{IfRange, RequestHeaders, TagList};
use http_serve::entity::{EntityMeta, HeaderField};
use http_serve::etag::EntityTag;
use http_serve::multipart::BodyChunk;
use http_serve::ranges::{ByteRangeSpec, RangeHeader};
use http_serve::serve;
use http_serve::status::StatusCode;

// "Sun, 06 Nov 1994 08:49:37 GMT" and one hour later, in seconds since the
// epoch.
const SOME_DATE: u64 = 784111777;
const LATER_DATE: u64 = 784115377;
const NOW: u64 = 1000000000;

static BODY: &[u8] = b"01234";

fn octet_stream() -> Vec<HeaderField> {
    vec![HeaderField {
        name: b"content-type".to_vec(),
        value: b"application/octet-stream".to_vec(),
    }]
}

fn meta(etag: Option<EntityTag>) -> EntityMeta {
    EntityMeta {
        len: BODY.len() as u64,
        etag,
        last_modified: Some(SOME_DATE),
        content_headers: octet_stream(),
    }
}

fn no_headers() -> RequestHeaders {
    RequestHeaders {
        if_match: None,
        if_none_match: None,
        if_unmodified_since: None,
        if_modified_since: None,
        if_range: None,
        range: None,
    }
}

fn materialize(body: BodyPlan, data: &[u8]) -> Vec<u8> {
    match body {
        BodyPlan::Empty => Vec::new(),
        BodyPlan::Message(m) => m,
        BodyPlan::EntityRange(a, b) => data[a as usize..b as usize].to_vec(),
        BodyPlan::Multipart(mut mb) => {
            let mut out = Vec::new();
            while let Some(c) = mb.next_chunk() {
                match c {
                    BodyChunk::Framing(v) => out.extend_from_slice(&v),
                    BodyChunk::FromEntity(a, b) => {
                        out.extend_from_slice(&data[a as usize..b as usize])
                    }
                }
            }
            out
        }
    }
}

fn assert_full_ok(plan: ResponsePlan) {
    assert_eq!(StatusCode::Okay, plan.status);
    assert_eq!(None, plan.content_range);
    assert_eq!(Some(BODY.len() as u64), plan.content_length);
    assert!(plan.include_entity_headers);
    assert_eq!(None, plan.content_type);
    assert_eq!(BODY, &materialize(plan.body, BODY)[..]);
}

#[test]
fn lib_serve_without_etag() {
    let m = meta(None);

    // Full body.
    let plan = serve(&m, Method::Get, &no_headers(), NOW);
    assert_eq!(Some(SOME_DATE), plan.last_modified);
    assert_eq!(Some(NOW), plan.date);
    assert!(plan.accept_ranges_bytes);
    assert!(plan.etag.is_none());
    assert_full_ok(plan);

    // If-Match any should still send the full body.
    let mut h = no_headers();
    h.if_match = Some(TagList::Any);
    assert_full_ok(serve(&m, Method::Get, &h, NOW));

    // If-Match by etag doesn't match (as this entity has no etag).
    let mut h = no_headers();
    h.if_match = Some(TagList::Items(vec![EntityTag::strong(b"foo".to_vec())]));
    let plan = serve(&m, Method::Get, &h, NOW);
    assert_eq!(StatusCode::PreconditionFailed, plan.status);
    assert_eq!(412, plan.status.code());
    assert_eq!(
        b"Precondition failed".to_vec(),
        materialize(plan.body, BODY)
    );

    // If-None-Match any.
    let mut h = no_headers();
    h.if_none_match = Some(TagList::Any);
    let plan = serve(&m, Method::Get, &h, NOW);
    assert_eq!(StatusCode::NotModified, plan.status);
    assert_eq!(None, plan.content_range);
    assert_eq!(b"".to_vec(), materialize(plan.body, BODY));

    // If-None-Match by etag doesn't match (as this entity has no etag).
    let mut h = no_headers();
    h.if_none_match = Some(TagList::Items(vec![EntityTag::strong(b"foo".to_vec())]));
    assert_full_ok(serve(&m, Method::Get, &h, NOW));

    // Unmodified since the supplied date.
    let mut h = no_headers();
    h.if_modified_since = Some(SOME_DATE);
    let plan = serve(&m, Method::Get, &h, NOW);
    assert_eq!(StatusCode::NotModified, plan.status);
    assert_eq!(b"".to_vec(), materialize(plan.body, BODY));

    // Range serving - basic case.
    let mut h = no_headers();
    h.range = Some(RangeHeader::Bytes(vec![ByteRangeSpec::FromTo(1, 3)]));
    let plan = serve(&m, Method::Get, &h, NOW);
    assert_eq!(StatusCode::PartialContent, plan.status);
    assert_eq!(
        Some(ContentRange::Bytes { first: 1, last: 3, complete: 5 }),
        plan.content_range
    );
    assert_eq!(Some(3), plan.content_length);
    assert_eq!(b"123".to_vec(), materialize(plan.body, BODY));

    // Range serving - multiple ranges whose framing costs more than the
    // entity fall back to the whole body.
    let mut h = no_headers();
    h.range = Some(RangeHeader::Bytes(vec![
        ByteRangeSpec::FromTo(0, 1),
        ByteRangeSpec::FromTo(3, 4),
    ]));
    assert_full_ok(serve(&m, Method::Get, &h, NOW));

    // Range serving - not satisfiable.
    let mut h = no_headers();
    h.range = Some(RangeHeader::Bytes(vec![ByteRangeSpec::AllFrom(500)]));
    let plan = serve(&m, Method::Get, &h, NOW);
    assert_eq!(StatusCode::RangeNotSatisfiable, plan.status);
    assert_eq!(416, plan.status.code());
    assert_eq!(Some(ContentRange::Unsatisfied { complete: 5 }), plan.content_range);
    assert_eq!(b"".to_vec(), materialize(plan.body, BODY));

    // Range serving - If-Range by date never honors the range, matching or
    // not: strong validation cannot rule out sub-second changes.
    let mut h = no_headers();
    h.range = Some(RangeHeader::Bytes(vec![ByteRangeSpec::FromTo(1, 3)]));
    h.if_range = Some(IfRange::Date(SOME_DATE));
    assert_full_ok(serve(&m, Method::Get, &h, NOW));

    // Range serving - non-matching If-Range by date ignores the range.
    let mut h = no_headers();
    h.range = Some(RangeHeader::Bytes(vec![ByteRangeSpec::FromTo(1, 3)]));
    h.if_range = Some(IfRange::Date(LATER_DATE));
    assert_full_ok(serve(&m, Method::Get, &h, NOW));

    // Range serving - this entity has no etag, so any If-Range by etag
    // ignores the range.
    let mut h = no_headers();
    h.range = Some(RangeHeader::Bytes(vec![ByteRangeSpec::FromTo(1, 3)]));
    h.if_range = Some(IfRange::Tag(EntityTag::strong(b"foo".to_vec())));
    assert_full_ok(serve(&m, Method::Get, &h, NOW));
}

#[test]
fn lib_serve_with_strong_etag() {
    let m = meta(Some(EntityTag::strong(b"foo".to_vec())));

    // If-Match any should still send the full body.
    let mut h = no_headers();
    h.if_match = Some(TagList::Any);
    assert_full_ok(serve(&m, Method::Get, &h, NOW));

    // If-Match by matching etag should send the full body.
    let mut h = no_headers();
    h.if_match = Some(TagList::Items(vec![EntityTag::strong(b"foo".to_vec())]));
    assert_full_ok(serve(&m, Method::Get, &h, NOW));

    // If-Match by etag which doesn't match.
    let mut h = no_headers();
    h.if_match = Some(TagList::Items(vec![EntityTag::strong(b"bar".to_vec())]));
    let plan = serve(&m, Method::Get, &h, NOW);
    assert_eq!(StatusCode::PreconditionFailed, plan.status);

    // If-None-Match by etag which matches.
    let mut h = no_headers();
    h.if_none_match = Some(TagList::Items(vec![EntityTag::strong(b"foo".to_vec())]));
    let plan = serve(&m, Method::Get, &h, NOW);
    assert_eq!(StatusCode::NotModified, plan.status);
    assert_eq!(None, plan.content_range);
    assert_eq!(b"".to_vec(), materialize(plan.body, BODY));

    // If-None-Match by etag which doesn't match.
    let mut h = no_headers();
    h.if_none_match = Some(TagList::Items(vec![EntityTag::strong(b"bar".to_vec())]));
    assert_full_ok(serve(&m, Method::Get, &h, NOW));

    // Range serving - If-Range matching by etag honors the range and omits
    // the entity's content headers.
    let mut h = no_headers();
    h.range = Some(RangeHeader::Bytes(vec![ByteRangeSpec::FromTo(1, 3)]));
    h.if_range = Some(IfRange::Tag(EntityTag::strong(b"foo".to_vec())));
    let plan = serve(&m, Method::Get, &h, NOW);
    assert_eq!(StatusCode::PartialContent, plan.status);
    assert!(!plan.include_entity_headers);
    assert_eq!(None, plan.content_type);
    assert_eq!(
        Some(ContentRange::Bytes { first: 1, last: 3, complete: 5 }),
        plan.content_range
    );
    assert_eq!(b"123".to_vec(), materialize(plan.body, BODY));

    // Range serving - If-Range not matching by etag.
    let mut h = no_headers();
    h.range = Some(RangeHeader::Bytes(vec![ByteRangeSpec::FromTo(1, 3)]));
    h.if_range = Some(IfRange::Tag(EntityTag::strong(b"bar".to_vec())));
    assert_full_ok(serve(&m, Method::Get, &h, NOW));
}

#[test]
fn lib_serve_with_weak_etag() {
    let m = meta(Some(EntityTag::weak(b"foo".to_vec())));

    // If-Match any should still send the full body.
    let mut h = no_headers();
    h.if_match = Some(TagList::Any);
    assert_full_ok(serve(&m, Method::Get, &h, NOW));

    // If-Match by etag doesn't match because matches use the strong
    // comparison function.
    let mut h = no_headers();
    h.if_match = Some(TagList::Items(vec![EntityTag::weak(b"foo".to_vec())]));
    let plan = serve(&m, Method::Get, &h, NOW);
    assert_eq!(StatusCode::PreconditionFailed, plan.status);

    // If-None-Match by an identical weak etag is sufficient.
    let mut h = no_headers();
    h.if_none_match = Some(TagList::Items(vec![EntityTag::weak(b"foo".to_vec())]));
    let plan = serve(&m, Method::Get, &h, NOW);
    assert_eq!(StatusCode::NotModified, plan.status);
    assert_eq!(None, plan.content_range);
    assert_eq!(b"".to_vec(), materialize(plan.body, BODY));

    // If-None-Match by etag which doesn't match.
    let mut h = no_headers();
    h.if_none_match = Some(TagList::Items(vec![EntityTag::weak(b"bar".to_vec())]));
    assert_full_ok(serve(&m, Method::Get, &h, NOW));

    // Range serving - If-Range matching by weak etag isn't sufficient.
    let mut h = no_headers();
    h.range = Some(RangeHeader::Bytes(vec![ByteRangeSpec::FromTo(1, 3)]));
    h.if_range = Some(IfRange::Tag(EntityTag::weak(b"foo".to_vec())));
    assert_full_ok(serve(&m, Method::Get, &h, NOW));
}

#[test]
fn rejection_bodies() {
    let m = meta(None);

    // A method other than GET or HEAD is rejected with a fixed explanation
    // and an Allow header.
    let plan = serve(&m, Method::Other, &no_headers(), NOW);
    assert_eq!(StatusCode::MethodNotAllowed, plan.status);
    assert_eq!(405, plan.status.code());
    assert!(plan.allow_get_head);
    assert_eq!(
        Some(b"text/plain".as_slice()),
        plan.content_type.as_deref()
    );
    assert_eq!(
        b"This resource only supports GET and HEAD.".to_vec(),
        materialize(plan.body, BODY)
    );

    // A failed precondition carries its fixed explanation and a plain-text
    // content type, never the entity's content headers.
    let mut h = no_headers();
    h.if_match = Some(TagList::Items(vec![EntityTag::strong(b"foo".to_vec())]));
    let plan = serve(&m, Method::Get, &h, NOW);
    assert_eq!(StatusCode::PreconditionFailed, plan.status);
    assert!(!plan.include_entity_headers);
    assert_eq!(
        Some(b"text/plain".as_slice()),
        plan.content_type.as_deref()
    );
    assert_eq!(
        b"Precondition failed".to_vec(),
        materialize(plan.body, BODY)
    );
}

#[test]
fn head_mirrors_get() {
    let m = meta(Some(EntityTag::strong(b"foo".to_vec())));

    // HEAD of the full entity: same headers and Content-Length, no body.
    let get = serve(&m, Method::Get, &no_headers(), NOW);
    let head = serve(&m, Method::Head, &no_headers(), NOW);
    assert_eq!(get.status, head.status);
    assert_eq!(get.content_length, head.content_length);
    assert_eq!(get.content_range, head.content_range);
    assert_eq!(get.last_modified, head.last_modified);
    assert_eq!(get.date, head.date);
    assert!(matches!(head.body, BodyPlan::Empty));

    // HEAD of a single range.
    let mut h = no_headers();
    h.range = Some(RangeHeader::Bytes(vec![ByteRangeSpec::FromTo(1, 3)]));
    let get = serve(&m, Method::Get, &h, NOW);
    let head = serve(&m, Method::Head, &h, NOW);
    assert_eq!(StatusCode::PartialContent, head.status);
    assert_eq!(get.content_length, head.content_length);
    assert_eq!(Some(3), head.content_length);
    assert_eq!(get.content_range, head.content_range);
    assert!(matches!(head.body, BodyPlan::Empty));
}

#[test]
fn clamped_last_modified() {
    // A modification time later than the response's own date is clamped so
    // the emitted Last-Modified never exceeds Date.
    let m = EntityMeta {
        len: 5,
        etag: None,
        last_modified: Some(NOW + 50),
        content_headers: octet_stream(),
    };
    let plan = serve(&m, Method::Get, &no_headers(), NOW);
    assert_eq!(Some(NOW), plan.last_modified);
    assert_eq!(Some(NOW), plan.date);

    // Without a modification time, neither Last-Modified nor Date is set by
    // the plan.
    let m = EntityMeta { len: 5, etag: None, last_modified: None, content_headers: octet_stream() };
    let plan = serve(&m, Method::Get, &no_headers(), NOW);
    assert_eq!(None, plan.last_modified);
    assert_eq!(None, plan.date);
}

#[test]
fn status_codes_on_the_wire() {
    assert_eq!(200, StatusCode::Okay.code());
    assert_eq!(206, StatusCode::PartialContent.code());
    assert_eq!(304, StatusCode::NotModified.code());
    assert_eq!(405, StatusCode::MethodNotAllowed.code());
    assert_eq!(412, StatusCode::PreconditionFailed.code());
    assert_eq!(416, StatusCode::RangeNotSatisfiable.code());
}

#[test]
fn precondition_wins_over_not_modified() {
    // If-Match with a non-matching strong tag yields 412 even when
    // If-None-Match would match at the same time: the precondition path is
    // decided first.
    let m = meta(Some(EntityTag::strong(b"foo".to_vec())));
    let mut h = no_headers();
    h.if_match = Some(TagList::Items(vec![EntityTag::strong(b"bar".to_vec())]));
    h.if_none_match = Some(TagList::Items(vec![EntityTag::strong(b"foo".to_vec())]));
    let plan = serve(&m, Method::Get, &h, NOW);
    assert_eq!(StatusCode::PreconditionFailed, plan.status);

    // Without the failing If-Match, the same If-None-Match yields 304.
    let mut h = no_headers();
    h.if_none_match = Some(TagList::Items(vec![EntityTag::strong(b"foo".to_vec())]));
    let plan = serve(&m, Method::Get, &h, NOW);
    assert_eq!(StatusCode::NotModified, plan.status);
}

#[test]
fn unmodified_since_violation_fails() {
    // Modified strictly after the supplied If-Unmodified-Since timestamp:
    // the precondition fails.
    let m = meta(None);
    let mut h = no_headers();
    h.if_unmodified_since = Some(SOME_DATE - 1);
    let plan = serve(&m, Method::Get, &h, NOW);
    assert_eq!(StatusCode::PreconditionFailed, plan.status);

    // Unmodified since that very second: the request proceeds.
    let mut h = no_headers();
    h.if_unmodified_since = Some(SOME_DATE);
    let plan = serve(&m, Method::Get, &h, NOW);
    assert_eq!(StatusCode::Okay, plan.status);
}
