//! The response composer: from the request's method and headers and the
//! entity's metadata to a complete response plan — the status code, the
//! headers to emit, and the body to transmit.
//!
//! The plan is a passive value: the application executes it, reading entity
//! bytes only for the ranges the plan names, and only as the consumer of the
//! body demands them. `HEAD` requests run through the same decisions and get
//! the same headers (`Content-Length` included) with an empty body on the
//! success paths.

use vstd::prelude::*;
use crate::Method;
use crate::cond::{
    RequestHeaders, evaluate, spec_honor_range, spec_include_entity_headers_on_range,
    spec_not_modified, spec_precondition_failed,
};
use crate::entity::EntityMeta;
use crate::etag::{EntityTag, same_tag};
use crate::multipart::{
    MultipartBody, build_multipart, build_multipart_content_type, multipart_cheaper,
    spec_est_len, spec_multipart_content_type, spec_multipart_total, spec_part_header,
    spec_shared_block,
};
use crate::ranges::{
    ByteRangeSpec, RangeHeader, ResolutionView, ResolvedRanges, lemma_resolve_units_wf,
    parse_range_header, ranges_wf, spec_resolve, units_of,
};
use crate::status::StatusCode;

verus! {

/// The body the application must transmit.
#[derive(PartialEq, Debug)]
pub enum BodyPlan {
    /// No body at all.
    Empty,
    /// A short fixed message, already rendered.
    Message(Vec<u8>),
    /// The entity's bytes in the half-open range `[start, end)`, to be read
    /// lazily from the entity's storage.
    EntityRange(u64, u64),
    /// A `multipart/byteranges` body, produced chunk by chunk.
    Multipart(MultipartBody),
}

/// A `Content-Range` header value.
#[derive(Clone, Copy, PartialEq, Eq, Debug, Structural)]
pub enum ContentRange {
    /// `bytes first-last/complete`.
    Bytes { first: u64, last: u64, complete: u64 },
    /// `bytes */complete`: no requested byte exists.
    Unsatisfied { complete: u64 },
}

/// Everything the application needs to transmit one response: the status
/// code, the headers (structured, for the transport layer to render), and
/// the body.
#[derive(PartialEq, Debug)]
pub struct ResponsePlan {
    /// The status code.
    pub status: StatusCode,
    /// Always set: `Accept-Ranges: bytes`.
    pub accept_ranges_bytes: bool,
    /// The `ETag` header, when the entity has a validator.
    pub etag: Option<EntityTag>,
    /// The `Last-Modified` header, clamped to the response's own date.
    pub last_modified: Option<u64>,
    /// The `Date` header, set whenever a `Last-Modified` is emitted so the
    /// latter can never exceed it.
    pub date: Option<u64>,
    /// The `Content-Range` header (206 with a single range, and 416).
    pub content_range: Option<ContentRange>,
    /// The `Content-Length` header, where the plan fixes it; absent, the
    /// transport derives it from the body it transmits.
    pub content_length: Option<u64>,
    /// An explicit `Content-Type` value (rejection text, multipart form).
    pub content_type: Option<Vec<u8>>,
    /// Whether to emit `Allow: GET, HEAD` (the 405 response).
    pub allow_get_head: bool,
    /// Whether the entity's own content headers are appended.
    pub include_entity_headers: bool,
    /// The body.
    pub body: BodyPlan,
}

/// The fixed plain-text body of a 405 response.
pub open spec fn spec_text_method_not_allowed() -> Seq<u8> {
    seq![
        'T' as u8,
        'h' as u8,
        'i' as u8,
        's' as u8,
        ' ' as u8,
        'r' as u8,
        'e' as u8,
        's' as u8,
        'o' as u8,
        'u' as u8,
        'r' as u8,
        'c' as u8,
        'e' as u8,
        ' ' as u8,
        'o' as u8,
        'n' as u8,
        'l' as u8,
        'y' as u8,
        ' ' as u8,
        's' as u8,
        'u' as u8,
        'p' as u8,
        'p' as u8,
        'o' as u8,
        'r' as u8,
        't' as u8,
        's' as u8,
        ' ' as u8,
        'G' as u8,
        'E' as u8,
        'T' as u8,
        ' ' as u8,
        'a' as u8,
        'n' as u8,
        'd' as u8,
        ' ' as u8,
        'H' as u8,
        'E' as u8,
        'A' as u8,
        'D' as u8,
        '.' as u8,
    ]
}

/// The fixed plain-text body of a 412 response.
pub open spec fn spec_text_precondition_failed() -> Seq<u8> {
    seq![
        'P' as u8,
        'r' as u8,
        'e' as u8,
        'c' as u8,
        'o' as u8,
        'n' as u8,
        'd' as u8,
        'i' as u8,
        't' as u8,
        'i' as u8,
        'o' as u8,
        'n' as u8,
        ' ' as u8,
        'f' as u8,
        'a' as u8,
        'i' as u8,
        'l' as u8,
        'e' as u8,
        'd' as u8,
    ]
}

/// The `Content-Type` of the fixed plain-text bodies.
pub open spec fn spec_text_plain() -> Seq<u8> {
    seq![
        't' as u8,
        'e' as u8,
        'x' as u8,
        't' as u8,
        '/' as u8,
        'p' as u8,
        'l' as u8,
        'a' as u8,
        'i' as u8,
        'n' as u8,
    ]
}

/// Builds the fixed plain-text body of a 405 response.
fn build_text_method_not_allowed() -> (r: Vec<u8>)
    ensures
        r@ == spec_text_method_not_allowed(),
{
    let mut out: Vec<u8> = Vec::new();
    out.push('T' as u8);
    out.push('h' as u8);
    out.push('i' as u8);
    out.push('s' as u8);
    out.push(' ' as u8);
    out.push('r' as u8);
    out.push('e' as u8);
    out.push('s' as u8);
    out.push('o' as u8);
    out.push('u' as u8);
    out.push('r' as u8);
    out.push('c' as u8);
    out.push('e' as u8);
    out.push(' ' as u8);
    out.push('o' as u8);
    out.push('n' as u8);
    out.push('l' as u8);
    out.push('y' as u8);
    out.push(' ' as u8);
    out.push('s' as u8);
    out.push('u' as u8);
    out.push('p' as u8);
    out.push('p' as u8);
    out.push('o' as u8);
    out.push('r' as u8);
    out.push('t' as u8);
    out.push('s' as u8);
    out.push(' ' as u8);
    out.push('G' as u8);
    out.push('E' as u8);
    out.push('T' as u8);
    out.push(' ' as u8);
    out.push('a' as u8);
    out.push('n' as u8);
    out.push('d' as u8);
    out.push(' ' as u8);
    out.push('H' as u8);
    out.push('E' as u8);
    out.push('A' as u8);
    out.push('D' as u8);
    out.push('.' as u8);
    proof {
        assert(out@ =~= spec_text_method_not_allowed());
    }
    out
}

/// Builds the fixed plain-text body of a 412 response.
fn build_text_precondition_failed() -> (r: Vec<u8>)
    ensures
        r@ == spec_text_precondition_failed(),
{
    let mut out: Vec<u8> = Vec::new();
    out.push('P' as u8);
    out.push('r' as u8);
    out.push('e' as u8);
    out.push('c' as u8);
    out.push('o' as u8);
    out.push('n' as u8);
    out.push('d' as u8);
    out.push('i' as u8);
    out.push('t' as u8);
    out.push('i' as u8);
    out.push('o' as u8);
    out.push('n' as u8);
    out.push(' ' as u8);
    out.push('f' as u8);
    out.push('a' as u8);
    out.push('i' as u8);
    out.push('l' as u8);
    out.push('e' as u8);
    out.push('d' as u8);
    proof {
        assert(out@ =~= spec_text_precondition_failed());
    }
    out
}

/// Builds the `Content-Type` of the fixed plain-text bodies.
fn build_text_plain() -> (r: Vec<u8>)
    ensures
        r@ == spec_text_plain(),
{
    let mut out: Vec<u8> = Vec::new();
    out.push('t' as u8);
    out.push('e' as u8);
    out.push('x' as u8);
    out.push('t' as u8);
    out.push('/' as u8);
    out.push('p' as u8);
    out.push('l' as u8);
    out.push('a' as u8);
    out.push('i' as u8);
    out.push('n' as u8);
    proof {
        assert(out@ =~= spec_text_plain());
    }
    out
}

/// `ETag` values agree option-wise in strength and value.
pub open spec fn opt_same_tag(a: Option<EntityTag>, b: Option<EntityTag>) -> bool {
    match (a, b) {
        (Option::None, Option::None) => true,
        (Option::Some(x), Option::Some(y)) => same_tag(x, y),
        _ => false,
    }
}

/// The units of the request's range header, when the `If-Range` evaluation
/// honors it; `None` when no `bytes` range applies.
pub open spec fn spec_request_units(etag: Option<EntityTag>, h: RequestHeaders) -> Option<
    Seq<ByteRangeSpec>,
> {
    if spec_honor_range(etag, h.if_range) {
        match h.range {
            Option::Some(RangeHeader::Bytes(units)) => Option::Some(units@),
            _ => Option::None,
        }
    } else {
        Option::None
    }
}

/// How the request's range header resolves against the entity.
pub open spec fn spec_resolution(meta: EntityMeta, h: RequestHeaders) -> ResolutionView {
    spec_resolve(spec_request_units(meta.etag, h), meta.len)
}

/// The shared per-part block a multipart response for this request would use.
pub open spec fn spec_shared_for(meta: EntityMeta, h: RequestHeaders) -> Seq<u8> {
    spec_shared_block(
        meta.content_headers@,
        spec_include_entity_headers_on_range(meta.etag, h.if_range),
    )
}

/// Whether several satisfiable ranges are served as a multipart response
/// rather than falling back to the whole entity: the RFC cost estimate (80
/// bytes of framing per part plus the parts' sizes) must come in under the
/// entity length, and the exact total and the generator's step counter must
/// be representable on this machine.
pub open spec fn spec_multipart_chosen(rs: Seq<(u64, u64)>, len: u64, shared: Seq<u8>) -> bool {
    &&& spec_est_len(rs) < len
    &&& 2 * rs.len() + 1 <= usize::MAX
    &&& spec_multipart_total(rs, len, shared) <= u64::MAX
}

/// The status code the state machine decides on.
pub open spec fn spec_status(meta: EntityMeta, method: Method, h: RequestHeaders) -> StatusCode {
    if method is Other {
        StatusCode::MethodNotAllowed
    } else if spec_precondition_failed(meta.etag, meta.last_modified, h) {
        StatusCode::PreconditionFailed
    } else if spec_not_modified(meta.etag, meta.last_modified, h) {
        StatusCode::NotModified
    } else {
        match spec_resolution(meta, h) {
            ResolutionView::Absent => StatusCode::Okay,
            ResolutionView::Unsatisfiable => StatusCode::RangeNotSatisfiable,
            ResolutionView::Satisfiable(rs) => {
                if rs.len() == 1 {
                    StatusCode::PartialContent
                } else if spec_multipart_chosen(rs, meta.len, spec_shared_for(meta, h)) {
                    StatusCode::PartialContent
                } else {
                    StatusCode::Okay
                }
            },
        }
    }
}

/// The headers every response carries: the ranges capability, the validator,
/// and a modification time clamped so it never exceeds the response's own
/// date (which is set exactly when a modification time is emitted).
pub open spec fn plan_common(r: ResponsePlan, meta: EntityMeta, method: Method, now: u64) -> bool {
    &&& r.accept_ranges_bytes
    &&& opt_same_tag(r.etag, meta.etag)
    &&& r.last_modified == (match meta.last_modified {
        Option::Some(m) => Option::Some(if m <= now { m } else { now }),
        Option::None => Option::None::<u64>,
    })
    &&& r.date == (match meta.last_modified {
        Option::Some(m) => Option::Some(now),
        Option::None => Option::None::<u64>,
    })
    &&& r.allow_get_head == (method is Other)
}

/// The rejection plans (405 and 412): a fixed plain-text message, no entity
/// content headers.
pub open spec fn plan_rejected(r: ResponsePlan, msg: Seq<u8>) -> bool {
    &&& r.content_range is None
    &&& r.content_length is None
    &&& (r.content_type matches Some(ct) && ct@ == spec_text_plain())
    &&& !r.include_entity_headers
    &&& (r.body matches BodyPlan::Message(m) && m@ == msg)
}

/// The 304 plan: validation headers only, no body, no content headers.
pub open spec fn plan_not_modified(r: ResponsePlan) -> bool {
    &&& r.content_range is None
    &&& r.content_length is None
    &&& r.content_type is None
    &&& !r.include_entity_headers
    &&& r.body is Empty
}

/// The 416 plan: `Content-Range: bytes */len`, empty body.
pub open spec fn plan_unsatisfiable(r: ResponsePlan, len: u64) -> bool {
    &&& r.content_range == Option::Some(ContentRange::Unsatisfied { complete: len })
    &&& r.content_length is None
    &&& r.content_type is None
    &&& !r.include_entity_headers
    &&& r.body is Empty
}

/// The 200 plan: the whole entity, content headers included; `HEAD` gets the
/// same headers and no body.
pub open spec fn plan_full(r: ResponsePlan, len: u64, method: Method) -> bool {
    &&& r.content_range is None
    &&& r.content_length == Option::Some(len)
    &&& r.content_type is None
    &&& r.include_entity_headers
    &&& (method is Head ==> r.body is Empty)
    &&& (method is Get ==> r.body == BodyPlan::EntityRange(0, len))
}

/// The 206 plan for a single range `p`: a `Content-Range` for it, its length,
/// content headers as the `If-Range` evaluation decided.
pub open spec fn plan_single(
    r: ResponsePlan,
    len: u64,
    method: Method,
    with_headers: bool,
    p: (u64, u64),
) -> bool {
    &&& r.content_range == Option::Some(
        ContentRange::Bytes { first: p.0, last: (p.1 - 1) as u64, complete: len },
    )
    &&& r.content_length == Option::Some((p.1 - p.0) as u64)
    &&& r.content_type is None
    &&& r.include_entity_headers == with_headers
    &&& (method is Head ==> r.body is Empty)
    &&& (method is Get ==> r.body == BodyPlan::EntityRange(p.0, p.1))
}

/// The 206 plan for several ranges: a multipart body with exact framing and
/// a total length precomputed for `Content-Length`.
pub open spec fn plan_multipart(
    r: ResponsePlan,
    len: u64,
    method: Method,
    rs: Seq<(u64, u64)>,
    shared: Seq<u8>,
) -> bool {
    &&& r.content_range is None
    &&& r.content_length == Option::Some(spec_multipart_total(rs, len, shared) as u64)
    &&& (r.content_type matches Some(ct) && ct@ == spec_multipart_content_type())
    &&& !r.include_entity_headers
    &&& (method is Head ==> r.body is Empty)
    &&& (method is Get ==> (r.body matches BodyPlan::Multipart(mb) && mb.wf() && mb.state == 0
        && mb.ranges@ == rs && mb.part_headers@.len() == rs.len() && (forall|i: int|
        0 <= i < rs.len() ==> #[trigger] mb.part_headers@[i]@ == spec_part_header(
            rs[i].0,
            rs[i].1,
            len,
            shared,
        ))))
}

/// The headers every response carries, computed once per request.
fn common_headers(meta: &EntityMeta, now: u64) -> (r: (Option<EntityTag>, Option<u64>, Option<
    u64,
>))
    ensures
        opt_same_tag(r.0, meta.etag),
        r.1 == (match meta.last_modified {
            Option::Some(m) => Option::Some(if m <= now { m } else { now }),
            Option::None => Option::None::<u64>,
        }),
        r.2 == (match meta.last_modified {
            Option::Some(m) => Option::Some(now),
            Option::None => Option::None::<u64>,
        }),
{
    let etag_hdr = match &meta.etag {
        Option::Some(e) => Option::Some(e.duplicate()),
        Option::None => Option::None,
    };
    let lm_hdr = match meta.last_modified {
        Option::Some(m) => Option::Some(if m <= now { m } else { now }),
        Option::None => Option::None,
    };
    let date_hdr = match meta.last_modified {
        Option::Some(_) => Option::Some(now),
        Option::None => Option::None,
    };
    (etag_hdr, lm_hdr, date_hdr)
}

/// The 200 response serving the whole entity.
fn make_full(meta: &EntityMeta, method: Method, now: u64) -> (r: ResponsePlan)
    requires
        method is Get || method is Head,
    ensures
        plan_common(r, *meta, method, now),
        r.status == StatusCode::Okay,
        plan_full(r, meta.len, method),
{
    let (etag_hdr, lm_hdr, date_hdr) = common_headers(meta, now);
    ResponsePlan {
        status: StatusCode::Okay,
        accept_ranges_bytes: true,
        etag: etag_hdr,
        last_modified: lm_hdr,
        date: date_hdr,
        content_range: Option::None,
        content_length: Option::Some(meta.len),
        content_type: Option::None,
        allow_get_head: false,
        include_entity_headers: true,
        body: if method == Method::Get {
            BodyPlan::EntityRange(0, meta.len)
        } else {
            BodyPlan::Empty
        },
    }
}

/// Every entity range the body names lies inside the entity: the
/// application's range reader is never asked for a byte outside
/// `[0, len)`.
pub open spec fn body_in_bounds(b: BodyPlan, len: u64) -> bool {
    match b {
        BodyPlan::EntityRange(a, c) => a <= c <= len,
        BodyPlan::Multipart(mb) => ranges_wf(mb.ranges@, len),
        _ => true,
    }
}

/// Everything `serve` promises of its result: the headers every state
/// carries, the status code the state machine decides on, and, per state,
/// the exact headers and body.
pub open spec fn serve_contract(
    meta: EntityMeta,
    method: Method,
    h: RequestHeaders,
    now: u64,
    r: ResponsePlan,
) -> bool {
    &&& plan_common(r, meta, method, now)
    &&& body_in_bounds(r.body, meta.len)
    &&& r.status == spec_status(meta, method, h)
    &&& ((method is Other) ==> plan_rejected(r, spec_text_method_not_allowed()))
    &&& ((method is Get || method is Head) && spec_precondition_failed(
        meta.etag,
        meta.last_modified,
        h,
    ) ==> plan_rejected(r, spec_text_precondition_failed()))
    &&& ((method is Get || method is Head) && !spec_precondition_failed(
        meta.etag,
        meta.last_modified,
        h,
    ) && spec_not_modified(meta.etag, meta.last_modified, h) ==> plan_not_modified(r))
    &&& ((method is Get || method is Head) && !spec_precondition_failed(
        meta.etag,
        meta.last_modified,
        h,
    ) && !spec_not_modified(meta.etag, meta.last_modified, h) ==> (match spec_resolution(
        meta,
        h,
    ) {
        ResolutionView::Absent => plan_full(r, meta.len, method),
        ResolutionView::Unsatisfiable => plan_unsatisfiable(r, meta.len),
        ResolutionView::Satisfiable(rs) => {
            if rs.len() == 1 {
                plan_single(
                    r,
                    meta.len,
                    method,
                    spec_include_entity_headers_on_range(meta.etag, h.if_range),
                    rs[0],
                )
            } else if spec_multipart_chosen(rs, meta.len, spec_shared_for(meta, h)) {
                plan_multipart(r, meta.len, method, rs, spec_shared_for(meta, h))
            } else {
                plan_full(r, meta.len, method)
            }
        },
    }))
}

/// Serves one GET or HEAD request for a byte-ranged entity: evaluates the
/// conditional headers, resolves the range header when it is honored, picks
/// the status code, and plans headers and body. The caller is expected to
/// have already chosen the entity and to add freshness headers of its own
/// (`Expires`, `Cache-Control`, `Vary`) if desired; `now` is the current
/// time in whole seconds since the epoch and caps the emitted
/// `Last-Modified`.
pub fn serve(meta: &EntityMeta, method: Method, h: &RequestHeaders, now: u64) -> (r: ResponsePlan)
    ensures
        serve_contract(*meta, method, *h, now, r),
{
    if !method.is_get_or_head() {
        let (etag_hdr, lm_hdr, date_hdr) = common_headers(meta, now);
        return ResponsePlan {
            status: StatusCode::MethodNotAllowed,
            accept_ranges_bytes: true,
            etag: etag_hdr,
            last_modified: lm_hdr,
            date: date_hdr,
            content_range: Option::None,
            content_length: Option::None,
            content_type: Option::Some(build_text_plain()),
            allow_get_head: true,
            include_entity_headers: false,
            body: BodyPlan::Message(build_text_method_not_allowed()),
        };
    }
    let outcome = evaluate(&meta.etag, meta.last_modified, h);
    match outcome.status_override {
        Option::Some(StatusCode::PreconditionFailed) => {
            let (etag_hdr, lm_hdr, date_hdr) = common_headers(meta, now);
            return ResponsePlan {
                status: StatusCode::PreconditionFailed,
                accept_ranges_bytes: true,
                etag: etag_hdr,
                last_modified: lm_hdr,
                date: date_hdr,
                content_range: Option::None,
                content_length: Option::None,
                content_type: Option::Some(build_text_plain()),
                allow_get_head: false,
                include_entity_headers: false,
                body: BodyPlan::Message(build_text_precondition_failed()),
            };
        },
        Option::Some(_) => {
            let (etag_hdr, lm_hdr, date_hdr) = common_headers(meta, now);
            return ResponsePlan {
                status: StatusCode::NotModified,
                accept_ranges_bytes: true,
                etag: etag_hdr,
                last_modified: lm_hdr,
                date: date_hdr,
                content_range: Option::None,
                content_length: Option::None,
                content_type: Option::None,
                allow_get_head: false,
                include_entity_headers: false,
                body: BodyPlan::Empty,
            };
        },
        Option::None => {},
    }
    let len = meta.len;
    let range_ref: Option<&RangeHeader> = if outcome.honor_range {
        match &h.range {
            Option::Some(rh) => Option::Some(rh),
            Option::None => Option::None,
        }
    } else {
        Option::None
    };
    proof {
        assert(units_of(range_ref) == spec_request_units(meta.etag, *h));
    }
    let resolved = parse_range_header(range_ref, len);
    match resolved {
        ResolvedRanges::Absent => make_full(meta, method, now),
        ResolvedRanges::Unsatisfiable => {
            let (etag_hdr, lm_hdr, date_hdr) = common_headers(meta, now);
            ResponsePlan {
                status: StatusCode::RangeNotSatisfiable,
                accept_ranges_bytes: true,
                etag: etag_hdr,
                last_modified: lm_hdr,
                date: date_hdr,
                content_range: Option::Some(ContentRange::Unsatisfied { complete: len }),
                content_length: Option::None,
                content_type: Option::None,
                allow_get_head: false,
                include_entity_headers: false,
                body: BodyPlan::Empty,
            }
        },
        ResolvedRanges::Satisfiable(rv) => {
            proof {
                lemma_resolve_units_wf(units_of(range_ref)->Some_0, len);
            }
            let count = rv.len();
            if count == 1 {
                let p = rv.get(0);
                let (etag_hdr, lm_hdr, date_hdr) = common_headers(meta, now);
                ResponsePlan {
                    status: StatusCode::PartialContent,
                    accept_ranges_bytes: true,
                    etag: etag_hdr,
                    last_modified: lm_hdr,
                    date: date_hdr,
                    content_range: Option::Some(
                        ContentRange::Bytes { first: p.0, last: p.1 - 1, complete: len },
                    ),
                    content_length: Option::Some(p.1 - p.0),
                    content_type: Option::None,
                    allow_get_head: false,
                    include_entity_headers: outcome.include_entity_headers_on_range,
                    body: if method == Method::Get {
                        BodyPlan::EntityRange(p.0, p.1)
                    } else {
                        BodyPlan::Empty
                    },
                }
            } else {
                let cheaper = if count <= (usize::MAX - 1) / 2 {
                    multipart_cheaper(&rv, len)
                } else {
                    false
                };
                if cheaper {
                    match build_multipart(
                        &rv,
                        len,
                        &meta.content_headers,
                        outcome.include_entity_headers_on_range,
                    ) {
                        Option::Some(pair) => {
                            let (mb, total) = pair;
                            let (etag_hdr, lm_hdr, date_hdr) = common_headers(meta, now);
                            ResponsePlan {
                                status: StatusCode::PartialContent,
                                accept_ranges_bytes: true,
                                etag: etag_hdr,
                                last_modified: lm_hdr,
                                date: date_hdr,
                                content_range: Option::None,
                                content_length: Option::Some(total),
                                content_type: Option::Some(build_multipart_content_type()),
                                allow_get_head: false,
                                include_entity_headers: false,
                                body: if method == Method::Get {
                                    BodyPlan::Multipart(mb)
                                } else {
                                    BodyPlan::Empty
                                },
                            }
                        },
                        Option::None => make_full(meta, method, now),
                    }
                } else {
                    make_full(meta, method, now)
                }
            }
        },
    }
}

} // verus!
