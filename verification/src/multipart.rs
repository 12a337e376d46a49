//! The `multipart/byteranges` body for responses that carry several ranges
//! (RFC 7233 appendix A).
//!
//! The body is a strict interleaving: for each part, a framing block (the
//! boundary line, a `Content-Range` line for the part, and the shared
//! per-part header block), then that range's bytes; after the last part, a
//! closing boundary marker. The framing blocks and the total body length are
//! computed up front, before any entity byte is read, so `Content-Length`
//! can be emitted first; the ranges' bytes themselves are named, not
//! materialized, and are pulled from the entity one chunk at a time as the
//! consumer demands them.

use vstd::prelude::*;
use crate::entity::HeaderField;
use crate::ranges::{RangeVec, ranges_wf, sv_ranges};
use crate::render::{dec_digits, fields_bytes, push_all, push_dec, push_fields};

verus! {

/// The boundary line opening each part: `\r\n--B\r\n`.
pub open spec fn spec_part_open() -> Seq<u8> {
    seq![
        '\r' as u8,
        '\n' as u8,
        '-' as u8,
        '-' as u8,
        'B' as u8,
        '\r' as u8,
        '\n' as u8,
    ]
}

/// The prefix of each part's range line: `Content-Range: bytes `.
pub open spec fn spec_content_range_prefix() -> Seq<u8> {
    seq![
        'C' as u8,
        'o' as u8,
        'n' as u8,
        't' as u8,
        'e' as u8,
        'n' as u8,
        't' as u8,
        '-' as u8,
        'R' as u8,
        'a' as u8,
        'n' as u8,
        'g' as u8,
        'e' as u8,
        ':' as u8,
        ' ' as u8,
        'b' as u8,
        'y' as u8,
        't' as u8,
        'e' as u8,
        's' as u8,
        ' ' as u8,
    ]
}

/// The closing boundary marker after the last part: `\r\n--B--\r\n`.
pub open spec fn spec_trailer() -> Seq<u8> {
    seq![
        '\r' as u8,
        '\n' as u8,
        '-' as u8,
        '-' as u8,
        'B' as u8,
        '-' as u8,
        '-' as u8,
        '\r' as u8,
        '\n' as u8,
    ]
}

/// The `Content-Type` value of the whole response:
/// `multipart/byteranges; boundary=B`.
pub open spec fn spec_multipart_content_type() -> Seq<u8> {
    seq![
        'm' as u8,
        'u' as u8,
        'l' as u8,
        't' as u8,
        'i' as u8,
        'p' as u8,
        'a' as u8,
        'r' as u8,
        't' as u8,
        '/' as u8,
        'b' as u8,
        'y' as u8,
        't' as u8,
        'e' as u8,
        'r' as u8,
        'a' as u8,
        'n' as u8,
        'g' as u8,
        'e' as u8,
        's' as u8,
        ';' as u8,
        ' ' as u8,
        'b' as u8,
        'o' as u8,
        'u' as u8,
        'n' as u8,
        'd' as u8,
        'a' as u8,
        'r' as u8,
        'y' as u8,
        '=' as u8,
        'B' as u8,
    ]
}

/// The shared block rendered once and repeated at the end of every part's
/// framing: the entity's content headers when they are to be included, then
/// the blank line that separates framing from content.
pub open spec fn spec_shared_block(fields: Seq<HeaderField>, include_headers: bool) -> Seq<u8> {
    (if include_headers {
        fields_bytes(fields)
    } else {
        Seq::empty()
    }) + seq!['\r' as u8, '\n' as u8]
}

/// The framing block before one part's content, for the half-open range
/// `[start, end)` of an entity of `len` bytes: the boundary line, a
/// `Content-Range: bytes start-(end-1)/len` line, and the shared block.
pub open spec fn spec_part_header(start: u64, end: u64, len: u64, shared: Seq<u8>) -> Seq<u8> {
    spec_part_open() + spec_content_range_prefix() + dec_digits(start as nat) + seq![
        '-' as u8,
    ] + dec_digits((end - 1) as nat) + seq!['/' as u8] + dec_digits(len as nat) + seq![
        '\r' as u8,
        '\n' as u8,
    ] + shared
}

/// The cost estimate that decides between a multipart response and falling
/// back to the whole entity: 80 bytes of framing per part (the RFC's
/// estimate) plus the parts' sizes.
pub open spec fn spec_est_len(ranges: Seq<(u64, u64)>) -> int
    decreases ranges.len(),
{
    if ranges.len() == 0 {
        0
    } else {
        spec_est_len(ranges.drop_last()) + 80 + (ranges.last().1 - ranges.last().0)
    }
}

/// The exact body length of the parts: each part's framing block plus its
/// range's size, the closing marker not counted.
pub open spec fn spec_parts_len(ranges: Seq<(u64, u64)>, len: u64, shared: Seq<u8>) -> int
    decreases ranges.len(),
{
    if ranges.len() == 0 {
        0
    } else {
        spec_parts_len(ranges.drop_last(), len, shared) + spec_part_header(
            ranges.last().0,
            ranges.last().1,
            len,
            shared,
        ).len() + (ranges.last().1 - ranges.last().0)
    }
}

/// The exact total body length: the parts and the closing marker.
pub open spec fn spec_multipart_total(ranges: Seq<(u64, u64)>, len: u64, shared: Seq<u8>) -> int {
    spec_parts_len(ranges, len, shared) + spec_trailer().len()
}

/// The estimate grows by at least 80 bytes for every part.
pub proof fn lemma_est_len_lower(ranges: Seq<(u64, u64)>, len: u64)
    requires
        ranges_wf(ranges, len),
    ensures
        spec_est_len(ranges) >= 80 * ranges.len(),
    decreases ranges.len(),
{
    if ranges.len() > 0 {
        assert(ranges_wf(ranges.drop_last(), len)) by {
            assert(forall|i: int|
                0 <= i < ranges.drop_last().len() ==> ranges.drop_last()[i] == ranges[i]);
        }
        lemma_est_len_lower(ranges.drop_last(), len);
        assert(ranges[ranges.len() - 1].0 <= ranges[ranges.len() - 1].1);
    }
}

/// The estimate of a prefix never exceeds the estimate of the whole.
proof fn lemma_est_len_prefix(ranges: Seq<(u64, u64)>, len: u64, i: int)
    requires
        ranges_wf(ranges, len),
        0 <= i <= ranges.len(),
    ensures
        spec_est_len(ranges.take(i)) <= spec_est_len(ranges),
    decreases ranges.len() - i,
{
    if i == ranges.len() {
        assert(ranges.take(i) =~= ranges);
    } else {
        assert(ranges.take(i + 1).drop_last() =~= ranges.take(i));
        assert(ranges.take(i + 1).last() == ranges[i]);
        lemma_est_len_prefix(ranges, len, i + 1);
    }
}

/// The exact parts length of a prefix never exceeds that of the whole.
proof fn lemma_parts_len_prefix(ranges: Seq<(u64, u64)>, len: u64, shared: Seq<u8>, i: int)
    requires
        ranges_wf(ranges, len),
        0 <= i <= ranges.len(),
    ensures
        spec_parts_len(ranges.take(i), len, shared) <= spec_parts_len(ranges, len, shared),
    decreases ranges.len() - i,
{
    if i == ranges.len() {
        assert(ranges.take(i) =~= ranges);
    } else {
        assert(ranges.take(i + 1).drop_last() =~= ranges.take(i));
        assert(ranges.take(i + 1).last() == ranges[i]);
        lemma_parts_len_prefix(ranges, len, shared, i + 1);
    }
}

/// Decides whether a multipart response is cheaper than serving the whole
/// entity: true exactly when the estimated multipart length is strictly
/// below the entity length.
#[verifier::loop_isolation(false)]
pub(crate) fn multipart_cheaper(rv: &RangeVec, len: u64) -> (r: bool)
    requires
        ranges_wf(sv_ranges(rv), len),
    ensures
        r == (spec_est_len(sv_ranges(rv)) < len),
{
    let ghost ranges = sv_ranges(rv);
    if len == 0 {
        proof {
            lemma_est_len_lower(ranges, len);
        }
        return false;
    }
    let n = rv.len();
    let mut est: u64 = 0;
    let mut i: usize = 0;
    while i < n
        invariant
            i <= n,
            est == spec_est_len(ranges.take(i as int)),
            est < len,
        decreases n - i,
    {
        proof {
            assert(ranges.take(i + 1).drop_last() =~= ranges.take(i as int));
            assert(ranges.take(i + 1).last() == ranges[i as int]);
            lemma_est_len_prefix(ranges, len, i + 1);
        }
        let (start, end) = rv.get(i);
        let size = end - start;
        let rem = len - est;
        if size >= rem {
            return false;
        }
        let rem2 = rem - size;
        if rem2 <= 80 {
            return false;
        }
        est = est + size + 80;
        i += 1;
    }
    proof {
        assert(ranges.take(n as int) =~= ranges);
    }
    true
}

/// Builds the shared per-part block: the content headers if included, then
/// the separating blank line.
pub(crate) fn build_shared_block(fields: &Vec<HeaderField>, include_headers: bool) -> (r: Vec<u8>)
    ensures
        r@ == spec_shared_block(fields@, include_headers),
{
    let mut out: Vec<u8> = Vec::new();
    if include_headers {
        push_fields(&mut out, fields);
    }
    out.push('\r' as u8);
    out.push('\n' as u8);
    proof {
        assert(out@ =~= spec_shared_block(fields@, include_headers));
    }
    out
}

/// Builds the framing block before one part's content.
fn build_part_header(start: u64, end: u64, len: u64, shared: &Vec<u8>) -> (r: Vec<u8>)
    requires
        1 <= end,
    ensures
        r@ == spec_part_header(start, end, len, shared@),
{
    let mut out: Vec<u8> = Vec::new();
    out.push('\r' as u8);
    out.push('\n' as u8);
    out.push('-' as u8);
    out.push('-' as u8);
    out.push('B' as u8);
    out.push('\r' as u8);
    out.push('\n' as u8);
    out.push('C' as u8);
    out.push('o' as u8);
    out.push('n' as u8);
    out.push('t' as u8);
    out.push('e' as u8);
    out.push('n' as u8);
    out.push('t' as u8);
    out.push('-' as u8);
    out.push('R' as u8);
    out.push('a' as u8);
    out.push('n' as u8);
    out.push('g' as u8);
    out.push('e' as u8);
    out.push(':' as u8);
    out.push(' ' as u8);
    out.push('b' as u8);
    out.push('y' as u8);
    out.push('t' as u8);
    out.push('e' as u8);
    out.push('s' as u8);
    out.push(' ' as u8);
    push_dec(&mut out, start);
    out.push('-' as u8);
    push_dec(&mut out, end - 1);
    out.push('/' as u8);
    push_dec(&mut out, len);
    out.push('\r' as u8);
    out.push('\n' as u8);
    push_all(&mut out, shared);
    proof {
        assert(out@ =~= spec_part_header(start, end, len, shared@));
    }
    out
}

/// Builds the closing boundary marker.
pub(crate) fn build_trailer() -> (r: Vec<u8>)
    ensures
        r@ == spec_trailer(),
{
    let mut out: Vec<u8> = Vec::new();
    out.push('\r' as u8);
    out.push('\n' as u8);
    out.push('-' as u8);
    out.push('-' as u8);
    out.push('B' as u8);
    out.push('-' as u8);
    out.push('-' as u8);
    out.push('\r' as u8);
    out.push('\n' as u8);
    proof {
        assert(out@ =~= spec_trailer());
    }
    out
}

/// Builds the `Content-Type` value of a multipart response.
pub(crate) fn build_multipart_content_type() -> (r: Vec<u8>)
    ensures
        r@ == spec_multipart_content_type(),
{
    let mut out: Vec<u8> = Vec::new();
    out.push('m' as u8);
    out.push('u' as u8);
    out.push('l' as u8);
    out.push('t' as u8);
    out.push('i' as u8);
    out.push('p' as u8);
    out.push('a' as u8);
    out.push('r' as u8);
    out.push('t' as u8);
    out.push('/' as u8);
    out.push('b' as u8);
    out.push('y' as u8);
    out.push('t' as u8);
    out.push('e' as u8);
    out.push('r' as u8);
    out.push('a' as u8);
    out.push('n' as u8);
    out.push('g' as u8);
    out.push('e' as u8);
    out.push('s' as u8);
    out.push(';' as u8);
    out.push(' ' as u8);
    out.push('b' as u8);
    out.push('o' as u8);
    out.push('u' as u8);
    out.push('n' as u8);
    out.push('d' as u8);
    out.push('a' as u8);
    out.push('r' as u8);
    out.push('y' as u8);
    out.push('=' as u8);
    out.push('B' as u8);
    proof {
        assert(out@ =~= spec_multipart_content_type());
    }
    out
}

/// One step of a response body: either literal framing bytes to transmit, or
/// a half-open range of the entity's bytes that the application pulls from
/// its storage only when this chunk is consumed.
#[derive(PartialEq, Eq, Debug)]
pub enum BodyChunk {
    /// Literal bytes, computed up front.
    Framing(Vec<u8>),
    /// The entity's bytes in `[start, end)`, to be produced lazily.
    FromEntity(u64, u64),
}

/// The planned multipart body: a finite, single-consumption producer of
/// chunks, driven by an explicit step counter. Step `2*i` yields part `i`'s
/// framing block, step `2*i + 1` names part `i`'s range, and the step after
/// the last part yields the closing marker.
#[derive(PartialEq, Eq, Debug)]
pub struct MultipartBody {
    /// The framing block of each part, precomputed.
    pub part_headers: Vec<Vec<u8>>,
    /// The parts' half-open ranges, in request order.
    pub ranges: Vec<(u64, u64)>,
    /// Steps already taken.
    pub state: usize,
}

impl MultipartBody {
    /// One part per range, with few enough parts that the step counter can
    /// pass the last step.
    pub open spec fn wf(&self) -> bool {
        &&& self.part_headers@.len() == self.ranges@.len()
        &&& 2 * self.ranges@.len() + 1 <= usize::MAX
    }

    /// The next chunk of the body, or `None` once the closing marker has
    /// been emitted. Chunks come out in the fixed interleaving: part `i`'s
    /// framing block, then its range, for each part in order, then the
    /// closing marker.
    pub fn next_chunk(&mut self) -> (r: Option<BodyChunk>)
        requires
            old(self).wf(),
        ensures
            final(self).wf(),
            final(self).part_headers@ == old(self).part_headers@,
            final(self).ranges@ == old(self).ranges@,
            ({
                let n = old(self).ranges@.len() as int;
                let s = old(self).state as int;
                let fstate = final(self).state as int;
                &&& (s < 2 * n && s % 2 == 0) ==> (r matches Some(c) && c matches
                    BodyChunk::Framing(v) && v@ == old(self).part_headers@[s / 2]@ && fstate == s
                    + 1)
                &&& (s < 2 * n && s % 2 == 1) ==> (r matches Some(c) && c matches
                    BodyChunk::FromEntity(a, b) && (a, b) == old(self).ranges@[s / 2] && fstate
                    == s + 1)
                &&& (s == 2 * n) ==> (r matches Some(c) && c matches BodyChunk::Framing(v) && v@
                    == spec_trailer() && fstate == s + 1)
                &&& (s > 2 * n) ==> (r is None && fstate == s)
            }),
    {
        let n = self.ranges.len();
        let s = self.state;
        if s < 2 * n {
            let i = s / 2;
            self.state = s + 1;
            if s % 2 == 0 {
                let v = crate::etag::copy_bytes(&self.part_headers[i]);
                Some(BodyChunk::Framing(v))
            } else {
                let (a, b) = self.ranges[i];
                Some(BodyChunk::FromEntity(a, b))
            }
        } else if s == 2 * n {
            self.state = s + 1;
            Some(BodyChunk::Framing(build_trailer()))
        } else {
            None
        }
    }
}

/// Builds the multipart body plan and its exact total length, computed
/// without reading any entity byte. Returns `None` only when that total
/// cannot be represented in a `u64`.
#[verifier::loop_isolation(false)]
pub(crate) fn build_multipart(
    rv: &RangeVec,
    len: u64,
    content_headers: &Vec<HeaderField>,
    include_headers: bool,
) -> (r: Option<(MultipartBody, u64)>)
    requires
        ranges_wf(sv_ranges(rv), len),
        2 * sv_ranges(rv).len() + 1 <= usize::MAX,
    ensures
        ({
            let total = spec_multipart_total(
                sv_ranges(rv),
                len,
                spec_shared_block(content_headers@, include_headers),
            );
            &&& (r matches Some(p) ==> {
                &&& p.0.wf()
                &&& p.0.state == 0
                &&& p.0.ranges@ == sv_ranges(rv)
                &&& forall|i: int|
                    0 <= i < p.0.part_headers@.len() ==> #[trigger] p.0.part_headers@[i]@
                        == spec_part_header(
                        sv_ranges(rv)[i].0,
                        sv_ranges(rv)[i].1,
                        len,
                        spec_shared_block(content_headers@, include_headers),
                    )
                &&& p.1 == total
            })
            &&& (r is None ==> total > u64::MAX)
        }),
{
    let ghost rs = sv_ranges(rv);
    let ghost shared_spec = spec_shared_block(content_headers@, include_headers);
    let shared = build_shared_block(content_headers, include_headers);
    let n = rv.len();
    let mut part_headers: Vec<Vec<u8>> = Vec::new();
    let mut ranges: Vec<(u64, u64)> = Vec::new();
    let trailer_len: u64 = 9;
    proof {
        assert(spec_trailer().len() == 9);
    }
    let mut total: u64 = trailer_len;
    let mut i: usize = 0;
    while i < n
        invariant
            i <= n,
            ranges@ =~= rs.take(i as int),
            part_headers@.len() == i,
            forall|j: int|
                0 <= j < i ==> #[trigger] part_headers@[j]@ == spec_part_header(
                    rs[j].0,
                    rs[j].1,
                    len,
                    shared_spec,
                ),
            total == spec_parts_len(rs.take(i as int), len, shared_spec) + spec_trailer().len(),
        decreases n - i,
    {
        proof {
            assert(rs.take(i + 1).drop_last() =~= rs.take(i as int));
            assert(rs.take(i + 1).last() == rs[i as int]);
            lemma_parts_len_prefix(rs, len, shared_spec, i + 1);
        }
        let (start, end) = rv.get(i);
        let ph = build_part_header(start, end, len, &shared);
        let ph_len = ph.len();
        let size = end - start;
        if ph_len as u64 > u64::MAX - total {
            return None;
        }
        let t2 = total + ph_len as u64;
        if size > u64::MAX - t2 {
            return None;
        }
        total = t2 + size;
        part_headers.push(ph);
        ranges.push((start, end));
        i += 1;
    }
    proof {
        assert(rs.take(n as int) =~= rs);
    }
    Some((MultipartBody { part_headers, ranges, state: 0 }, total))
}

} // verus!
