//! Resolution of a `Range:` header against a known entity length
//! (RFC 7233 section 2.1).
//!
//! Each requested unit is converted from the closed interval style of the
//! header to a half-open `[start, end)` pair clamped to the entity length;
//! units that select no byte are dropped. The resulting intervals are kept in
//! request order and are deliberately not merged or deduplicated, even when
//! adjacent or overlapping: callers that need canonical ranges must
//! post-process.

use vstd::prelude::*;

verus! {

/// One requested unit of a `bytes` range header.
#[derive(Clone, Copy, PartialEq, Eq, Debug, Structural)]
pub enum ByteRangeSpec {
    /// `a-b`: from byte `a` through byte `b`, both inclusive.
    FromTo(u64, u64),
    /// `a-`: from byte `a` through the end of the entity.
    AllFrom(u64),
    /// `-n`: the final `n` bytes of the entity.
    Last(u64),
}

/// A `Range:` header as the transport layer hands it over, already split into
/// structured units.
#[derive(PartialEq, Eq, Debug)]
pub enum RangeHeader {
    /// A `bytes` range with its requested units.
    Bytes(Vec<ByteRangeSpec>),
    /// A range in a unit other than `bytes`; treated as if no header were
    /// present.
    Unregistered,
}

/// The storage for resolved intervals: a vector kept inline for the common
/// single-range request, spilling to the heap for more.
#[verifier::external_body]
#[derive(Debug)]
pub struct RangeVec {
    inner: smallvec::SmallVec<[(u64, u64); 1]>,
}

/// The sequence of `(start, end)` pairs that a resolved-range vector holds,
/// in order.
pub uninterp spec fn sv_ranges(v: &RangeVec) -> Seq<(u64, u64)>;

impl RangeVec {
    /// Relies on smallvec::SmallVec::new: constructs an empty vector.
    #[verifier::external_body]
    pub fn new() -> (r: RangeVec)
        ensures
            sv_ranges(&r) == Seq::<(u64, u64)>::empty(),
    {
        RangeVec { inner: smallvec::SmallVec::new() }
    }

    /// Relies on smallvec::SmallVec::push: appends one element at the end.
    #[verifier::external_body]
    pub fn push(&mut self, start: u64, end: u64)
        requires
            sv_ranges(old(self)).len() < usize::MAX,
        ensures
            sv_ranges(final(self)) == sv_ranges(old(self)).push((start, end)),
    {
        self.inner.push((start, end));
    }

    /// Relies on smallvec::SmallVec::len: the number of elements held.
    #[verifier::external_body]
    pub fn len(&self) -> (r: usize)
        ensures
            r == sv_ranges(self).len(),
    {
        self.inner.len()
    }

    /// Relies on indexing into smallvec::SmallVec through its slice deref:
    /// the element at position `i`.
    #[verifier::external_body]
    pub fn get(&self, i: usize) -> (r: (u64, u64))
        requires
            i < sv_ranges(self).len(),
        ensures
            r == sv_ranges(self)[i as int],
    {
        self.inner[i]
    }
}

impl PartialEq for RangeVec {
    /// Two resolved-range vectors are equal when they hold the same intervals
    /// in the same order.
    fn eq(&self, other: &Self) -> (r: bool) {
        let n = self.len();
        if n != other.len() {
            proof {
                assert(sv_ranges(self) != sv_ranges(other));
            }
            return false;
        }
        let mut i: usize = 0;
        while i < n
            invariant
                n == sv_ranges(self).len(),
                n == sv_ranges(other).len(),
                i <= n,
                forall|j: int| 0 <= j < i ==> sv_ranges(self)[j] == sv_ranges(other)[j],
            decreases n - i,
        {
            let a = self.get(i);
            let b = other.get(i);
            if a.0 != b.0 || a.1 != b.1 {
                return false;
            }
            i += 1;
        }
        proof {
            assert(sv_ranges(self) =~= sv_ranges(other));
        }
        true
    }
}

impl vstd::std_specs::cmp::PartialEqSpecImpl for RangeVec {
    open spec fn obeys_eq_spec() -> bool {
        true
    }

    open spec fn eq_spec(&self, other: &Self) -> bool {
        sv_ranges(self) == sv_ranges(other)
    }
}

/// A `Range:` header resolved against a particular entity length.
#[derive(PartialEq, Debug)]
pub enum ResolvedRanges {
    /// No `bytes` range header was supplied.
    Absent,
    /// A `bytes` range header was supplied, but no requested unit selects a
    /// byte of the entity.
    Unsatisfiable,
    /// At least one unit selects bytes; the half-open intervals, in request
    /// order, unsatisfiable units dropped.
    Satisfiable(RangeVec),
}

/// The requested units of the header, or `None` when no `bytes` range header
/// is present.
pub open spec fn units_of(range: Option<&RangeHeader>) -> Option<Seq<ByteRangeSpec>> {
    match range {
        Option::None => Option::None,
        Option::Some(h) => match h {
            RangeHeader::Bytes(units) => Option::Some(units@),
            RangeHeader::Unregistered => Option::None,
        },
    }
}

/// The half-open interval one unit selects, clamped to `len`, or `None` when
/// the unit selects no byte:
/// `a-b` gives `[a, min(b+1, len))` if `a < min(b+1, len)`;
/// `a-` gives `[a, len)` if `a < len`;
/// `-n` gives `[len-n, len)` if `n < len` (so `-n` with `n >= len` is
/// dropped, deliberately conservative for the `n == len` boundary).
pub open spec fn resolve_unit(u: ByteRangeSpec, len: u64) -> Option<(u64, u64)> {
    match u {
        ByteRangeSpec::FromTo(a, b) => {
            let end: u64 = if b >= len { len } else { (b + 1) as u64 };
            if a < end { Option::Some((a, end)) } else { Option::None }
        }
        ByteRangeSpec::AllFrom(a) => {
            if a < len { Option::Some((a, len)) } else { Option::None }
        }
        ByteRangeSpec::Last(n) => {
            if n < len { Option::Some(((len - n) as u64, len)) } else { Option::None }
        }
    }
}

/// The intervals the units select, in request order, dropped units omitted.
pub open spec fn resolve_units(units: Seq<ByteRangeSpec>, len: u64) -> Seq<(u64, u64)>
    decreases units.len(),
{
    if units.len() == 0 {
        Seq::empty()
    } else {
        let rest = resolve_units(units.drop_last(), len);
        match resolve_unit(units.last(), len) {
            Option::Some(r) => rest.push(r),
            Option::None => rest,
        }
    }
}

/// Every resolved interval `(start, end)` satisfies `start <= end <= len`
/// with `end >= 1`: intervals lie inside the entity and never extend past
/// it. (`start == end` arises only from a suffix unit of zero length, which
/// the resolver keeps, mirroring the un-coalesced treatment of units.)
pub open spec fn ranges_wf(ranges: Seq<(u64, u64)>, len: u64) -> bool {
    forall|i: int|
        0 <= i < ranges.len() ==> (#[trigger] ranges[i].0 <= ranges[i].1 && 1 <= ranges[i].1
            <= len)
}

/// What the resolver produces is well-formed.
pub proof fn lemma_resolve_units_wf(units: Seq<ByteRangeSpec>, len: u64)
    ensures
        ranges_wf(resolve_units(units, len), len),
    decreases units.len(),
{
    if units.len() > 0 {
        lemma_resolve_units_wf(units.drop_last(), len);
        let rest = resolve_units(units.drop_last(), len);
        match resolve_unit(units.last(), len) {
            Option::Some(r) => {
                assert(r.0 <= r.1 && 1 <= r.1 <= len);
                assert(forall|i: int|
                    0 <= i < rest.len() ==> rest.push(r)[i] == rest[i]);
            },
            Option::None => {},
        }
    }
}

/// A resolved range request at the specification level.
pub enum ResolutionView {
    /// No `bytes` range header applies.
    Absent,
    /// A header was present but every unit was dropped.
    Unsatisfiable,
    /// The resolved intervals, in request order.
    Satisfiable(Seq<(u64, u64)>),
}

/// What a `ResolvedRanges` value says, at the specification level.
pub open spec fn resolved_view(r: &ResolvedRanges) -> ResolutionView {
    match r {
        ResolvedRanges::Absent => ResolutionView::Absent,
        ResolvedRanges::Unsatisfiable => ResolutionView::Unsatisfiable,
        ResolvedRanges::Satisfiable(v) => ResolutionView::Satisfiable(sv_ranges(v)),
    }
}

/// The resolution of the given units against `len`: `Absent` when no
/// `bytes` units apply, `Unsatisfiable` when a header was present but every
/// unit was dropped, `Satisfiable` with the intervals otherwise.
pub open spec fn spec_resolve(units: Option<Seq<ByteRangeSpec>>, len: u64) -> ResolutionView {
    match units {
        Option::None => ResolutionView::Absent,
        Option::Some(us) => {
            let rs = resolve_units(us, len);
            if rs.len() == 0 {
                ResolutionView::Unsatisfiable
            } else {
                ResolutionView::Satisfiable(rs)
            }
        },
    }
}

/// Resolves the byte-range-set of a `Range:` header against the length of the
/// entity. Absent headers (and non-`bytes` units) resolve to `Absent`; a
/// present header whose every unit is dropped resolves to `Unsatisfiable`,
/// never to `Absent`, so the caller can distinguish "no range requested" from
/// "range not satisfiable".
pub fn parse_range_header(range: Option<&RangeHeader>, len: u64) -> (r: ResolvedRanges)
    ensures
        resolved_view(&r) == spec_resolve(units_of(range), len),
{
    let units: &Vec<ByteRangeSpec> = match range {
        Option::Some(RangeHeader::Bytes(units)) => units,
        _ => {
            return ResolvedRanges::Absent;
        },
    };
    let n = units.len();
    let mut v = RangeVec::new();
    let mut i: usize = 0;
    while i < n
        invariant
            n == units@.len(),
            i <= n,
            sv_ranges(&v) == resolve_units(units@.take(i as int), len),
            sv_ranges(&v).len() <= i,
        decreases n - i,
    {
        proof {
            assert(units@.take(i + 1).drop_last() =~= units@.take(i as int));
            assert(units@.take(i + 1).last() == units@[i as int]);
        }
        match units[i] {
            ByteRangeSpec::FromTo(a, b) => {
                let end = if b >= len { len } else { b + 1 };
                if a < end {
                    v.push(a, end);
                }
            },
            ByteRangeSpec::AllFrom(a) => {
                if a < len {
                    v.push(a, len);
                }
            },
            ByteRangeSpec::Last(last) => {
                if last < len {
                    v.push(len - last, len);
                }
            },
        }
        i += 1;
    }
    proof {
        assert(units@.take(n as int) =~= units@);
    }
    if v.len() != 0 {
        ResolvedRanges::Satisfiable(v)
    } else {
        ResolvedRanges::Unsatisfiable
    }
}

/// For every length, a `from-to(a, b)` unit with `a < min(b+1, length)`
/// resolves to `[a, min(b+1, length))`; otherwise the unit is dropped.
pub proof fn lemma_from_to_resolution(a: u64, b: u64, len: u64)
    ensures
        (a as int) < vstd::math::min(b as int + 1, len as int) ==> resolve_unit(
            ByteRangeSpec::FromTo(a, b),
            len,
        ) == Option::Some((a, vstd::math::min(b as int + 1, len as int) as u64)),
        (a as int) >= vstd::math::min(b as int + 1, len as int) ==> resolve_unit(
            ByteRangeSpec::FromTo(a, b),
            len,
        ) is None,
{
}

/// For every length, an `all-from(a)` unit with `a < length` resolves to
/// `[a, length)`; otherwise the unit is dropped.
pub proof fn lemma_all_from_resolution(a: u64, len: u64)
    ensures
        a < len ==> resolve_unit(ByteRangeSpec::AllFrom(a), len) == Option::Some((a, len)),
        a >= len ==> resolve_unit(ByteRangeSpec::AllFrom(a), len) is None,
{
}

/// For every length, a `suffix(n)` unit with `n < length` resolves to
/// `[length - n, length)`; `n >= length` is dropped — including the
/// boundary `n == length`, which is read conservatively (the whole entity
/// could be considered satisfiable there; this resolver deliberately drops
/// it).
pub proof fn lemma_suffix_resolution(n: u64, len: u64)
    ensures
        n < len ==> resolve_unit(ByteRangeSpec::Last(n), len) == Option::Some(
            ((len - n) as u64, len),
        ),
        n >= len ==> resolve_unit(ByteRangeSpec::Last(n), len) is None,
{
}

/// A header whose every unit is dropped resolves to `Unsatisfiable`, which
/// is distinct from the `Absent` of a missing header: the two are never
/// conflated.
pub proof fn lemma_all_dropped_unsatisfiable(units: Seq<ByteRangeSpec>, len: u64)
    requires
        forall|i: int| 0 <= i < units.len() ==> #[trigger] resolve_unit(units[i], len) is None,
    ensures
        spec_resolve(Option::Some(units), len) is Unsatisfiable,
        !(spec_resolve(Option::Some(units), len) is Absent),
        spec_resolve(Option::None, len) is Absent,
    decreases units.len(),
{
    if units.len() > 0 {
        assert(resolve_unit(units.last(), len) is None);
        assert(forall|i: int|
            0 <= i < units.drop_last().len() ==> #[trigger] resolve_unit(
                units.drop_last()[i],
                len,
            ) is None);
        lemma_all_dropped_unsatisfiable(units.drop_last(), len);
    }
}

/// Resolution is a pure function of the header's units and the entity
/// length: two results obtained from the same inputs are the same
/// resolution, with identical intervals in identical order.
pub proof fn lemma_resolution_deterministic(
    units: Option<Seq<ByteRangeSpec>>,
    len: u64,
    r1: &ResolvedRanges,
    r2: &ResolvedRanges,
)
    requires
        resolved_view(r1) == spec_resolve(units, len),
        resolved_view(r2) == spec_resolve(units, len),
    ensures
        resolved_view(r1) == resolved_view(r2),
{
}

} // verus!
