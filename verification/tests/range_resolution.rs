//! Resolution of range headers against entity lengths, including the
//! examples enumerated in RFC 2616 section 14.35.1.

use http_serve::ranges::{
    ByteRangeSpec, RangeHeader, RangeVec, ResolvedRanges, parse_range_header,
};

fn rv(pairs: &[(u64, u64)]) -> RangeVec {
    let mut v = RangeVec::new();
    for p in pairs {
        v.push(p.0, p.1);
    }
    v
}

fn sat(pairs: &[(u64, u64)]) -> ResolvedRanges {
    ResolvedRanges::Satisfiable(rv(pairs))
}

fn bytes_hdr(units: Vec<ByteRangeSpec>) -> RangeHeader {
    RangeHeader::Bytes(units)
}

#[test]
fn lib_test_resolve_ranges_rfc() {
    assert_eq!(
        sat(&[(0, 500)]),
        parse_range_header(Some(&bytes_hdr(vec![ByteRangeSpec::FromTo(0, 499)])), 10000)
    );

    assert_eq!(
        sat(&[(500, 1000)]),
        parse_range_header(Some(&bytes_hdr(vec![ByteRangeSpec::FromTo(500, 999)])), 10000)
    );

    assert_eq!(
        sat(&[(9500, 10000)]),
        parse_range_header(Some(&bytes_hdr(vec![ByteRangeSpec::Last(500)])), 10000)
    );

    assert_eq!(
        sat(&[(9500, 10000)]),
        parse_range_header(Some(&bytes_hdr(vec![ByteRangeSpec::AllFrom(9500)])), 10000)
    );

    assert_eq!(
        sat(&[(0, 1), (9999, 10000)]),
        parse_range_header(
            Some(&bytes_hdr(vec![ByteRangeSpec::FromTo(0, 0), ByteRangeSpec::Last(1)])),
            10000
        )
    );

    // Non-canonical ranges: adjacent and overlapping intervals are kept
    // verbatim, never coalesced.

    assert_eq!(
        sat(&[(500, 601), (601, 1000)]),
        parse_range_header(
            Some(&bytes_hdr(vec![
                ByteRangeSpec::FromTo(500, 600),
                ByteRangeSpec::FromTo(601, 999),
            ])),
            10000
        )
    );

    assert_eq!(
        sat(&[(500, 701), (601, 1000)]),
        parse_range_header(
            Some(&bytes_hdr(vec![
                ByteRangeSpec::FromTo(500, 700),
                ByteRangeSpec::FromTo(601, 999),
            ])),
            10000
        )
    );
}

#[test]
fn serving_test_resolve_ranges_rfc() {
    assert_eq!(
        sat(&[(0, 500)]),
        parse_range_header(Some(&bytes_hdr(vec![ByteRangeSpec::FromTo(0, 499)])), 10000)
    );

    assert_eq!(
        sat(&[(500, 1000)]),
        parse_range_header(Some(&bytes_hdr(vec![ByteRangeSpec::FromTo(500, 999)])), 10000)
    );

    assert_eq!(
        sat(&[(9500, 10000)]),
        parse_range_header(Some(&bytes_hdr(vec![ByteRangeSpec::Last(500)])), 10000)
    );

    assert_eq!(
        sat(&[(9500, 10000)]),
        parse_range_header(Some(&bytes_hdr(vec![ByteRangeSpec::AllFrom(9500)])), 10000)
    );

    assert_eq!(
        sat(&[(0, 1), (9999, 10000)]),
        parse_range_header(
            Some(&bytes_hdr(vec![ByteRangeSpec::FromTo(0, 0), ByteRangeSpec::Last(1)])),
            10000
        )
    );

    assert_eq!(
        sat(&[(500, 601), (601, 1000)]),
        parse_range_header(
            Some(&bytes_hdr(vec![
                ByteRangeSpec::FromTo(500, 600),
                ByteRangeSpec::FromTo(601, 999),
            ])),
            10000
        )
    );

    assert_eq!(
        sat(&[(500, 701), (601, 1000)]),
        parse_range_header(
            Some(&bytes_hdr(vec![
                ByteRangeSpec::FromTo(500, 700),
                ByteRangeSpec::FromTo(601, 999),
            ])),
            10000
        )
    );
}

#[test]
fn lib_test_resolve_ranges_satisfiability() {
    assert_eq!(
        ResolvedRanges::Unsatisfiable,
        parse_range_header(Some(&bytes_hdr(vec![ByteRangeSpec::AllFrom(10000)])), 10000)
    );

    assert_eq!(
        sat(&[(0, 500)]),
        parse_range_header(
            Some(&bytes_hdr(vec![
                ByteRangeSpec::FromTo(0, 499),
                ByteRangeSpec::AllFrom(10000),
            ])),
            10000
        )
    );

    assert_eq!(
        ResolvedRanges::Unsatisfiable,
        parse_range_header(Some(&bytes_hdr(vec![ByteRangeSpec::Last(1)])), 0)
    );
    assert_eq!(
        ResolvedRanges::Unsatisfiable,
        parse_range_header(Some(&bytes_hdr(vec![ByteRangeSpec::FromTo(0, 0)])), 0)
    );
    assert_eq!(
        ResolvedRanges::Unsatisfiable,
        parse_range_header(Some(&bytes_hdr(vec![ByteRangeSpec::AllFrom(0)])), 0)
    );

    assert_eq!(
        sat(&[(0, 1)]),
        parse_range_header(Some(&bytes_hdr(vec![ByteRangeSpec::FromTo(0, 0)])), 1)
    );

    assert_eq!(
        sat(&[(0, 500)]),
        parse_range_header(Some(&bytes_hdr(vec![ByteRangeSpec::FromTo(0, 10000)])), 500)
    );
}

#[test]
fn serving_test_resolve_ranges_satisfiability() {
    assert_eq!(
        ResolvedRanges::Unsatisfiable,
        parse_range_header(Some(&bytes_hdr(vec![ByteRangeSpec::AllFrom(10000)])), 10000)
    );

    assert_eq!(
        sat(&[(0, 500)]),
        parse_range_header(
            Some(&bytes_hdr(vec![
                ByteRangeSpec::FromTo(0, 499),
                ByteRangeSpec::AllFrom(10000),
            ])),
            10000
        )
    );

    assert_eq!(
        ResolvedRanges::Unsatisfiable,
        parse_range_header(Some(&bytes_hdr(vec![ByteRangeSpec::Last(1)])), 0)
    );
    assert_eq!(
        ResolvedRanges::Unsatisfiable,
        parse_range_header(Some(&bytes_hdr(vec![ByteRangeSpec::FromTo(0, 0)])), 0)
    );
    assert_eq!(
        ResolvedRanges::Unsatisfiable,
        parse_range_header(Some(&bytes_hdr(vec![ByteRangeSpec::AllFrom(0)])), 0)
    );

    assert_eq!(
        sat(&[(0, 1)]),
        parse_range_header(Some(&bytes_hdr(vec![ByteRangeSpec::FromTo(0, 0)])), 1)
    );

    assert_eq!(
        sat(&[(0, 500)]),
        parse_range_header(Some(&bytes_hdr(vec![ByteRangeSpec::FromTo(0, 10000)])), 500)
    );
}

#[test]
fn lib_test_resolve_ranges_absent_or_invalid() {
    assert_eq!(ResolvedRanges::Absent, parse_range_header(None, 10000));
}

#[test]
fn serving_test_resolve_ranges_absent_or_invalid() {
    assert_eq!(ResolvedRanges::Absent, parse_range_header(None, 10000));
}

#[test]
fn resolve_edge_cases() {
    // A single byte at the last valid offset is satisfiable.
    assert_eq!(
        sat(&[(9999, 10000)]),
        parse_range_header(Some(&bytes_hdr(vec![ByteRangeSpec::FromTo(9999, 9999)])), 10000)
    );

    // A suffix one short of the whole entity covers all but the first byte.
    assert_eq!(
        sat(&[(1, 5)]),
        parse_range_header(Some(&bytes_hdr(vec![ByteRangeSpec::Last(4)])), 5)
    );

    // A suffix exactly equal to the entity length is dropped: the resolver
    // reads the boundary conservatively.
    assert_eq!(
        ResolvedRanges::Unsatisfiable,
        parse_range_header(Some(&bytes_hdr(vec![ByteRangeSpec::Last(5)])), 5)
    );

    // A zero-length suffix is kept as the empty interval at the end of the
    // entity, mirroring the verbatim, un-coalesced treatment of units.
    assert_eq!(
        sat(&[(5, 5)]),
        parse_range_header(Some(&bytes_hdr(vec![ByteRangeSpec::Last(0)])), 5)
    );

    // A non-`bytes` range unit is treated as if no header were present.
    assert_eq!(
        ResolvedRanges::Absent,
        parse_range_header(Some(&RangeHeader::Unregistered), 10000)
    );

    // An empty unit list is a present header with nothing satisfiable.
    assert_eq!(
        ResolvedRanges::Unsatisfiable,
        parse_range_header(Some(&bytes_hdr(vec![])), 10000)
    );
}

#[test]
fn resolve_is_idempotent() {
    let hdr = bytes_hdr(vec![
        ByteRangeSpec::FromTo(5, 25),
        ByteRangeSpec::Last(7),
        ByteRangeSpec::AllFrom(90),
    ]);
    let first = parse_range_header(Some(&hdr), 100);
    let second = parse_range_header(Some(&hdr), 100);
    assert_eq!(first, second);
    assert_eq!(first, sat(&[(5, 26), (93, 100), (90, 100)]));
}

#[test]
fn satisfiable_intervals_are_exposed() {
    match parse_range_header(Some(&bytes_hdr(vec![ByteRangeSpec::FromTo(2, 6)])), 5) {
        ResolvedRanges::Satisfiable(v) => {
            assert_eq!(1, v.len());
            assert_eq!((2, 5), v.get(0));
        }
        other => panic!("expected a satisfiable resolution, got {:?}", other),
    }
}
