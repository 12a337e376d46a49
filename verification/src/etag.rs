//! Entity validators (ETags) and the strong / weak comparison functions of
//! RFC 7232 section 2.3.2.

use vstd::prelude::*;

verus! {

/// An entity validator: an opaque comparison value tagged strong or weak.
#[derive(PartialEq, Eq, Debug)]
pub struct EntityTag {
    /// A weak validator only guarantees semantic equivalence, not
    /// byte-for-byte identity of the representation.
    pub weak: bool,
    /// The opaque comparison value (the bytes between the quotes on the wire).
    pub tag: Vec<u8>,
}

/// Strong comparison: both validators are strong and their values are equal.
/// A weak validator never strong-compares equal, not even to itself.
pub open spec fn strong_match(a: EntityTag, b: EntityTag) -> bool {
    !a.weak && !b.weak && a.tag@ == b.tag@
}

/// Weak comparison: the values are equal; strength is ignored.
pub open spec fn weak_match(a: EntityTag, b: EntityTag) -> bool {
    a.tag@ == b.tag@
}

/// Whether two validators hold the same strength and value.
pub open spec fn same_tag(a: EntityTag, b: EntityTag) -> bool {
    a.weak == b.weak && a.tag@ == b.tag@
}

/// Byte-for-byte equality of two vectors.
pub(crate) fn bytes_eq(a: &Vec<u8>, b: &Vec<u8>) -> (r: bool)
    ensures
        r == (a@ == b@),
{
    if a.len() != b.len() {
        return false;
    }
    let n = a.len();
    let mut i: usize = 0;
    while i < n
        invariant
            n == a@.len(),
            n == b@.len(),
            i <= n,
            forall|j: int| 0 <= j < i ==> a@[j] == b@[j],
        decreases n - i,
    {
        if a[i] != b[i] {
            return false;
        }
        i += 1;
    }
    proof {
        assert(a@ =~= b@);
    }
    true
}

/// A fresh copy of a byte vector.
pub(crate) fn copy_bytes(a: &Vec<u8>) -> (r: Vec<u8>)
    ensures
        r@ == a@,
{
    let n = a.len();
    let mut r: Vec<u8> = Vec::new();
    let mut i: usize = 0;
    while i < n
        invariant
            n == a@.len(),
            i <= n,
            r@ =~= a@.take(i as int),
        decreases n - i,
    {
        r.push(a[i]);
        i += 1;
    }
    proof {
        assert(r@ =~= a@);
    }
    r
}

impl EntityTag {
    /// A strong validator with the given value.
    pub fn strong(tag: Vec<u8>) -> (r: Self)
        ensures
            !r.weak,
            r.tag@ == tag@,
    {
        EntityTag { weak: false, tag }
    }

    /// A weak validator with the given value.
    pub fn weak(tag: Vec<u8>) -> (r: Self)
        ensures
            r.weak,
            r.tag@ == tag@,
    {
        EntityTag { weak: true, tag }
    }

    /// Strong comparison of `self` against `other`.
    pub fn strong_eq(&self, other: &Self) -> (r: bool)
        ensures
            r == strong_match(*self, *other),
    {
        !self.weak && !other.weak && bytes_eq(&self.tag, &other.tag)
    }

    /// Weak comparison of `self` against `other`.
    pub fn weak_eq(&self, other: &Self) -> (r: bool)
        ensures
            r == weak_match(*self, *other),
    {
        bytes_eq(&self.tag, &other.tag)
    }

    /// A fresh validator with the same strength and value.
    pub fn duplicate(&self) -> (r: Self)
        ensures
            same_tag(r, *self),
    {
        EntityTag { weak: self.weak, tag: copy_bytes(&self.tag) }
    }
}

} // verus!
