//! Rendering of the byte fragments a response body can need: ASCII decimal
//! numbers and header fields in their wire form.

use vstd::prelude::*;
use crate::entity::HeaderField;

verus! {

/// The ASCII decimal digits of `n`, most significant digit first, no leading
/// zeros (a single `0` for zero).
pub open spec fn dec_digits(n: nat) -> Seq<u8>
    decreases n,
{
    if n < 10 {
        seq![(48 + n) as u8]
    } else {
        dec_digits(n / 10).push((48 + n % 10) as u8)
    }
}

/// The rendered form of one header field: the name, a colon and a space, the
/// value, and a CRLF.
pub open spec fn field_bytes(name: Seq<u8>, value: Seq<u8>) -> Seq<u8> {
    name + seq![58u8, 32u8] + value + seq![13u8, 10u8]
}

/// The rendered form of a list of header fields, in order.
pub open spec fn fields_bytes(fields: Seq<HeaderField>) -> Seq<u8>
    decreases fields.len(),
{
    if fields.len() == 0 {
        Seq::empty()
    } else {
        fields_bytes(fields.drop_last()) + field_bytes(
            fields.last().name@,
            fields.last().value@,
        )
    }
}

/// Appends all bytes of `s` to `out`.
pub(crate) fn push_all(out: &mut Vec<u8>, s: &Vec<u8>)
    ensures
        final(out)@ == old(out)@ + s@,
{
    let n = s.len();
    let mut i: usize = 0;
    while i < n
        invariant
            n == s@.len(),
            i <= n,
            out@ =~= old(out)@ + s@.take(i as int),
        decreases n - i,
    {
        out.push(s[i]);
        i += 1;
    }
    proof {
        assert(old(out)@ + s@.take(n as int) =~= old(out)@ + s@);
    }
}

/// Appends the ASCII decimal digits of `n` to `out`.
pub(crate) fn push_dec(out: &mut Vec<u8>, n: u64)
    ensures
        final(out)@ == old(out)@ + dec_digits(n as nat),
    decreases n,
{
    if n < 10 {
        out.push(48 + (n as u8));
        proof {
            assert(final(out)@ =~= old(out)@ + dec_digits(n as nat));
        }
    } else {
        push_dec(out, n / 10);
        out.push(48 + ((n % 10) as u8));
        proof {
            assert(final(out)@ =~= old(out)@ + dec_digits(n as nat));
        }
    }
}

/// Appends the rendered form of all header fields to `out`.
pub(crate) fn push_fields(out: &mut Vec<u8>, fields: &Vec<HeaderField>)
    ensures
        final(out)@ == old(out)@ + fields_bytes(fields@),
{
    let n = fields.len();
    let mut i: usize = 0;
    while i < n
        invariant
            n == fields@.len(),
            i <= n,
            out@ =~= old(out)@ + fields_bytes(fields@.take(i as int)),
        decreases n - i,
    {
        proof {
            assert(fields@.take(i + 1).drop_last() =~= fields@.take(i as int));
            assert(fields@.take(i + 1).last() == fields@[i as int]);
        }
        let f = &fields[i];
        push_all(out, &f.name);
        out.push(58);
        out.push(32);
        push_all(out, &f.value);
        out.push(13);
        out.push(10);
        proof {
            assert(out@ =~= old(out)@ + fields_bytes(fields@.take(i + 1)));
        }
        i += 1;
    }
    proof {
        assert(fields@.take(n as int) =~= fields@);
    }
}

} // verus!
