//! Small byte-buffer helpers shared across the crate.

use vstd::prelude::*;

verus! {

/// Copy a slice into an owned vector.
pub(crate) fn slice_to_vec(b: &[u8]) -> (r: Vec<u8>)
    ensures
        r@ == b@,
{
    let mut v: Vec<u8> = Vec::new();
    let mut i: usize = 0;
    while i < b.len()
        invariant
            0 <= i <= b@.len(),
            v@ == b@.take(i as int),
        decreases b@.len() - i,
    {
        v.push(*slice_index(b, i));
        assert(v@ =~= b@.take(i + 1));
        i += 1;
    }
    assert(v@ =~= b@);
    v
}

/// Copy a vector.
pub(crate) fn clone_vec(b: &Vec<u8>) -> (r: Vec<u8>)
    ensures
        r@ == b@,
{
    slice_to_vec(b.as_slice())
}

/// Copy the bytes of `b` from `from` (inclusive) to `to` (exclusive) into
/// an owned vector.
pub(crate) fn subrange_to_vec(b: &[u8], from: usize, to: usize) -> (r: Vec<u8>)
    requires
        from <= to <= b@.len(),
    ensures
        r@ == b@.subrange(from as int, to as int),
{
    let mut v: Vec<u8> = Vec::new();
    let mut i: usize = from;
    while i < to
        invariant
            from <= i <= to,
            to <= b@.len(),
            v@ == b@.subrange(from as int, i as int),
        decreases to - i,
    {
        v.push(*slice_index(b, i));
        assert(v@ =~= b@.subrange(from as int, i + 1));
        i += 1;
    }
    v
}

/// Read one byte of a slice.
pub(crate) fn slice_index(b: &[u8], i: usize) -> (r: &u8)
    requires
        i < b@.len(),
    ensures
        *r == b@[i as int],
{
    &b[i]
}

} // verus!
