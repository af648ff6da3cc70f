//! Comparing and copying byte strings.

use vstd::prelude::*;
use vstd::string::*;
use vstd::utf8::*;

verus! {

/// Whether two byte strings are the same.
pub fn bytes_equal(left: &[u8], right: &[u8]) -> (equal: bool)
    ensures
        equal <==> left@ == right@,
{
    if left.len() != right.len() {
        return false;
    }
    let mut i: usize = 0;
    while i < left.len()
        invariant
            i <= left@.len(),
            left@.len() == right@.len(),
            forall|k: int| 0 <= k < i ==> left@[k] == right@[k],
        decreases left@.len() - i,
    {
        if left[i] != right[i] {
            return false;
        }
        i += 1;
    }
    assert(left@ =~= right@);
    true
}

/// Whether two strings are the same.
pub fn text_equal(left: &str, right: &str) -> (equal: bool)
    ensures
        equal <==> left@ == right@,
{
    proof {
        encode_utf8_decode_utf8(left@);
        encode_utf8_decode_utf8(right@);
    }
    bytes_equal(left.as_bytes(), right.as_bytes())
}

/// Overwrite the front of `out` with `source`.
pub fn copy_to_front(source: &[u8], out: &mut [u8])
    requires
        source@.len() <= old(out)@.len(),
    ensures
        final(out)@ == source@ + old(out)@.skip(source@.len() as int),
{
    let ghost before = out@;
    let mut i: usize = 0;
    while i < source.len()
        invariant
            i <= source@.len() <= before.len(),
            out@ == source@.take(i as int) + before.skip(i as int),
        decreases source@.len() - i,
    {
        out[i] = source[i];
        i += 1;
        assert(out@ =~= source@.take(i as int) + before.skip(i as int));
    }
    assert(source@.take(i as int) =~= source@);
}

/// Append `source` to `out`.
pub fn append(out: &mut Vec<u8>, source: &[u8])
    ensures
        final(out)@ == old(out)@ + source@,
{
    out.extend_from_slice(source);
    assert(out@ =~= old(out)@ + source@);
}

} // verus!
