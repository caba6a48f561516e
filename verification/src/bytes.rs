//! Helpers on byte buffers.

use vstd::prelude::*;

verus! {

/// Appends the first `count` bytes of `src` to `out`.
pub fn append_prefix(out: &mut Vec<u8>, src: &[u8], count: usize)
    requires
        count <= src@.len(),
    ensures
        final(out)@ == old(out)@ + src@.take(count as int),
{
    let mut i: usize = 0;
    while i < count
        invariant
            i <= count <= src@.len(),
            out@ == old(out)@ + src@.take(i as int),
        decreases count - i,
    {
        out.push(src[i]);
        i += 1;
    }
}

/// Appends all of `src` to `out`.
pub fn append_all(out: &mut Vec<u8>, src: &[u8])
    ensures
        final(out)@ == old(out)@ + src@,
{
    append_prefix(out, src, src.len());
    assert(src@.take(src@.len() as int) == src@);
}

} // verus!
