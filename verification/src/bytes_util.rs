//! Small verified helpers for moving bytes between buffers.

use vstd::prelude::*;

verus! {

/// Append every byte of `src` to `dst`.
pub fn vec_push_all(dst: &mut Vec<u8>, src: &[u8])
    requires
        old(dst)@.len() + src@.len() <= usize::MAX,
    ensures
        final(dst)@ == old(dst)@ + src@,
{
    let n = src.len();
    let mut i: usize = 0;
    while i < n
        invariant
            n == src@.len(),
            i <= n,
            dst@ == old(dst)@ + src@.take(i as int),
        decreases n - i,
    {
        dst.push(src[i]);
        i = i + 1;
        assert(dst@ =~= old(dst)@ + src@.take(i as int));
    }
    assert(dst@ =~= old(dst)@ + src@);
}

/// Copy `b[from..to]` into a fresh buffer.
pub fn vec_copy_range(b: &Vec<u8>, from: usize, to: usize) -> (r: Vec<u8>)
    requires
        from <= to,
        to <= b@.len(),
    ensures
        r@ == b@.subrange(from as int, to as int),
{
    let mut r: Vec<u8> = Vec::new();
    let mut i: usize = from;
    while i < to
        invariant
            from <= i <= to,
            to <= b@.len(),
            r@ == b@.subrange(from as int, i as int),
        decreases to - i,
    {
        r.push(b[i]);
        i = i + 1;
        assert(r@ =~= b@.subrange(from as int, i as int));
    }
    r
}

/// Drop the first `n` bytes of `b`, keeping the rest in place.
pub fn vec_drop_front(b: &mut Vec<u8>, n: usize)
    requires
        n <= old(b)@.len(),
    ensures
        final(b)@ == old(b)@.skip(n as int),
{
    let tail = b.split_off(n);
    *b = tail;
    assert(b@ =~= old(b)@.skip(n as int));
}

} // verus!
