use vstd::prelude::*;

verus! {

/// Copies `src[start .. start + len]` into a fresh vector.
pub fn copy_range(src: &Vec<u8>, start: usize, len: usize) -> (out: Vec<u8>)
    requires
        start + len <= src.len(),
    ensures
        out@ == src@.subrange(start as int, start as int + len as int),
{
    let mut out: Vec<u8> = Vec::new();
    let mut i: usize = 0;
    while i < len
        invariant
            i <= len,
            start + len <= src.len(),
            out@ == src@.subrange(start as int, start as int + i as int),
        decreases len - i,
    {
        out.push(src[start + i]);
        assert(out@ =~= src@.subrange(start as int, start as int + i as int + 1));
        i += 1;
    }
    out
}

/// A fresh copy of the whole vector.
pub fn copy_bytes(src: &Vec<u8>) -> (out: Vec<u8>)
    ensures
        out@ == src@,
{
    let out = copy_range(src, 0, src.len());
    assert(src@.subrange(0, src.len() as int) =~= src@);
    out
}

/// Appends `n` copies of `b` to `dst`.
pub fn push_repeat(dst: &mut Vec<u8>, n: usize, b: u8)
    ensures
        final(dst)@ == old(dst)@ + Seq::new(n as nat, |i: int| b),
{
    let mut i: usize = 0;
    while i < n
        invariant
            i <= n,
            dst@ == old(dst)@ + Seq::new(i as nat, |j: int| b),
        decreases n - i,
    {
        dst.push(b);
        assert(dst@ =~= old(dst)@ + Seq::new((i + 1) as nat, |j: int| b));
        i += 1;
    }
}

/// A fresh vector of `n` copies of `b`.
pub fn byte_vec(n: usize, b: u8) -> (out: Vec<u8>)
    ensures
        out@ == Seq::new(n as nat, |i: int| b),
{
    let mut out: Vec<u8> = Vec::new();
    push_repeat(&mut out, n, b);
    assert(out@ =~= Seq::new(n as nat, |i: int| b));
    out
}

/// Appends all of `src` to `dst`.
pub fn push_all(dst: &mut Vec<u8>, src: &Vec<u8>)
    ensures
        final(dst)@ == old(dst)@ + src@,
{
    let mut i: usize = 0;
    while i < src.len()
        invariant
            i <= src.len(),
            dst@ == old(dst)@ + src@.subrange(0, i as int),
        decreases src.len() - i,
    {
        dst.push(src[i]);
        assert(dst@ =~= old(dst)@ + src@.subrange(0, i as int + 1));
        i += 1;
    }
    assert(src@.subrange(0, src.len() as int) =~= src@);
}

} // verus!
