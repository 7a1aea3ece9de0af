use vstd::prelude::*;

verus! {

/// A signed 16-bit value stored low byte first.
pub open spec fn i16_le(lo: u8, hi: u8) -> i16 {
    (hi as int * 256 + lo as int) as u16 as i16
}

pub fn i16_from_le(lo: u8, hi: u8) -> (r: i16)
    ensures
        r == i16_le(lo, hi),
{
    let v: u16 = ((hi as u16) << 8u16) | (lo as u16);
    assert(((hi as u16) << 8u16) | (lo as u16) == (hi as int * 256 + lo as int) as u16)
        by (bit_vector);
    v as i16
}

/// Copies `N` bytes of `src` from `start` on.
pub fn copy_range<const N: usize>(src: &[u8], start: usize) -> (r: [u8; N])
    requires
        start + N <= src@.len(),
    ensures
        r@ == src@.subrange(start as int, start + N),
{
    let mut buf = [0u8; N];
    let len = src.len();
    let mut i: usize = 0;
    while i < N
        invariant
            len == src@.len(),
            start + N <= src@.len(),
            buf@.len() == N,
            i <= N,
            forall|j: int| 0 <= j < i ==> buf@[j] == src@[start + j],
        decreases N - i,
    {
        buf[i] = src[start + i];
        i += 1;
    }
    assert(buf@ =~= src@.subrange(start as int, start + N));
    buf
}

/// The bytes of `s` in a vector of their own.
pub fn to_vec(s: &[u8]) -> (r: Vec<u8>)
    ensures
        r@ == s@,
{
    let mut out: Vec<u8> = Vec::new();
    let mut i: usize = 0;
    while i < s.len()
        invariant
            i <= s@.len(),
            out@ == s@.subrange(0, i as int),
        decreases s@.len() - i,
    {
        out.push(s[i]);
        i += 1;
        assert(out@ =~= s@.subrange(0, i as int));
    }
    assert(out@ =~= s@);
    out
}

/// Whether every byte of `s` is `b`.
pub open spec fn all_equal(s: Seq<u8>, b: u8) -> bool {
    forall|i: int| 0 <= i < s.len() ==> s[i] == b
}

pub fn all_bytes_equal(s: &[u8], b: u8) -> (r: bool)
    ensures
        r == all_equal(s@, b),
{
    let mut i: usize = 0;
    while i < s.len()
        invariant
            i <= s@.len(),
            forall|j: int| 0 <= j < i ==> s@[j] == b,
        decreases s@.len() - i,
    {
        if s[i] != b {
            return false;
        }
        i += 1;
    }
    true
}

} // verus!
