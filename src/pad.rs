//! Zero-padded working buffers.
use vstd::prelude::*;

verus! {

/// `n` zero bytes.
pub open spec fn zeros(n: nat) -> Seq<u8> {
    Seq::new(n, |i: int| 0u8)
}

/// A buffer of `len` zero bytes.
pub fn with_zero(len: usize) -> (r: Vec<u8>)
    ensures
        r@ == zeros(len as nat),
{
    let mut v: Vec<u8> = Vec::with_capacity(len);
    let mut i: usize = 0;
    while i < len
        invariant
            i <= len,
            v@ == zeros(i as nat),
        decreases len - i,
    {
        v.push(0u8);
        i = i + 1;
        assert(v@ =~= zeros(i as nat));
    }
    v
}

/// A new buffer of `prefix_len` zero bytes followed by `buf`, which is left
/// untouched.
pub fn with_prefix(buf: &[u8], prefix_len: usize) -> (r: Vec<u8>)
    requires
        buf@.len() + prefix_len <= usize::MAX,
    ensures
        r@ == zeros(prefix_len as nat) + buf@,
{
    let mut v = with_zero(prefix_len);
    let mut i: usize = 0;
    while i < buf.len()
        invariant
            i <= buf@.len(),
            v@ == zeros(prefix_len as nat) + buf@.subrange(0, i as int),
        decreases buf@.len() - i,
    {
        v.push(buf[i]);
        i = i + 1;
        assert(v@ =~= zeros(prefix_len as nat) + buf@.subrange(0, i as int));
    }
    assert(buf@.subrange(0, buf@.len() as int) =~= buf@);
    v
}

/// The bytes of `buf` from position `prefix_len` on: the inverse of
/// [`with_prefix`].
pub fn strip_prefix(buf: &[u8], prefix_len: usize) -> (r: Vec<u8>)
    requires
        prefix_len <= buf@.len(),
    ensures
        r@ == buf@.subrange(prefix_len as int, buf@.len() as int),
{
    let mut v: Vec<u8> = Vec::with_capacity(buf.len() - prefix_len);
    let mut i: usize = prefix_len;
    while i < buf.len()
        invariant
            prefix_len <= i <= buf@.len(),
            v@ == buf@.subrange(prefix_len as int, i as int),
        decreases buf@.len() - i,
    {
        v.push(buf[i]);
        i = i + 1;
        assert(v@ =~= buf@.subrange(prefix_len as int, i as int));
    }
    v
}

/// Overwrites every byte of `buf` with zero, keeping its length.
pub fn wipe(buf: &mut Vec<u8>)
    ensures
        final(buf)@ == zeros(old(buf)@.len()),
{
    let mut i: usize = 0;
    while i < buf.len()
        invariant
            i <= buf@.len(),
            buf@.len() == old(buf)@.len(),
            forall|j: int| 0 <= j < i ==> buf@[j] == 0u8,
        decreases buf@.len() - i,
    {
        buf[i] = 0u8;
        i = i + 1;
    }
    assert(buf@ =~= zeros(old(buf)@.len()));
}

} // verus!
