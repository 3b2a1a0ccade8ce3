//! Small verified helpers for building and slicing byte buffers.
use vstd::prelude::*;

verus! {

/// Appends `src` to `dst`.
pub(crate) fn append_bytes(dst: &mut Vec<u8>, src: &[u8])
    ensures
        final(dst)@ == old(dst)@ + src@,
{
    let ghost start = dst@;
    let mut i: usize = 0;
    while i < src.len()
        invariant
            i <= src@.len(),
            dst@ == start + src@.subrange(0, i as int),
        decreases src@.len() - i,
    {
        dst.push(src[i]);
        i = i + 1;
        assert(dst@ =~= start + src@.subrange(0, i as int));
    }
    assert(src@.subrange(0, src@.len() as int) =~= src@);
}

/// Copies 32 bytes of `src`, starting at `start`, into an array.
pub(crate) fn array32_at(src: &[u8], start: usize) -> (res: [u8; 32])
    requires
        start + 32 <= src@.len(),
    ensures
        res@ == src@.subrange(start as int, start + 32),
{
    let n = src.len();
    let mut out = [0u8; 32];
    let mut i: usize = 0;
    while i < 32
        invariant
            i <= 32,
            n == src@.len(),
            start + 32 <= src@.len(),
            forall|j: int| 0 <= j < i ==> out@[j] == src@[start + j],
        decreases 32 - i,
    {
        out[i] = src[start + i];
        i = i + 1;
    }
    assert(out@ =~= src@.subrange(start as int, start + 32));
    out
}

/// Copies 16 bytes of `src`, starting at `start`, into an array.
pub(crate) fn array16_at(src: &[u8], start: usize) -> (res: [u8; 16])
    requires
        start + 16 <= src@.len(),
    ensures
        res@ == src@.subrange(start as int, start + 16),
{
    let n = src.len();
    let mut out = [0u8; 16];
    let mut i: usize = 0;
    while i < 16
        invariant
            i <= 16,
            n == src@.len(),
            start + 16 <= src@.len(),
            forall|j: int| 0 <= j < i ==> out@[j] == src@[start + j],
        decreases 16 - i,
    {
        out[i] = src[start + i];
        i = i + 1;
    }
    assert(out@ =~= src@.subrange(start as int, start + 16));
    out
}

/// Copies 12 bytes of `src`, starting at `start`, into an array.
pub(crate) fn array12_at(src: &[u8], start: usize) -> (res: [u8; 12])
    requires
        start + 12 <= src@.len(),
    ensures
        res@ == src@.subrange(start as int, start + 12),
{
    let n = src.len();
    let mut out = [0u8; 12];
    let mut i: usize = 0;
    while i < 12
        invariant
            i <= 12,
            n == src@.len(),
            start + 12 <= src@.len(),
            forall|j: int| 0 <= j < i ==> out@[j] == src@[start + j],
        decreases 12 - i,
    {
        out[i] = src[start + i];
        i = i + 1;
    }
    assert(out@ =~= src@.subrange(start as int, start + 12));
    out
}

/// Compares two 32-byte arrays.
pub(crate) fn bytes32_eq(a: &[u8; 32], b: &[u8; 32]) -> (res: bool)
    ensures
        res == (a@ == b@),
{
    let mut i: usize = 0;
    while i < 32
        invariant
            i <= 32,
            forall|j: int| 0 <= j < i ==> a@[j] == b@[j],
        decreases 32 - i,
    {
        if a[i] != b[i] {
            return false;
        }
        i = i + 1;
    }
    assert(a@ =~= b@);
    true
}

} // verus!
