//! Big-endian integers and byte sequences.

use vstd::prelude::*;
use vstd::slice::slice_subrange;

verus! {

/// The 32-bit big-endian integer that starts at index `i` of `s`.
pub open spec fn be32_at(s: Seq<u8>, i: int) -> int {
    s[i] * 0x100_0000 + s[i + 1] * 0x1_0000 + s[i + 2] * 0x100 + s[i + 3]
}

/// The 64-bit big-endian integer that starts at index `i` of `s`.
pub open spec fn be64_at(s: Seq<u8>, i: int) -> int {
    be32_at(s, i) * 0x1_0000_0000 + be32_at(s, i + 4)
}

/// The four big-endian bytes of `x`.
pub open spec fn be32(x: u32) -> Seq<u8> {
    seq![
        (x / 0x100_0000) as u8,
        (x / 0x1_0000 % 0x100) as u8,
        (x / 0x100 % 0x100) as u8,
        (x % 0x100) as u8,
    ]
}

/// Reading back the four bytes of `x` gives `x`.
pub proof fn be32_round_trip(x: u32)
    ensures
        be32(x).len() == 4,
        be32_at(be32(x), 0) == x,
{
}

/// Reads the 32-bit big-endian integer at `i`.
pub fn read_be32(data: &[u8], i: usize) -> (r: u32)
    requires
        i + 4 <= data@.len(),
    ensures
        r == be32_at(data@, i as int),
{
    let a: u32 = data[i] as u32;
    let b: u32 = data[i + 1] as u32;
    let c: u32 = data[i + 2] as u32;
    let d: u32 = data[i + 3] as u32;
    a * 0x100_0000 + b * 0x1_0000 + c * 0x100 + d
}

/// Reads the 64-bit big-endian integer at `i`.
pub fn read_be64(data: &[u8], i: usize) -> (r: u64)
    requires
        i + 8 <= data@.len(),
    ensures
        r == be64_at(data@, i as int),
{
    assert(i + 8 <= data.len());
    let high: u64 = read_be32(data, i) as u64;
    let low: u64 = read_be32(data, i + 4) as u64;
    high * 0x1_0000_0000 + low
}

/// Appends the bytes of `tail` to `out`.
pub fn push_bytes(out: &mut Vec<u8>, tail: &[u8])
    ensures
        final(out)@ == old(out)@ + tail@,
{
    out.extend_from_slice(tail);
    assert(out@ =~= old(out)@ + tail@);
}

/// Appends the four big-endian bytes of `x` to `out`.
pub fn push_be32(out: &mut Vec<u8>, x: u32)
    ensures
        final(out)@ == old(out)@ + be32(x),
{
    out.push((x / 0x100_0000) as u8);
    out.push((x / 0x1_0000 % 0x100) as u8);
    out.push((x / 0x100 % 0x100) as u8);
    out.push((x % 0x100) as u8);
    assert(out@ =~= old(out)@ + be32(x));
}

/// Copies a byte slice into a vector.
pub fn to_vec(bytes: &[u8]) -> (r: Vec<u8>)
    ensures
        r@ == bytes@,
{
    let mut out: Vec<u8> = Vec::new();
    push_bytes(&mut out, bytes);
    out
}

/// Whether two byte slices hold the same bytes.
pub fn same_bytes(a: &[u8], b: &[u8]) -> (r: bool)
    ensures
        r == (a@ == b@),
{
    if a.len() != b.len() {
        return false;
    }
    let mut i: usize = 0;
    while i < a.len()
        invariant
            i <= a@.len(),
            a@.len() == b@.len(),
            forall|j: int| 0 <= j < i ==> a@[j] == b@[j],
        decreases a@.len() - i,
    {
        if a[i] != b[i] {
            return false;
        }
        i = i + 1;
    }
    assert(a@ =~= b@);
    true
}

/// Whether `s` begins with `prefix`.
pub open spec fn starts_with(s: Seq<u8>, prefix: Seq<u8>) -> bool {
    prefix.len() <= s.len() && s.take(prefix.len() as int) == prefix
}

/// Whether `data` begins with `prefix`.
pub fn has_prefix(data: &[u8], prefix: &[u8]) -> (r: bool)
    ensures
        r == starts_with(data@, prefix@),
{
    if data.len() < prefix.len() {
        return false;
    }
    let head: &[u8] = slice_subrange(data, 0, prefix.len());
    assert(head@ =~= data@.take(prefix@.len() as int));
    same_bytes(head, prefix)
}

} // verus!
