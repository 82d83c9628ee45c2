//! Byte-string helpers: big-endian encodings, concatenation and comparison.

use vstd::prelude::*;

verus! {

/// The eight bytes of `x`, most significant first (what `u64::to_be_bytes` gives).
pub open spec fn u64_be_bytes(x: u64) -> Seq<u8> {
    seq![
        (x >> 56u64) as u8,
        (x >> 48u64) as u8,
        (x >> 40u64) as u8,
        (x >> 32u64) as u8,
        (x >> 24u64) as u8,
        (x >> 16u64) as u8,
        (x >> 8u64) as u8,
        x as u8,
    ]
}

/// The number that four bytes spell, most significant first.
pub open spec fn be_u32_value(b0: u8, b1: u8, b2: u8, b3: u8) -> int {
    b0 * 16777216 + b1 * 65536 + b2 * 256 + b3
}

/// Encodes `x` as eight big-endian bytes.
pub fn u64_to_be_bytes(x: u64) -> (res: Vec<u8>)
    ensures
        res@ == u64_be_bytes(x),
{
    let mut res: Vec<u8> = Vec::new();
    res.push((x >> 56u64) as u8);
    res.push((x >> 48u64) as u8);
    res.push((x >> 40u64) as u8);
    res.push((x >> 32u64) as u8);
    res.push((x >> 24u64) as u8);
    res.push((x >> 16u64) as u8);
    res.push((x >> 8u64) as u8);
    res.push(x as u8);
    assert(res@ =~= u64_be_bytes(x));
    res
}

/// Appends the bytes of `other` to `buf`.
pub fn append_bytes(buf: &mut Vec<u8>, other: &[u8])
    ensures
        final(buf)@ == old(buf)@ + other@,
{
    buf.extend_from_slice(other);
    assert(buf@ =~= old(buf)@ + other@);
}

/// Whether two byte strings are the same.
pub fn bytes_equal(a: &[u8], b: &[u8]) -> (res: bool)
    ensures
        res == (a@ == b@),
{
    if a.len() != b.len() {
        return false;
    }
    let n = a.len();
    let mut i: usize = 0;
    while i < n
        invariant
            n == a@.len(),
            n == b@.len(),
            i <= n,
            forall|j: int| 0 <= j < i ==> a@[j] == b@[j],
        decreases n - i,
    {
        if a[i] != b[i] {
            return false;
        }
        i = i + 1;
    }
    assert(a@ =~= b@);
    true
}

/// Whether the text of `s` is the literal `lit`.
pub fn text_is(s: &String, lit: &str) -> (res: bool)
    ensures
        res == (s@ == lit@),
{
    let owned = String::from_str(lit);
    *s == owned
}

} // verus!
