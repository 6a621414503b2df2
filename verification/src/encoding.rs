//! Fixed-width little-endian encodings and byte-string comparison.

use vstd::prelude::*;

verus! {

/// The eight bytes of `x`, least significant first.
#[verifier::opaque]
pub open spec fn u64_le(x: u64) -> Seq<u8> {
    seq![
        (x % 0x100) as u8,
        (x / 0x100 % 0x100) as u8,
        (x / 0x1_0000 % 0x100) as u8,
        (x / 0x100_0000 % 0x100) as u8,
        (x / 0x1_0000_0000 % 0x100) as u8,
        (x / 0x100_0000_0000 % 0x100) as u8,
        (x / 0x1_0000_0000_0000 % 0x100) as u8,
        (x / 0x100_0000_0000_0000 % 0x100) as u8,
    ]
}

/// The encoding is eight bytes long.
pub proof fn lemma_u64_le_len(x: u64)
    ensures
        u64_le(x).len() == 8,
{
    reveal(u64_le);
}

/// The eight bytes determine the number.
pub proof fn lemma_u64_le_injective(a: u64, b: u64)
    requires
        u64_le(a) == u64_le(b),
    ensures
        a == b,
{
    reveal(u64_le);
    let x = u64_le(a);
    let y = u64_le(b);
    assert(a % 0x100 == b % 0x100) by {
        assert(x[0] == y[0]);
    }
    assert(a / 0x100 % 0x100 == b / 0x100 % 0x100) by {
        assert(x[1] == y[1]);
    }
    assert(a / 0x1_0000 % 0x100 == b / 0x1_0000 % 0x100) by {
        assert(x[2] == y[2]);
    }
    assert(a / 0x100_0000 % 0x100 == b / 0x100_0000 % 0x100) by {
        assert(x[3] == y[3]);
    }
    assert(a / 0x1_0000_0000 % 0x100 == b / 0x1_0000_0000 % 0x100) by {
        assert(x[4] == y[4]);
    }
    assert(a / 0x100_0000_0000 % 0x100 == b / 0x100_0000_0000 % 0x100) by {
        assert(x[5] == y[5]);
    }
    assert(a / 0x1_0000_0000_0000 % 0x100 == b / 0x1_0000_0000_0000 % 0x100) by {
        assert(x[6] == y[6]);
    }
    assert(a / 0x100_0000_0000_0000 % 0x100 == b / 0x100_0000_0000_0000 % 0x100) by {
        assert(x[7] == y[7]);
    }
    assert(a == b) by (bit_vector)
        requires
            a % 0x100 == b % 0x100,
            a / 0x100 % 0x100 == b / 0x100 % 0x100,
            a / 0x1_0000 % 0x100 == b / 0x1_0000 % 0x100,
            a / 0x100_0000 % 0x100 == b / 0x100_0000 % 0x100,
            a / 0x1_0000_0000 % 0x100 == b / 0x1_0000_0000 % 0x100,
            a / 0x100_0000_0000 % 0x100 == b / 0x100_0000_0000 % 0x100,
            a / 0x1_0000_0000_0000 % 0x100 == b / 0x1_0000_0000_0000 % 0x100,
            a / 0x100_0000_0000_0000 % 0x100 == b / 0x100_0000_0000_0000 % 0x100,
    ;
}

/// The number whose two little-endian bytes are `lo` and `hi`.
pub open spec fn u16_of_le(lo: u8, hi: u8) -> int {
    lo as int + 0x100 * (hi as int)
}

/// Appends the little-endian encoding of `x` to `out`.
pub fn push_u64_le(out: &mut Vec<u8>, x: u64)
    ensures
        final(out)@ == old(out)@ + u64_le(x),
{
    out.push((x % 0x100) as u8);
    out.push((x / 0x100 % 0x100) as u8);
    out.push((x / 0x1_0000 % 0x100) as u8);
    out.push((x / 0x100_0000 % 0x100) as u8);
    out.push((x / 0x1_0000_0000 % 0x100) as u8);
    out.push((x / 0x100_0000_0000 % 0x100) as u8);
    out.push((x / 0x1_0000_0000_0000 % 0x100) as u8);
    out.push((x / 0x100_0000_0000_0000 % 0x100) as u8);
    proof {
        reveal(u64_le);
    }
    assert(out@ =~= old(out)@ + u64_le(x));
}

/// Reads the little-endian `u16` that starts at `at`.
pub fn read_u16_le(data: &[u8], at: usize) -> (value: u16)
    requires
        at + 2 <= data@.len(),
    ensures
        value == u16_of_le(data@[at as int], data@[at + 1]),
{
    let lo: u16 = data[at] as u16;
    let hi: u16 = data[at + 1] as u16;
    lo + 0x100 * hi
}

/// Whether two byte strings are the same, length and content.
pub fn bytes_equal(a: &[u8], b: &[u8]) -> (same: bool)
    ensures
        same == (a@ == b@),
{
    if a.len() != b.len() {
        return false;
    }
    let mut i: usize = 0;
    while i < a.len()
        invariant
            i <= a@.len(),
            a@.len() == b@.len(),
            forall|j: int| 0 <= j < i ==> a@[j] == b@[j],
        decreases a@.len() - i,
    {
        if a[i] != b[i] {
            return false;
        }
        i += 1;
    }
    assert(a@ =~= b@);
    true
}

/// Whether the `len` bytes of `data` that start at `start` are exactly
/// `expected`.
pub fn region_equals(data: &[u8], start: usize, len: usize, expected: &[u8]) -> (same: bool)
    requires
        start + len <= data@.len(),
    ensures
        same == (data@.subrange(start as int, start + len) == expected@),
{
    if expected.len() != len {
        return false;
    }
    let total: usize = data.len();
    let mut i: usize = 0;
    while i < len
        invariant
            i <= len,
            total == data@.len(),
            expected@.len() == len,
            start + len <= data@.len(),
            forall|j: int| 0 <= j < i ==> data@[start + j] == expected@[j],
        decreases len - i,
    {
        if data[start + i] != expected[i] {
            assert(data@.subrange(start as int, start + len)[i as int] != expected@[i as int]);
            return false;
        }
        i += 1;
    }
    assert(data@.subrange(start as int, start + len) =~= expected@);
    true
}

} // verus!
