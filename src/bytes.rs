use vstd::prelude::*;

verus! {

/// The sum of the bytes of `s` in `[lo, hi)`.
pub open spec fn byte_sum(s: Seq<u8>, lo: int, hi: int) -> nat
    decreases hi - lo,
{
    if hi <= lo {
        0
    } else {
        byte_sum(s, lo, hi - 1) + s[hi - 1] as nat
    }
}

/// Whether the bytes of `s` in `[lo, hi)` sum to zero modulo 256: the
/// standard firmware checksum.
pub open spec fn sums_to_zero(s: Seq<u8>, lo: int, hi: int) -> bool {
    byte_sum(s, lo, hi) % 256 == 0
}

/// Adds the bytes in `[start, start + len)` with 8-bit wrapping arithmetic and
/// tells whether the total is zero.
pub fn checksum_valid(data: &[u8], start: usize, len: usize) -> (r: bool)
    requires
        start + len <= data@.len(),
    ensures
        r == sums_to_zero(data@, start as int, start + len),
{
    assert(data@.len() == data.len());
    let mut sum: u8 = 0;
    let mut i: usize = start;
    let end: usize = start + len;
    while i < end
        invariant
            start <= i <= end,
            end == start + len,
            end <= data@.len(),
            sum as nat == byte_sum(data@, start as int, i as int) % 256,
        decreases end - i,
    {
        let b = data[i];
        proof {
            let t = byte_sum(data@, start as int, i as int);
            assert(byte_sum(data@, start as int, i + 1) == t + b as nat);
            assert(((t % 256) + b as nat) % 256 == (t + b as nat) % 256) by (nonlinear_arith);
        }
        sum = ((sum as u16 + b as u16) % 256) as u8;
        i = i + 1;
    }
    sum == 0
}

/// The little-endian value of the two bytes of `s` at `i`.
pub open spec fn le_u16(s: Seq<u8>, i: int) -> nat {
    s[i] as nat + 256 * (s[i + 1] as nat)
}

/// The little-endian value of the four bytes of `s` at `i`.
pub open spec fn le_u32(s: Seq<u8>, i: int) -> nat {
    le_u16(s, i) + 65536 * le_u16(s, i + 2)
}

/// The little-endian value of the eight bytes of `s` at `i`.
pub open spec fn le_u64(s: Seq<u8>, i: int) -> nat {
    le_u32(s, i) + 4294967296 * le_u32(s, i + 4)
}

/// Reads a little-endian `u16` at `at`; no alignment is needed.
pub fn read_u16(data: &[u8], at: usize) -> (r: u16)
    requires
        at + 2 <= data@.len(),
    ensures
        r as nat == le_u16(data@, at as int),
{
    data[at] as u16 + (data[at + 1] as u16) * 256
}

/// Reads a little-endian `u32` at `at`; no alignment is needed.
pub fn read_u32(data: &[u8], at: usize) -> (r: u32)
    requires
        at + 4 <= data@.len(),
    ensures
        r as nat == le_u32(data@, at as int),
{
    assert(data@.len() == data.len());
    let lo = read_u16(data, at);
    let hi = read_u16(data, at + 2);
    lo as u32 + (hi as u32) * 65536
}

/// Reads a little-endian `u64` at `at`; no alignment is needed.
pub fn read_u64(data: &[u8], at: usize) -> (r: u64)
    requires
        at + 8 <= data@.len(),
    ensures
        r as nat == le_u64(data@, at as int),
{
    assert(data@.len() == data.len());
    let lo = read_u32(data, at);
    let hi = read_u32(data, at + 4);
    lo as u64 + (hi as u64) * 4294967296
}

proof fn lemma_byte_sum_same(s: Seq<u8>, t: Seq<u8>, lo: int, hi: int)
    requires
        forall|j: int| lo <= j < hi ==> s[j] == t[j],
    ensures
        byte_sum(s, lo, hi) == byte_sum(t, lo, hi),
    decreases hi - lo,
{
    if hi > lo {
        lemma_byte_sum_same(s, t, lo, hi - 1);
    }
}

proof fn lemma_byte_sum_update(s: Seq<u8>, lo: int, hi: int, i: int, v: u8)
    requires
        0 <= lo <= i < hi <= s.len(),
    ensures
        byte_sum(s.update(i, v), lo, hi) + s[i] as nat == byte_sum(s, lo, hi) + v as nat,
    decreases hi - lo,
{
    let t = s.update(i, v);
    if i == hi - 1 {
        lemma_byte_sum_same(s, t, lo, hi - 1);
    } else {
        lemma_byte_sum_update(s, lo, hi - 1, i, v);
    }
}

/// Changing any single byte of a range whose checksum holds makes it fail:
/// the bytes of `s` in `[lo, hi)` sum to zero modulo 256, and after byte `i`
/// is given another value they no longer do.
pub proof fn lemma_changed_byte_breaks_checksum(s: Seq<u8>, lo: int, hi: int, i: int, v: u8)
    requires
        0 <= lo <= i < hi <= s.len(),
        v != s[i],
        sums_to_zero(s, lo, hi),
    ensures
        !sums_to_zero(s.update(i, v), lo, hi),
{
    lemma_byte_sum_update(s, lo, hi, i, v);
    let old_sum = byte_sum(s, lo, hi) as int;
    let new_sum = byte_sum(s.update(i, v), lo, hi) as int;
    let d = v as int - s[i] as int;
    assert(new_sum == old_sum + d);
    assert(new_sum % 256 != 0) by (nonlinear_arith)
        requires
            new_sum == old_sum + d,
            old_sum % 256 == 0,
            -256 < d < 256,
            d != 0,
            old_sum >= 0,
            new_sum >= 0,
    ;
}

} // verus!
