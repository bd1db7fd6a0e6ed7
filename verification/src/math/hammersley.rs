use vstd::prelude::*;

verus! {

/// Bit `k` of the 32-bit word `x`, counted from the least significant bit.
pub open spec fn bit(x: u32, k: u32) -> bool {
    (x >> k) & 1u32 == 1u32
}

/// The low 32 bits of an index.
pub open spec fn low_word(bits: usize) -> u32 {
    (bits as int % 0x1_0000_0000) as u32
}

/// `r` is `x` with its 32 bits in the opposite order.
pub open spec fn is_reversal(x: u32, r: u32) -> bool {
    forall|k: u32| k < 32 ==> #[trigger] bit(r, k) == bit(x, (31 - k) as u32)
}

/// The five swaps that turn a 32-bit word around: halves, then bits within
/// pairs, pairs within nibbles, nibbles within bytes, bytes within halves.
pub open spec fn reverse_bits(x: u32) -> u32 {
    let a: u32 = (x << 16u32) | (x >> 16u32);
    let b: u32 = ((a & 0x55555555u32) << 1u32) | ((a & 0xAAAAAAAAu32) >> 1u32);
    let c: u32 = ((b & 0x33333333u32) << 2u32) | ((b & 0xCCCCCCCCu32) >> 2u32);
    let d: u32 = ((c & 0x0F0F0F0Fu32) << 4u32) | ((c & 0xF0F0F0F0u32) >> 4u32);
    ((d & 0x00FF00FFu32) << 8u32) | ((d & 0xFF00FF00u32) >> 8u32)
}

/// The numerator, over 2^32, of the base-2 Van der Corput radical inverse of
/// `bits`: the low 32 bits of `bits` in reverse order.
pub fn radical_inverse_vdc(bits: usize) -> (r: u32)
    ensures
        r == reverse_bits(low_word(bits)),
        is_reversal(low_word(bits), r),
{
    let wide: u64 = bits as u64;
    let x: u32 = (wide % 0x1_0000_0000u64) as u32;
    let a: u32 = (x << 16u32) | (x >> 16u32);
    let b: u32 = ((a & 0x55555555u32) << 1u32) | ((a & 0xAAAAAAAAu32) >> 1u32);
    let c: u32 = ((b & 0x33333333u32) << 2u32) | ((b & 0xCCCCCCCCu32) >> 2u32);
    let d: u32 = ((c & 0x0F0F0F0Fu32) << 4u32) | ((c & 0xF0F0F0F0u32) >> 4u32);
    let r: u32 = ((d & 0x00FF00FFu32) << 8u32) | ((d & 0xFF00FF00u32) >> 8u32);
    proof {
        lemma_reverse_bits_reverses(x);
    }
    r
}

/// `reverse_bits` puts bit `31 - k` of its argument at position `k`.
pub proof fn lemma_reverse_bits_reverses(x: u32)
    ensures
        is_reversal(x, reverse_bits(x)),
{
    let r = reverse_bits(x);
    assert forall|k: u32| k < 32 implies #[trigger] bit(r, k) == bit(x, (31 - k) as u32) by {
        assert(k < 32 ==> (((reverse_bits(x) >> k) & 1u32 == 1u32) == ((x >> ((31 - k) as u32)) & 1u32
            == 1u32))) by (bit_vector);
    }
}

/// Reversing twice gives the word back, so distinct words have distinct
/// reversals.
pub proof fn lemma_reverse_bits_involution(x: u32)
    ensures
        reverse_bits(reverse_bits(x)) == x,
{
    assert(reverse_bits(reverse_bits(x)) == x) by (bit_vector);
}

/// The radical inverses of the indices below `2^k` are multiples of
/// `2^(32 - k)`: as they are distinct, the first `2^k` points fall one into
/// each of the `2^k` equal strata of `[0, 1)`.
pub proof fn lemma_reverse_bits_strata(x: u32, k: u32)
    requires
        k < 32,
        x >> k == 0,
    ensures
        reverse_bits(x) << k == 0,
{
    assert(k < 32 && x >> k == 0 ==> reverse_bits(x) << k == 0) by (bit_vector);
}

/// Two indices with different low words get different radical inverses.
pub proof fn lemma_reverse_bits_injective(x: u32, y: u32)
    requires
        reverse_bits(x) == reverse_bits(y),
    ensures
        x == y,
{
    lemma_reverse_bits_involution(x);
    lemma_reverse_bits_involution(y);
}

/// A point of the Hammersley set in exact form: the first coordinate is
/// `index / count`, the second `radical / 2^32`.
#[derive(Clone, Copy, Debug, PartialEq, Eq)]
pub struct SamplePoint {
    pub index: usize,
    pub count: usize,
    pub radical: u32,
}

impl SamplePoint {
    /// Both coordinates lie in `[0, 1)`. The second always does, as
    /// `radical` is below 2^32.
    pub open spec fn in_unit_square(&self) -> bool {
        self.index < self.count
    }
}

/// Point `i` of the Hammersley set of `n` points: `i / n` paired with the
/// radical inverse of `i`.
pub fn hammersley(i: usize, n: usize) -> (p: SamplePoint)
    ensures
        p.index == i,
        p.count == n,
        p.radical == reverse_bits(low_word(i)),
        i < n ==> p.in_unit_square(),
{
    SamplePoint { index: i, count: n, radical: radical_inverse_vdc(i) }
}

} // verus!
