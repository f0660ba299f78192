use vstd::prelude::*;

verus! {

/// Number of importance samples taken per texel by the specular prefilter
/// and by the BRDF lookup-table integration.
pub const SAMPLE_COUNT: u32 = 1024;

/// Whether bit `i` of `v` is set.
pub open spec fn spec_bit(v: u32, i: u32) -> bool {
    v & (1u32 << i) != 0
}

/// The van der Corput radical inverse of `b` in base two, scaled by 2^32:
/// the 32-bit word `b` with its bit order reversed. Dividing the result by
/// 2^32 yields the radical inverse in [0, 1).
pub open spec fn spec_radical_inverse_vdc(b: u32) -> u32 {
    let b1 = (b << 16) | (b >> 16);
    let b2 = ((b1 & 0x5555_5555) << 1) | ((b1 & 0xaaaa_aaaa) >> 1);
    let b3 = ((b2 & 0x3333_3333) << 2) | ((b2 & 0xcccc_cccc) >> 2);
    let b4 = ((b3 & 0x0f0f_0f0f) << 4) | ((b3 & 0xf0f0_f0f0) >> 4);
    ((b4 & 0x00ff_00ff) << 8) | ((b4 & 0xff00_ff00) >> 8)
}

/// A point of the Hammersley sequence over `n` samples, kept exact as a pair
/// of numerators: `x` over the denominator `n` and `y` over 2^32.
#[derive(Debug, Clone, Copy, PartialEq, Eq, Structural)]
pub struct HammersleyPoint {
    pub x_num: u32,
    pub y_num: u32,
}

/// Point `i` of the Hammersley sequence: `(i / n, radical_inverse(i))`.
pub open spec fn spec_hammersley(i: u32, n: u32) -> HammersleyPoint {
    HammersleyPoint { x_num: i, y_num: spec_radical_inverse_vdc(i) }
}

/// Reverses the bit order of a 32-bit word by swapping progressively smaller
/// groups of bits, exactly as the prefilter and LUT shaders do.
pub fn radical_inverse_vdc(b: u32) -> (r: u32)
    ensures
        r == spec_radical_inverse_vdc(b),
        forall|i: u32| i < 32 ==> spec_bit(r, i) == spec_bit(b, (31 - i) as u32),
{
    let mut bits: u32 = (b << 16u32) | (b >> 16u32);
    bits = ((bits & 0x5555_5555) << 1u32) | ((bits & 0xaaaa_aaaa) >> 1u32);
    bits = ((bits & 0x3333_3333) << 2u32) | ((bits & 0xcccc_cccc) >> 2u32);
    bits = ((bits & 0x0f0f_0f0f) << 4u32) | ((bits & 0xf0f0_f0f0) >> 4u32);
    bits = ((bits & 0x00ff_00ff) << 8u32) | ((bits & 0xff00_ff00) >> 8u32);
    proof {
        lemma_radical_inverse_reverses_bits(b);
        assert forall|i: u32| i < 32 implies spec_bit(bits, i) == spec_bit(
            b,
            (31 - i) as u32,
        ) by {
            assert(spec_bit(spec_radical_inverse_vdc(b), i) == spec_bit(b, (31 - i) as u32));
        }
    }
    bits
}

/// Point `i` of the `n`-sample Hammersley sequence. Both coordinates lie in
/// [0, 1): `x_num < n` and `y_num` is read over the denominator 2^32.
pub fn hammersley(i: u32, n: u32) -> (r: HammersleyPoint)
    requires
        i < n,
    ensures
        r == spec_hammersley(i, n),
        r.x_num < n,
{
    HammersleyPoint { x_num: i, y_num: radical_inverse_vdc(i) }
}

/// The radical inverse reverses the bit order: bit `i` of the result is bit
/// `31 - i` of the argument.
pub proof fn lemma_radical_inverse_reverses_bits(b: u32)
    ensures
        forall|i: u32|
            i < 32 ==> spec_bit(spec_radical_inverse_vdc(b), i) == spec_bit(b, (31 - i) as u32),
{
    assert(forall|i: u32|
        i < 32 ==> spec_bit(spec_radical_inverse_vdc(b), i) == spec_bit(b, (31 - i) as u32))
        by (bit_vector);
}

/// Reversing the bit order twice gives the word back.
pub proof fn lemma_radical_inverse_involutive(b: u32)
    ensures
        spec_radical_inverse_vdc(spec_radical_inverse_vdc(b)) == b,
{
    assert(spec_radical_inverse_vdc(spec_radical_inverse_vdc(b)) == b) by (bit_vector);
}

/// Distinct sample indices give distinct radical inverses.
pub proof fn lemma_radical_inverse_injective(b1: u32, b2: u32)
    requires
        spec_radical_inverse_vdc(b1) == spec_radical_inverse_vdc(b2),
    ensures
        b1 == b2,
{
    lemma_radical_inverse_involutive(b1);
    lemma_radical_inverse_involutive(b2);
}

/// The Hammersley sequence never repeats a point: the low-discrepancy set is
/// made of `n` distinct samples.
pub proof fn lemma_hammersley_injective(i: u32, j: u32, n: u32)
    requires
        i < n,
        j < n,
        i != j,
    ensures
        spec_hammersley(i, n) != spec_hammersley(j, n),
{
}

} // verus!
