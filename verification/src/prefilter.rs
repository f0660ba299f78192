use vstd::prelude::*;

verus! {

/// A roughness value kept exact as the fraction `num / den`; the prefilter
/// writes it to the push constant as a single float.
#[derive(Debug, Clone, Copy, PartialEq, Eq, Structural)]
pub struct Roughness {
    pub num: u32,
    pub den: u32,
}

impl Roughness {
    /// A fraction that lies in [0, 1].
    pub open spec fn wf(self) -> bool {
        self.num <= self.den && self.den >= 1
    }
}

/// The roughness baked into mip level `mip` of a prefiltered cube with
/// `mips` levels: `mip / (mips - 1)`.
pub open spec fn spec_roughness_for_mip(mip: u32, mips: u32) -> Roughness {
    Roughness { num: mip, den: (mips - 1) as u32 }
}

pub fn roughness_for_mip(mip: u32, mips: u32) -> (r: Roughness)
    requires
        mips >= 2,
        mip < mips,
    ensures
        r == spec_roughness_for_mip(mip, mips),
        r.wf(),
        r.num == mip,
        r.den == mips - 1,
{
    Roughness { num: mip, den: mips - 1 }
}

/// The base mip level is filtered with roughness zero.
pub proof fn lemma_roughness_zero_at_base(mips: u32)
    requires
        mips >= 2,
    ensures
        spec_roughness_for_mip(0, mips).num == 0,
{
}

/// The coarsest mip level is filtered with roughness one.
pub proof fn lemma_roughness_one_at_last(mips: u32)
    requires
        mips >= 2,
    ensures
        spec_roughness_for_mip((mips - 1) as u32, mips).num == spec_roughness_for_mip(
            (mips - 1) as u32,
            mips,
        ).den,
{
}

/// Roughness strictly increases with the mip level: compared as fractions,
/// `mip1 / (mips-1) < mip2 / (mips-1)` whenever `mip1 < mip2`.
pub proof fn lemma_roughness_monotone(mip1: u32, mip2: u32, mips: u32)
    requires
        mips >= 2,
        mip1 < mip2,
        mip2 < mips,
    ensures
        spec_roughness_for_mip(mip1, mips).num * spec_roughness_for_mip(mip2, mips).den
            < spec_roughness_for_mip(mip2, mips).num * spec_roughness_for_mip(mip1, mips).den,
{
    let d = (mips - 1) as int;
    assert(mip1 * d < mip2 * d) by (nonlinear_arith)
        requires
            mip1 < mip2,
            d >= 1,
    ;
}

/// Successive mip levels are evenly spaced in roughness: each step raises the
/// numerator by exactly one over the shared denominator `mips - 1`.
pub proof fn lemma_roughness_evenly_spaced(mip: u32, mips: u32)
    requires
        mips >= 2,
        mip + 1 < mips,
    ensures
        spec_roughness_for_mip((mip + 1) as u32, mips).den == spec_roughness_for_mip(mip, mips).den,
        spec_roughness_for_mip((mip + 1) as u32, mips).num - spec_roughness_for_mip(mip, mips).num
            == 1,
{
}

} // verus!
