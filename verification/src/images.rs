use vstd::prelude::*;

verus! {

/// Description of a GPU cube image: six square array layers of `size`x`size`
/// texels with `mips` mip levels. The physical image is created by the
/// renderer; every pass addresses it through these two numbers.
#[derive(Debug, Clone, Copy, PartialEq, Eq, Structural)]
pub struct CubeImageDesc {
    pub size: u32,
    pub mips: u32,
}

/// The extent of mip level `mip` of a base extent `size`: halved at every
/// level and clamped at one texel.
pub open spec fn spec_mip_extent(size: u32, mip: u32) -> u32 {
    if (size >> mip) == 0 {
        1u32
    } else {
        size >> mip
    }
}

/// The linear index of the sub-resource view that a pass writing face `face`
/// at level `mip` renders into; faces of one level are stored together.
pub open spec fn spec_view_index(mips: u32, face: u32, mip: u32) -> int {
    mip * 6 + face
}

impl CubeImageDesc {
    /// A non-degenerate image: at least one texel and one level.
    pub open spec fn wf(self) -> bool {
        self.size >= 1 && self.mips >= 1
    }

    pub fn new(size: u32, mips: u32) -> (r: CubeImageDesc)
        requires
            size >= 1,
            mips >= 1,
        ensures
            r == (CubeImageDesc { size, mips }),
            r.wf(),
    {
        CubeImageDesc { size, mips }
    }

    /// The per-face render-target extent at level `mip`.
    pub fn mip_extent(&self, mip: u32) -> (r: u32)
        requires
            mip < self.mips,
        ensures
            r == spec_mip_extent(self.size, mip),
    {
        let shifted: u32 = if mip < 32 { self.size >> mip } else { 0 };
        proof {
            let size = self.size;
            assert(mip >= 32 ==> (size >> mip) == 0) by (bit_vector);
        }
        if shifted == 0 {
            1
        } else {
            shifted
        }
    }

    /// The linear index of the `(face, mip)` sub-resource view.
    pub fn view_index(&self, face: u32, mip: u32) -> (r: u32)
        requires
            face < 6,
            mip < self.mips,
            self.mips <= 0x1000_0000,
        ensures
            r == spec_view_index(self.mips, face, mip),
    {
        mip * 6 + face
    }
}

/// Mip level zero keeps the base extent.
pub proof fn lemma_mip_extent_base(size: u32)
    requires
        size >= 1,
    ensures
        spec_mip_extent(size, 0) == size,
{
    assert(size >> 0 == size) by (bit_vector);
}

/// Every mip extent is at least one texel.
pub proof fn lemma_mip_extent_positive(size: u32, mip: u32)
    ensures
        spec_mip_extent(size, mip) >= 1,
{
}

/// Extents never grow from one mip level to a finer-indexed one.
pub proof fn lemma_mip_extent_decreasing(size: u32, m1: u32, m2: u32)
    requires
        m1 <= m2,
    ensures
        spec_mip_extent(size, m1) >= spec_mip_extent(size, m2),
{
    assert(m1 <= m2 ==> (size >> m1) >= (size >> m2)) by (bit_vector);
}

/// Distinct `(face, mip)` pairs address distinct sub-resource views.
pub proof fn lemma_view_index_injective(mips: u32, f1: u32, m1: u32, f2: u32, m2: u32)
    requires
        f1 < 6,
        f2 < 6,
        m1 < mips,
        m2 < mips,
        spec_view_index(mips, f1, m1) == spec_view_index(mips, f2, m2),
    ensures
        f1 == f2,
        m1 == m2,
{
}

} // verus!
