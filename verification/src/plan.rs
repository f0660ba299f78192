use crate::error::LoadSkyboxError;
use crate::images::{spec_mip_extent, CubeImageDesc};
use crate::prefilter::{spec_roughness_for_mip, Roughness};
use vstd::arithmetic::div_mod::{lemma_fundamental_div_mod, lemma_fundamental_div_mod_converse, lemma_mod_bound};
use vstd::prelude::*;

verus! {

/// Edge length of the diffuse-irradiance cube; the convolution result is low
/// frequency, so a small target suffices.
pub const IRRADIANCE_SIZE: u32 = 8;

/// Edge length of mip zero of the roughness-prefiltered specular cube. The
/// shading pipeline expects exactly this size.
pub const SPECULAR_SIZE: u32 = 512;

/// Number of mip levels of the specular cube, one per roughness step.
pub const SPECULAR_MIPS: u32 = 5;

/// Which fragment stage a bake draw runs; all three share the same cube
/// geometry and face cameras, the prefilter additionally carries its
/// per-level roughness push constant.
#[derive(Debug, Clone, Copy, PartialEq, Eq, Structural)]
pub enum PassKind {
    EquirectToCube,
    IrradianceConvolution,
    SpecularPrefilter { roughness: Roughness },
}

/// One recorded draw of a bake: the pass to bind, the cube face and mip
/// level of the sub-resource view it writes, and the viewport extent.
#[derive(Debug, Clone, Copy, PartialEq, Eq, Structural)]
pub struct DrawCall {
    pub pass: PassKind,
    pub face: u32,
    pub mip: u32,
    pub extent: u32,
}

/// The three cube images one bake creates: the mirror copy of the panorama,
/// its diffuse-irradiance convolution, and the specular prefilter chain.
#[derive(Debug, Clone, Copy, PartialEq, Eq, Structural)]
pub struct BakePlan {
    pub raw: CubeImageDesc,
    pub irradiance: CubeImageDesc,
    pub specular: CubeImageDesc,
}

impl BakePlan {
    /// All three images are non-degenerate and the specular chain has one
    /// roughness step per level boundary.
    pub open spec fn wf(self) -> bool {
        &&& self.raw.wf()
        &&& self.irradiance.wf()
        &&& self.specular.wf()
        &&& self.specular.mips >= 2
    }
}

/// The plan for a panorama of the given width: the raw cube face spans a
/// quarter of the panorama's width, the other two targets are fixed.
pub open spec fn spec_bake_plan(width: u32) -> BakePlan {
    BakePlan {
        raw: CubeImageDesc { size: width / 4, mips: 1 },
        irradiance: CubeImageDesc { size: IRRADIANCE_SIZE, mips: 1 },
        specular: CubeImageDesc { size: SPECULAR_SIZE, mips: SPECULAR_MIPS },
    }
}

/// Sizes the bake targets for a decoded panorama, rejecting any source that
/// is not an exact 2:1 equirectangular image.
pub fn bake_plan(width: u32, height: u32) -> (r: Result<BakePlan, LoadSkyboxError>)
    ensures
        r is Ok <==> width == 2 * height,
        r is Ok ==> r->Ok_0 == spec_bake_plan(width),
        r is Err ==> r->Err_0 == LoadSkyboxError::WrongAspectRatio,
        width == 2 * height && width >= 4 ==> r->Ok_0.wf(),
{
    if height > 0x7fff_ffff || width != 2 * height {
        return Err(LoadSkyboxError::WrongAspectRatio);
    }
    Ok(
        BakePlan {
            raw: CubeImageDesc { size: width / 4, mips: 1 },
            irradiance: CubeImageDesc { size: IRRADIANCE_SIZE, mips: 1 },
            specular: CubeImageDesc { size: SPECULAR_SIZE, mips: SPECULAR_MIPS },
        },
    )
}

/// Draw `k` of a bake: six equirect-to-cube draws, then six convolution
/// draws, then the prefilter draws grouped by mip level in face order.
pub open spec fn spec_draw_at(plan: BakePlan, k: int) -> DrawCall {
    if k < 6 {
        DrawCall { pass: PassKind::EquirectToCube, face: k as u32, mip: 0, extent: plan.raw.size }
    } else if k < 12 {
        DrawCall {
            pass: PassKind::IrradianceConvolution,
            face: (k - 6) as u32,
            mip: 0,
            extent: plan.irradiance.size,
        }
    } else {
        let mip = ((k - 12) / 6) as u32;
        let face = ((k - 12) % 6) as u32;
        DrawCall {
            pass: PassKind::SpecularPrefilter {
                roughness: spec_roughness_for_mip(mip, plan.specular.mips),
            },
            face,
            mip,
            extent: spec_mip_extent(plan.specular.size, mip),
        }
    }
}

/// The full command recording of one bake, in submission order.
pub open spec fn spec_bake_schedule(plan: BakePlan) -> Seq<DrawCall> {
    Seq::new((12 + plan.specular.mips * 6) as nat, |k: int| spec_draw_at(plan, k))
}

/// Records the draws of one bake in the order the loader submits them.
pub fn bake_schedule(plan: &BakePlan) -> (r: Vec<DrawCall>)
    requires
        plan.specular.mips >= 2,
        plan.specular.mips <= 0x100_0000,
    ensures
        r@ == spec_bake_schedule(*plan),
        r@.len() == 12 + plan.specular.mips * 6,
{
    let mut r: Vec<DrawCall> = Vec::new();
    let ghost sched = spec_bake_schedule(*plan);
    let mut face: u32 = 0;
    while face < 6
        invariant
            face <= 6,
            r@.len() == face,
            forall|j: int| 0 <= j < face ==> r@[j] == sched[j],
            sched == spec_bake_schedule(*plan),
        decreases 6 - face,
    {
        r.push(DrawCall { pass: PassKind::EquirectToCube, face, mip: 0, extent: plan.raw.size });
        face = face + 1;
    }
    let mut face: u32 = 0;
    while face < 6
        invariant
            face <= 6,
            r@.len() == 6 + face,
            forall|j: int| 0 <= j < 6 + face ==> r@[j] == sched[j],
            sched == spec_bake_schedule(*plan),
        decreases 6 - face,
    {
        r.push(
            DrawCall {
                pass: PassKind::IrradianceConvolution,
                face,
                mip: 0,
                extent: plan.irradiance.size,
            },
        );
        face = face + 1;
    }
    let mut mip: u32 = 0;
    while mip < plan.specular.mips
        invariant
            plan.specular.mips >= 2,
            plan.specular.mips <= 0x100_0000,
            mip <= plan.specular.mips,
            r@.len() == 12 + mip * 6,
            forall|j: int| 0 <= j < 12 + mip * 6 ==> r@[j] == sched[j],
            sched == spec_bake_schedule(*plan),
        decreases plan.specular.mips - mip,
    {
        let roughness = crate::prefilter::roughness_for_mip(mip, plan.specular.mips);
        let extent = plan.specular.mip_extent(mip);
        let mut face: u32 = 0;
        while face < 6
            invariant
                plan.specular.mips >= 2,
                plan.specular.mips <= 0x100_0000,
                mip < plan.specular.mips,
                face <= 6,
                roughness == spec_roughness_for_mip(mip, plan.specular.mips),
                extent == spec_mip_extent(plan.specular.size, mip),
                r@.len() == 12 + mip * 6 + face,
                forall|j: int| 0 <= j < 12 + mip * 6 + face ==> r@[j] == sched[j],
                sched == spec_bake_schedule(*plan),
            decreases 6 - face,
        {
            r.push(
                DrawCall {
                    pass: PassKind::SpecularPrefilter { roughness },
                    face,
                    mip,
                    extent,
                },
            );
            proof {
                let k = 12 + mip * 6 + face;
                lemma_fundamental_div_mod_converse(k - 12, 6, mip as int, face as int);
                assert(r@[k as int] == sched[k as int]);
            }
            face = face + 1;
        }
        mip = mip + 1;
    }
    proof {
        assert(r@ =~= sched);
    }
    r
}

/// Baking the same source twice issues identical plans and, draw for draw,
/// identical schedules: the recording contains no randomness, so repeated
/// bakes of one panorama are pixel-identical.
pub proof fn lemma_bake_deterministic(width: u32, p1: BakePlan, p2: BakePlan)
    requires
        p1 == spec_bake_plan(width),
        p2 == spec_bake_plan(width),
    ensures
        p1 == p2,
        spec_bake_schedule(p1) == spec_bake_schedule(p2),
{
}

/// The sub-resource draw `k` writes: the target image (0 the raw cube, 1
/// the irradiance cube, 2 the specular cube), its face and its mip level.
pub open spec fn spec_draw_target(plan: BakePlan, k: int) -> (int, u32, u32) {
    let d = spec_draw_at(plan, k);
    let image = if d.pass is EquirectToCube {
        0int
    } else if d.pass is IrradianceConvolution {
        1int
    } else {
        2int
    };
    (image, d.face, d.mip)
}

/// One bake writes every sub-resource at most once: two distinct draws of
/// a schedule never address the same face and mip of the same image, so
/// the passes may be recorded back to back without a write hazard.
pub proof fn lemma_schedule_writes_each_target_once(plan: BakePlan, k1: int, k2: int)
    requires
        0 <= k1 < k2 < spec_bake_schedule(plan).len(),
    ensures
        spec_draw_target(plan, k1) != spec_draw_target(plan, k2),
{
    if 12 <= k1 {
        lemma_fundamental_div_mod(k1 - 12, 6);
        lemma_fundamental_div_mod(k2 - 12, 6);
        lemma_mod_bound(k1 - 12, 6);
        lemma_mod_bound(k2 - 12, 6);
        let q1 = (k1 - 12) / 6;
        let q2 = (k2 - 12) / 6;
        assert(q1 <= (k1 - 12) && q2 <= (k2 - 12)) by (nonlinear_arith)
            requires
                0 <= k1 - 12 == 6 * q1 + (k1 - 12) % 6,
                0 <= k2 - 12 == 6 * q2 + (k2 - 12) % 6,
                0 <= (k1 - 12) % 6 < 6,
                0 <= (k2 - 12) % 6 < 6,
        ;
        assert(q1 < 0x1_0000_0000 && q2 < 0x1_0000_0000) by {
            assert(spec_bake_schedule(plan).len() == 12 + plan.specular.mips * 6);
        }
    }
}

/// Every face and mip of each of the three images is written by some draw:
/// the six equirect draws fill the raw cube, the six convolution draws the
/// irradiance cube, and draw `12 + 6 * mip + face` the specular chain.
pub proof fn lemma_schedule_covers_every_target(plan: BakePlan, image: int, face: u32, mip: u32)
    requires
        0 <= image < 3,
        face < 6,
        image == 0 ==> mip < plan.raw.mips == 1,
        image == 1 ==> mip < plan.irradiance.mips == 1,
        image == 2 ==> mip < plan.specular.mips,
    ensures
        exists|k: int|
            0 <= k < spec_bake_schedule(plan).len() && spec_draw_target(plan, k) == (
                image,
                face,
                mip,
            ),
{
    if image == 0 {
        assert(spec_draw_target(plan, face as int) == (image, face, mip));
    } else if image == 1 {
        assert(spec_draw_target(plan, face as int + 6) == (image, face, mip));
    } else {
        let k = 12 + 6 * (mip as int) + face as int;
        lemma_fundamental_div_mod_converse(k - 12, 6, mip as int, face as int);
        assert(k < spec_bake_schedule(plan).len()) by (nonlinear_arith)
            requires
                mip < plan.specular.mips,
                face < 6,
                k == 12 + 6 * (mip as int) + face as int,
                spec_bake_schedule(plan).len() == 12 + plan.specular.mips * 6,
        ;
        assert(spec_draw_target(plan, k) == (image, face, mip));
    }
}

/// An accepted 2:1 panorama always bakes to the documented targets: a raw
/// cube a quarter of the panorama's width (half its height) with a single
/// level, the 8-texel irradiance cube with a single level, and the
/// 512-texel specular cube with five levels.
pub proof fn lemma_accepted_plan_sizes(width: u32, height: u32)
    requires
        width == 2 * height,
    ensures
        spec_bake_plan(width).raw == (CubeImageDesc { size: (width / 4) as u32, mips: 1u32 }),
        spec_bake_plan(width).raw.size == height / 2,
        spec_bake_plan(width).irradiance == (CubeImageDesc { size: 8u32, mips: 1u32 }),
        spec_bake_plan(width).specular == (CubeImageDesc { size: 512u32, mips: 5u32 }),
{
    assert((2 * (height as int)) / 4 == (height as int) / 2) by (nonlinear_arith);
}

} // verus!
