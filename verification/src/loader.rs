use crate::decode::{decode_rgba32f, decoded_panorama};
use crate::error::LoadSkyboxError;
use crate::plan::{bake_plan, bake_schedule, spec_bake_plan, spec_bake_schedule, BakePlan, DrawCall};
use vstd::prelude::*;

verus! {

/// A decoded equirectangular panorama: its dimensions and its RGBA samples,
/// each sample the bit pattern of one 32-bit float channel. It is staged to
/// the GPU once and discarded after the bake.
pub struct SourceImage {
    pub width: u32,
    pub height: u32,
    pub samples: Vec<u32>,
}

impl SourceImage {
    /// Four channel samples per pixel.
    pub open spec fn wf(self) -> bool {
        self.samples@.len() == 4 * self.width * self.height
    }
}

/// Everything the background thread needs to record one bake: the staged
/// source, the sizes of the three target cubes, and the draw schedule.
pub struct Bake {
    pub source: SourceImage,
    pub plan: BakePlan,
    pub schedule: Vec<DrawCall>,
}

impl Bake {
    pub open spec fn wf(self) -> bool {
        &&& self.source.wf()
        &&& self.plan.wf()
        &&& self.plan == spec_bake_plan(self.source.width)
        &&& self.schedule@ == spec_bake_schedule(self.plan)
    }
}


/// What a successful load of `bytes` looks like: the decoded 2:1 source,
/// its plan, and the full draw schedule.
pub open spec fn spec_loaded(bytes: Seq<u8>, bake: Bake) -> bool {
    let t = decoded_panorama(bytes)->0;
    &&& decoded_panorama(bytes) is Some
    &&& bake.source.width == t.0
    &&& bake.source.height == t.1
    &&& bake.source.samples@ == t.2
    &&& bake.source.width == 2 * bake.source.height
    &&& bake.plan == spec_bake_plan(bake.source.width)
    &&& bake.schedule@ == spec_bake_schedule(bake.plan)
}

/// Decodes a panorama and prepares its bake. Bytes that decode to a 2:1
/// image yield the full recording; anything else fails before any GPU work:
/// undecodable bytes with `DecodeError`, a decodable image of any other
/// shape with `WrongAspectRatio`.
pub fn load(bytes: &Vec<u8>) -> (r: Result<Bake, LoadSkyboxError>)
    ensures
        decoded_panorama(bytes@) is None <==> r == Err::<Bake, _>(LoadSkyboxError::DecodeError),
        decoded_panorama(bytes@) matches Some(t) ==> {
            &&& (t.0 == 2 * t.1 <==> r is Ok)
            &&& (t.0 != 2 * t.1 ==> r == Err::<Bake, _>(LoadSkyboxError::WrongAspectRatio))
        },
        r matches Ok(bake) ==> {
            &&& spec_loaded(bytes@, bake)
            &&& decoded_panorama(bytes@) matches Some(t) && bake.source.width == t.0
                && bake.source.height == t.1 && bake.source.samples@ == t.2
            &&& bake.source.wf()
            &&& bake.plan == spec_bake_plan(bake.source.width)
            &&& bake.schedule@ == spec_bake_schedule(bake.plan)
            &&& bake.source.width >= 4 ==> bake.wf()
        },
{
    let (width, height, samples) = match decode_rgba32f(bytes) {
        Ok(t) => t,
        Err(_) => {
            return Err(LoadSkyboxError::DecodeError);
        },
    };
    let plan = match bake_plan(width, height) {
        Ok(p) => p,
        Err(e) => {
            return Err(e);
        },
    };
    let schedule = bake_schedule(&plan);
    Ok(Bake { source: SourceImage { width, height, samples }, plan, schedule })
}

/// Baking the same source twice produces identical recordings: two loads
/// of the same bytes agree on every source sample, on the plan, and on
/// every draw of the schedule. Nothing random enters a bake, so repeated
/// bakes of one panorama are pixel-identical.
pub proof fn lemma_load_deterministic(bytes: Seq<u8>, b1: Bake, b2: Bake)
    requires
        spec_loaded(bytes, b1),
        spec_loaded(bytes, b2),
    ensures
        b1.source.width == b2.source.width,
        b1.source.height == b2.source.height,
        b1.source.samples@ == b2.source.samples@,
        b1.plan == b2.plan,
        b1.schedule@ == b2.schedule@,
{
}

} // verus!
