use crate::sampling::{hammersley, spec_hammersley, HammersleyPoint, SAMPLE_COUNT};
use vstd::prelude::*;

verus! {

/// Produces the sample schedule of the BRDF lookup-table integration: the
/// full Hammersley sequence the integrator walks for every `(n_dot_v,
/// roughness)` cell. The schedule is scene-independent and deterministic,
/// so the table is computed at most once per process and shared by every
/// bake; the analytic Smith-geometry integration itself runs with the
/// renderer, one pass over these points per cell.
pub fn generate_lut() -> (r: Vec<HammersleyPoint>)
    ensures
        r@.len() == SAMPLE_COUNT,
        forall|i: int| 0 <= i < SAMPLE_COUNT ==> r@[i] == spec_hammersley(i as u32, SAMPLE_COUNT),
{
    let mut r: Vec<HammersleyPoint> = Vec::new();
    let mut i: u32 = 0;
    while i < SAMPLE_COUNT
        invariant
            i <= SAMPLE_COUNT,
            r@.len() == i,
            forall|j: int| 0 <= j < i ==> r@[j] == spec_hammersley(j as u32, SAMPLE_COUNT),
        decreases SAMPLE_COUNT - i,
    {
        r.push(hammersley(i, SAMPLE_COUNT));
        i = i + 1;
    }
    r
}

} // verus!
