use skybox::images::CubeImageDesc;
use skybox::prefilter::roughness_for_mip;

#[test]
fn mip_extents_halve_and_clamp() {
    let desc = CubeImageDesc::new(512, 5);
    assert_eq!(desc.mip_extent(0), 512);
    assert_eq!(desc.mip_extent(1), 256);
    assert_eq!(desc.mip_extent(4), 32);
    let tiny = CubeImageDesc::new(2, 4);
    assert_eq!(tiny.mip_extent(0), 2);
    assert_eq!(tiny.mip_extent(1), 1);
    assert_eq!(tiny.mip_extent(2), 1);
    assert_eq!(tiny.mip_extent(3), 1);
}

#[test]
fn view_indices_are_distinct_per_face_and_mip() {
    let desc = CubeImageDesc::new(512, 5);
    let mut seen = Vec::new();
    for mip in 0..5 {
        for face in 0..6 {
            let idx = desc.view_index(face, mip);
            assert!(!seen.contains(&idx));
            seen.push(idx);
        }
    }
    assert_eq!(seen.len(), 30);
}

#[test]
fn roughness_rises_evenly_from_zero_to_one() {
    let steps: Vec<_> = (0..5).map(|m| roughness_for_mip(m, 5)).collect();
    assert_eq!(steps[0].num, 0);
    assert_eq!(steps[4].num, steps[4].den);
    for w in steps.windows(2) {
        assert_eq!(w[1].den, w[0].den);
        assert_eq!(w[1].num - w[0].num, 1);
    }
}
