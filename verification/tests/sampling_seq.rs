use skybox::brdf::generate_lut;
use skybox::sampling::{hammersley, radical_inverse_vdc, SAMPLE_COUNT};

#[test]
fn radical_inverse_known_values() {
    assert_eq!(radical_inverse_vdc(0), 0);
    assert_eq!(radical_inverse_vdc(1), 0x8000_0000);
    assert_eq!(radical_inverse_vdc(2), 0x4000_0000);
    assert_eq!(radical_inverse_vdc(3), 0xc000_0000);
    assert_eq!(radical_inverse_vdc(4), 0x2000_0000);
    assert_eq!(radical_inverse_vdc(0xffff_ffff), 0xffff_ffff);
}

#[test]
fn radical_inverse_is_an_involution() {
    for i in [0u32, 1, 2, 3, 17, 1023, 0x1234_5678, u32::MAX] {
        assert_eq!(radical_inverse_vdc(radical_inverse_vdc(i)), i);
    }
}

#[test]
fn hammersley_points_are_exact() {
    let p = hammersley(0, SAMPLE_COUNT);
    assert_eq!((p.x_num, p.y_num), (0, 0));
    let p = hammersley(1, SAMPLE_COUNT);
    assert_eq!((p.x_num, p.y_num), (1, 0x8000_0000));
    let p = hammersley(512, SAMPLE_COUNT);
    assert_eq!((p.x_num, p.y_num), (512, 0x0040_0000));
}

#[test]
fn lut_schedule_is_the_full_sequence() {
    let lut = generate_lut();
    assert_eq!(lut.len(), 1024);
    for (i, p) in lut.iter().enumerate() {
        assert_eq!(p.x_num, i as u32);
        assert_eq!(p.y_num, radical_inverse_vdc(i as u32));
    }
}

#[test]
fn lut_schedule_is_deterministic() {
    assert_eq!(generate_lut(), generate_lut());
}

#[test]
fn hammersley_points_are_distinct() {
    let lut = generate_lut();
    for i in 1..lut.len() {
        assert_ne!(lut[i - 1], lut[i]);
        assert_ne!(lut[0], lut[i]);
    }
}
