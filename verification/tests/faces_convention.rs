use skybox::faces::{face_forward, face_of_direction, texel_direction, FaceCameraSet, IVec3};

#[test]
fn camera_set_has_six_fixed_cameras() {
    let set = FaceCameraSet::new();
    let expected_forward = [
        (1, 0, 0),
        (-1, 0, 0),
        (0, 1, 0),
        (0, -1, 0),
        (0, 0, 1),
        (0, 0, -1),
    ];
    let expected_up = [
        (0, -1, 0),
        (0, -1, 0),
        (0, 0, 1),
        (0, 0, -1),
        (0, -1, 0),
        (0, -1, 0),
    ];
    for f in 0..6u32 {
        let cam = set.camera(f);
        let (x, y, z) = expected_forward[f as usize];
        assert_eq!(cam.forward, IVec3 { x, y, z });
        let (x, y, z) = expected_up[f as usize];
        assert_eq!(cam.up, IVec3 { x, y, z });
    }
}

#[test]
fn forward_axis_samples_its_own_face() {
    for f in 0..6u32 {
        let (face, _, _, ma) = face_of_direction(face_forward(f));
        assert_eq!(face, f);
        assert_eq!(ma, 1);
    }
}

/// Render a test image whose color is the face index, then sample it back
/// through the cube convention: every texel must return its own face's
/// color, at its own coordinates.
#[test]
fn per_face_test_image_round_trips() {
    let size = 4u32;
    for f in 0..6u32 {
        for y in 0..size {
            for x in 0..size {
                let d = texel_direction(f, x, y, size);
                let (face, sc, tc, ma) = face_of_direction(d);
                assert_eq!(face, f, "face color mixed up at ({x},{y})");
                assert_eq!(ma, size as i64);
                assert_eq!((sc + ma - 1) / 2, x as i64);
                assert_eq!((tc + ma - 1) / 2, y as i64);
            }
        }
    }
}

#[test]
fn single_texel_face_points_down_the_axis() {
    for f in 0..6u32 {
        let d = texel_direction(f, 0, 0, 1);
        let w = face_forward(f);
        assert_eq!(d, w);
    }
}
