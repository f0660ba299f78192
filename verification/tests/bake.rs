use skybox::error::LoadSkyboxError;
use skybox::loader::load;
use skybox::plan::{bake_plan, bake_schedule, PassKind};

fn png_bytes(width: u32, height: u32, rgba: [u8; 4]) -> Vec<u8> {
    let mut img = image::RgbaImage::new(width, height);
    for p in img.pixels_mut() {
        *p = image::Rgba(rgba);
    }
    let mut bytes = std::io::Cursor::new(Vec::new());
    img.write_to(&mut bytes, image::ImageFormat::Png).unwrap();
    bytes.into_inner()
}

#[test]
fn plan_sizes_for_accepted_panorama() {
    let plan = bake_plan(4096, 2048).unwrap();
    assert_eq!(plan.raw.size, 1024);
    assert_eq!(plan.raw.mips, 1);
    assert_eq!(plan.irradiance.size, 8);
    assert_eq!(plan.irradiance.mips, 1);
    assert_eq!(plan.specular.size, 512);
    assert_eq!(plan.specular.mips, 5);
}

#[test]
fn plan_rejects_wrong_aspect() {
    assert!(matches!(bake_plan(4096, 2047), Err(LoadSkyboxError::WrongAspectRatio)));
    assert!(matches!(bake_plan(100, 100), Err(LoadSkyboxError::WrongAspectRatio)));
    assert!(matches!(bake_plan(0, 1), Err(LoadSkyboxError::WrongAspectRatio)));
}

#[test]
fn schedule_records_all_passes_in_order() {
    let plan = bake_plan(4096, 2048).unwrap();
    let schedule = bake_schedule(&plan);
    assert_eq!(schedule.len(), 42);
    for (k, draw) in schedule.iter().enumerate() {
        if k < 6 {
            assert!(matches!(draw.pass, PassKind::EquirectToCube));
            assert_eq!(draw.face, k as u32);
            assert_eq!(draw.mip, 0);
            assert_eq!(draw.extent, 1024);
        } else if k < 12 {
            assert!(matches!(draw.pass, PassKind::IrradianceConvolution));
            assert_eq!(draw.face, (k - 6) as u32);
            assert_eq!(draw.extent, 8);
        } else {
            let mip = ((k - 12) / 6) as u32;
            assert_eq!(draw.face, ((k - 12) % 6) as u32);
            assert_eq!(draw.mip, mip);
            assert_eq!(draw.extent, 512 >> mip);
            match draw.pass {
                PassKind::SpecularPrefilter { roughness } => {
                    assert_eq!(roughness.num, mip);
                    assert_eq!(roughness.den, 4);
                }
                _ => panic!("expected a prefilter draw"),
            }
        }
    }
}

#[test]
fn prefilter_extents_halve_to_the_last_mip() {
    let plan = bake_plan(4096, 2048).unwrap();
    let extents: Vec<u32> = bake_schedule(&plan)[12..]
        .iter()
        .filter(|d| d.face == 0)
        .map(|d| d.extent)
        .collect();
    assert_eq!(extents, vec![512, 256, 128, 64, 32]);
}

#[test]
fn load_accepts_two_to_one_panorama() {
    let bytes = png_bytes(4, 2, [255, 255, 255, 255]);
    let bake = load(&bytes).unwrap();
    assert_eq!(bake.source.width, 4);
    assert_eq!(bake.source.height, 2);
    assert_eq!(bake.source.samples.len(), 32);
    assert_eq!(bake.plan.raw.size, 1);
    assert_eq!(bake.schedule.len(), 42);
}

#[test]
fn load_decodes_the_actual_pixels() {
    let bytes = png_bytes(8, 4, [255, 0, 0, 255]);
    let bake = load(&bytes).unwrap();
    assert_eq!(bake.source.samples.len(), 4 * 8 * 4);
    // Opaque red in 8-bit sRGB decodes to the float bit patterns of
    // (1.0, 0.0, 0.0, 1.0) per pixel.
    assert_eq!(bake.source.samples[0], 1.0f32.to_bits());
    assert_eq!(bake.source.samples[1], 0.0f32.to_bits());
    assert_eq!(bake.source.samples[2], 0.0f32.to_bits());
    assert_eq!(bake.source.samples[3], 1.0f32.to_bits());
}

#[test]
fn load_rejects_wrong_aspect_after_decode() {
    let bytes = png_bytes(4, 3, [0, 0, 0, 255]);
    assert!(matches!(load(&bytes), Err(LoadSkyboxError::WrongAspectRatio)));
}

#[test]
fn load_rejects_undecodable_bytes() {
    let bytes = vec![1, 2, 3, 4, 5];
    assert!(matches!(load(&bytes), Err(LoadSkyboxError::DecodeError)));
    assert!(matches!(load(&Vec::new()), Err(LoadSkyboxError::DecodeError)));
}

#[test]
fn error_messages_name_the_failure() {
    assert_eq!(
        LoadSkyboxError::WrongAspectRatio.message(),
        "equirectangular image must be 2:1"
    );
    assert_eq!(
        LoadSkyboxError::DecodeError.message(),
        "failed to decode equirectangular image"
    );
}

#[test]
fn schedule_writes_each_subresource_once() {
    let plan = bake_plan(4096, 2048).unwrap();
    let schedule = bake_schedule(&plan);
    let mut targets = Vec::new();
    for draw in &schedule {
        let image = match draw.pass {
            PassKind::EquirectToCube => 0,
            PassKind::IrradianceConvolution => 1,
            PassKind::SpecularPrefilter { .. } => 2,
        };
        let target = (image, draw.face, draw.mip);
        assert!(!targets.contains(&target), "duplicate write to {target:?}");
        targets.push(target);
    }
    // 6 raw faces + 6 irradiance faces + 6 * 5 specular sub-resources.
    assert_eq!(targets.len(), 42);
}
