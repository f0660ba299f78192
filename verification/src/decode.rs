use vstd::prelude::*;

verus! {

#[verifier::external_type_specification]
#[verifier::external_body]
pub struct ExImageError(image::ImageError);

/// What the image decoder makes of a byte buffer: `None` when the bytes are
/// no decodable image, otherwise the width, height and RGBA samples, each
/// sample the bit pattern of one 32-bit float channel, rows top to bottom.
/// Decoding is a function of the bytes alone.
pub uninterp spec fn decoded_panorama(bytes: Seq<u8>) -> Option<(u32, u32, Seq<u32>)>;

/// Relies on image::load_from_memory, which guesses the format and decodes,
/// and on image::DynamicImage::to_rgba32f, which converts the decoded image
/// to four 32-bit float channels per pixel, so the buffer holds exactly
/// `4 * width * height` samples.
#[verifier::external_body]
pub(crate) fn decode_rgba32f(bytes: &Vec<u8>) -> (r: Result<(u32, u32, Vec<u32>), image::ImageError>)
    ensures
        r is Ok <==> decoded_panorama(bytes@) is Some,
        r matches Ok(t) ==> Some((t.0, t.1, t.2@)) == decoded_panorama(bytes@) && t.2@.len() == 4
            * t.0 * t.1,
{
    let img = match image::load_from_memory(bytes.as_slice()) {
        Ok(img) => img.to_rgba32f(),
        Err(e) => return Err(e),
    };
    let (width, height) = (img.width(), img.height());
    let samples = img.into_raw().into_iter().map(|s| s.to_bits()).collect();
    Ok((width, height, samples))
}

} // verus!
