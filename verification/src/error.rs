use vstd::prelude::*;

verus! {

/// The ways a skybox load can fail. Both are detected before any GPU work is
/// recorded, so a failed load never leaves partially built resources behind.
#[derive(Debug, Clone, Copy, PartialEq, Eq, Structural)]
pub enum LoadSkyboxError {
    /// The source bytes could not be decoded as an image.
    DecodeError,
    /// The decoded panorama is not twice as wide as it is tall.
    WrongAspectRatio,
}

impl LoadSkyboxError {
    /// A human-readable description of the failure.
    pub fn message(&self) -> (r: String)
        ensures
            *self is DecodeError ==> r@ == "failed to decode equirectangular image"@,
            *self is WrongAspectRatio ==> r@ == "equirectangular image must be 2:1"@,
    {
        match self {
            LoadSkyboxError::DecodeError => "failed to decode equirectangular image".to_string(),
            LoadSkyboxError::WrongAspectRatio => "equirectangular image must be 2:1".to_string(),
        }
    }
}

} // verus!
