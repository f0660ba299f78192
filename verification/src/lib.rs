//! Image-based-lighting precomputation: converting an equirectangular HDR
//! panorama into filtered cubemaps (mirror, diffuse-irradiance, and
//! roughness-prefiltered specular), together with the asynchronous job
//! protocol that performs the bake off the render thread.

pub mod brdf;
pub mod decode;
pub mod error;
pub mod faces;
pub mod images;
pub mod job;
pub mod loader;
pub mod material;
pub mod mesh;
pub mod plan;
pub mod prefilter;
pub mod sampling;

pub use error::LoadSkyboxError;
