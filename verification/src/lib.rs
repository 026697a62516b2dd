//! Verified image effect processing: fixed per-pixel filters over in-memory
//! rasters, with exact contracts for every transform the library computes.

pub mod effect;
pub mod raster;
pub mod transform;

pub use effect::Applied;
pub use effect::EffectOutput;
pub use effect::ImageEffect;
pub use effect::ProcessError;
pub use effect::apply_effect;
pub use effect::resolve_effect;
pub use raster::LumaRaster;
pub use raster::Raster;
pub use transform::apply_grayscale;
pub use transform::apply_invert;
pub use transform::apply_sepia;
pub use transform::edge_map_to_rgb;
pub use transform::gray_to_rgb;
