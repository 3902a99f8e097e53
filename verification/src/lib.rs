//! Error-diffusion dithering of 8-bit RGB and grayscale images down to a few
//! bits per channel, for displays such as e-paper panels.

pub mod algorithm;
pub mod buffer;
pub mod engine;
pub mod error;
pub mod loader;
pub mod resource;

pub use algorithm::{DiffusionKernel, DitherAlgorithm, KernelModel, KernelTap};
pub use buffer::{PixelBuffer, Plane};
pub use engine::{check_depth, dither};
pub use error::{Error, LoadFailure};
pub use loader::{begin_load, load_error};
pub use resource::{ImageResource, PixelFormat, Raster};
