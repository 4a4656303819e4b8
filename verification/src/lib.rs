//! Verified core of a binding to LibRaw, the library that reads and develops
//! camera RAW files: error codes, output parameters, metadata records,
//! in-memory images and the order of the calls behind the high-level
//! operations.
pub mod callbacks;
pub mod context;
pub mod error;
pub mod high_level;
pub mod image;
pub mod metadata;
pub mod params;
pub mod process;
pub mod utils;

pub use callbacks::ProgressAction;
pub use error::{Error, Result};
pub use high_level::{Action, Pipeline, Step};
pub use image::{ImageType, ProcessedImage};
pub use metadata::{ImageInfo, ImageOther, ImageSizes, LensInfo};
pub use params::{HighlightMode, OutputColor, OutputParams};
