//! Identification of compressed-container formats from their leading magic
//! bytes, together with a portable three-level compression-quality selector
//! that maps onto each backend codec's native tuning scale.

mod detect;
mod format;
mod quality;

pub use detect::what_format;
pub use detect::DetectError;
pub use detect::REQUIRED_PREFIX_LEN;
pub use format::Format;
pub use quality::Quality;
