//! Headless screen capture through the kernel's mode-setting interface.
//!
//! The crate decodes raw framebuffer scanlines into canonical RGBA images,
//! decides which physical outputs are actively displaying, and drives a
//! capture attempt as a step-by-step session whose device interactions are
//! performed by the embedding program.

pub mod assemble;
pub mod backend;
pub mod capture;
pub mod error;
pub mod pixel_format;
pub mod probe;
