//! Screenshot testing for graphical applications.
//!
//! A screenshot test captures a region of a rendered scene through a
//! [`ScreenshotCaptor`], loads a stored reference image through a
//! [`ScreenshotIo`], and compares the two pixel for pixel. On a mismatch, or
//! when no reference exists, diagnostic images (the actual screenshot, the
//! expected one, and a diff isolating the differing pixels) are handed back to
//! the [`ScreenshotIo`] for persistence.
//!
//! The comparison, the diff construction, and the orchestration of capture,
//! reference load, comparison and artifact persistence all live here, stated
//! and proved as contracts. The capture and storage mechanisms themselves
//! (reading a hardware framebuffer, reading and writing image files) come in
//! through the two port traits; a companion crate supplies an OpenGL-backed
//! captor and a filesystem-backed storage adapter built on the path layout of
//! [`FsScreenshotIo`].

pub mod engine;
pub mod errors;
pub mod orchestrator;
pub mod ports;
pub mod raster;

pub use engine::compare_screenshot_images;
pub use engine::diff_images;
pub use errors::IoError;
pub use errors::ScreenshotError;
pub use errors::XrayError;
pub use orchestrator::gl_screenshot_test;
pub use orchestrator::screenshot_test;
pub use ports::FsScreenshotIo;
pub use ports::ScreenshotCaptor;
pub use ports::ScreenshotIo;
pub use raster::Image;
pub use raster::Pixel;
