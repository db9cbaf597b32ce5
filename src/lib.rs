//! Turns one square source image into a fixed set of resized icons.

pub mod preset;
pub mod raster;
pub mod favicon;

pub use favicon::{Action, Event, Favicon, FaviconError, OutputFile};
pub use preset::{Format, Preset, PresetId, Bundle};
