//! Wallpaper service: errors, color extraction planning and the cycling timer.
pub mod color_extractor;
pub mod error;
pub mod timer;
