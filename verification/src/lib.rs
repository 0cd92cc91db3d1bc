//! Core of a desktop picture viewer: pixel-buffer normalization, a
//! multi-codec decode chain with graceful fallback, EXIF-orientation
//! resolution, an aspect-preserving rotation transform, and directory-based
//! sequential navigation.

pub mod codecs;
pub mod image_loading;
pub mod image_saving;
pub mod paths;
pub mod rotation;
pub mod state;
