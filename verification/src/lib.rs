//! A screen capture library for Windows, macOS and Linux.
//!
//! The library holds what a capture decides and computes, as functions on plain values whose
//! contracts are proved: which frames a cap on the frame rate lets through ([`fps`]), how frames
//! lose their padding ([`util`]), what a configuration asks of each platform, how a capture is
//! set up and taken down again, and how the buffers of each platform become frames ([`linux`],
//! [`macos`], [`windows`]). The calls into the platforms themselves are left to the caller.

pub mod config;
pub mod dummy;
pub mod error;
pub mod format;
pub mod fps;
pub mod frame;
pub mod linux;
pub mod macos;
pub mod muxed;
pub mod pattern;
pub mod scrframe;
pub mod text;
pub mod util;
pub mod windows;

pub use config::{AudioConfig, CaptureConfig, Target, VideoConfig};
pub use format::{PixFmt, SampleFmt};
pub use frame::{AudioFrame, VideoFrame};
