//! Capture with video and audio over one channel, in frames that name their formats by ffmpeg
//! ids.
//!
//! Video frames are handed over tightly packed, as `width * height * 4` bytes. Frames have no
//! timestamps, and there is no cap on the frame rate.

pub mod config;
pub mod dummy;
pub mod linux;
pub mod macos;
pub mod windows;
