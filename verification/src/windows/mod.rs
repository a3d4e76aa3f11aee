//! Screen capture on Windows: Windows.Graphics.Capture for the picture, WASAPI for the sound.

pub mod audio;
pub mod capture;
pub mod utils;
