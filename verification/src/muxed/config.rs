//! Capture configuration

use crate::config::Target;
use vstd::prelude::*;

verus! {

/// Configuration for the capture process.
#[derive(Debug)]
pub struct CaptureConfig {
    /// The capacity of the channel for the frames.
    pub channel_capacity: usize,
    /// The config for video
    pub video: VideoConfig,
    /// The config for audio
    pub audio: Option<AudioConfig>,
}

/// Configuration for the capture video.
#[derive(Debug)]
pub struct VideoConfig {
    /// The window id to hide from capture:
    /// - Windows: HWND
    /// - macOS: NSView ptr
    /// - Linux: unsupported
    pub hide: Vec<isize>,
    /// The target to capture.
    ///
    /// - Linux: omitted, the user always picks
    /// - macOS: only the primary monitor
    /// - Windows: all but `WindowName` and the pickers
    pub target: Target,
}

/// Configuration for the capture audio.
#[derive(Debug)]
pub struct AudioConfig {}

/// The ffmpeg id of the pixel format that every frame has, AV_PIX_FMT_BGRA.
pub const PIX_FMT_BGRA: i32 = 28;

/// The ffmpeg id of interleaved 32 bit float samples, AV_SAMPLE_FMT_FLT.
pub const SAMPLE_FMT_FLT: i32 = 3;

/// The ffmpeg id of planar 32 bit float samples, AV_SAMPLE_FMT_FLTP.
pub const SAMPLE_FMT_FLTP: i32 = 8;

/// The ids are those of [`PixFmt`](crate::format::PixFmt) and
/// [`SampleFmt`](crate::format::SampleFmt).
pub proof fn law_ids_name_formats()
    ensures
        PIX_FMT_BGRA == crate::format::PixFmt::Bgra.ffmpeg_id(),
        SAMPLE_FMT_FLT == crate::format::SampleFmt::F32.ffmpeg_id(),
        SAMPLE_FMT_FLTP == crate::format::SampleFmt::F32P.ffmpeg_id(),
{
}

} // verus!
