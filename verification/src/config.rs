//! Capture configuration.

use crate::error::CaptureError;
use vstd::prelude::*;

verus! {

/// Configuration for the capture process.
#[derive(Debug)]
pub struct CaptureConfig {
    /// The config for video
    pub video: VideoConfig,
    /// The config for audio
    pub audio: Option<AudioConfig>,
}

impl CaptureConfig {
    /// Whether a channel is asked for that could not hold a single frame.
    pub open spec fn has_empty_channel(&self) -> bool {
        ||| self.video.channel_capacity == 0
        ||| self.audio is Some && self.audio->0.channel_capacity == 0
    }

    /// Check the configuration before anything is set up for it.
    pub fn validate(&self) -> (checked: Result<(), CaptureError>)
        ensures
            checked == if self.has_empty_channel() {
                Err::<(), CaptureError>(CaptureError::ZeroChannelCapacity)
            } else {
                Ok(())
            },
    {
        if self.video.channel_capacity == 0 {
            return Err(CaptureError::ZeroChannelCapacity);
        }
        if let Some(audio) = &self.audio {
            if audio.channel_capacity == 0 {
                return Err(CaptureError::ZeroChannelCapacity);
            }
        }
        Ok(())
    }
}

/// Configuration for the capture video.
#[derive(Debug)]
pub struct VideoConfig {
    /// Capacity of the channel carrying video frames.
    ///
    /// Video and audio get a channel each: a frame is orders of magnitude larger than an
    /// audio buffer, and dropping one is cheap where dropping audio is not.
    pub channel_capacity: usize,
    /// The window id to hide from capture:
    /// - Windows: HWND
    /// - macOS: NSView ptr. Hiding is done on the main thread, so that thread must be
    ///   running its loop if the capture is created from anywhere else.
    /// - Linux: unsupported, a non-empty list is [`CaptureError::Unsupported`]. Neither
    ///   Wayland nor X11 lets a client opt a window out of a screencast.
    ///
    /// [`CaptureError::Unsupported`]: crate::error::CaptureError::Unsupported
    pub hide: Vec<isize>,
    /// The target to capture.
    ///
    /// Everything is supported everywhere except where noted:
    /// - Linux: the XDG portal picker always makes the final choice, so `Primary` and
    ///   `Monitor` only restrict it to monitors (the index is *not* honoured), and
    ///   `Window`/`WindowName` are [`CaptureError::Unsupported`].
    /// - `Pick` and `PickFrom` block until the user chooses, so on Windows and macOS they must
    ///   not be used from the thread driving the UI.
    ///
    /// [`CaptureError::Unsupported`]: crate::error::CaptureError::Unsupported
    pub target: Target,
    /// Cap on delivered frames per second, `None` to leave the source uncapped.
    ///
    /// A cap, not a target: it cannot raise a rate the machine cannot sustain. The
    /// platform's own knob is set where there is one, and frames that still arrive too
    /// fast are dropped before being copied out of the capture buffer.
    pub fps: Option<u32>,
}

/// Configuration for the capture audio.
#[derive(Debug)]
pub struct AudioConfig {
    /// Capacity of the channel carrying audio frames.
    ///
    /// Worth setting far deeper than the video one: audio frames are small, and a gap is an
    /// audible artefact rather than a frame the encoder can stretch over.
    pub channel_capacity: usize,
}

/// Capture target.
#[derive(Debug, PartialEq, Eq)]
pub enum Target {
    /// Capture the primary monitor.
    Primary,
    /// Capture a specific monitor by its index.
    Monitor(isize),
    /// Capture a specific window by its window id:
    /// - Windows: `HWND`
    /// - macOS: `CGWindowID`
    /// - Linux: unsupported, [`CaptureError::Unsupported`]
    ///
    /// [`CaptureError::Unsupported`]: crate::error::CaptureError::Unsupported
    Window(isize),
    /// Capture the first visible window whose title matches the given regex.
    WindowName(String),
    /// Let the user choose with the system picker, where it needs no window to be presented
    /// from: macOS (14.0 or newer) and Linux.
    Pick,
    /// Let the user choose with the system picker of Windows, presented from the given `HWND`;
    /// it has to be a window this process owns.
    PickFrom(isize),
}

impl Clone for Target {
    fn clone(&self) -> (copy: Self)
        ensures
            copy == *self,
    {
        match self {
            Target::Primary => Target::Primary,
            Target::Monitor(index) => Target::Monitor(*index),
            Target::Window(id) => Target::Window(*id),
            Target::WindowName(pattern) => Target::WindowName(pattern.clone()),
            Target::Pick => Target::Pick,
            Target::PickFrom(parent) => Target::PickFrom(*parent),
        }
    }
}

/// A configuration is refused exactly where one of its channels could hold nothing.
pub proof fn law_empty_channels_are_refused(
    config: &CaptureConfig,
    checked: Result<(), CaptureError>,
)
    requires
        call_ensures(CaptureConfig::validate, (config,), checked),
    ensures
        checked is Ok <==> config.video.channel_capacity > 0 && (config.audio is Some
            ==> config.audio->0.channel_capacity > 0),
        checked is Err ==> checked->Err_0 is ZeroChannelCapacity,
{
}

/// A copy of a target is the same target.
pub proof fn law_targets_copy_as_they_are(target: &Target, copy: Target)
    requires
        call_ensures(<Target as Clone>::clone, (target,), copy),
    ensures
        copy == *target,
{
}

} // verus!
