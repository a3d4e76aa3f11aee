//! Audio frames.

use crate::scrframe::frame;
use vstd::prelude::*;

verus! {

/// Audio frames
pub struct AFrame {
    /// Audio data
    pub aframe: Vec<u8>,
    /// Number of audio samples **per channel**
    pub nb_samples: i32,
    /// Sample rate of the audio
    pub sample_rate: i32,
    /// Number of audio channels
    pub nb_channels: i32,
    /// Sample format id of the audio frame in ffmpeg
    pub sample_fmt: i32,
}

/// What an [`AFrame`] shows of itself for debugging.
#[derive(Debug, Clone, Copy, PartialEq, Eq)]
pub struct AFrameDebug {
    /// Number of bytes of audio data
    pub aframe: usize,
    /// Number of audio samples **per channel**
    pub nb_samples: i32,
    /// Sample rate of the audio
    pub sample_rate: i32,
    /// Number of audio channels
    pub nb_channels: i32,
    /// Sample format id
    pub sample_fmt: i32,
}

impl AFrame {
    /// The frame as it is shown for debugging: the number of bytes stands for the bytes.
    pub fn debug(&self) -> (shown: AFrameDebug)
        ensures
            shown.aframe == self.aframe@.len(),
            shown.nb_samples == self.nb_samples,
            shown.sample_rate == self.sample_rate,
            shown.nb_channels == self.nb_channels,
            shown.sample_fmt == self.sample_fmt,
    {
        AFrameDebug {
            aframe: self.aframe.len(),
            nb_samples: self.nb_samples,
            sample_rate: self.sample_rate,
            nb_channels: self.nb_channels,
            sample_fmt: self.sample_fmt,
        }
    }
}

impl AsRef<[u8]> for AFrame {
    fn as_ref(&self) -> (data: &[u8])
        ensures
            data@ == self.aframe@,
    {
        self.aframe.as_slice()
    }
}

impl frame::AFrame for AFrame {
    open spec fn spec_data(&self) -> Seq<u8> {
        self.aframe@
    }

    open spec fn spec_nb_samples(&self) -> i32 {
        self.nb_samples
    }

    open spec fn spec_sample_rate(&self) -> i32 {
        self.sample_rate
    }

    open spec fn spec_nb_channels(&self) -> i32 {
        self.nb_channels
    }

    open spec fn spec_sample_fmt(&self) -> i32 {
        self.sample_fmt
    }

    fn data(&self) -> (data: &[u8]) {
        self.aframe.as_slice()
    }

    fn nb_samples(&self) -> (nb_samples: i32) {
        self.nb_samples
    }

    fn sample_rate(&self) -> (sample_rate: i32) {
        self.sample_rate
    }

    fn nb_channels(&self) -> (nb_channels: i32) {
        self.nb_channels
    }

    fn sample_fmt(&self) -> (sample_fmt: i32) {
        self.sample_fmt
    }
}

/// Borrowed audio frames
pub struct AFrameRef<'a> {
    /// Audio data
    pub aframe: &'a [u8],
    /// Number of audio samples **per channel**
    pub nb_samples: i32,
    /// Sample rate of the audio
    pub sample_rate: i32,
    /// Number of audio channels
    pub nb_channels: i32,
    /// Sample format id of the audio frame in ffmpeg
    pub sample_fmt: i32,
}

/// What an [`AFrameRef`] shows of itself for debugging.
#[derive(Debug, Clone, Copy, PartialEq, Eq)]
pub struct AFrameRefDebug {
    /// Number of bytes of audio data
    pub aframe: usize,
    /// Number of audio samples **per channel**
    pub nb_samples: i32,
    /// Sample rate of the audio
    pub sample_rate: i32,
    /// Number of audio channels
    pub nb_channels: i32,
    /// Sample format id
    pub sample_fmt: i32,
}

impl<'a> AFrameRef<'a> {
    /// The frame as it is shown for debugging: the number of bytes stands for the bytes.
    pub fn debug(&self) -> (shown: AFrameRefDebug)
        ensures
            shown.aframe == self.aframe@.len(),
            shown.nb_samples == self.nb_samples,
            shown.sample_rate == self.sample_rate,
            shown.nb_channels == self.nb_channels,
            shown.sample_fmt == self.sample_fmt,
    {
        AFrameRefDebug {
            aframe: self.aframe.len(),
            nb_samples: self.nb_samples,
            sample_rate: self.sample_rate,
            nb_channels: self.nb_channels,
            sample_fmt: self.sample_fmt,
        }
    }
}

impl<'a> AsRef<[u8]> for AFrameRef<'a> {
    fn as_ref(&self) -> (data: &[u8])
        ensures
            data@ == self.aframe@,
    {
        self.aframe
    }
}

impl<'a> frame::AFrame for AFrameRef<'a> {
    open spec fn spec_data(&self) -> Seq<u8> {
        self.aframe@
    }

    open spec fn spec_nb_samples(&self) -> i32 {
        self.nb_samples
    }

    open spec fn spec_sample_rate(&self) -> i32 {
        self.sample_rate
    }

    open spec fn spec_nb_channels(&self) -> i32 {
        self.nb_channels
    }

    open spec fn spec_sample_fmt(&self) -> i32 {
        self.sample_fmt
    }

    fn data(&self) -> (data: &[u8]) {
        self.aframe
    }

    fn nb_samples(&self) -> (nb_samples: i32) {
        self.nb_samples
    }

    fn sample_rate(&self) -> (sample_rate: i32) {
        self.sample_rate
    }

    fn nb_channels(&self) -> (nb_channels: i32) {
        self.nb_channels
    }

    fn sample_fmt(&self) -> (sample_fmt: i32) {
        self.sample_fmt
    }
}

/// What encoders read of an audio frame is what the frame holds.
pub proof fn law_frames_read_as_they_are(
    frame: &AFrame,
    data: &[u8],
    nb_samples: i32,
    sample_rate: i32,
    nb_channels: i32,
    sample_fmt: i32,
)
    requires
        call_ensures(<AFrame as frame::AFrame>::data, (frame,), data),
        call_ensures(<AFrame as frame::AFrame>::nb_samples, (frame,), nb_samples),
        call_ensures(<AFrame as frame::AFrame>::sample_rate, (frame,), sample_rate),
        call_ensures(<AFrame as frame::AFrame>::nb_channels, (frame,), nb_channels),
        call_ensures(<AFrame as frame::AFrame>::sample_fmt, (frame,), sample_fmt),
    ensures
        data@ == frame.aframe@,
        nb_samples == frame.nb_samples,
        sample_rate == frame.sample_rate,
        nb_channels == frame.nb_channels,
        sample_fmt == frame.sample_fmt,
{
}

/// What encoders read of a borrowed audio frame is what the frame holds.
pub proof fn law_borrowed_frames_read_as_they_are(
    frame: &AFrameRef,
    data: &[u8],
    nb_samples: i32,
    sample_rate: i32,
    nb_channels: i32,
    sample_fmt: i32,
)
    requires
        call_ensures(<AFrameRef as frame::AFrame>::data, (frame,), data),
        call_ensures(<AFrameRef as frame::AFrame>::nb_samples, (frame,), nb_samples),
        call_ensures(<AFrameRef as frame::AFrame>::sample_rate, (frame,), sample_rate),
        call_ensures(<AFrameRef as frame::AFrame>::nb_channels, (frame,), nb_channels),
        call_ensures(<AFrameRef as frame::AFrame>::sample_fmt, (frame,), sample_fmt),
    ensures
        data@ == frame.aframe@,
        nb_samples == frame.nb_samples,
        sample_rate == frame.sample_rate,
        nb_channels == frame.nb_channels,
        sample_fmt == frame.sample_fmt,
{
}

/// What frames show of themselves is how many bytes they hold, and the rest as it is.
pub proof fn law_frames_show_themselves(
    owned: &AFrame,
    shown: AFrameDebug,
    borrowed: &AFrameRef,
    told: AFrameRefDebug,
)
    requires
        call_ensures(AFrame::debug, (owned,), shown),
        call_ensures(AFrameRef::debug, (borrowed,), told),
    ensures
        shown.aframe == owned.aframe@.len(),
        shown.nb_samples == owned.nb_samples,
        shown.sample_rate == owned.sample_rate,
        shown.nb_channels == owned.nb_channels,
        shown.sample_fmt == owned.sample_fmt,
        told.aframe == borrowed.aframe@.len(),
        told.nb_samples == borrowed.nb_samples,
        told.sample_rate == borrowed.sample_rate,
        told.nb_channels == borrowed.nb_channels,
        told.sample_fmt == borrowed.sample_fmt,
{
}

} // verus!
