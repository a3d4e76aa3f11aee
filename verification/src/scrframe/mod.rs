//! Frames for encoders that name formats by their ffmpeg ids.

use vstd::prelude::*;

pub mod aframe;
pub mod frame;
pub mod vframe;

pub use aframe::{AFrame, AFrameRef};
pub use vframe::{RealTimeVFrame, RealTimeVFrameRef, VFrame, VFrameRef};

verus! {

/// Represents a single frame of captured data.
#[derive(Debug)]
pub enum Frame {
    /// Video frame
    Video {
        /// Video data
        vframe: Vec<u8>,
        /// (Width, Height) of the video frame
        size: (u32, u32),
        /// Pixel format id of the video frame in ffmpeg
        /// (e.g., AV_PIX_FMT_BGRA is 28)
        pix_fmt: i32,
    },
    /// Audio frame
    Audio {
        /// Audio data
        aframe: Vec<u8>,
        /// Number of audio samples **per channel**
        nb_samples: i32,
        /// Sample rate of the audio
        sample_rate: i32,
        /// Number of audio channels
        nb_channels: i32,
        /// Sample format id of the audio frame in ffmpeg
        /// (e.g., AV_SAMPLE_FMT_FLTP is 8)
        sample_fmt: i32,
    },
}

impl Frame {
    /// The frame's bytes, of either kind.
    pub open spec fn spec_data(&self) -> Seq<u8> {
        match *self {
            Frame::Video { vframe, .. } => vframe@,
            Frame::Audio { aframe, .. } => aframe@,
        }
    }

    /// Whether two frames are of the same kind and agree in everything but perhaps where their
    /// bytes are kept.
    pub open spec fn same(&self, other: &Frame) -> bool {
        &&& self.spec_data() == other.spec_data()
        &&& match (*self, *other) {
            (
                Frame::Video { size, pix_fmt, .. },
                Frame::Video { size: other_size, pix_fmt: other_pix_fmt, .. },
            ) => size == other_size && pix_fmt == other_pix_fmt,
            (
                Frame::Audio { nb_samples, sample_rate, nb_channels, sample_fmt, .. },
                Frame::Audio {
                    nb_samples: other_nb_samples,
                    sample_rate: other_sample_rate,
                    nb_channels: other_nb_channels,
                    sample_fmt: other_sample_fmt,
                    ..
                },
            ) => {
                &&& nb_samples == other_nb_samples
                &&& sample_rate == other_sample_rate
                &&& nb_channels == other_nb_channels
                &&& sample_fmt == other_sample_fmt
            },
            _ => false,
        }
    }
}

impl Clone for Frame {
    fn clone(&self) -> (copy: Self)
        ensures
            copy.same(self),
    {
        match self {
            Frame::Video { vframe, size, pix_fmt } => {
                let data = vframe.clone();
                assert(data@ =~= vframe@);
                Frame::Video { vframe: data, size: (size.0, size.1), pix_fmt: *pix_fmt }
            },
            Frame::Audio { aframe, nb_samples, sample_rate, nb_channels, sample_fmt } => {
                let data = aframe.clone();
                assert(data@ =~= aframe@);
                Frame::Audio {
                    aframe: data,
                    nb_samples: *nb_samples,
                    sample_rate: *sample_rate,
                    nb_channels: *nb_channels,
                    sample_fmt: *sample_fmt,
                }
            },
        }
    }
}

impl AsRef<[u8]> for Frame {
    fn as_ref(&self) -> (data: &[u8])
        ensures
            data@ == self.spec_data(),
    {
        match self {
            Frame::Video { vframe, .. } => vframe.as_slice(),
            Frame::Audio { aframe, .. } => aframe.as_slice(),
        }
    }
}

/// The bytes of a frame are those it holds, and a copy holds all that the frame does.
pub proof fn law_frames_copy_as_they_are(frame: &Frame, copy: Frame)
    requires
        call_ensures(<Frame as Clone>::clone, (frame,), copy),
    ensures
        match *frame {
            Frame::Video { vframe, size, pix_fmt } => {
                &&& frame.spec_data() == vframe@
                &&& copy is Video
                &&& copy->vframe@ == vframe@
                &&& copy->size == size
                &&& copy->pix_fmt == pix_fmt
            },
            Frame::Audio { aframe, nb_samples, sample_rate, nb_channels, sample_fmt } => {
                &&& frame.spec_data() == aframe@
                &&& copy is Audio
                &&& copy->aframe@ == aframe@
                &&& copy->nb_samples == nb_samples
                &&& copy->sample_rate == sample_rate
                &&& copy->nb_channels == nb_channels
                &&& copy->sample_fmt == sample_fmt
            },
        },
{
}

} // verus!
