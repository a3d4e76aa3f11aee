//! The frames that flow over the channels, and the traits encoders consume.

use crate::format::{PixFmt, SampleFmt};
use vstd::prelude::*;

verus! {

/// What a video frame must expose for an encoder to consume it.
pub trait VFrame {
    /// The frame's bytes.
    spec fn spec_data(&self) -> Seq<u8>;

    /// The frame's width and height.
    spec fn spec_size(&self) -> (u32, u32);

    /// The frame's pixel format.
    spec fn spec_pix_fmt(&self) -> PixFmt;

    /// The frame's timestamp.
    spec fn spec_ts(&self) -> u64;

    /// The frame's bytes.
    fn data(&self) -> (data: &[u8])
        ensures
            data@ == self.spec_data(),
    ;

    /// (Width, Height) of the frame.
    fn size(&self) -> (size: (u32, u32))
        ensures
            size == self.spec_size(),
    ;

    /// Pixel format of the frame.
    fn pix_fmt(&self) -> (pix_fmt: PixFmt)
        ensures
            pix_fmt == self.spec_pix_fmt(),
    ;

    /// When the frame was captured, in nanoseconds on a monotonic platform clock.
    ///
    /// The origin is platform defined and meaningless on its own, so subtract the first
    /// timestamp of the session. Video and audio of one session share the clock.
    fn ts(&self) -> (ts: u64)
        ensures
            ts == self.spec_ts(),
    ;
}

/// What an audio frame must expose for an encoder to consume it.
pub trait AFrame {
    /// The frame's bytes.
    spec fn spec_data(&self) -> Seq<u8>;

    /// Samples per channel.
    spec fn spec_nb_samples(&self) -> i32;

    /// Samples per second.
    spec fn spec_sample_rate(&self) -> i32;

    /// Channels.
    spec fn spec_nb_channels(&self) -> i32;

    /// The frame's sample format.
    spec fn spec_sample_fmt(&self) -> SampleFmt;

    /// The frame's timestamp.
    spec fn spec_ts(&self) -> u64;

    /// The frame's bytes.
    fn data(&self) -> (data: &[u8])
        ensures
            data@ == self.spec_data(),
    ;

    /// Number of samples **per channel**.
    fn nb_samples(&self) -> (nb_samples: i32)
        ensures
            nb_samples == self.spec_nb_samples(),
    ;

    /// Sample rate of the frame.
    fn sample_rate(&self) -> (sample_rate: i32)
        ensures
            sample_rate == self.spec_sample_rate(),
    ;

    /// Number of channels.
    fn nb_channels(&self) -> (nb_channels: i32)
        ensures
            nb_channels == self.spec_nb_channels(),
    ;

    /// Sample format of the frame.
    fn sample_fmt(&self) -> (sample_fmt: SampleFmt)
        ensures
            sample_fmt == self.spec_sample_fmt(),
    ;

    /// When the frame was captured, see [`VFrame::ts`].
    fn ts(&self) -> (ts: u64)
        ensures
            ts == self.spec_ts(),
    ;
}

/// When the video frame was captured, if there is one.
pub open spec fn video_ts(frame: Option<VideoFrame>) -> Option<u64> {
    match frame {
        Some(frame) => Some(frame.ts),
        None => None,
    }
}

/// When the audio frame was captured, if there is one.
pub open spec fn audio_ts(frame: Option<AudioFrame>) -> Option<u64> {
    match frame {
        Some(frame) => Some(frame.ts),
        None => None,
    }
}

/// Owned video frame.
pub struct VideoFrame {
    /// Video data
    pub vframe: Vec<u8>,
    /// (Width, Height) of the video frame
    pub size: (u32, u32),
    /// Pixel format of the video frame
    pub pix_fmt: PixFmt,
    /// Capture timestamp, see [`VFrame::ts`]
    pub ts: u64,
}

impl VideoFrame {
    /// Whether the frame holds its pixels and nothing else: as many bytes for each as its format
    /// takes, without padding.
    pub open spec fn tight(&self) -> bool {
        self.vframe@.len() == self.size.0 * self.size.1 * self.pix_fmt.pixel_bytes()
    }

    /// The frame as it is shown for debugging: the number of bytes stands for the bytes.
    pub fn debug(&self) -> (shown: VideoFrameDebug)
        ensures
            shown == (VideoFrameDebug {
                vframe: self.vframe.len(),
                size: self.size,
                pix_fmt: self.pix_fmt,
                ts: self.ts,
            }),
    {
        VideoFrameDebug {
            vframe: self.vframe.len(),
            size: self.size,
            pix_fmt: self.pix_fmt,
            ts: self.ts,
        }
    }
}

impl Clone for VideoFrame {
    fn clone(&self) -> (copy: Self)
        ensures
            copy.vframe@ == self.vframe@,
            copy.size == self.size,
            copy.pix_fmt == self.pix_fmt,
            copy.ts == self.ts,
    {
        let vframe = self.vframe.clone();
        assert(vframe@ =~= self.vframe@);
        VideoFrame {
            vframe,
            size: (self.size.0, self.size.1),
            pix_fmt: self.pix_fmt,
            ts: self.ts,
        }
    }
}

impl AsRef<[u8]> for VideoFrame {
    fn as_ref(&self) -> (data: &[u8])
        ensures
            data@ == self.vframe@,
    {
        self.vframe.as_slice()
    }
}

/// What a [`VideoFrame`] shows of itself for debugging.
#[derive(Debug, Clone, Copy, PartialEq, Eq)]
pub struct VideoFrameDebug {
    /// Number of bytes of video data
    pub vframe: usize,
    /// (Width, Height) of the video frame
    pub size: (u32, u32),
    /// Pixel format of the video frame
    pub pix_fmt: PixFmt,
    /// Capture timestamp
    pub ts: u64,
}

impl VFrame for VideoFrame {
    open spec fn spec_data(&self) -> Seq<u8> {
        self.vframe@
    }

    open spec fn spec_size(&self) -> (u32, u32) {
        self.size
    }

    open spec fn spec_pix_fmt(&self) -> PixFmt {
        self.pix_fmt
    }

    open spec fn spec_ts(&self) -> u64 {
        self.ts
    }

    fn data(&self) -> (data: &[u8]) {
        self.vframe.as_slice()
    }

    fn size(&self) -> (size: (u32, u32)) {
        (self.size.0, self.size.1)
    }

    fn pix_fmt(&self) -> (pix_fmt: PixFmt) {
        self.pix_fmt
    }

    fn ts(&self) -> (ts: u64) {
        self.ts
    }
}

/// Owned audio frame.
pub struct AudioFrame {
    /// Audio data
    pub aframe: Vec<u8>,
    /// Number of audio samples **per channel**
    pub nb_samples: i32,
    /// Sample rate of the audio
    pub sample_rate: i32,
    /// Number of audio channels
    pub nb_channels: i32,
    /// Sample format of the audio frame
    pub sample_fmt: SampleFmt,
    /// Capture timestamp, see [`AFrame::ts`]
    pub ts: u64,
}

impl AudioFrame {
    /// The frame as it is shown for debugging: the number of bytes stands for the bytes.
    pub fn debug(&self) -> (shown: AudioFrameDebug)
        ensures
            shown == (AudioFrameDebug {
                aframe: self.aframe.len(),
                nb_samples: self.nb_samples,
                sample_rate: self.sample_rate,
                nb_channels: self.nb_channels,
                sample_fmt: self.sample_fmt,
                ts: self.ts,
            }),
    {
        AudioFrameDebug {
            aframe: self.aframe.len(),
            nb_samples: self.nb_samples,
            sample_rate: self.sample_rate,
            nb_channels: self.nb_channels,
            sample_fmt: self.sample_fmt,
            ts: self.ts,
        }
    }
}

impl Clone for AudioFrame {
    fn clone(&self) -> (copy: Self)
        ensures
            copy.aframe@ == self.aframe@,
            copy.nb_samples == self.nb_samples,
            copy.sample_rate == self.sample_rate,
            copy.nb_channels == self.nb_channels,
            copy.sample_fmt == self.sample_fmt,
            copy.ts == self.ts,
    {
        let aframe = self.aframe.clone();
        assert(aframe@ =~= self.aframe@);
        AudioFrame {
            aframe,
            nb_samples: self.nb_samples,
            sample_rate: self.sample_rate,
            nb_channels: self.nb_channels,
            sample_fmt: self.sample_fmt,
            ts: self.ts,
        }
    }
}

impl AsRef<[u8]> for AudioFrame {
    fn as_ref(&self) -> (data: &[u8])
        ensures
            data@ == self.aframe@,
    {
        self.aframe.as_slice()
    }
}

/// What an [`AudioFrame`] shows of itself for debugging.
#[derive(Debug, Clone, Copy, PartialEq, Eq)]
pub struct AudioFrameDebug {
    /// Number of bytes of audio data
    pub aframe: usize,
    /// Number of audio samples **per channel**
    pub nb_samples: i32,
    /// Sample rate of the audio
    pub sample_rate: i32,
    /// Number of audio channels
    pub nb_channels: i32,
    /// Sample format of the audio frame
    pub sample_fmt: SampleFmt,
    /// Capture timestamp
    pub ts: u64,
}

impl AFrame for AudioFrame {
    open spec fn spec_data(&self) -> Seq<u8> {
        self.aframe@
    }

    open spec fn spec_nb_samples(&self) -> i32 {
        self.nb_samples
    }

    open spec fn spec_sample_rate(&self) -> i32 {
        self.sample_rate
    }

    open spec fn spec_nb_channels(&self) -> i32 {
        self.nb_channels
    }

    open spec fn spec_sample_fmt(&self) -> SampleFmt {
        self.sample_fmt
    }

    open spec fn spec_ts(&self) -> u64 {
        self.ts
    }

    fn data(&self) -> (data: &[u8]) {
        self.aframe.as_slice()
    }

    fn nb_samples(&self) -> (nb_samples: i32) {
        self.nb_samples
    }

    fn sample_rate(&self) -> (sample_rate: i32) {
        self.sample_rate
    }

    fn nb_channels(&self) -> (nb_channels: i32) {
        self.nb_channels
    }

    fn sample_fmt(&self) -> (sample_fmt: SampleFmt) {
        self.sample_fmt
    }

    fn ts(&self) -> (ts: u64) {
        self.ts
    }
}

/// What encoders read of a video frame is what the frame holds.
pub proof fn law_video_frames_read_as_they_are(
    frame: &VideoFrame,
    data: &[u8],
    size: (u32, u32),
    pix_fmt: PixFmt,
    ts: u64,
)
    requires
        call_ensures(<VideoFrame as VFrame>::data, (frame,), data),
        call_ensures(<VideoFrame as VFrame>::size, (frame,), size),
        call_ensures(<VideoFrame as VFrame>::pix_fmt, (frame,), pix_fmt),
        call_ensures(<VideoFrame as VFrame>::ts, (frame,), ts),
    ensures
        data@ == frame.vframe@,
        size == frame.size,
        pix_fmt == frame.pix_fmt,
        ts == frame.ts,
{
}

/// What encoders read of an audio frame is what the frame holds.
pub proof fn law_audio_frames_read_as_they_are(
    frame: &AudioFrame,
    data: &[u8],
    nb_samples: i32,
    sample_rate: i32,
    nb_channels: i32,
    sample_fmt: SampleFmt,
    ts: u64,
)
    requires
        call_ensures(<AudioFrame as AFrame>::data, (frame,), data),
        call_ensures(<AudioFrame as AFrame>::nb_samples, (frame,), nb_samples),
        call_ensures(<AudioFrame as AFrame>::sample_rate, (frame,), sample_rate),
        call_ensures(<AudioFrame as AFrame>::nb_channels, (frame,), nb_channels),
        call_ensures(<AudioFrame as AFrame>::sample_fmt, (frame,), sample_fmt),
        call_ensures(<AudioFrame as AFrame>::ts, (frame,), ts),
    ensures
        data@ == frame.aframe@,
        nb_samples == frame.nb_samples,
        sample_rate == frame.sample_rate,
        nb_channels == frame.nb_channels,
        sample_fmt == frame.sample_fmt,
        ts == frame.ts,
{
}

/// A frame without padding has 4 bytes for each of its pixels.
pub proof fn law_tight_frames(frame: VideoFrame)
    ensures
        frame.tight() <==> frame.vframe@.len() == frame.size.0 * frame.size.1 * 4,
{
}

/// A copy of a frame holds what the frame holds.
pub proof fn law_frames_copy_as_they_are(
    video: &VideoFrame,
    video_copy: VideoFrame,
    audio: &AudioFrame,
    audio_copy: AudioFrame,
)
    requires
        call_ensures(<VideoFrame as Clone>::clone, (video,), video_copy),
        call_ensures(<AudioFrame as Clone>::clone, (audio,), audio_copy),
    ensures
        video_copy.vframe@ == video.vframe@,
        video_copy.size == video.size,
        video_copy.pix_fmt == video.pix_fmt,
        video_copy.ts == video.ts,
        audio_copy.aframe@ == audio.aframe@,
        audio_copy.nb_samples == audio.nb_samples,
        audio_copy.sample_rate == audio.sample_rate,
        audio_copy.nb_channels == audio.nb_channels,
        audio_copy.sample_fmt == audio.sample_fmt,
        audio_copy.ts == audio.ts,
{
}

/// What frames show of themselves is how many bytes they hold, and the rest as it is.
pub proof fn law_frames_show_themselves(
    video: &VideoFrame,
    shown: VideoFrameDebug,
    audio: &AudioFrame,
    told: AudioFrameDebug,
)
    requires
        call_ensures(VideoFrame::debug, (video,), shown),
        call_ensures(AudioFrame::debug, (audio,), told),
    ensures
        shown.vframe == video.vframe@.len(),
        shown.size == video.size,
        shown.pix_fmt == video.pix_fmt,
        shown.ts == video.ts,
        told.aframe == audio.aframe@.len(),
        told.nb_samples == audio.nb_samples,
        told.sample_rate == audio.sample_rate,
        told.nb_channels == audio.nb_channels,
        told.sample_fmt == audio.sample_fmt,
        told.ts == audio.ts,
{
}

} // verus!
