//! frame traits

use vstd::prelude::*;

verus! {

/// What a video frame must expose for an encoder to consume it.
pub trait VFrame {
    /// The frame's bytes.
    spec fn spec_data(&self) -> Seq<u8>;

    /// The frame's width and height.
    spec fn spec_size(&self) -> (u32, u32);

    /// The frame's pixel format id.
    spec fn spec_pix_fmt(&self) -> i32;

    /// The frame's time in ms, where frames of its kind were first asked for theirs `elapsed` ms
    /// ago.
    spec fn spec_ts(&self, elapsed: u128) -> Option<u128>;

    /// The frame's bytes.
    fn data(&self) -> (data: &[u8])
        ensures
            data@ == self.spec_data(),
    ;

    /// (Width, Height) of the frame.
    fn size(&self) -> (size: (u32, u32))
        ensures
            size == self.spec_size(),
    ;

    /// Returns the pixel format as an i32 ID in ffmpeg.
    ///
    /// https://docs.rs/rsmpeg/latest/rsmpeg/?search=AV_PIX_FMT
    fn pix_fmt(&self) -> (pix_fmt: i32)
        ensures
            pix_fmt == self.spec_pix_fmt(),
    ;

    /// If `Some(ts)`(in ms) returned, the inner ts will be used to compute pts,
    /// and then, the pts will be used to replace the one in encoder.
    ///
    /// The pts computed from the first ts will be used as an offset to make pts start at 0.
    /// `elapsed` is the time in ms since frames of this kind were first asked for theirs.
    fn ts(&self, elapsed: u128) -> (ts: Option<u128>)
        ensures
            ts == self.spec_ts(elapsed),
    ;
}

/// What an audio frame must expose for an encoder to consume it.
pub trait AFrame {
    /// The frame's bytes.
    spec fn spec_data(&self) -> Seq<u8>;

    /// Samples per channel.
    spec fn spec_nb_samples(&self) -> i32;

    /// Samples per second.
    spec fn spec_sample_rate(&self) -> i32;

    /// Channels.
    spec fn spec_nb_channels(&self) -> i32;

    /// The frame's sample format id.
    spec fn spec_sample_fmt(&self) -> i32;

    /// The frame's bytes.
    fn data(&self) -> (data: &[u8])
        ensures
            data@ == self.spec_data(),
    ;

    /// Number of samples **per channel**.
    fn nb_samples(&self) -> (nb_samples: i32)
        ensures
            nb_samples == self.spec_nb_samples(),
    ;

    /// Sample rate of the frame.
    fn sample_rate(&self) -> (sample_rate: i32)
        ensures
            sample_rate == self.spec_sample_rate(),
    ;

    /// Number of channels.
    fn nb_channels(&self) -> (nb_channels: i32)
        ensures
            nb_channels == self.spec_nb_channels(),
    ;

    /// Returns the sample format as an i32 ID in ffmpeg.
    fn sample_fmt(&self) -> (sample_fmt: i32)
        ensures
            sample_fmt == self.spec_sample_fmt(),
    ;
}

} // verus!
