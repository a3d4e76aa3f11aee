//! Pixel and sample formats.

use vstd::prelude::*;

verus! {

/// Pixel format of a video frame.
#[derive(Debug, Clone, Copy, PartialEq, Eq, Hash, Structural)]
#[non_exhaustive]
pub enum PixFmt {
    /// Packed BGRA, 8 bits per channel.
    Bgra,
    /// Packed RGBA, 8 bits per channel.
    Rgba,
    /// Packed ARGB, 8 bits per channel.
    Argb,
    /// Packed ABGR, 8 bits per channel.
    Abgr,
    /// Packed BGRX, 8 bits per channel, the 4th byte is undefined.
    Bgr0,
    /// Packed RGBX, 8 bits per channel, the 4th byte is undefined.
    Rgb0,
}

impl PixFmt {
    /// The ffmpeg `AVPixelFormat` id that stands for this format.
    pub open spec fn ffmpeg_id(self) -> i32 {
        match self {
            PixFmt::Argb => 25,
            PixFmt::Rgba => 26,
            PixFmt::Abgr => 27,
            PixFmt::Bgra => 28,
            PixFmt::Rgb0 => 119,
            PixFmt::Bgr0 => 121,
        }
    }

    /// Bytes one pixel occupies.
    pub open spec fn pixel_bytes(self) -> int {
        4
    }

    /// Bytes one pixel occupies.
    pub fn bytes_per_pixel(self) -> (bytes: usize)
        ensures
            bytes == self.pixel_bytes(),
    {
        match self {
            PixFmt::Bgra | PixFmt::Rgba | PixFmt::Argb | PixFmt::Abgr | PixFmt::Bgr0
            | PixFmt::Rgb0 => 4,
        }
    }

    /// The matching ffmpeg `AVPixelFormat` id.
    pub fn as_ffmpeg_id(self) -> (id: i32)
        ensures
            id == self.ffmpeg_id(),
    {
        match self {
            PixFmt::Argb => 25,
            PixFmt::Rgba => 26,
            PixFmt::Abgr => 27,
            PixFmt::Bgra => 28,
            PixFmt::Rgb0 => 119,
            PixFmt::Bgr0 => 121,
        }
    }

    /// The format an ffmpeg `AVPixelFormat` id denotes, if it is one of these.
    pub fn from_ffmpeg_id(id: i32) -> (fmt: Option<Self>)
        ensures
            match fmt {
                Some(fmt) => fmt.ffmpeg_id() == id,
                None => forall|other: PixFmt| #[trigger] other.ffmpeg_id() != id,
            },
    {
        match id {
            25 => Some(PixFmt::Argb),
            26 => Some(PixFmt::Rgba),
            27 => Some(PixFmt::Abgr),
            28 => Some(PixFmt::Bgra),
            119 => Some(PixFmt::Rgb0),
            121 => Some(PixFmt::Bgr0),
            _ => None,
        }
    }
}

/// No two pixel formats share an ffmpeg id.
pub proof fn law_pix_fmt_ids_distinct(a: PixFmt, b: PixFmt)
    ensures
        a.ffmpeg_id() == b.ffmpeg_id() <==> a == b,
{
}

/// The id of a pixel format denotes that format: whatever [`PixFmt::from_ffmpeg_id`] gives back
/// for it, it is the format.
pub proof fn law_pix_fmt_id_round_trip(fmt: PixFmt, back: Option<PixFmt>)
    requires
        call_ensures(PixFmt::from_ffmpeg_id, (fmt.ffmpeg_id(),), back),
    ensures
        back == Some(fmt),
{
    if back is Some {
        law_pix_fmt_ids_distinct(back->0, fmt);
    }
}

/// Sample format of an audio frame.
///
/// The `*P` variants are planar: one plane per channel, instead of channels interleaved.
#[derive(Debug, Clone, Copy, PartialEq, Eq, Hash, Structural)]
#[non_exhaustive]
pub enum SampleFmt {
    /// Unsigned 8 bits, interleaved.
    U8,
    /// Signed 16 bits, interleaved.
    S16,
    /// Signed 32 bits, interleaved.
    S32,
    /// 32 bit float, interleaved.
    F32,
    /// 64 bit float, interleaved.
    F64,
    /// Unsigned 8 bits, planar.
    U8P,
    /// Signed 16 bits, planar.
    S16P,
    /// Signed 32 bits, planar.
    S32P,
    /// 32 bit float, planar.
    F32P,
    /// 64 bit float, planar.
    F64P,
}

impl SampleFmt {
    /// The ffmpeg `AVSampleFormat` id that stands for this format.
    pub open spec fn ffmpeg_id(self) -> i32 {
        match self {
            SampleFmt::U8 => 0,
            SampleFmt::S16 => 1,
            SampleFmt::S32 => 2,
            SampleFmt::F32 => 3,
            SampleFmt::F64 => 4,
            SampleFmt::U8P => 5,
            SampleFmt::S16P => 6,
            SampleFmt::S32P => 7,
            SampleFmt::F32P => 8,
            SampleFmt::F64P => 9,
        }
    }

    /// Whether each channel has a plane of its own.
    pub open spec fn planar(self) -> bool {
        self is U8P || self is S16P || self is S32P || self is F32P || self is F64P
    }

    /// Bytes one sample of one channel takes.
    pub open spec fn sample_bytes(self) -> usize {
        match self {
            SampleFmt::U8 | SampleFmt::U8P => 1,
            SampleFmt::S16 | SampleFmt::S16P => 2,
            SampleFmt::S32 | SampleFmt::S32P | SampleFmt::F32 | SampleFmt::F32P => 4,
            SampleFmt::F64 | SampleFmt::F64P => 8,
        }
    }

    /// Whether each channel gets its own plane.
    pub fn is_planar(self) -> (planar: bool)
        ensures
            planar == self.planar(),
    {
        match self {
            SampleFmt::U8 | SampleFmt::S16 | SampleFmt::S32 | SampleFmt::F32 | SampleFmt::F64 => {
                false
            },
            SampleFmt::U8P | SampleFmt::S16P | SampleFmt::S32P | SampleFmt::F32P
            | SampleFmt::F64P => true,
        }
    }

    /// Bytes one sample of one channel occupies.
    pub fn bytes_per_sample(self) -> (bytes: usize)
        ensures
            bytes == self.sample_bytes(),
    {
        match self {
            SampleFmt::U8 | SampleFmt::U8P => 1,
            SampleFmt::S16 | SampleFmt::S16P => 2,
            SampleFmt::S32 | SampleFmt::S32P | SampleFmt::F32 | SampleFmt::F32P => 4,
            SampleFmt::F64 | SampleFmt::F64P => 8,
        }
    }

    /// The matching ffmpeg `AVSampleFormat` id.
    pub fn as_ffmpeg_id(self) -> (id: i32)
        ensures
            id == self.ffmpeg_id(),
    {
        match self {
            SampleFmt::U8 => 0,
            SampleFmt::S16 => 1,
            SampleFmt::S32 => 2,
            SampleFmt::F32 => 3,
            SampleFmt::F64 => 4,
            SampleFmt::U8P => 5,
            SampleFmt::S16P => 6,
            SampleFmt::S32P => 7,
            SampleFmt::F32P => 8,
            SampleFmt::F64P => 9,
        }
    }

    /// The format an ffmpeg `AVSampleFormat` id denotes, if it is one of these.
    pub fn from_ffmpeg_id(id: i32) -> (fmt: Option<Self>)
        ensures
            match fmt {
                Some(fmt) => fmt.ffmpeg_id() == id,
                None => forall|other: SampleFmt| #[trigger] other.ffmpeg_id() != id,
            },
    {
        match id {
            0 => Some(SampleFmt::U8),
            1 => Some(SampleFmt::S16),
            2 => Some(SampleFmt::S32),
            3 => Some(SampleFmt::F32),
            4 => Some(SampleFmt::F64),
            5 => Some(SampleFmt::U8P),
            6 => Some(SampleFmt::S16P),
            7 => Some(SampleFmt::S32P),
            8 => Some(SampleFmt::F32P),
            9 => Some(SampleFmt::F64P),
            _ => None,
        }
    }
}

/// No two sample formats share an ffmpeg id.
pub proof fn law_sample_fmt_ids_distinct(a: SampleFmt, b: SampleFmt)
    ensures
        a.ffmpeg_id() == b.ffmpeg_id() <==> a == b,
{
}

/// The id of a sample format denotes that format: whatever [`SampleFmt::from_ffmpeg_id`] gives
/// back for it, it is the format.
pub proof fn law_sample_fmt_id_round_trip(fmt: SampleFmt, back: Option<SampleFmt>)
    requires
        call_ensures(SampleFmt::from_ffmpeg_id, (fmt.ffmpeg_id(),), back),
    ensures
        back == Some(fmt),
{
    if back is Some {
        law_sample_fmt_ids_distinct(back->0, fmt);
    }
}

/// The ffmpeg ids of the pixel formats, and that every pixel takes 4 bytes.
pub proof fn law_pixel_formats(fmt: PixFmt, id: i32, bytes: usize, other: i32, named: Option<PixFmt>)
    requires
        call_ensures(PixFmt::as_ffmpeg_id, (fmt,), id),
        call_ensures(PixFmt::bytes_per_pixel, (fmt,), bytes),
        call_ensures(PixFmt::from_ffmpeg_id, (other,), named),
    ensures
        bytes == 4,
        fmt is Argb ==> id == 25,
        fmt is Rgba ==> id == 26,
        fmt is Abgr ==> id == 27,
        fmt is Bgra ==> id == 28,
        fmt is Rgb0 ==> id == 119,
        fmt is Bgr0 ==> id == 121,
        other == id <==> named == Some(fmt),
{
    law_pix_fmt_ids_distinct(PixFmt::Argb, fmt);
    if named is Some {
        law_pix_fmt_ids_distinct(named->0, fmt);
    }
}

/// The ffmpeg ids of the sample formats, the bytes that a sample of each takes, and which of them
/// have a plane for each channel.
pub proof fn law_sample_formats(
    fmt: SampleFmt,
    id: i32,
    bytes: usize,
    planar: bool,
    other: i32,
    named: Option<SampleFmt>,
)
    requires
        call_ensures(SampleFmt::as_ffmpeg_id, (fmt,), id),
        call_ensures(SampleFmt::bytes_per_sample, (fmt,), bytes),
        call_ensures(SampleFmt::is_planar, (fmt,), planar),
        call_ensures(SampleFmt::from_ffmpeg_id, (other,), named),
    ensures
        fmt is U8 ==> id == 0 && bytes == 1 && !planar,
        fmt is S16 ==> id == 1 && bytes == 2 && !planar,
        fmt is S32 ==> id == 2 && bytes == 4 && !planar,
        fmt is F32 ==> id == 3 && bytes == 4 && !planar,
        fmt is F64 ==> id == 4 && bytes == 8 && !planar,
        fmt is U8P ==> id == 5 && bytes == 1 && planar,
        fmt is S16P ==> id == 6 && bytes == 2 && planar,
        fmt is S32P ==> id == 7 && bytes == 4 && planar,
        fmt is F32P ==> id == 8 && bytes == 4 && planar,
        fmt is F64P ==> id == 9 && bytes == 8 && planar,
        other == id <==> named == Some(fmt),
{
    if named is Some {
        law_sample_fmt_ids_distinct(named->0, fmt);
    }
}

} // verus!
