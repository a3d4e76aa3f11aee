//! What becomes of the samples of ScreenCaptureKit.

use crate::config::Target;
use crate::muxed::config::{PIX_FMT_BGRA, SAMPLE_FMT_FLTP};
use crate::scrframe::Frame;
use crate::util::pack_rows;
use vstd::prelude::*;
use vstd::slice::slice_to_vec;

verus! {

/// Whether the target can be captured: the primary monitor is the only one that can.
pub fn can_capture(target: &Target) -> (can: bool)
    ensures
        can == (*target == Target::Primary),
{
    match target {
        Target::Primary => true,
        _ => false,
    }
}

/// The width of the frames of a pixel buffer. The padding of a row counts as part of it, as far as
/// it makes up whole pixels.
pub open spec fn padded_width(bytes_per_row: usize) -> u32 {
    (bytes_per_row / 4) as u32
}

/// The frame of a pixel buffer with rows of the given length: the whole pixels of each, which is
/// all of its memory where a row is made of pixels.
pub fn video_frame(base: &[u8], bytes_per_row: usize, height: usize) -> (frame: Frame)
    requires
        base@.len() == bytes_per_row * height,
    ensures
        match frame {
            Frame::Video { vframe, size, pix_fmt } => {
                &&& vframe@ == crate::util::packed(
                    base@,
                    bytes_per_row as nat,
                    (bytes_per_row / 4 * 4) as nat,
                    height as nat,
                )
                &&& bytes_per_row % 4 == 0 ==> vframe@ == base@
                &&& size == (padded_width(bytes_per_row), height as u32)
                &&& pix_fmt == PIX_FMT_BGRA
                &&& bytes_per_row / 4 <= u32::MAX && height <= u32::MAX ==> vframe@.len() == size.0
                    * size.1 * 4
            },
            Frame::Audio { .. } => false,
        },
{
    let width: usize = bytes_per_row / 4;
    let vframe = pack_rows(Some(base), bytes_per_row, width * 4, height).unwrap();
    proof {
        assert((width * 4) * height == width * height * 4) by (nonlinear_arith);
        if bytes_per_row % 4 == 0 {
            crate::util::law_packed_without_padding(base@, bytes_per_row as nat, height as nat);
            assert(base@.take(base@.len() as int) =~= base@);
        }
    }
    Frame::Video {
        vframe,
        size: (
            #[verifier::truncate]
            (width as u32),
            #[verifier::truncate]
            (height as u32),
        ),
        pix_fmt: PIX_FMT_BGRA,
    }
}

/// The frame of an audio sample: all of its data.
pub fn audio_frame(data: &[u8], num_samples: isize, rate: i32, channels: u32) -> (frame: Frame)
    ensures
        match frame {
            Frame::Audio { aframe, nb_samples, sample_rate, nb_channels, sample_fmt } => {
                &&& aframe@ == data@
                &&& nb_samples == num_samples as i32
                &&& sample_rate == rate
                &&& nb_channels == channels as i32
                &&& sample_fmt == SAMPLE_FMT_FLTP
            },
            Frame::Video { .. } => false,
        },
{
    let aframe = slice_to_vec(data);
    Frame::Audio {
        aframe,
        nb_samples: #[verifier::truncate]
        (num_samples as i32),
        sample_rate: rate,
        nb_channels: #[verifier::truncate]
        (channels as i32),
        sample_fmt: SAMPLE_FMT_FLTP,
    }
}

/// The picture of a pixel buffer: as wide as its rows have whole pixels, and byte `k` of row `row` is
/// the byte at that place of that row in the buffer.
pub proof fn law_rows_of_a_pixel_buffer(
    base: &[u8],
    bytes_per_row: usize,
    height: usize,
    frame: Frame,
    row: int,
    k: int,
)
    requires
        call_ensures(video_frame, (base, bytes_per_row, height), frame),
        bytes_per_row / 4 <= u32::MAX,
        height <= u32::MAX,
        0 <= row < height,
        0 <= k < bytes_per_row / 4 * 4,
    ensures
        frame is Video,
        frame->size.0 == bytes_per_row / 4,
        frame->size.1 == height,
        frame->vframe@.len() == frame->size.0 * frame->size.1 * 4,
        frame->vframe@[row * (frame->size.0 * 4) + k] == base@[row * bytes_per_row + k],
        frame->pix_fmt == 28,
{
    crate::util::lemma_packed_at(
        base@,
        bytes_per_row as nat,
        (bytes_per_row / 4 * 4) as nat,
        height as nat,
        row,
        k,
    );
}

/// The primary monitor can be captured, and nothing else.
pub proof fn law_only_the_primary_monitor(target: &Target, can: bool)
    requires
        call_ensures(can_capture, (target,), can),
    ensures
        *target is Primary ==> can,
        *target is Monitor || *target is Window || *target is WindowName || *target is Pick
            || *target is PickFrom ==> !can,
{
}

/// The sound of a sample is all of its data, and says of itself what the sample says.
pub proof fn law_sound_of_a_sample(
    data: &[u8],
    num_samples: isize,
    rate: i32,
    channels: u32,
    frame: Frame,
)
    requires
        call_ensures(audio_frame, (data, num_samples, rate, channels), frame),
    ensures
        frame is Audio,
        frame->aframe@ == data@,
        i32::MIN <= num_samples <= i32::MAX ==> frame->nb_samples == num_samples,
        frame->sample_rate == rate,
        channels <= i32::MAX ==> frame->nb_channels == channels,
        frame->sample_fmt == 8,
{
}

} // verus!
