//! A dummy capture implementation that generates random frames.
//!
//! The frames are BGRA, with a resolution of 1080x720. No audio.

use crate::dummy::{noise, noise_rng, HEIGHT, WIDTH};
use crate::muxed::config::PIX_FMT_BGRA;
use crate::scrframe::Frame;
use rand::rngs::SmallRng;
use vstd::prelude::*;

verus! {

/// A capture of noise.
pub struct DummyCapture {
    rng: SmallRng,
}

/// A frame of the dummy capture with the given bytes.
pub fn noise_frame(vframe: Vec<u8>) -> (frame: Frame)
    ensures
        frame == (Frame::Video { vframe, size: (WIDTH, HEIGHT), pix_fmt: PIX_FMT_BGRA }),
{
    Frame::Video { vframe, size: (WIDTH, HEIGHT), pix_fmt: PIX_FMT_BGRA }
}

impl DummyCapture {
    /// The generator that the noise comes from.
    pub closed spec fn rng(&self) -> SmallRng {
        self.rng
    }

    /// A new capture, whose noise starts from the same seed every time.
    pub fn new() -> (capture: Self)
        ensures
            crate::dummy::seeded_with(capture.rng(), crate::dummy::noise_seed()),
    {
        DummyCapture { rng: noise_rng() }
    }

    /// Width and height of the captured video.
    pub fn size(&self) -> (size: (u32, u32))
        ensures
            size == (WIDTH, HEIGHT),
    {
        (WIDTH, HEIGHT)
    }

    /// The frame to send next, unless the channel is full.
    pub fn next_frame(&mut self, full: bool) -> (frame: Option<Frame>)
        ensures
            frame is Some <==> !full,
            frame is Some ==> {
                &&& frame->0 is Video
                &&& frame->0.spec_data().len() == WIDTH * HEIGHT * 4
                &&& frame->0->size == (WIDTH, HEIGHT)
                &&& frame->0->pix_fmt == PIX_FMT_BGRA
                &&& crate::dummy::drawn(
                    old(self).rng(),
                    frame->0.spec_data(),
                    final(self).rng(),
                )
            },
            frame is None ==> final(self).rng() == old(self).rng(),
    {
        if full {
            return None;
        }
        Some(noise_frame(noise(&mut self.rng)))
    }
}

/// Whether the capture goes on: only after a frame does it look whether it was told to stop.
pub fn goes_on(sent: bool, stop: bool) -> (goes_on: bool)
    ensures
        goes_on == !(sent && stop),
{
    !(sent && stop)
}

/// A frame of 1080 by 720 pixels of 4 bytes goes out whenever there is room, and the capture ends only
/// after one.
pub proof fn law_noise_goes_out(
    capture: &mut DummyCapture,
    full: bool,
    frame: Option<Frame>,
    size: (u32, u32),
    sent: bool,
    stop: bool,
    on: bool,
)
    requires
        call_ensures(DummyCapture::next_frame, (capture, full), frame),
        call_ensures(DummyCapture::size, (&*capture,), size),
        call_ensures(goes_on, (sent, stop), on),
    ensures
        size == (1080u32, 720u32),
        frame is Some <==> !full,
        frame is Some ==> {
            &&& frame->0 is Video
            &&& frame->0->vframe@.len() == 1080 * 720 * 4
            &&& frame->0->size == (1080u32, 720u32)
            &&& frame->0->pix_fmt == 28
        },
        on <==> !sent || !stop,
{
}

/// The noise comes from a generator that is seeded with 32 bytes of value 42, and a frame has the bytes
/// it is given.
pub proof fn law_noise_is_seeded(capture: DummyCapture, vframe: Vec<u8>, frame: Frame)
    requires
        call_ensures(DummyCapture::new, (), capture),
        call_ensures(noise_frame, (vframe,), frame),
    ensures
        exists|seed: Seq<u8>|
            #![trigger crate::dummy::seeded_with(capture.rng(), seed)]
            crate::dummy::seeded_with(capture.rng(), seed) && seed.len() == 32 && forall|i: int|
                0 <= i < 32 ==> #[trigger] seed[i] == 42,
        frame is Video,
        frame->vframe@ == vframe@,
        frame->size == (1080u32, 720u32),
        frame->pix_fmt == 28,
{
    assert(crate::dummy::seeded_with(capture.rng(), crate::dummy::noise_seed()));
}

} // verus!
