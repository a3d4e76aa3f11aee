//! A dummy capture implementation that generates random frames.
//!
//! The frames are BGRA, with a resolution of 1080x720. No audio.

use crate::config::CaptureConfig;
use crate::error::CaptureError;
use crate::format::PixFmt;
use crate::fps::{FpsGate, Sample};
use crate::frame::VideoFrame;
use rand::rngs::SmallRng;
use rand::{RngExt, SeedableRng};
use vstd::prelude::*;

verus! {

/// Width of the frames.
pub const WIDTH: u32 = 1080;

/// Height of the frames.
pub const HEIGHT: u32 = 720;

/// Bytes of a frame.
pub const FRAME_BYTES: usize = 3_110_400;

/// The generator of the rand crate that the noise comes from.
#[verifier::external_type_specification]
#[verifier::external_body]
pub struct ExSmallRng(rand::rngs::SmallRng);

/// Whether a generator is in the state that `SeedableRng::from_seed` gives it for the seed.
pub uninterp spec fn seeded_with(rng: rand::rngs::SmallRng, seed: Seq<u8>) -> bool;

/// `SeedableRng::from_seed` for `SmallRng` makes a generator from a seed. Nothing is said of the
/// numbers that come out of it: the rand crate does not promise the same ones for the same seed on
/// every platform.
#[verifier::external_body]
fn rng_from_seed(seed: [u8; 32]) -> (rng: SmallRng)
    ensures
        seeded_with(rng, seed@),
{
    SmallRng::from_seed(seed)
}

/// Whether a generator in the state `before` can give `byte` and be in the state `after` then.
pub uninterp spec fn gives(
    before: rand::rngs::SmallRng,
    byte: u8,
    after: rand::rngs::SmallRng,
) -> bool;

/// `RngExt::random` for a byte draws it from the generator, which moves on. Nothing is said of
/// which byte that is.
#[verifier::external_body]
fn random_byte(rng: &mut SmallRng) -> (byte: u8)
    ensures
        gives(*old(rng), byte, *final(rng)),
{
    rng.random()
}

/// Whether the bytes are drawn one after the other from a generator that is in the state `before`
/// at first and in the state `after` at last.
pub open spec fn drawn(before: SmallRng, bytes: Seq<u8>, after: SmallRng) -> bool
    decreases bytes.len(),
{
    if bytes.len() == 0 {
        before == after
    } else {
        exists|between: SmallRng|
            drawn(before, bytes.drop_last(), between) && #[trigger] gives(
                between,
                bytes.last(),
                after,
            )
    }
}

/// The seed of the noise.
pub open spec fn noise_seed() -> Seq<u8> {
    Seq::new(32, |i: int| 42u8)
}

/// A generator of noise, from the same seed for every capture.
pub(crate) fn noise_rng() -> (rng: SmallRng)
    ensures
        seeded_with(rng, noise_seed()),
{
    let seed: [u8; 32] = [42u8;32];
    assert(seed@ =~= noise_seed());
    rng_from_seed(seed)
}

/// Noise for one frame.
pub(crate) fn noise(rng: &mut SmallRng) -> (vframe: Vec<u8>)
    ensures
        vframe@.len() == FRAME_BYTES,
        drawn(*old(rng), vframe@, *final(rng)),
{
    let mut vframe: Vec<u8> = Vec::with_capacity(FRAME_BYTES);
    while vframe.len() < FRAME_BYTES
        invariant
            vframe@.len() <= FRAME_BYTES,
            drawn(*old(rng), vframe@, *rng),
        decreases FRAME_BYTES - vframe@.len(),
    {
        let ghost (between, bytes) = (*rng, vframe@);
        let byte: u8 = random_byte(rng);
        vframe.push(byte);
        assert(vframe@.drop_last() =~= bytes);
        assert(gives(between, vframe@.last(), *rng));
    }
    vframe
}

/// What the capture thread does next.
pub enum DummyStep {
    /// End.
    Stop,
    /// Sleep for a millisecond.
    Sleep,
    /// Send a frame.
    Send(VideoFrame),
}

/// A capture of noise.
pub struct DummyCapture {
    gate: FpsGate,
    rng: SmallRng,
}

/// A frame of the dummy capture with the given bytes.
pub fn noise_frame(vframe: Vec<u8>, ts: u64) -> (frame: VideoFrame)
    ensures
        frame.vframe@ == vframe@,
        frame.size == (WIDTH, HEIGHT),
        frame.pix_fmt == PixFmt::Bgra,
        frame.ts == ts,
{
    VideoFrame { vframe, size: (WIDTH, HEIGHT), pix_fmt: PixFmt::Bgra, ts }
}

impl DummyCapture {
    /// The [`FpsGate`] that frames go through.
    pub closed spec fn gate(&self) -> FpsGate {
        self.gate
    }

    /// The generator that the noise comes from.
    pub closed spec fn rng(&self) -> SmallRng {
        self.rng
    }

    /// The capture that a configuration asks for; there is only one thing to capture, so it goes
    /// by the frame rate alone.
    pub fn new(config: &CaptureConfig) -> (capture: Result<Self, CaptureError>)
        ensures
            match capture {
                Ok(capture) => {
                    &&& !config.has_empty_channel()
                    &&& capture.gate().interval() == crate::fps::frame_interval(config.video.fps)
                    &&& capture.gate().next() is None
                    &&& seeded_with(capture.rng(), noise_seed())
                },
                Err(e) => config.has_empty_channel() && e == CaptureError::ZeroChannelCapacity,
            },
    {
        match config.validate() {
            Ok(_) => {},
            Err(e) => return Err(e),
        }
        Ok(DummyCapture { gate: FpsGate::new(config.video.fps), rng: noise_rng() })
    }

    /// Width and height of the captured video.
    pub fn size(&self) -> (size: (u32, u32))
        ensures
            size == (WIDTH, HEIGHT),
    {
        (WIDTH, HEIGHT)
    }

    /// Whether a frame captured at `ts` can be judged.
    pub fn can_judge(&self, ts: u64) -> (fits: bool)
        ensures
            fits == self.gate().fits(ts),
    {
        self.gate.can_judge(ts)
    }

    /// What the capture thread does next: `stop` says whether the capture was told to end,
    /// `full` whether the channel has no room for another frame, and `ts` is the time since the
    /// capture began, in nanoseconds.
    pub fn step(&mut self, stop: bool, full: bool, ts: u64) -> (step: DummyStep)
        requires
            !stop && !full ==> old(self).gate().fits(ts),
        ensures
            step is Stop <==> stop,
            step is Send <==> !stop && !full && old(self).gate().passes(ts),
            if stop || full {
                final(self).gate() == old(self).gate()
            } else {
                old(self).gate().judged(ts, &final(self).gate())
            },
            match step {
                DummyStep::Send(frame) => {
                    &&& frame.tight()
                    &&& frame.size == (WIDTH, HEIGHT)
                    &&& frame.pix_fmt == PixFmt::Bgra
                    &&& frame.ts == ts
                    &&& drawn(old(self).rng(), frame.vframe@, final(self).rng())
                },
                _ => final(self).rng() == old(self).rng(),
            },
            old(self).gate().delivers(
                if stop || full {
                    Sample::Unusable(ts)
                } else {
                    Sample::Video(ts)
                },
                match step {
                    DummyStep::Send(frame) => Some(frame.ts),
                    _ => None,
                },
                &final(self).gate(),
            ),
    {
        if stop {
            return DummyStep::Stop;
        }
        if full {
            return DummyStep::Sleep;
        }
        if !self.gate.allow(ts) {
            return DummyStep::Sleep;
        }
        let vframe = noise(&mut self.rng);
        DummyStep::Send(noise_frame(vframe, ts))
    }
}

/// The noise comes from a generator that is seeded with 32 bytes of value 42, in frames of 1080 by 720
/// pixels.
pub proof fn law_noise_is_seeded(config: &CaptureConfig, capture: Result<DummyCapture, CaptureError>)
    requires
        call_ensures(DummyCapture::new, (config,), capture),
    ensures
        capture is Ok <==> config.video.channel_capacity > 0 && (config.audio is Some
            ==> config.audio->0.channel_capacity > 0),
        capture is Err ==> capture->Err_0 is ZeroChannelCapacity,
        capture is Ok ==> {
            &&& exists|seed: Seq<u8>|
                #![trigger seeded_with(capture->Ok_0.rng(), seed)]
                seeded_with(capture->Ok_0.rng(), seed) && seed.len() == 32 && forall|i: int|
                    0 <= i < 32 ==> #[trigger] seed[i] == 42
            &&& capture->Ok_0.gate().next() is None
            &&& config.video.fps is None || config.video.fps->0 == 0
                ==> capture->Ok_0.gate().interval() == 0
            &&& config.video.fps is Some && config.video.fps->0 > 0
                ==> capture->Ok_0.gate().interval() * config.video.fps->0 <= 1_000_000_000 && (
            capture->Ok_0.gate().interval() + 1) * config.video.fps->0 > 1_000_000_000
        },
{
    if capture is Ok {
        let seed = noise_seed();
        assert(seeded_with(capture->Ok_0.rng(), seed));
        if config.video.fps is Some && config.video.fps->0 > 0 {
            crate::fps::law_interval_is_the_cap(config.video.fps->0);
        }
    }
}

/// What the capture thread does: it ends when it is told to, waits while there is no room and while
/// the cap says so, and else sends a frame of 1080 by 720 pixels of 4 bytes with the time at hand.
pub proof fn law_noise_goes_out(
    capture: &mut DummyCapture,
    stop: bool,
    full: bool,
    ts: u64,
    step: DummyStep,
    size: (u32, u32),
)
    requires
        call_ensures(DummyCapture::step, (capture, stop, full, ts), step),
        call_ensures(DummyCapture::size, (&*capture,), size),
    ensures
        size == (1080u32, 720u32),
        step is Stop <==> stop,
        step is Send <==> !stop && !full && (old(capture).gate().interval() == 0
            || old(capture).gate().next() is None || old(capture).gate().next()->0 <= ts),
        step is Send ==> {
            &&& step->Send_0.vframe@.len() == 1080 * 720 * 4
            &&& step->Send_0.size == (1080u32, 720u32)
            &&& step->Send_0.pix_fmt is Bgra
            &&& step->Send_0.ts == ts
        },
{
}

/// A frame of the capture has the bytes and the time it is given.
pub proof fn law_noise_frames(vframe: Vec<u8>, ts: u64, frame: VideoFrame)
    requires
        call_ensures(noise_frame, (vframe, ts), frame),
    ensures
        frame.vframe@ == vframe@,
        frame.size == (1080u32, 720u32),
        frame.pix_fmt is Bgra,
        frame.ts == ts,
{
}

/// The cap judges the time of a frame as it judges any, unless the capture ends or there is no room:
/// then nothing is spent.
pub proof fn law_noise_is_judged(
    capture: &mut DummyCapture,
    stop: bool,
    full: bool,
    ts: u64,
    step: DummyStep,
    judge: &mut FpsGate,
    allowed: bool,
    can: bool,
    fits: bool,
)
    requires
        call_ensures(DummyCapture::step, (capture, stop, full, ts), step),
        call_ensures(DummyCapture::can_judge, (&*capture, ts), can),
        *judge == capture.gate(),
        call_ensures(FpsGate::can_judge, (&*judge, ts), fits),
        call_ensures(FpsGate::allow, (judge, ts), allowed),
    ensures
        can <==> fits,
        !stop && !full ==> (step is Send <==> allowed),
        !stop && !full ==> final(capture).gate().interval() == final(judge).interval(),
        !stop && !full ==> final(capture).gate().next() == final(judge).next(),
        stop || full ==> final(capture).gate() == old(capture).gate(),
        !(step is Send) ==> final(capture).rng() == old(capture).rng(),
{
}

} // verus!
