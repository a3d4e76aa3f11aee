//! What becomes of the samples and the errors that ScreenCaptureKit hands over.

use crate::error::{CaptureError, ScreenCaptureKitError};
use crate::format::{PixFmt, SampleFmt};
use crate::fps::{FpsGate, Sample};
use crate::frame::{AudioFrame, VideoFrame};
use crate::util::pack_rows;
use vstd::prelude::*;

verus! {

/// A time of Core Media: `value / timescale` seconds.
#[derive(Debug, Clone, Copy)]
pub struct CmTime {
    /// The numerator.
    pub value: i64,
    /// The denominator.
    pub timescale: i32,
    /// Whether the time is valid at all.
    pub valid: bool,
}

impl CmTime {
    /// Whether the time is a point on the host clock.
    pub open spec fn usable(self) -> bool {
        self.valid && self.timescale > 0 && self.value >= 0
    }

    /// The time in nanoseconds, rounded down.
    pub open spec fn nanoseconds(self) -> int {
        self.value * 1_000_000_000 / self.timescale as int
    }
}

/// A `CMTime` as nanoseconds on the host clock, as far as 64 bits hold them.
pub fn cm_time_ns(time: CmTime) -> (ns: Option<u64>)
    ensures
        ns is Some <==> time.usable(),
        ns is Some ==> ns->0 == time.nanoseconds() % 0x1_0000_0000_0000_0000,
{
    if !time.valid || time.timescale <= 0 || time.value < 0 {
        return None;
    }
    let ns: u128 = time.value as u128 * 1_000_000_000 / time.timescale as u128;
    assert(ns == time.nanoseconds());
    assert((ns as u64) as int == ns % 0x1_0000_0000_0000_0000) by (bit_vector);
    Some(
        #[verifier::truncate]
        (ns as u64),
    )
}

/// When a sample was captured: what it says itself, else the host clock, else 0.
pub fn sample_ts(presentation: CmTime, host: CmTime) -> (ts: u64)
    ensures
        ts == if presentation.usable() {
            presentation.nanoseconds() % 0x1_0000_0000_0000_0000
        } else if host.usable() {
            host.nanoseconds() % 0x1_0000_0000_0000_0000
        } else {
            0
        },
{
    match cm_time_ns(presentation) {
        Some(ts) => ts,
        None => match cm_time_ns(host) {
            Some(ts) => ts,
            None => 0,
        },
    }
}

/// Samples in the order of their times have timestamps in that order, whatever scales the times
/// come in; and a time of at least a nanosecond is a timestamp that is set.
pub proof fn law_sample_times_keep_order(a: CmTime, b: CmTime)
    requires
        a.usable(),
        b.usable(),
        a.value * b.timescale <= b.value * a.timescale,
    ensures
        a.nanoseconds() <= b.nanoseconds(),
        a.value * 1_000_000_000 >= a.timescale ==> a.nanoseconds() > 0,
{
    let (x, s, y, t) = (a.value as int, a.timescale as int, b.value as int, b.timescale as int);
    let q = x * 1_000_000_000 / s;
    vstd::arithmetic::div_mod::lemma_fundamental_div_mod(x * 1_000_000_000, s);
    assert(q * s <= x * 1_000_000_000) by (nonlinear_arith)
        requires
            x * 1_000_000_000 == s * q + (x * 1_000_000_000) % s,
            (x * 1_000_000_000) % s >= 0,
    ;
    assert(q * t <= y * 1_000_000_000) by (nonlinear_arith)
        requires
            q * s <= x * 1_000_000_000,
            x * t <= y * s,
            s > 0,
            t > 0,
    ;
    assert(y * 1_000_000_000 / t >= q) by (nonlinear_arith)
        requires
            q * t <= y * 1_000_000_000,
            t > 0,
    ;
    if x * 1_000_000_000 >= s {
        assert(x * 1_000_000_000 / s >= 1) by (nonlinear_arith)
            requires
                x * 1_000_000_000 >= s,
                s > 0,
        ;
    }
}

/// The format id of linear PCM, `lpcm`.
pub const LINEAR_PCM: u32 = 0x6C70_636D;

/// The format flag for floating point samples.
pub const FLAG_FLOAT: u32 = 1;

/// The format flag for signed integer samples.
pub const FLAG_SIGNED_INTEGER: u32 = 4;

/// The format flag for samples that fill all of their bits.
pub const FLAG_PACKED: u32 = 8;

/// The format flag for one plane per channel.
pub const FLAG_NON_INTERLEAVED: u32 = 32;

/// What an `AudioStreamBasicDescription` says.
#[derive(Debug, Clone, Copy)]
pub struct AudioDescription {
    /// Samples per second, as a whole number.
    pub sample_rate: i32,
    /// The format id.
    pub format_id: u32,
    /// The format flags.
    pub format_flags: u32,
    /// Channels.
    pub channels_per_frame: u32,
    /// Bits of one sample of one channel.
    pub bits_per_channel: u32,
}

impl AudioDescription {
    /// Whether a format flag is set.
    pub open spec fn has(self, flag: u32) -> bool {
        self.format_flags & flag != 0
    }

    /// The interleaved format of the samples, if it is one we can name.
    pub open spec fn interleaved(self) -> Option<SampleFmt> {
        if self.has(FLAG_FLOAT) {
            if self.bits_per_channel == 32 {
                Some(SampleFmt::F32)
            } else if self.bits_per_channel == 64 {
                Some(SampleFmt::F64)
            } else {
                None
            }
        } else if !self.has(FLAG_PACKED) {
            None
        } else if self.has(FLAG_SIGNED_INTEGER) {
            if self.bits_per_channel == 16 {
                Some(SampleFmt::S16)
            } else if self.bits_per_channel == 32 {
                Some(SampleFmt::S32)
            } else {
                None
            }
        } else if self.bits_per_channel == 8 {
            Some(SampleFmt::U8)
        } else {
            None
        }
    }

    /// The format of the samples, if it is one we can name.
    pub open spec fn sample_fmt(self) -> Option<SampleFmt> {
        if self.format_id != LINEAR_PCM {
            None
        } else if self.has(FLAG_NON_INTERLEAVED) {
            match self.interleaved() {
                Some(SampleFmt::F32) => Some(SampleFmt::F32P),
                Some(SampleFmt::F64) => Some(SampleFmt::F64P),
                Some(SampleFmt::S16) => Some(SampleFmt::S16P),
                Some(SampleFmt::S32) => Some(SampleFmt::S32P),
                Some(SampleFmt::U8) => Some(SampleFmt::U8P),
                _ => None,
            }
        } else {
            self.interleaved()
        }
    }

    /// Whether samples of this description can be delivered.
    pub open spec fn usable(self) -> bool {
        self.sample_fmt() is Some && self.sample_rate > 0 && self.channels_per_frame != 0
    }
}

/// The [`SampleFmt`] an `AudioStreamBasicDescription` describes, if it is one we can name.
pub fn asbd_sample_fmt(asbd: &AudioDescription) -> (sample_fmt: Option<SampleFmt>)
    ensures
        sample_fmt == asbd.sample_fmt(),
{
    if asbd.format_id != LINEAR_PCM {
        return None;
    }
    let flags: u32 = asbd.format_flags;
    let planar = flags & FLAG_NON_INTERLEAVED != 0;
    let float = flags & FLAG_FLOAT != 0;
    let signed = flags & FLAG_SIGNED_INTEGER != 0;
    let packed = flags & FLAG_PACKED != 0;
    match (float, signed, packed, asbd.bits_per_channel) {
        (true, _, _, 32) => Some(
            if planar {
                SampleFmt::F32P
            } else {
                SampleFmt::F32
            },
        ),
        (true, _, _, 64) => Some(
            if planar {
                SampleFmt::F64P
            } else {
                SampleFmt::F64
            },
        ),
        (false, true, true, 16) => Some(
            if planar {
                SampleFmt::S16P
            } else {
                SampleFmt::S16
            },
        ),
        (false, true, true, 32) => Some(
            if planar {
                SampleFmt::S32P
            } else {
                SampleFmt::S32
            },
        ),
        (false, false, true, 8) => Some(
            if planar {
                SampleFmt::U8P
            } else {
                SampleFmt::U8
            },
        ),
        _ => None,
    }
}

/// Whether every plane is there.
pub open spec fn all_present(planes: Seq<Option<&[u8]>>) -> bool {
    forall|i: int| 0 <= i < planes.len() ==> (#[trigger] planes[i]) is Some
}

/// The planes, one after the other.
pub open spec fn back_to_back(planes: Seq<Option<&[u8]>>) -> Seq<u8>
    decreases planes.len(),
{
    if planes.len() == 0 {
        Seq::empty()
    } else {
        back_to_back(planes.drop_last()) + planes.last()->0@
    }
}

/// Copy the sample buffer's audio planes out back to back.
///
/// `planes` holds what the buffer list points at, `None` for a plane without data; it is `None`
/// itself where there is no list. The planes come from an `AudioBufferList`; the raw
/// `CMBlockBuffer` is not documented to hold them in that layout.
pub fn copy_audio_planes(planes: Option<&Vec<Option<&[u8]>>>) -> (aframe: Option<Vec<u8>>)
    ensures
        aframe is Some <==> planes is Some && all_present(planes->0@),
        aframe is Some ==> aframe->0@ == back_to_back(planes->0@),
{
    let list = match planes {
        None => return None,
        Some(list) => list,
    };
    let mut aframe: Vec<u8> = Vec::new();
    let mut i: usize = 0;
    assert(back_to_back(list@.take(0)) =~= aframe@);
    while i < list.len()
        invariant
            i <= list@.len(),
            planes == Some(list),
            forall|j: int| 0 <= j < i ==> (#[trigger] list@[j]) is Some,
            aframe@ == back_to_back(list@.take(i as int)),
        decreases list@.len() - i,
    {
        assert(list@.take(i + 1).drop_last() =~= list@.take(i as int));
        assert(list@.take(i + 1).last() == list@[i as int]);
        match list[i] {
            None => {
                assert(list@[i as int] is None);
                return None;
            },
            Some(plane) => {
                let ghost before = aframe@;
                aframe.extend_from_slice(plane);
                assert(aframe@ =~= before + plane@);
            },
        }
        i = i + 1;
    }
    assert(list@.take(i as int) =~= list@);
    Some(aframe)
}

/// A locked pixel buffer.
#[derive(Debug, Clone, Copy)]
pub struct PixelBuffer<'a> {
    /// Its memory, `None` where it has none.
    pub base: Option<&'a [u8]>,
    /// Bytes from one row to the next.
    pub bytes_per_row: usize,
    /// Width in pixels.
    pub width: usize,
    /// Height in pixels.
    pub height: usize,
}

impl<'a> PixelBuffer<'a> {
    /// Whether the buffer holds whole rows.
    pub open spec fn usable(&self) -> bool {
        self.base is Some && self.bytes_per_row >= self.width * 4
    }

    /// Whether the memory is as long as its rows.
    pub open spec fn valid(&self) -> bool {
        self.usable() ==> self.bytes_per_row * self.height <= self.base->0@.len()
    }

    /// The size in one number, to see whether it changes.
    pub open spec fn size_key(&self) -> u64 {
        (self.width as u64) << 32 | self.height as u64
    }

    /// The buffer's frame: its rows, without their padding.
    pub open spec fn holds(&self, ts: u64, frame: &VideoFrame) -> bool {
        &&& frame.vframe@ == crate::util::packed(
            self.base->0@,
            self.bytes_per_row as nat,
            (self.width * 4) as nat,
            self.height as nat,
        )
        &&& frame.size == (self.width as u32, self.height as u32)
        &&& frame.pix_fmt == PixFmt::Bgra
        &&& frame.ts == ts
    }
}

/// Two buffers that are no larger than 32 bits can say have the same key only where they have the
/// same size, so no change of size goes unnoticed.
pub proof fn law_size_key_tells_sizes_apart(a: PixelBuffer, b: PixelBuffer)
    requires
        a.width <= u32::MAX,
        a.height <= u32::MAX,
        b.width <= u32::MAX,
        b.height <= u32::MAX,
        a.size_key() == b.size_key(),
    ensures
        a.width == b.width,
        a.height == b.height,
{
    crate::macos::law_size_survives_packing(a.width as u32, a.height as u32);
    crate::macos::law_size_survives_packing(b.width as u32, b.height as u32);
}

/// A frame, and the capture's size where the frame has changed it.
pub struct ScreenSample {
    /// The frame.
    pub frame: VideoFrame,
    /// The new size.
    pub new_size: Option<(u32, u32)>,
}

/// State of the stream's output.
#[derive(Debug)]
pub struct StreamOutput {
    gate: FpsGate,
    last_size: u64,
    wants_audio: bool,
    sample_rate: Option<i32>,
}

impl StreamOutput {
    /// The [`FpsGate`] that frames go through.
    pub closed spec fn gate(&self) -> FpsGate {
        self.gate
    }

    /// The size of the last frame, in one number.
    pub closed spec fn last_size(&self) -> u64 {
        self.last_size
    }

    /// Whether audio was asked for.
    pub closed spec fn wants_audio(&self) -> bool {
        self.wants_audio
    }

    /// The sample rate of the audio, once it is known.
    pub closed spec fn spec_sample_rate(&self) -> Option<i32> {
        self.sample_rate
    }

    /// The output of a stream with or without audio.
    pub fn new(fps: Option<u32>, wants_audio: bool) -> (output: Self)
        ensures
            output.gate().interval() == crate::fps::frame_interval(fps),
            output.gate().next() is None,
            output.last_size() == 0,
            output.wants_audio() == wants_audio,
            output.spec_sample_rate() is None,
    {
        StreamOutput { gate: FpsGate::new(fps), last_size: 0, wants_audio, sample_rate: None }
    }

    /// Sample rate of the captured audio: `None` without audio, and until it is known.
    pub fn sample_rate(&self) -> (sample_rate: Option<i32>)
        ensures
            sample_rate == self.spec_sample_rate(),
    {
        self.sample_rate
    }

    /// Whether a frame captured at `ts` can be judged.
    pub fn can_judge(&self, ts: u64) -> (fits: bool)
        ensures
            fits == self.gate().fits(ts),
    {
        self.gate.can_judge(ts)
    }

    /// The frame that a pixel buffer stands for, if one should be delivered.
    ///
    /// A buffer that holds no frame does not count against the cap.
    pub fn screen_sample(&mut self, buffer: &PixelBuffer, ts: u64) -> (sample: Option<ScreenSample>)
        requires
            buffer.valid(),
            buffer.usable() ==> old(self).gate().fits(ts),
        ensures
            final(self).wants_audio() == old(self).wants_audio(),
            final(self).spec_sample_rate() == old(self).spec_sample_rate(),
            if buffer.usable() {
                &&& sample is Some <==> old(self).gate().passes(ts)
                &&& old(self).gate().judged(ts, &final(self).gate())
            } else {
                &&& sample is None
                &&& final(self).gate() == old(self).gate()
            },
            match sample {
                Some(sample) => {
                    &&& buffer.holds(ts, &sample.frame)
                    &&& buffer.width <= u32::MAX && buffer.height <= u32::MAX
                        ==> sample.frame.tight()
                    &&& final(self).last_size() == buffer.size_key()
                    &&& sample.new_size == if old(self).last_size() != buffer.size_key() {
                        Some((buffer.width as u32, buffer.height as u32))
                    } else {
                        None
                    }
                },
                None => final(self).last_size() == old(self).last_size(),
            },
            old(self).gate().delivers(
                if buffer.usable() {
                    Sample::Video(ts)
                } else {
                    Sample::Unusable(ts)
                },
                match sample {
                    Some(sample) => Some(sample.frame.ts),
                    None => None,
                },
                &final(self).gate(),
            ),
    {
        let row_bytes: usize = match buffer.width.checked_mul(4) {
            Some(row_bytes) => row_bytes,
            None => return None,
        };
        if buffer.base.is_none() || buffer.bytes_per_row < row_bytes {
            return None;
        }
        if !self.gate.allow(ts) {
            return None;
        }
        let vframe = match pack_rows(buffer.base, buffer.bytes_per_row, row_bytes, buffer.height) {
            None => return None,
            Some(vframe) => vframe,
        };
        assert(row_bytes * buffer.height == buffer.width * buffer.height * 4) by (nonlinear_arith)
            requires
                row_bytes == buffer.width * 4,
        ;
        let size: (u32, u32) = (
            #[verifier::truncate]
            (buffer.width as u32),
            #[verifier::truncate]
            (buffer.height as u32),
        );
        let key: u64 = (buffer.width as u64) << 32 | buffer.height as u64;
        let new_size = if self.last_size != key {
            Some(size)
        } else {
            None
        };
        self.last_size = key;
        Some(
            ScreenSample {
                frame: VideoFrame { vframe, size, pix_fmt: PixFmt::Bgra, ts },
                new_size,
            },
        )
    }

    /// The frame that an audio sample stands for, if audio was asked for and the sample can be
    /// named.
    ///
    /// `asbd` is `None` where the sample has no format description, and `planes` are those of
    /// [`copy_audio_planes`].
    pub fn audio_sample(
        &mut self,
        asbd: Option<&AudioDescription>,
        planes: Option<&Vec<Option<&[u8]>>>,
        num_samples: isize,
        ts: u64,
    ) -> (frame: Option<AudioFrame>)
        ensures
            final(self).gate() == old(self).gate(),
            final(self).last_size() == old(self).last_size(),
            final(self).wants_audio() == old(self).wants_audio(),
            final(self).spec_sample_rate() == if old(self).wants_audio() && asbd is Some
                && asbd->0.usable() {
                Some(asbd->0.sample_rate)
            } else {
                old(self).spec_sample_rate()
            },
            frame is Some <==> {
                &&& old(self).wants_audio()
                &&& asbd is Some
                &&& asbd->0.usable()
                &&& planes is Some
                &&& all_present(planes->0@)
            },
            frame is Some ==> {
                &&& frame->0.aframe@ == back_to_back(planes->0@)
                &&& frame->0.nb_samples == num_samples as i32
                &&& frame->0.sample_rate == asbd->0.sample_rate
                &&& frame->0.nb_channels == asbd->0.channels_per_frame as i32
                &&& Some(frame->0.sample_fmt) == asbd->0.sample_fmt()
                &&& frame->0.ts == ts
            },
            old(self).gate().delivers(
                if frame is Some {
                    Sample::Audio(ts)
                } else {
                    Sample::Unusable(ts)
                },
                crate::frame::audio_ts(frame),
                &final(self).gate(),
            ),
    {
        let asbd = match asbd {
            None => return None,
            Some(asbd) => asbd,
        };
        let sample_fmt = match asbd_sample_fmt(asbd) {
            None => return None,
            Some(sample_fmt) => sample_fmt,
        };
        let rate: i32 = asbd.sample_rate;
        if rate <= 0 || asbd.channels_per_frame == 0 {
            return None;
        }
        if self.wants_audio {
            self.sample_rate = Some(rate);
        }
        let aframe = match copy_audio_planes(planes) {
            None => return None,
            Some(aframe) => aframe,
        };
        if !self.wants_audio {
            return None;
        }
        Some(
            AudioFrame {
                aframe,
                nb_samples: #[verifier::truncate]
                (num_samples as i32),
                sample_rate: rate,
                nb_channels: #[verifier::truncate]
                (asbd.channels_per_frame as i32),
                sample_fmt,
                ts,
            },
        )
    }
}

/// What an `NSError` says.
#[derive(Debug, Clone, Copy, PartialEq, Eq, Structural)]
pub struct NsError {
    /// Whether it is of `SCStreamErrorDomain`.
    pub of_stream: bool,
    /// Its code.
    pub code: isize,
}

/// The user refused the capture.
pub const USER_DECLINED: isize = -3801;

/// The stream did not start.
pub const FAILED_TO_START: isize = -3802;

/// The application lacks an entitlement.
pub const MISSING_ENTITLEMENTS: isize = -3803;

/// The user stopped the stream.
pub const USER_STOPPED: isize = -3817;

/// The stream's audio did not start.
pub const FAILED_TO_START_AUDIO_CAPTURE: isize = -3818;

/// The system stopped the stream.
pub const SYSTEM_STOPPED_STREAM: isize = -3821;

impl NsError {
    /// The error it stands for.
    pub open spec fn meaning(self) -> CaptureError {
        if !self.of_stream {
            CaptureError::ScreenCaptureKit(ScreenCaptureKitError::Other(self.code))
        } else if self.code == USER_DECLINED || self.code == MISSING_ENTITLEMENTS {
            CaptureError::PermissionDenied
        } else if self.code == USER_STOPPED || self.code == SYSTEM_STOPPED_STREAM {
            CaptureError::ScreenCaptureKit(ScreenCaptureKitError::Stopped)
        } else if self.code == FAILED_TO_START || self.code == FAILED_TO_START_AUDIO_CAPTURE {
            CaptureError::ScreenCaptureKit(ScreenCaptureKitError::FailedToStart)
        } else {
            CaptureError::ScreenCaptureKit(ScreenCaptureKitError::Stream(self.code))
        }
    }
}

/// The most actionable [`CaptureError`] an `NSError` from ScreenCaptureKit stands for.
///
/// The codes a caller can respond to become top-level variants; the rest keep their raw
/// `NSError` code so it can still be looked up.
pub fn ns_error(e: NsError) -> (error: CaptureError)
    ensures
        error == e.meaning(),
{
    if !e.of_stream {
        return CaptureError::from(ScreenCaptureKitError::Other(e.code));
    }
    if e.code == USER_DECLINED || e.code == MISSING_ENTITLEMENTS {
        CaptureError::PermissionDenied
    } else if e.code == USER_STOPPED || e.code == SYSTEM_STOPPED_STREAM {
        CaptureError::from(ScreenCaptureKitError::Stopped)
    } else if e.code == FAILED_TO_START || e.code == FAILED_TO_START_AUDIO_CAPTURE {
        CaptureError::from(ScreenCaptureKitError::FailedToStart)
    } else {
        CaptureError::from(ScreenCaptureKitError::Stream(e.code))
    }
}

/// A time in nanoseconds is the whole number of them that fit into it, where 64 bits hold them.
pub proof fn law_times_in_nanoseconds(time: CmTime, ns: Option<u64>)
    requires
        call_ensures(cm_time_ns, (time,), ns),
    ensures
        ns is Some <==> time.valid && time.timescale > 0 && time.value >= 0,
        ns is Some && time.value * 1_000_000_000 / (time.timescale as int) <= u64::MAX ==> {
            &&& ns->0 * time.timescale <= time.value * 1_000_000_000
            &&& (ns->0 + 1) * time.timescale > time.value * 1_000_000_000
        },
        ns is Some ==> ns->0 == time.value * 1_000_000_000 / (time.timescale as int)
            % 0x1_0000_0000_0000_0000,
{
    if ns is Some {
        let n = time.value * 1_000_000_000;
        let s = time.timescale as int;
        vstd::arithmetic::div_mod::lemma_fundamental_div_mod(n, s);
        vstd::arithmetic::div_mod::lemma_div_pos_is_pos(n, s);
        let q = n / s;
        assert(q * s <= n && (q + 1) * s > n) by (nonlinear_arith)
            requires
                n == s * q + n % s,
                0 <= n % s < s,
        ;
    }
}

/// When a sample was captured: its own time where it has one, else that of the host clock, else
/// zero.
pub proof fn law_sample_times(
    presentation: CmTime,
    host: CmTime,
    ts: u64,
    own: Option<u64>,
    clock: Option<u64>,
)
    requires
        call_ensures(sample_ts, (presentation, host), ts),
        call_ensures(cm_time_ns, (presentation,), own),
        call_ensures(cm_time_ns, (host,), clock),
    ensures
        own is Some ==> ts == own->0,
        own is None && clock is Some ==> ts == clock->0,
        own is None && clock is None ==> ts == 0,
{
}

/// The sample formats that a description can stand for, by the values of its fields: linear PCM,
/// floats by the lowest flag, integers only where they are packed, and one plane per channel where
/// they are not interleaved.
pub proof fn law_described_formats(asbd: &AudioDescription, sample_fmt: Option<SampleFmt>)
    requires
        call_ensures(asbd_sample_fmt, (asbd,), sample_fmt),
    ensures
        ({
            let flags = asbd.format_flags;
            let bits = asbd.bits_per_channel;
            let pcm = asbd.format_id == 0x6c70_636d;
            let float = flags & 1 != 0;
            let signed = flags & 4 != 0;
            let packed = flags & 8 != 0;
            let planar = flags & 32 != 0;
            &&& sample_fmt == Some(SampleFmt::F32) <==> pcm && float && bits == 32 && !planar
            &&& sample_fmt == Some(SampleFmt::F32P) <==> pcm && float && bits == 32 && planar
            &&& sample_fmt == Some(SampleFmt::F64) <==> pcm && float && bits == 64 && !planar
            &&& sample_fmt == Some(SampleFmt::F64P) <==> pcm && float && bits == 64 && planar
            &&& sample_fmt == Some(SampleFmt::S16) <==> pcm && !float && signed && packed && bits
                == 16 && !planar
            &&& sample_fmt == Some(SampleFmt::S16P) <==> pcm && !float && signed && packed && bits
                == 16 && planar
            &&& sample_fmt == Some(SampleFmt::S32) <==> pcm && !float && signed && packed && bits
                == 32 && !planar
            &&& sample_fmt == Some(SampleFmt::S32P) <==> pcm && !float && signed && packed && bits
                == 32 && planar
            &&& sample_fmt == Some(SampleFmt::U8) <==> pcm && !float && !signed && packed && bits
                == 8 && !planar
            &&& sample_fmt == Some(SampleFmt::U8P) <==> pcm && !float && !signed && packed && bits
                == 8 && planar
        }),
{
}

proof fn lemma_back_to_back_at(planes: Seq<Option<&[u8]>>, p: int, k: int)
    requires
        0 <= p < planes.len(),
        0 <= k < planes[p]->0@.len(),
    ensures
        back_to_back(planes.take(p)).len() + k < back_to_back(planes).len(),
        back_to_back(planes)[back_to_back(planes.take(p)).len() + k] == planes[p]->0@[k],
    decreases planes.len(),
{
    let front = planes.drop_last();
    if p < front.len() {
        lemma_back_to_back_at(front, p, k);
        assert(front.take(p) =~= planes.take(p));
    } else {
        assert(planes.take(p) =~= front);
    }
}

/// The planes of a sample come out whole and one after the other, where all of them are there: the
/// first plane first, and each right behind those before it.
pub proof fn law_planes_back_to_back(
    planes: &Vec<Option<&[u8]>>,
    aframe: Option<Vec<u8>>,
    earlier: &Vec<Option<&[u8]>>,
    before: Option<Vec<u8>>,
    p: int,
    k: int,
)
    requires
        call_ensures(copy_audio_planes, (Some(planes),), aframe),
        call_ensures(copy_audio_planes, (Some(earlier),), before),
        0 <= p < planes@.len(),
        earlier@ == planes@.take(p),
        aframe is Some,
        0 <= k < planes@[p]->0@.len(),
    ensures
        planes@[p] is Some,
        before is Some,
        p == 0 ==> before->0@.len() == 0,
        before->0@.len() + k < aframe->0@.len(),
        aframe->0@[before->0@.len() + k] == planes@[p]->0@[k],
        p == planes@.len() - 1 ==> aframe->0@.len() == before->0@.len() + planes@[p]->0@.len(),
{
    assert forall|i: int| 0 <= i < earlier@.len() implies (#[trigger] earlier@[i]) is Some by {
        assert(earlier@[i] == planes@[i]);
    }
    lemma_back_to_back_at(planes@, p, k);
    if p == planes@.len() - 1 {
        assert(planes@.drop_last() =~= planes@.take(p));
    }
}

/// A sample without a list of planes, or with a plane missing, gives no sound.
pub proof fn law_missing_planes(planes: Option<&Vec<Option<&[u8]>>>, aframe: Option<Vec<u8>>)
    requires
        call_ensures(copy_audio_planes, (planes,), aframe),
    ensures
        aframe is Some <==> planes is Some && forall|p: int|
            0 <= p < planes->0@.len() ==> (#[trigger] planes->0@[p]) is Some,
{
}

/// The picture of a pixel buffer: byte `k` of row `row` is the byte at that place of that row in the
/// buffer.
pub proof fn law_rows_of_a_pixel_buffer(
    output: &mut StreamOutput,
    buffer: &PixelBuffer,
    ts: u64,
    sample: Option<ScreenSample>,
    row: int,
    k: int,
)
    requires
        call_ensures(StreamOutput::screen_sample, (output, buffer, ts), sample),
        buffer.width <= u32::MAX,
        buffer.height <= u32::MAX,
        0 <= row < buffer.height,
        0 <= k < buffer.width * 4,
    ensures
        sample is Some ==> {
            let frame = sample->0.frame;
            &&& frame.vframe@.len() == buffer.width * buffer.height * 4
            &&& frame.vframe@[row * (buffer.width * 4) + k] == buffer.base->0@[row
                * buffer.bytes_per_row + k]
            &&& frame.size.0 == buffer.width
            &&& frame.size.1 == buffer.height
            &&& frame.pix_fmt is Bgra
            &&& frame.ts == ts
        },
{
    if sample is Some {
        crate::util::lemma_packed_at(
            buffer.base->0@,
            buffer.bytes_per_row as nat,
            (buffer.width * 4) as nat,
            buffer.height as nat,
            row,
            k,
        );
        assert((buffer.width * 4) * buffer.height == buffer.width * buffer.height * 4)
            by (nonlinear_arith);
    }
}

/// A new size is reported with a picture exactly where it differs from that of the picture before,
/// or where there was none before and the picture is not empty both ways.
pub proof fn law_changed_sizes_are_reported(
    fps: Option<u32>,
    audio: bool,
    made: StreamOutput,
    first: &mut StreamOutput,
    a: &PixelBuffer,
    ts: u64,
    one: Option<ScreenSample>,
    second: &mut StreamOutput,
    b: &PixelBuffer,
    later: u64,
    two: Option<ScreenSample>,
)
    requires
        call_ensures(StreamOutput::new, (fps, audio), made),
        *first == made,
        call_ensures(StreamOutput::screen_sample, (first, a, ts), one),
        *second == *final(first),
        call_ensures(StreamOutput::screen_sample, (second, b, later), two),
        one is Some,
        two is Some,
        a.width <= u32::MAX,
        a.height <= u32::MAX,
        b.width <= u32::MAX,
        b.height <= u32::MAX,
    ensures
        one->0.new_size is None <==> a.width == 0 && a.height == 0,
        one->0.new_size is Some ==> (one->0.new_size->0).0 == a.width && (one->0.new_size->0).1
            == a.height,
        two->0.new_size is None <==> a.width == b.width && a.height == b.height,
        two->0.new_size is Some ==> (two->0.new_size->0).0 == b.width && (two->0.new_size->0).1
            == b.height,
{
    crate::macos::law_size_survives_packing(a.width as u32, a.height as u32);
    crate::macos::law_size_survives_packing(b.width as u32, b.height as u32);
    crate::macos::law_size_survives_packing(0, 0);
    assert(0u64 << 32 | 0u64 == 0u64) by (bit_vector);
}

/// The sound of a sample: it comes out where audio was asked for, the sample can be named and all of
/// its planes are there, and says of itself what the sample says.
pub proof fn law_sound_of_a_sample(
    output: &mut StreamOutput,
    asbd: Option<&AudioDescription>,
    planes: Option<&Vec<Option<&[u8]>>>,
    num_samples: isize,
    ts: u64,
    frame: Option<AudioFrame>,
    sample_fmt: Option<SampleFmt>,
    aframe: Option<Vec<u8>>,
    rate: Option<i32>,
    before: Option<i32>,
)
    requires
        call_ensures(StreamOutput::sample_rate, (&*output,), before),
        call_ensures(StreamOutput::audio_sample, (output, asbd, planes, num_samples, ts), frame),
        call_ensures(StreamOutput::sample_rate, (&*final(output),), rate),
        asbd is Some ==> call_ensures(asbd_sample_fmt, (asbd->0,), sample_fmt),
        call_ensures(copy_audio_planes, (planes,), aframe),
    ensures
        ({
            let named = asbd is Some && sample_fmt is Some && asbd->0.sample_rate > 0
                && asbd->0.channels_per_frame != 0;
            &&& frame is Some <==> old(output).wants_audio() && named && aframe is Some
            &&& old(output).wants_audio() && named ==> rate == Some(asbd->0.sample_rate)
            &&& !old(output).wants_audio() || !named ==> rate == before
        }),
        frame is Some ==> {
            &&& frame->0.aframe@ == aframe->0@
            &&& frame->0.sample_rate == asbd->0.sample_rate
            &&& i32::MIN <= num_samples <= i32::MAX ==> frame->0.nb_samples == num_samples
            &&& asbd->0.channels_per_frame <= i32::MAX ==> frame->0.nb_channels
                == asbd->0.channels_per_frame
            &&& frame->0.sample_fmt == sample_fmt->0
            &&& frame->0.ts == ts
        },
{
}

/// What the errors of ScreenCaptureKit mean, by their codes.
pub proof fn law_stream_errors(e: NsError, error: CaptureError)
    requires
        call_ensures(ns_error, (e,), error),
    ensures
        error is PermissionDenied <==> e.of_stream && (e.code == -3801 || e.code == -3803),
        error == CaptureError::ScreenCaptureKit(ScreenCaptureKitError::Stopped) <==> e.of_stream && (
        e.code == -3817 || e.code == -3821),
        error == CaptureError::ScreenCaptureKit(ScreenCaptureKitError::FailedToStart)
            <==> e.of_stream && (e.code == -3802 || e.code == -3818),
        !e.of_stream ==> error == CaptureError::ScreenCaptureKit(
            ScreenCaptureKitError::Other(e.code),
        ),
        e.of_stream && e.code != -3801 && e.code != -3802 && e.code != -3803 && e.code != -3817
            && e.code != -3818 && e.code != -3821 ==> error == CaptureError::ScreenCaptureKit(
            ScreenCaptureKitError::Stream(e.code),
        ),
{
}

/// Which pixel buffers become pictures: those that are there and hold their rows whole. Each of them
/// does, unless the cap holds it back; any other changes nothing about the cap.
pub proof fn law_whole_pixel_buffers_are_delivered(
    output: &mut StreamOutput,
    buffer: &PixelBuffer,
    ts: u64,
    sample: Option<ScreenSample>,
)
    requires
        call_ensures(StreamOutput::screen_sample, (output, buffer, ts), sample),
    ensures
        ({
            let whole = buffer.base is Some && buffer.bytes_per_row >= buffer.width * 4;
            let due = {
                ||| old(output).gate().interval() == 0
                ||| old(output).gate().next() is None
                ||| old(output).gate().next()->0 <= ts
            };
            &&& sample is Some <==> whole && due
            &&& !whole ==> final(output).gate() == old(output).gate()
        }),
{
}

/// An output starts with the cap of its configuration, of which nothing is spent yet, knows whether
/// audio was asked for, and does not know a sample rate yet.
pub proof fn law_outputs_start_with_the_cap(
    fps: Option<u32>,
    audio: bool,
    output: StreamOutput,
    rate: Option<i32>,
)
    requires
        call_ensures(StreamOutput::new, (fps, audio), output),
        call_ensures(StreamOutput::sample_rate, (&output,), rate),
    ensures
        ({
            let interval = output.gate().interval();
            &&& fps is None || fps->0 == 0 ==> interval == 0
            &&& fps is Some && fps->0 > 0 ==> interval * fps->0 <= 1_000_000_000 && (interval + 1)
                * fps->0 > 1_000_000_000
        }),
        output.gate().next() is None,
        output.wants_audio() == audio,
        rate is None,
{
    if fps is Some && fps->0 > 0 {
        crate::fps::law_interval_is_the_cap(fps->0);
    }
}

/// The cap judges a whole picture as it judges any frame, and no other buffer; sound does not count.
pub proof fn law_pictures_are_judged(
    output: &mut StreamOutput,
    buffer: &PixelBuffer,
    ts: u64,
    sample: Option<ScreenSample>,
    judge: &mut FpsGate,
    allowed: bool,
    can: bool,
    fits: bool,
    heard: &mut StreamOutput,
    asbd: Option<&AudioDescription>,
    planes: Option<&Vec<Option<&[u8]>>>,
    num_samples: isize,
    sound: Option<AudioFrame>,
)
    requires
        call_ensures(StreamOutput::screen_sample, (output, buffer, ts), sample),
        call_ensures(StreamOutput::can_judge, (&*output, ts), can),
        *judge == output.gate(),
        call_ensures(FpsGate::can_judge, (&*judge, ts), fits),
        call_ensures(FpsGate::allow, (judge, ts), allowed),
        call_ensures(StreamOutput::audio_sample, (heard, asbd, planes, num_samples, ts), sound),
    ensures
        can <==> fits,
        sample is Some ==> allowed,
        sample is Some ==> final(output).gate().interval() == final(judge).interval(),
        sample is Some ==> final(output).gate().next() == final(judge).next(),
        sample is None ==> final(output).gate().interval() == old(output).gate().interval(),
        sample is None ==> final(output).gate().next() == old(output).gate().next(),
        final(output).wants_audio() == old(output).wants_audio(),
        final(output).spec_sample_rate() == old(output).spec_sample_rate(),
        final(heard).gate() == old(heard).gate(),
        final(heard).wants_audio() == old(heard).wants_audio(),
{
}

/// A size is compared with that of the last picture that was delivered: neither a buffer that was
/// not delivered nor sound in between makes a difference.
pub proof fn law_sizes_of_delivered_pictures(
    first: &mut StreamOutput,
    a: &PixelBuffer,
    ts: u64,
    one: Option<ScreenSample>,
    second: &mut StreamOutput,
    b: &PixelBuffer,
    later: u64,
    two: Option<ScreenSample>,
    third: &mut StreamOutput,
    asbd: Option<&AudioDescription>,
    planes: Option<&Vec<Option<&[u8]>>>,
    num_samples: isize,
    sound: Option<AudioFrame>,
    fourth: &mut StreamOutput,
    c: &PixelBuffer,
    last: u64,
    three: Option<ScreenSample>,
)
    requires
        call_ensures(StreamOutput::screen_sample, (first, a, ts), one),
        *second == *final(first),
        call_ensures(StreamOutput::screen_sample, (second, b, later), two),
        *third == *final(second),
        call_ensures(
            StreamOutput::audio_sample,
            (third, asbd, planes, num_samples, later),
            sound,
        ),
        *fourth == *final(third),
        call_ensures(StreamOutput::screen_sample, (fourth, c, last), three),
        one is Some,
        two is None,
        three is Some,
        a.width <= u32::MAX,
        a.height <= u32::MAX,
        c.width <= u32::MAX,
        c.height <= u32::MAX,
    ensures
        three->0.new_size is None <==> a.width == c.width && a.height == c.height,
        three->0.new_size is Some ==> (three->0.new_size->0).0 == c.width && (
        three->0.new_size->0).1 == c.height,
{
    crate::macos::law_size_survives_packing(a.width as u32, a.height as u32);
    crate::macos::law_size_survives_packing(c.width as u32, c.height as u32);
}

} // verus!
