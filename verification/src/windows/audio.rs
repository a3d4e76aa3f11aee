//! The sound: what WASAPI offers, and how its packets become frames without gaps.

use crate::error::{CaptureError, Unsupported};
use crate::format::SampleFmt;
use crate::frame::AudioFrame;
use vstd::prelude::*;
use vstd::slice::slice_subrange;

verus! {

/// `wFormatTag` of plain PCM.
pub const WAVE_FORMAT_PCM: u32 = 1;

/// `wFormatTag` of IEEE floats.
pub const WAVE_FORMAT_IEEE_FLOAT: u32 = 3;

/// `wFormatTag` of a format that names its kind in `SubFormat`.
pub const WAVE_FORMAT_EXTENSIBLE: u32 = 65534;

/// `SubFormat` of plain PCM.
pub const KSDATAFORMAT_SUBTYPE_PCM: u128 = 0x00000001_0000_0010_8000_00aa00389b71;

/// `SubFormat` of IEEE floats.
pub const KSDATAFORMAT_SUBTYPE_IEEE_FLOAT: u128 = 0x00000003_0000_0010_8000_00aa00389b71;

/// The least `cbSize` of a format that has a `SubFormat`.
pub const EXTENSIBLE_CB_SIZE: u16 = 22;

/// What a `WAVEFORMATEX` says.
#[derive(Debug, Clone, Copy)]
pub struct WaveFormat {
    /// `wFormatTag`
    pub tag: u32,
    /// `nChannels`
    pub channels: u16,
    /// `nSamplesPerSec`
    pub samples_per_sec: u32,
    /// `wBitsPerSample`
    pub bits_per_sample: u16,
    /// `cbSize`
    pub cb_size: u16,
    /// `SubFormat`, only there to be read where `cbSize` says so.
    pub sub_format: u128,
}

impl WaveFormat {
    /// Whether the samples are IEEE floats.
    pub open spec fn is_float(self) -> bool {
        ||| self.tag == WAVE_FORMAT_IEEE_FLOAT
        ||| {
            &&& self.tag == WAVE_FORMAT_EXTENSIBLE
            &&& self.cb_size >= EXTENSIBLE_CB_SIZE
            &&& self.sub_format == KSDATAFORMAT_SUBTYPE_IEEE_FLOAT
        }
    }

    /// Whether the samples are plain PCM.
    pub open spec fn is_pcm(self) -> bool {
        ||| self.tag == WAVE_FORMAT_PCM
        ||| {
            &&& self.tag == WAVE_FORMAT_EXTENSIBLE
            &&& self.cb_size >= EXTENSIBLE_CB_SIZE
            &&& self.sub_format == KSDATAFORMAT_SUBTYPE_PCM
        }
    }

    /// The sample format this stands for, if there is a name for it.
    pub open spec fn sample_fmt(self) -> Option<SampleFmt> {
        if self.is_float() {
            match self.bits_per_sample {
                32 => Some(SampleFmt::F32),
                64 => Some(SampleFmt::F64),
                _ => None,
            }
        } else if self.is_pcm() {
            match self.bits_per_sample {
                8 => Some(SampleFmt::U8),
                16 => Some(SampleFmt::S16),
                32 => Some(SampleFmt::S32),
                _ => None,
            }
        } else {
            None
        }
    }
}

/// The sample format that a mix format stands for, if there is a name for it.
pub fn wasapi_sample_fmt(format: &WaveFormat) -> (sample_fmt: Option<SampleFmt>)
    ensures
        sample_fmt == format.sample_fmt(),
{
    let (is_float, is_pcm) = if format.tag == WAVE_FORMAT_IEEE_FLOAT {
        (true, false)
    } else if format.tag == WAVE_FORMAT_PCM {
        (false, true)
    } else if format.tag == WAVE_FORMAT_EXTENSIBLE && format.cb_size >= EXTENSIBLE_CB_SIZE {
        (
            format.sub_format == KSDATAFORMAT_SUBTYPE_IEEE_FLOAT,
            format.sub_format == KSDATAFORMAT_SUBTYPE_PCM,
        )
    } else {
        (false, false)
    };
    match (is_float, is_pcm, format.bits_per_sample) {
        (true, _, 32) => Some(SampleFmt::F32),
        (true, _, 64) => Some(SampleFmt::F64),
        (_, true, 8) => Some(SampleFmt::U8),
        (_, true, 16) => Some(SampleFmt::S16),
        (_, true, 32) => Some(SampleFmt::S32),
        _ => None,
    }
}

/// The format that frames come in.
#[derive(Debug, Clone, Copy)]
pub struct MixFormat {
    /// Samples per second.
    pub sample_rate: i32,
    /// Channels.
    pub nb_channels: i32,
    /// Bytes of one sample of one channel.
    pub sample_size: usize,
    /// The sample format.
    pub sample_fmt: SampleFmt,
}

/// The format that frames come in where the system mixes in `format`.
pub fn mix_format(format: &WaveFormat) -> (mix: Result<MixFormat, CaptureError>)
    ensures
        mix == match format.sample_fmt() {
            Some(sample_fmt) => Ok(
                MixFormat {
                    sample_rate: format.samples_per_sec as i32,
                    nb_channels: format.channels as i32,
                    sample_size: (format.bits_per_sample / 8) as usize,
                    sample_fmt,
                },
            ),
            None => Err(CaptureError::Unsupported(Unsupported::SampleFormat)),
        },
{
    match wasapi_sample_fmt(format) {
        Some(sample_fmt) => Ok(
            MixFormat {
                sample_rate: format.samples_per_sec as i32,
                nb_channels: format.channels as i32,
                sample_size: format.bits_per_sample as usize / 8,
                sample_fmt,
            },
        ),
        None => Err(CaptureError::Unsupported(Unsupported::SampleFormat)),
    }
}

/// The number of whole nanoseconds on the QPC timeline, modulo 64 bits; 0 where it is unknown.
pub open spec fn qpc_nanoseconds(frequency: i64, counter: Option<i64>) -> int {
    if frequency <= 0 || counter is None || counter->0 < 0 {
        0
    } else {
        (counter->0 * 1_000_000_000 / frequency as int) % 0x1_0000_0000_0000_0000
    }
}

/// Now, in nanoseconds on the same QPC timeline WASAPI and WGC report their timestamps on.
///
/// `frequency` is the counter's frequency, 0 or less where it could not be read, and `counter`
/// the counter itself.
pub fn qpc_now(frequency: i64, counter: Option<i64>) -> (now: u64)
    ensures
        now == qpc_nanoseconds(frequency, counter),
{
    let counter: i64 = match counter {
        None => return 0,
        Some(counter) => counter,
    };
    if frequency <= 0 || counter < 0 {
        return 0;
    }
    let nanoseconds: u128 = counter as u128 * 1_000_000_000 / frequency as u128;
    assert(nanoseconds as u64 == nanoseconds % 0x1_0000_0000_0000_0000) by (bit_vector);
    nanoseconds as u64
}

/// A counter that goes on keeps going on once it is counted in nanoseconds, as far as 64 bits hold
/// them.
pub proof fn law_qpc_keeps_order(frequency: i64, a: i64, b: i64)
    requires
        frequency > 0,
        0 <= a <= b,
        b * 1_000_000_000 / (frequency as int) <= u64::MAX,
    ensures
        qpc_nanoseconds(frequency, Some(a)) <= qpc_nanoseconds(frequency, Some(b)),
        a * 1_000_000_000 >= frequency ==> qpc_nanoseconds(frequency, Some(a)) > 0,
{
    vstd::arithmetic::div_mod::lemma_div_is_ordered(
        a * 1_000_000_000,
        b * 1_000_000_000,
        frequency as int,
    );
    vstd::arithmetic::div_mod::lemma_div_pos_is_pos(a * 1_000_000_000, frequency as int);
    if a * 1_000_000_000 >= frequency {
        vstd::arithmetic::div_mod::lemma_div_is_ordered(
            frequency as int,
            a * 1_000_000_000,
            frequency as int,
        );
        vstd::arithmetic::div_mod::lemma_div_by_self(frequency as int);
    }
}

/// One packet of sound.
#[derive(Debug, Clone, Copy)]
pub struct Packet<'a> {
    /// Samples per channel.
    pub nb_frames: u32,
    /// Whether the packet is silent, whatever its data is.
    pub silent: bool,
    /// The samples.
    pub data: &'a [u8],
    /// When they were captured, in units of 100 ns.
    pub qpc: u64,
}

/// The packets of one round, on their way to become a frame.
#[derive(Debug)]
pub struct Batch {
    aframe: Vec<u8>,
    nb_samples: u32,
    ts: Option<u64>,
}

impl Batch {
    /// The samples so far.
    pub closed spec fn data(&self) -> Seq<u8> {
        self.aframe@
    }

    /// Samples per channel so far.
    pub closed spec fn nb_samples(&self) -> u32 {
        self.nb_samples
    }

    /// When the first packet was captured.
    pub closed spec fn ts(&self) -> Option<u64> {
        self.ts
    }

    /// Whether the bytes so far are those of the samples so far.
    pub open spec fn counts(&self, frame_bytes: int) -> bool {
        self.data().len() == self.nb_samples() * frame_bytes
    }

    /// A round without packets.
    pub fn new() -> (batch: Self)
        ensures
            batch.data() == Seq::<u8>::empty(),
            batch.nb_samples() == 0,
            batch.ts() is None,
    {
        Batch { aframe: Vec::new(), nb_samples: 0, ts: None }
    }
}

/// The byte that silence is made of. U8 PCM is offset binary: its zero point is 128, not 0.
pub open spec fn silence_of(sample_fmt: SampleFmt) -> u8 {
    if sample_fmt == SampleFmt::U8 {
        128
    } else {
        0
    }
}

/// Samples per channel that fill a gap of `gap` nanoseconds, one second at most.
pub open spec fn gap_samples(gap: int, sample_rate: int) -> int {
    let samples = gap * sample_rate / 1_000_000_000;
    if samples < sample_rate {
        samples
    } else {
        sample_rate
    }
}

/// Nanoseconds that a number of samples per channel lasts.
pub open spec fn lasting(nb_samples: int, sample_rate: int) -> int {
    nb_samples * 1_000_000_000 / sample_rate
}

/// The sound that goes out for a round: how much, and when it starts.
pub ghost struct Outgoing {
    /// Samples per channel.
    pub nb_samples: int,
    /// When the first of them starts.
    pub ts: int,
}

/// The sound that goes out for a round that brought `batch`, where the last one ended at
/// `next_ts` and the time is `now`.
///
/// A round without sound fills the time that has passed with silence. Sound never starts before
/// the last one has ended.
pub open spec fn outgoing(next_ts: int, sample_rate: int, batch: Batch, now: int) -> Outgoing {
    if batch.data().len() == 0 {
        Outgoing {
            nb_samples: gap_samples(
                if now > next_ts {
                    now - next_ts
                } else {
                    0
                },
                sample_rate,
            ),
            ts: next_ts,
        }
    } else {
        Outgoing {
            nb_samples: batch.nb_samples() as int,
            ts: if batch.ts() is Some && batch.ts()->0 > next_ts {
                batch.ts()->0 as int
            } else {
                next_ts
            },
        }
    }
}

/// Whether anything goes out for a round.
pub open spec fn goes_out(next_ts: int, sample_rate: int, batch: Batch, now: int) -> bool {
    batch.data().len() > 0 || outgoing(next_ts, sample_rate, batch, now).nb_samples > 0
}

/// How the wait for the next round has ended.
#[derive(Debug, Clone, Copy, PartialEq, Eq, Structural)]
pub enum Waited {
    /// The time is up.
    TimedOut,
    /// Somebody cut it short.
    Woken,
    /// Nobody is left to cut it short.
    Disconnected,
}

/// Whether another round starts. A wait that is cut short ends the capture.
pub fn starts_round(terminated: bool, waited: Waited) -> (starts: bool)
    ensures
        starts == (!terminated && waited == Waited::TimedOut),
{
    match waited {
        Waited::TimedOut => !terminated,
        Waited::Woken => false,
        Waited::Disconnected => false,
    }
}

/// What became of a frame that was published.
#[derive(Debug, Clone, Copy, PartialEq, Eq, Structural)]
pub enum Published {
    /// It is on its way.
    Sent,
    /// The channel was full, so it was dropped.
    Full,
    /// Nobody is listening any more.
    Disconnected,
}

/// Whether the capture ends over what became of a frame.
///
/// A full channel drops the frame rather than blocking the capture.
pub fn ends_capture(published: Published) -> (ends: bool)
    ensures
        ends == (published == Published::Disconnected),
{
    match published {
        Published::Sent => false,
        Published::Full => false,
        Published::Disconnected => true,
    }
}

/// Turns packets into frames that follow one another without overlap.
#[derive(Debug)]
pub struct AudioPump {
    format: MixFormat,
    frame_bytes: usize,
    silence: u8,
    poll: u64,
    next_ts: u64,
}

impl AudioPump {
    /// The format that frames come in.
    pub closed spec fn format(&self) -> MixFormat {
        self.format
    }

    /// Nanoseconds from one round to the next.
    pub closed spec fn poll(&self) -> u64 {
        self.poll
    }

    /// When the last frame ended.
    pub closed spec fn next_ts(&self) -> u64 {
        self.next_ts
    }

    /// Whether the format is one that sound can be counted in.
    pub closed spec fn wf(&self) -> bool {
        &&& self.format.sample_rate > 0
        &&& self.format.nb_channels >= 0
        &&& self.frame_bytes == self.format.nb_channels * self.format.sample_size
        &&& self.silence == silence_of(self.format.sample_fmt)
    }

    /// Bytes of one sample of all channels.
    pub open spec fn frame_bytes(&self) -> int {
        self.format().nb_channels * self.format().sample_size
    }

    /// A pump for sound of the given format, with room for `buffer_frames` samples per channel
    /// in the system, that starts at `now`.
    ///
    /// Rounds are half a buffer apart, but no more than 10 ms.
    pub fn new(format: MixFormat, buffer_frames: u32, now: u64) -> (pump: Self)
        requires
            format.sample_rate > 0,
            format.nb_channels >= 0,
            format.nb_channels * format.sample_size <= usize::MAX,
        ensures
            pump.wf(),
            pump.format() == format,
            pump.next_ts() == now,
            pump.poll() == {
                let half = 1_000_000_000 * buffer_frames / (format.sample_rate as int) / 2;
                if half < 10_000_000 {
                    half
                } else {
                    10_000_000
                }
            },
    {
        let half: u64 = 1_000_000_000u64 * buffer_frames as u64 / format.sample_rate as u64 / 2;
        let poll: u64 = if half < 10_000_000 {
            half
        } else {
            10_000_000
        };
        let silence: u8 = match format.sample_fmt {
            SampleFmt::U8 => 128,
            _ => 0,
        };
        AudioPump {
            format,
            frame_bytes: format.nb_channels as usize * format.sample_size,
            silence,
            poll,
            next_ts: now,
        }
    }

    /// Nanoseconds to wait from one round to the next.
    pub fn poll_interval(&self) -> (poll: u64)
        ensures
            poll == self.poll(),
    {
        self.poll
    }

    /// Bytes that a packet of `nb_frames` samples per channel holds.
    pub fn packet_bytes(&self, nb_frames: u32) -> (bytes: usize)
        requires
            self.wf(),
            nb_frames * self.frame_bytes() <= usize::MAX,
        ensures
            bytes == nb_frames * self.frame_bytes(),
    {
        nb_frames as usize * self.frame_bytes
    }

    /// Whether a packet can be taken into the round within the limits of the machine.
    pub open spec fn accepts(&self, batch: &Batch, packet: &Packet) -> bool {
        &&& packet.qpc * 100 <= u64::MAX
        &&& batch.nb_samples() + packet.nb_frames <= u32::MAX
        &&& batch.data().len() + packet.nb_frames * self.frame_bytes() <= usize::MAX
        &&& !packet.silent ==> packet.nb_frames * self.frame_bytes() <= packet.data@.len()
    }

    /// Whether [`add_packet`](Self::add_packet) can take a packet into the round.
    pub fn can_add(&self, batch: &Batch, packet: &Packet) -> (accepts: bool)
        requires
            self.wf(),
        ensures
            accepts == self.accepts(batch, packet),
    {
        assert(0 <= packet.nb_frames * self.frame_bytes <= u32::MAX * u64::MAX) by (nonlinear_arith)
            requires
                0 <= packet.nb_frames <= u32::MAX,
                0 <= self.frame_bytes <= u64::MAX,
        ;
        let bytes: u128 = packet.nb_frames as u128 * self.frame_bytes as u128;
        packet.qpc <= u64::MAX / 100 && batch.nb_samples as u64 + packet.nb_frames as u64
            <= u32::MAX as u64 && batch.aframe.len() as u128 + bytes <= usize::MAX as u128 && (
        packet.silent || bytes <= packet.data.len() as u128)
    }

    /// Take a packet into the round. A silent one counts as silence, whatever its data is.
    pub fn add_packet(&self, batch: &mut Batch, packet: &Packet)
        requires
            self.wf(),
            self.accepts(old(batch), packet),
        ensures
            old(batch).counts(self.frame_bytes()) ==> final(batch).counts(self.frame_bytes()),
            final(batch).data() == old(batch).data() + if packet.silent {
                Seq::new(
                    (packet.nb_frames * self.frame_bytes()) as nat,
                    |i: int| silence_of(self.format().sample_fmt),
                )
            } else {
                packet.data@.take(packet.nb_frames * self.frame_bytes())
            },
            final(batch).nb_samples() == old(batch).nb_samples() + packet.nb_frames,
            final(batch).ts() == match old(batch).ts() {
                Some(ts) => Some(ts),
                None => Some((packet.qpc * 100) as u64),
            },
    {
        let ghost before = batch.aframe@;
        assert(packet.nb_frames * self.frame_bytes() >= 0) by (nonlinear_arith)
            requires
                packet.nb_frames >= 0,
                self.frame_bytes() == self.frame_bytes,
        ;
        let first: u64 = packet.qpc * 100;
        if batch.ts.is_none() {
            batch.ts = Some(first);
        }
        let bytes: usize = packet.nb_frames as usize * self.frame_bytes;
        if !packet.silent {
            let part = slice_subrange(packet.data, 0, bytes);
            batch.aframe.extend_from_slice(part);
            assert(batch.aframe@ =~= before + packet.data@.take(bytes as int));
        } else {
            let length: usize = batch.aframe.len() + bytes;
            batch.aframe.resize(length, self.silence);
            assert(batch.aframe@ =~= before + Seq::new(
                bytes as nat,
                |i: int| silence_of(self.format().sample_fmt),
            )) by {
                assert forall|i: int| 0 <= i < before.len() implies batch.aframe@[i]
                    == before[i] by {
                    if bytes > 0 {
                        assert(batch.aframe@.subrange(0, before.len() as int)[i] == before[i]);
                    }
                }
            }
        }
        assert((batch.nb_samples + packet.nb_frames) * self.frame_bytes() == batch.nb_samples
            * self.frame_bytes() + packet.nb_frames * self.frame_bytes()) by (nonlinear_arith);
        batch.nb_samples = batch.nb_samples + packet.nb_frames;
    }

    /// Whether what goes out for a round stays within the limits of the machine.
    pub open spec fn fits(&self, batch: &Batch, now: u64) -> bool {
        let rate = self.format().sample_rate as int;
        let out = outgoing(self.next_ts() as int, rate, *batch, now as int);
        goes_out(self.next_ts() as int, rate, *batch, now as int) ==> {
            &&& out.ts + lasting(out.nb_samples, rate) <= u64::MAX
            &&& batch.data().len() == 0 ==> out.nb_samples * self.frame_bytes() <= usize::MAX
        }
    }

    /// Whether [`finish`](Self::finish) can finish the round.
    pub fn can_finish(&self, batch: &Batch, now: u64) -> (fits: bool)
        requires
            self.wf(),
        ensures
            fits == self.fits(batch, now),
    {
        let rate: u128 = self.format.sample_rate as u128;
        let ghost out = outgoing(
            self.next_ts as int,
            self.format.sample_rate as int,
            *batch,
            now as int,
        );
        let mut nb_samples: u32 = batch.nb_samples;
        let mut ts: u64 = self.next_ts;
        if batch.aframe.len() == 0 {
            let gap: u64 = if now > self.next_ts {
                now - self.next_ts
            } else {
                0
            };
            assert(0 <= gap * rate <= u64::MAX * i32::MAX) by (nonlinear_arith)
                requires
                    0 <= gap <= u64::MAX,
                    0 < rate <= i32::MAX,
            ;
            let samples: u128 = gap as u128 * rate / 1_000_000_000;
            let samples: u128 = if samples < rate {
                samples
            } else {
                rate
            };
            nb_samples = samples as u32;
            if nb_samples == 0 {
                return true;
            }
            assert(0 <= nb_samples * self.frame_bytes <= u32::MAX * u64::MAX) by (nonlinear_arith)
                requires
                    0 <= nb_samples <= u32::MAX,
                    0 <= self.frame_bytes <= u64::MAX,
            ;
            if nb_samples as u128 * self.frame_bytes as u128 > usize::MAX as u128 {
                return false;
            }
        } else if let Some(first) = batch.ts {
            if first > ts {
                ts = first;
            }
        }
        assert(nb_samples == out.nb_samples && ts == out.ts);
        let lasts: u128 = nb_samples as u128 * 1_000_000_000 / rate;
        assert(0 <= lasts <= nb_samples * 1_000_000_000) by (nonlinear_arith)
            requires
                rate >= 1,
                nb_samples >= 0,
                lasts == nb_samples * 1_000_000_000 / (rate as int),
        ;
        ts as u128 + lasts <= u64::MAX as u128
    }

    /// The frame that goes out for a round, if anything does.
    ///
    /// `now` is the time on the packets' timeline.
    pub fn finish(&mut self, batch: Batch, now: u64) -> (frame: Option<AudioFrame>)
        requires
            old(self).wf(),
            old(self).fits(&batch, now),
        ensures
            final(self).wf(),
            final(self).format() == old(self).format(),
            final(self).poll() == old(self).poll(),
            frame is Some <==> goes_out(
                old(self).next_ts() as int,
                old(self).format().sample_rate as int,
                batch,
                now as int,
            ),
            frame is None ==> final(self).next_ts() == old(self).next_ts(),
            frame is Some ==> {
                let format = old(self).format();
                let out = outgoing(
                    old(self).next_ts() as int,
                    format.sample_rate as int,
                    batch,
                    now as int,
                );
                &&& frame->0.ts == out.ts
                &&& frame->0.nb_samples == out.nb_samples as i32
                &&& frame->0.sample_rate == format.sample_rate
                &&& frame->0.nb_channels == format.nb_channels
                &&& frame->0.sample_fmt == format.sample_fmt
                &&& frame->0.aframe@ == if batch.data().len() > 0 {
                    batch.data()
                } else {
                    Seq::new(
                        (out.nb_samples * old(self).frame_bytes()) as nat,
                        |i: int| silence_of(format.sample_fmt),
                    )
                }
                &&& batch.counts(old(self).frame_bytes()) ==> frame->0.aframe@.len()
                    == out.nb_samples * old(self).frame_bytes()
                &&& final(self).next_ts() == out.ts + lasting(
                    out.nb_samples,
                    format.sample_rate as int,
                )
            },
    {
        let rate: u128 = self.format.sample_rate as u128;
        let ghost out = outgoing(
            self.next_ts as int,
            self.format.sample_rate as int,
            batch,
            now as int,
        );
        let mut aframe = batch.aframe;
        let mut nb_samples: u32 = batch.nb_samples;
        let mut ts: u64 = self.next_ts;
        if aframe.len() == 0 {
            let gap: u64 = if now > self.next_ts {
                now - self.next_ts
            } else {
                0
            };
            assert(0 <= gap * rate <= u64::MAX * i32::MAX) by (nonlinear_arith)
                requires
                    0 <= gap <= u64::MAX,
                    0 < rate <= i32::MAX,
            ;
            let samples: u128 = gap as u128 * rate / 1_000_000_000;
            let samples: u128 = if samples < rate {
                samples
            } else {
                rate
            };
            nb_samples = samples as u32;
            if nb_samples == 0 {
                return None;
            }
            assert(nb_samples * self.frame_bytes >= 0) by (nonlinear_arith);
            let bytes: usize = nb_samples as usize * self.frame_bytes;
            let ghost empty = aframe@;
            aframe.resize(bytes, self.silence);
            assert(aframe@ =~= Seq::new(
                (out.nb_samples * self.frame_bytes()) as nat,
                |i: int| silence_of(self.format.sample_fmt),
            ));
        } else {
            if let Some(first) = batch.ts {
                if first > ts {
                    ts = first;
                }
            }
        }
        assert(nb_samples == out.nb_samples && ts == out.ts);
        assert(lasting(nb_samples as int, rate as int) <= nb_samples * 1_000_000_000)
            by (nonlinear_arith)
            requires
                rate >= 1,
                nb_samples >= 0,
                lasting(nb_samples as int, rate as int) == nb_samples * 1_000_000_000 / (
                rate as int),
        ;
        assert(lasting(nb_samples as int, rate as int) >= 0) by (nonlinear_arith)
            requires
                rate >= 1,
                nb_samples >= 0,
                lasting(nb_samples as int, rate as int) == nb_samples * 1_000_000_000 / (
                rate as int),
        ;
        self.next_ts = ts + (nb_samples as u128 * 1_000_000_000 / rate) as u64;
        Some(
            AudioFrame {
                aframe,
                nb_samples: nb_samples as i32,
                sample_rate: self.format.sample_rate,
                nb_channels: self.format.nb_channels,
                sample_fmt: self.format.sample_fmt,
                ts,
            },
        )
    }
}

/// The sound that goes out for one round after another, where the last one before them ended at
/// `next_ts`.
pub open spec fn sounds(
    next_ts: int,
    sample_rate: int,
    batches: Seq<Batch>,
    nows: Seq<int>,
) -> Seq<Outgoing>
    decreases batches.len(),
{
    if batches.len() == 0 {
        Seq::empty()
    } else {
        let out = outgoing(next_ts, sample_rate, batches[0], nows[0]);
        if goes_out(next_ts, sample_rate, batches[0], nows[0]) {
            seq![out] + sounds(
                out.ts + lasting(out.nb_samples, sample_rate),
                sample_rate,
                batches.drop_first(),
                nows.drop_first(),
            )
        } else {
            sounds(next_ts, sample_rate, batches.drop_first(), nows.drop_first())
        }
    }
}

proof fn lemma_outgoing_lasts(next_ts: int, sample_rate: int, batch: Batch, now: int)
    requires
        sample_rate > 0,
    ensures
        outgoing(next_ts, sample_rate, batch, now).nb_samples >= 0,
        outgoing(next_ts, sample_rate, batch, now).ts >= next_ts,
        lasting(outgoing(next_ts, sample_rate, batch, now).nb_samples, sample_rate) >= 0,
{
    let out = outgoing(next_ts, sample_rate, batch, now);
    let gap = if now > next_ts {
        now - next_ts
    } else {
        0
    };
    assert(gap * sample_rate >= 0) by (nonlinear_arith)
        requires
            gap >= 0,
            sample_rate > 0,
    ;
    assert(out.nb_samples * 1_000_000_000 / sample_rate >= 0) by (nonlinear_arith)
        requires
            out.nb_samples >= 0,
            sample_rate > 0,
    ;
}

/// No sound starts before the pump does, so its timestamps are set where the time is.
pub proof fn law_sounds_start_after(
    next_ts: int,
    sample_rate: int,
    batches: Seq<Batch>,
    nows: Seq<int>,
    i: int,
)
    requires
        sample_rate > 0,
        batches.len() == nows.len(),
        0 <= i < sounds(next_ts, sample_rate, batches, nows).len(),
    ensures
        sounds(next_ts, sample_rate, batches, nows)[i].ts >= next_ts,
    decreases batches.len(),
{
    let out = outgoing(next_ts, sample_rate, batches[0], nows[0]);
    lemma_outgoing_lasts(next_ts, sample_rate, batches[0], nows[0]);
    if goes_out(next_ts, sample_rate, batches[0], nows[0]) {
        if i > 0 {
            law_sounds_start_after(
                out.ts + lasting(out.nb_samples, sample_rate),
                sample_rate,
                batches.drop_first(),
                nows.drop_first(),
                i - 1,
            );
        }
    } else {
        law_sounds_start_after(
            next_ts,
            sample_rate,
            batches.drop_first(),
            nows.drop_first(),
            i,
        );
    }
}

/// Sound never starts before what went out earlier has ended: timestamps do not go back, and no
/// two frames overlap.
pub proof fn law_sounds_do_not_overlap(
    next_ts: int,
    sample_rate: int,
    batches: Seq<Batch>,
    nows: Seq<int>,
    i: int,
    j: int,
)
    requires
        sample_rate > 0,
        batches.len() == nows.len(),
        0 <= i < j < sounds(next_ts, sample_rate, batches, nows).len(),
    ensures
        sounds(next_ts, sample_rate, batches, nows)[j].ts >= sounds(
            next_ts,
            sample_rate,
            batches,
            nows,
        )[i].ts + lasting(
            sounds(next_ts, sample_rate, batches, nows)[i].nb_samples,
            sample_rate,
        ),
    decreases batches.len(),
{
    let out = outgoing(next_ts, sample_rate, batches[0], nows[0]);
    if goes_out(next_ts, sample_rate, batches[0], nows[0]) {
        let after = out.ts + lasting(out.nb_samples, sample_rate);
        if i == 0 {
            law_sounds_start_after(
                after,
                sample_rate,
                batches.drop_first(),
                nows.drop_first(),
                j - 1,
            );
        } else {
            law_sounds_do_not_overlap(
                after,
                sample_rate,
                batches.drop_first(),
                nows.drop_first(),
                i - 1,
                j - 1,
            );
        }
    } else {
        law_sounds_do_not_overlap(
            next_ts,
            sample_rate,
            batches.drop_first(),
            nows.drop_first(),
            i,
            j,
        );
    }
}

/// Silence never fills more than a second at once, nor more than the time that has passed.
pub proof fn law_silence_is_bounded(next_ts: int, sample_rate: int, batch: Batch, now: int)
    requires
        sample_rate > 0,
        batch.data().len() == 0,
    ensures
        outgoing(next_ts, sample_rate, batch, now).nb_samples <= sample_rate,
        now >= next_ts ==> next_ts + lasting(
            outgoing(next_ts, sample_rate, batch, now).nb_samples,
            sample_rate,
        ) <= now,
{
    if now >= next_ts {
        let gap = now - next_ts;
        let samples = gap * sample_rate / 1_000_000_000;
        let nb = outgoing(next_ts, sample_rate, batch, now).nb_samples;
        vstd::arithmetic::div_mod::lemma_fundamental_div_mod(gap * sample_rate, 1_000_000_000);
        assert(gap * sample_rate >= 0) by (nonlinear_arith)
            requires
                gap >= 0,
                sample_rate > 0,
        ;
        assert(nb * 1_000_000_000 <= gap * sample_rate);
        assert(nb * 1_000_000_000 / sample_rate <= gap) by (nonlinear_arith)
            requires
                nb * 1_000_000_000 <= gap * sample_rate,
                sample_rate > 0,
        ;
    }
}

/// Silence is the zero point of its format. Where nothing was played since a pump was made, the time
/// that has passed, up to a second of it, becomes bytes of value 128 in unsigned 8 bit samples and
/// of value 0 in all others.
pub proof fn law_silence_fills_the_gap(
    format: MixFormat,
    buffer_frames: u32,
    start: u64,
    made: AudioPump,
    batch: Batch,
    pump: &mut AudioPump,
    now: u64,
    frame: Option<AudioFrame>,
    i: int,
)
    requires
        call_ensures(AudioPump::new, (format, buffer_frames, start), made),
        *pump == made,
        call_ensures(Batch::new, (), batch),
        call_ensures(AudioPump::finish, (pump, batch, now), frame),
        format.sample_rate > 0,
        format.nb_channels >= 0,
        start <= now,
    ensures
        ({
            let passed = (now - start) * format.sample_rate / 1_000_000_000;
            let samples = if passed < format.sample_rate {
                passed
            } else {
                format.sample_rate as int
            };
            &&& frame is Some <==> samples > 0
            &&& frame is Some ==> {
                &&& frame->0.nb_samples == samples
                &&& frame->0.ts == start
                &&& frame->0.sample_rate == format.sample_rate
                &&& frame->0.nb_channels == format.nb_channels
                &&& frame->0.sample_fmt == format.sample_fmt
                &&& frame->0.aframe@.len() == samples * (format.nb_channels * format.sample_size)
                &&& 0 <= i < frame->0.aframe@.len() && format.sample_fmt is U8
                    ==> frame->0.aframe@[i] == 128
                &&& 0 <= i < frame->0.aframe@.len() && !(format.sample_fmt is U8)
                    ==> frame->0.aframe@[i] == 0
            }
        }),
{
    let passed = (now - start) * format.sample_rate / 1_000_000_000;
    let samples = if passed < format.sample_rate {
        passed
    } else {
        format.sample_rate as int
    };
    assert((now - start) * format.sample_rate >= 0) by (nonlinear_arith)
        requires
            start <= now,
            format.sample_rate > 0,
    ;
    assert(samples * (format.nb_channels * format.sample_size) >= 0) by (nonlinear_arith)
        requires
            samples >= 0,
            format.nb_channels >= 0,
            format.sample_size >= 0,
    ;
}

/// Silence is the zero point of its format also where other sound went before: a round without
/// packets gives out nothing but bytes of value 128 in unsigned 8 bit samples and of value 0 in all
/// others.
pub proof fn law_silence_is_the_zero_point(
    pump: &mut AudioPump,
    batch: Batch,
    now: u64,
    frame: Option<AudioFrame>,
    i: int,
)
    requires
        call_ensures(Batch::new, (), batch),
        call_ensures(AudioPump::finish, (pump, batch, now), frame),
        frame is Some,
        0 <= i < frame->0.aframe@.len(),
    ensures
        frame->0.sample_fmt is U8 ==> frame->0.aframe@[i] == 128,
        !(frame->0.sample_fmt is U8) ==> frame->0.aframe@[i] == 0,
{
}

/// What a packet adds to a round: as many bytes as its samples take in all channels, which are its
/// own where it is not silent, and the zero point of the format where it is.
pub proof fn law_packets_join(
    pump: &AudioPump,
    batch: &mut Batch,
    packet: &Packet,
    i: int,
)
    requires
        call_ensures(AudioPump::add_packet, (pump, batch, packet), ()),
        pump.format().nb_channels >= 0,
        packet.qpc * 100 <= u64::MAX,
        packet.silent || packet.nb_frames * (pump.format().nb_channels * pump.format().sample_size)
            <= packet.data@.len(),
        0 <= i < final(batch).data().len(),
    ensures
        ({
            let earlier = old(batch).data().len();
            let bytes = packet.nb_frames * (pump.format().nb_channels * pump.format().sample_size);
            &&& final(batch).data().len() == earlier + bytes
            &&& i < earlier ==> final(batch).data()[i] == old(batch).data()[i]
            &&& i >= earlier && !packet.silent ==> final(batch).data()[i] == packet.data@[i
                - earlier]
            &&& i >= earlier && packet.silent && pump.format().sample_fmt is U8 ==> final(batch).data()[i] == 128
            &&& i >= earlier && packet.silent && !(pump.format().sample_fmt is U8) ==> final(batch).data()[i] == 0
            &&& final(batch).nb_samples() == old(batch).nb_samples() + packet.nb_frames
            &&& old(batch).ts() is Some ==> final(batch).ts() == old(batch).ts()
            &&& old(batch).ts() is None ==> final(batch).ts() is Some && final(batch).ts()->0
                == packet.qpc * 100
        }),
{
    let bytes = packet.nb_frames * (pump.format().nb_channels * pump.format().sample_size);
    assert(bytes >= 0) by (nonlinear_arith)
        requires
            bytes == packet.nb_frames * (pump.format().nb_channels * pump.format().sample_size),
            pump.format().nb_channels >= 0,
            packet.nb_frames >= 0,
            pump.format().sample_size >= 0,
    ;
}

/// Sound that was played goes out as it is, at the time of its first packet, and never before what
/// went out last has ended; the next sound starts no earlier than this one ends.
pub proof fn law_sound_goes_out_as_it_is(
    first: &mut AudioPump,
    a: Batch,
    now: u64,
    frame: Option<AudioFrame>,
    second: &mut AudioPump,
    b: Batch,
    later: u64,
    next: Option<AudioFrame>,
)
    requires
        call_ensures(AudioPump::finish, (first, a, now), frame),
        *second == *final(first),
        call_ensures(AudioPump::finish, (second, b, later), next),
        a.data().len() > 0,
        a.nb_samples() <= i32::MAX,
        first.format().sample_rate > 0,
    ensures
        frame is Some,
        frame->0.aframe@ == a.data(),
        frame->0.nb_samples == a.nb_samples(),
        frame->0.sample_rate == old(first).format().sample_rate,
        frame->0.nb_channels == old(first).format().nb_channels,
        frame->0.sample_fmt == old(first).format().sample_fmt,
        final(first).format() == old(first).format(),
        final(first).next_ts() == frame->0.ts + frame->0.nb_samples * 1_000_000_000
            / (frame->0.sample_rate as int),
        frame->0.ts >= old(first).next_ts(),
        a.ts() is Some && a.ts()->0 >= old(first).next_ts() ==> frame->0.ts == a.ts()->0,
        a.ts() is Some && a.ts()->0 < old(first).next_ts() ==> frame->0.ts == old(first).next_ts(),
        next is Some ==> next->0.ts >= frame->0.ts + frame->0.nb_samples * 1_000_000_000
            / (frame->0.sample_rate as int),
{
    lemma_outgoing_lasts(
        second.next_ts() as int,
        second.format().sample_rate as int,
        b,
        later as int,
    );
}

/// Rounds are half of what the system has room for apart, and no more than 10 ms.
pub proof fn law_rounds_keep_up(
    format: MixFormat,
    buffer_frames: u32,
    now: u64,
    pump: AudioPump,
    poll: u64,
    nb_frames: u32,
    bytes: usize,
)
    requires
        call_ensures(AudioPump::new, (format, buffer_frames, now), pump),
        call_ensures(AudioPump::poll_interval, (&pump,), poll),
        call_ensures(AudioPump::packet_bytes, (&pump, nb_frames), bytes),
        format.sample_rate > 0,
    ensures
        poll <= 10_000_000,
        2 * poll <= 1_000_000_000 * buffer_frames / (format.sample_rate as int),
        poll < 10_000_000 ==> 1_000_000_000 * buffer_frames / (format.sample_rate as int) < 2 * poll
            + 2,
        bytes == nb_frames * (format.nb_channels * format.sample_size),
{
}

/// The sample formats that a mix format can stand for, by the values of its fields.
pub proof fn law_mix_formats(
    format: &WaveFormat,
    sample_fmt: Option<SampleFmt>,
    mix: Result<MixFormat, CaptureError>,
)
    requires
        call_ensures(wasapi_sample_fmt, (format,), sample_fmt),
        call_ensures(mix_format, (format,), mix),
    ensures
        ({
            let extended = format.tag == 0xfffe && format.cb_size >= 22;
            let float = format.tag == 3 || extended && format.sub_format
                == 0x00000003_0000_0010_8000_00aa00389b71;
            let pcm = format.tag == 1 || extended && format.sub_format
                == 0x00000001_0000_0010_8000_00aa00389b71;
            &&& sample_fmt == Some(SampleFmt::F32) <==> float && format.bits_per_sample == 32
            &&& sample_fmt == Some(SampleFmt::F64) <==> float && format.bits_per_sample == 64
            &&& sample_fmt == Some(SampleFmt::U8) <==> pcm && format.bits_per_sample == 8
            &&& sample_fmt == Some(SampleFmt::S16) <==> pcm && format.bits_per_sample == 16
            &&& sample_fmt == Some(SampleFmt::S32) <==> pcm && format.bits_per_sample == 32
            &&& sample_fmt is Some ==> sample_fmt->0 is F32 || sample_fmt->0 is F64 || sample_fmt->0
                is U8 || sample_fmt->0 is S16 || sample_fmt->0 is S32
        }),
        sample_fmt is Some ==> mix is Ok && mix->Ok_0.sample_fmt == sample_fmt->0
            && mix->Ok_0.sample_size * 8 == format.bits_per_sample && mix->Ok_0.nb_channels
            == format.channels,
        sample_fmt is Some && format.samples_per_sec <= i32::MAX ==> mix->Ok_0.sample_rate
            == format.samples_per_sec,
        sample_fmt is None ==> mix == Err::<MixFormat, CaptureError>(
            CaptureError::Unsupported(Unsupported::SampleFormat),
        ),
{
}

/// The time on the counter: whole nanoseconds, where the counter and its frequency can be read and
/// 64 bits hold them, and zero where they cannot be read.
pub proof fn law_counter_in_nanoseconds(frequency: i64, counter: Option<i64>, now: u64)
    requires
        call_ensures(qpc_now, (frequency, counter), now),
    ensures
        frequency > 0 && counter is Some && counter->0 >= 0 && counter->0 * 1_000_000_000
            / (frequency as int) <= u64::MAX ==> {
            &&& now * frequency <= counter->0 * 1_000_000_000
            &&& (now + 1) * frequency > counter->0 * 1_000_000_000
        },
        frequency > 0 && counter is Some && counter->0 >= 0 ==> now == counter->0 * 1_000_000_000
            / (frequency as int) % 0x1_0000_0000_0000_0000,
        frequency <= 0 || counter is None || counter->0 < 0 ==> now == 0,
{
    if frequency > 0 && counter is Some && counter->0 >= 0 {
        let n = counter->0 * 1_000_000_000;
        let f = frequency as int;
        vstd::arithmetic::div_mod::lemma_fundamental_div_mod(n, f);
        vstd::arithmetic::div_mod::lemma_div_pos_is_pos(n, f);
        let q = n / f;
        assert(q * f <= n && (q + 1) * f > n) by (nonlinear_arith)
            requires
                n == f * q + n % f,
                0 <= n % f < f,
        ;
    }
}

/// Every packet can be taken that holds the samples it counts, as long as time and sound stay within
/// the limits of the machine.
pub proof fn law_whole_packets_are_taken(
    pump: &AudioPump,
    batch: &Batch,
    packet: &Packet,
    can: bool,
)
    requires
        call_ensures(AudioPump::can_add, (pump, batch, packet), can),
    ensures
        can <==> {
            let bytes = packet.nb_frames * (pump.format().nb_channels * pump.format().sample_size);
            &&& packet.qpc * 100 <= u64::MAX
            &&& batch.nb_samples() + packet.nb_frames <= u32::MAX
            &&& batch.data().len() + bytes <= usize::MAX
            &&& packet.silent || bytes <= packet.data@.len()
        },
{
}

/// Every round with sound can be finished whose sound ends within 64 bits of nanoseconds, and every
/// round without whose silence does and fits into memory, certainly one in which no time has passed.
pub proof fn law_rounds_can_be_finished(pump: &AudioPump, batch: &Batch, now: u64, can: bool)
    requires
        call_ensures(AudioPump::can_finish, (pump, batch, now), can),
        pump.format().sample_rate > 0,
    ensures
        batch.data().len() > 0 ==> (can <==> (if batch.ts() is Some && batch.ts()->0
            > pump.next_ts() {
            batch.ts()->0
        } else {
            pump.next_ts()
        }) + batch.nb_samples() * 1_000_000_000 / (pump.format().sample_rate as int)
            <= u64::MAX),
        batch.data().len() == 0 && now <= pump.next_ts() ==> can,
        batch.data().len() == 0 && now > pump.next_ts() ==> {
            let rate = pump.format().sample_rate as int;
            let passed = (now - pump.next_ts()) * rate / 1_000_000_000;
            let samples = if passed < rate {
                passed
            } else {
                rate
            };
            can <==> samples <= 0 || pump.next_ts() + samples * 1_000_000_000 / rate <= u64::MAX
                && samples * (pump.format().nb_channels * pump.format().sample_size) <= usize::MAX
        },
{
    assert(0 * pump.format().sample_rate == 0) by (nonlinear_arith);
}

/// A round without packets fills the time since the last sound ended, up to a second of it, and what
/// it gives out starts where the last sound ended.
pub proof fn law_gaps_are_as_long_as_they_last(
    pump: &mut AudioPump,
    batch: Batch,
    now: u64,
    frame: Option<AudioFrame>,
)
    requires
        call_ensures(Batch::new, (), batch),
        call_ensures(AudioPump::finish, (pump, batch, now), frame),
        pump.format().sample_rate > 0,
    ensures
        ({
            let rate = old(pump).format().sample_rate as int;
            let gap = if now > old(pump).next_ts() {
                now - old(pump).next_ts()
            } else {
                0
            };
            let samples = if gap * rate / 1_000_000_000 < rate {
                gap * rate / 1_000_000_000
            } else {
                rate
            };
            &&& frame is Some <==> samples > 0
            &&& frame is Some ==> {
                &&& frame->0.nb_samples == samples
                &&& frame->0.ts == old(pump).next_ts()
                &&& frame->0.aframe@.len() == samples * (old(pump).format().nb_channels
                    * old(pump).format().sample_size)
                &&& final(pump).next_ts() == old(pump).next_ts() + samples * 1_000_000_000 / rate
            }
            &&& frame is None ==> final(pump).next_ts() == old(pump).next_ts()
        }),
{
}

/// A packet from beginning to end: the first one of a pump that holds sound goes out as it is, with its
/// own count of samples, at its own time or where the pump starts, whichever is later.
pub proof fn law_first_packet_goes_out(
    format: MixFormat,
    buffer_frames: u32,
    start: u64,
    made: AudioPump,
    empty: Batch,
    batch: &mut Batch,
    packet: &Packet,
    pump: &mut AudioPump,
    now: u64,
    frame: Option<AudioFrame>,
    i: int,
)
    requires
        call_ensures(AudioPump::new, (format, buffer_frames, start), made),
        call_ensures(Batch::new, (), empty),
        *batch == empty,
        call_ensures(AudioPump::add_packet, (&made, batch, packet), ()),
        *pump == made,
        call_ensures(AudioPump::finish, (pump, *final(batch), now), frame),
        format.sample_rate > 0,
        packet.qpc * 100 <= u64::MAX,
        packet.nb_frames <= i32::MAX,
        0 < packet.nb_frames * (format.nb_channels * format.sample_size),
        packet.silent || packet.nb_frames * (format.nb_channels * format.sample_size)
            <= packet.data@.len(),
    ensures
        frame is Some,
        frame->0.nb_samples == packet.nb_frames,
        frame->0.aframe@.len() == packet.nb_frames * (format.nb_channels * format.sample_size),
        0 <= i < frame->0.aframe@.len() && !packet.silent ==> frame->0.aframe@[i]
            == packet.data@[i],
        0 <= i < frame->0.aframe@.len() && packet.silent && format.sample_fmt is U8
            ==> frame->0.aframe@[i] == 128,
        0 <= i < frame->0.aframe@.len() && packet.silent && !(format.sample_fmt is U8)
            ==> frame->0.aframe@[i] == 0,
        packet.qpc * 100 >= start ==> frame->0.ts == packet.qpc * 100,
        packet.qpc * 100 < start ==> frame->0.ts == start,
        frame->0.sample_rate == format.sample_rate,
        frame->0.nb_channels == format.nb_channels,
        frame->0.sample_fmt == format.sample_fmt,
        final(pump).next_ts() == frame->0.ts + packet.nb_frames * 1_000_000_000
            / (format.sample_rate as int),
{
}

/// A round starts only where the wait ran its course and nobody has ended the capture, which ends over
/// a frame only where nobody is listening any more.
pub proof fn law_rounds_start_and_end(
    terminated: bool,
    waited: Waited,
    starts: bool,
    published: Published,
    ends: bool,
)
    requires
        call_ensures(starts_round, (terminated, waited), starts),
        call_ensures(ends_capture, (published,), ends),
    ensures
        waited is TimedOut && !terminated ==> starts,
        waited is Woken || waited is Disconnected || terminated ==> !starts,
        published is Sent || published is Full ==> !ends,
        published is Disconnected ==> ends,
{
}

} // verus!
