//! What becomes of the textures of Windows.Graphics.Capture and of the packets of WASAPI.

use crate::config::Target;
use crate::error::CaptureError;
use crate::muxed::config::{PIX_FMT_BGRA, SAMPLE_FMT_FLT};
use crate::scrframe::Frame;
use crate::util::pack_rows;
use crate::windows::audio::Packet;
use crate::windows::capture::{Desktop, ItemSource};
use vstd::prelude::*;
use vstd::slice::slice_subrange;

verus! {

/// Whether the target is one that can be captured: neither a picker nor a title.
pub open spec fn is_direct(target: Target) -> bool {
    target is Primary || target is Monitor || target is Window
}

/// Whether the target is one that can be captured.
pub fn can_capture(target: &Target) -> (can: bool)
    ensures
        can == is_direct(*target),
{
    match target {
        Target::Primary | Target::Monitor(_) | Target::Window(_) => true,
        Target::WindowName(_) | Target::Pick | Target::PickFrom(_) => false,
    }
}

/// What to make a capture item for.
pub fn capture_item(target: &Target, desktop: &Desktop) -> (source: Result<
    ItemSource,
    CaptureError,
>)
    requires
        is_direct(*target),
        *target is Primary ==> desktop.primary is Some,
    ensures
        match *target {
            Target::Primary => source == Ok::<ItemSource, CaptureError>(
                ItemSource::Monitor(desktop.primary->0),
            ),
            Target::Monitor(index) => source == if 0 <= index < desktop.monitors@.len() {
                Ok(ItemSource::Monitor(desktop.monitors@[index as int]))
            } else {
                Err(CaptureError::TargetNotFound)
            },
            Target::Window(hwnd) => source == Ok::<ItemSource, CaptureError>(
                ItemSource::Window(hwnd),
            ),
            _ => true,
        },
{
    crate::windows::capture::capture_item(target, desktop)
}

/// The frame that a mapped texture holds: its rows, without their padding. `None` where nothing
/// is mapped, or where rows are too close to one another to be whole.
pub fn video_frame(mapped: Option<&[u8]>, row_pitch: u32, width: u32, height: u32) -> (frame:
    Option<Frame>)
    requires
        mapped is Some && row_pitch >= width * 4 ==> row_pitch * height <= mapped->0@.len(),
    ensures
        frame is Some <==> mapped is Some && row_pitch >= width * 4,
        match frame {
            Some(Frame::Video { vframe, size, pix_fmt }) => {
                &&& vframe@ == crate::util::packed(
                    mapped->0@,
                    row_pitch as nat,
                    (width * 4) as nat,
                    height as nat,
                )
                &&& vframe@.len() == width * height * 4
                &&& size == (width, height)
                &&& pix_fmt == PIX_FMT_BGRA
            },
            Some(Frame::Audio { .. }) => false,
            None => true,
        },
{
    let row_bytes: usize = match (width as usize).checked_mul(4) {
        Some(row_bytes) => row_bytes,
        None => return None,
    };
    let vframe = match pack_rows(mapped, row_pitch as usize, row_bytes, height as usize) {
        None => return None,
        Some(vframe) => vframe,
    };
    assert(row_bytes * height == width * height * 4) by (nonlinear_arith)
        requires
            row_bytes == width * 4,
    ;
    Some(Frame::Video { vframe, size: (width, height), pix_fmt: PIX_FMT_BGRA })
}

/// The sound that the system plays.
#[derive(Debug, Clone, Copy)]
pub struct AudioFormat {
    /// Samples per second.
    pub sample_rate: i32,
    /// Channels.
    pub nb_channels: i32,
    /// Bytes of one sample of one channel.
    pub sample_size: usize,
    /// Samples per channel that the system has room for.
    pub buffer_frames: u32,
}

impl AudioFormat {
    /// Whether sound can be counted in the format, and half a buffer fits into memory.
    pub open spec fn valid(self) -> bool {
        &&& self.sample_rate > 0
        &&& self.nb_channels >= 0
        &&& self.buffer_frames * self.nb_channels * self.sample_size <= usize::MAX
        &&& self.nb_channels * self.sample_size <= usize::MAX
    }

    /// Bytes of one sample of all channels.
    pub open spec fn frame_bytes(self) -> int {
        self.nb_channels * self.sample_size
    }

    /// Bytes of half a buffer.
    pub open spec fn half_bytes(self) -> int {
        self.buffer_frames * self.nb_channels * self.sample_size / 2
    }
}

/// Nanoseconds to sleep from one round to the next: half of what the buffer lasts.
pub fn poll_interval(format: &AudioFormat) -> (poll: u64)
    requires
        format.valid(),
    ensures
        poll == 1_000_000_000 * format.buffer_frames / (format.sample_rate as int) / 2,
{
    1_000_000_000u64 * format.buffer_frames as u64 / format.sample_rate as u64 / 2
}

/// The samples of the packets that are not silent, one after the other.
pub open spec fn heard(packets: Seq<Packet>, frame_bytes: int) -> Seq<u8>
    decreases packets.len(),
{
    if packets.len() == 0 {
        Seq::empty()
    } else {
        let packet = packets.last();
        let earlier = heard(packets.drop_last(), frame_bytes);
        if packet.silent {
            earlier
        } else {
            earlier + packet.data@.take(packet.nb_frames * frame_bytes)
        }
    }
}

/// The number of samples per channel in the packets that are not silent.
pub open spec fn heard_samples(packets: Seq<Packet>) -> int
    decreases packets.len(),
{
    if packets.len() == 0 {
        0
    } else {
        let packet = packets.last();
        heard_samples(packets.drop_last()) + if packet.silent {
            0
        } else {
            packet.nb_frames as int
        }
    }
}

/// Whether every packet that is not silent holds the samples it counts.
pub open spec fn whole(packets: Seq<Packet>, frame_bytes: int) -> bool {
    forall|i: int|
        0 <= i < packets.len() && !(#[trigger] packets[i]).silent ==> packets[i].nb_frames
            * frame_bytes <= packets[i].data@.len()
}

proof fn lemma_heard_samples_grow(packets: Seq<Packet>, i: int)
    requires
        0 <= i <= packets.len(),
    ensures
        0 <= heard_samples(packets.take(i)) <= heard_samples(packets),
    decreases packets.len(),
{
    if i < packets.len() {
        lemma_heard_samples_grow(packets.drop_last(), i);
        assert(packets.drop_last().take(i) =~= packets.take(i));
    } else {
        assert(packets.take(i) =~= packets);
        if packets.len() > 0 {
            lemma_heard_samples_grow(packets.drop_last(), i - 1);
        }
    }
}

/// The frame of a round that brought the given packets. Silent packets are left out; where
/// nothing is left, half a buffer of zeros stands in.
pub fn audio_frame(format: &AudioFormat, packets: &Vec<Packet>) -> (frame: Frame)
    requires
        format.valid(),
        whole(packets@, format.frame_bytes()),
        heard_samples(packets@) <= u32::MAX,
    ensures
        match frame {
            Frame::Audio { aframe, nb_samples, sample_rate, nb_channels, sample_fmt } => {
                let sound = heard(packets@, format.frame_bytes());
                &&& sound.len() > 0 ==> {
                    &&& aframe@ == sound
                    &&& nb_samples == heard_samples(packets@) as i32
                }
                &&& sound.len() == 0 ==> {
                    &&& aframe@ == Seq::new(format.half_bytes() as nat, |i: int| 0u8)
                    &&& nb_samples == (format.buffer_frames / 2) as i32
                }
                &&& sample_rate == format.sample_rate
                &&& nb_channels == format.nb_channels
                &&& sample_fmt == SAMPLE_FMT_FLT
            },
            Frame::Video { .. } => false,
        },
{
    let frame_bytes: usize = format.nb_channels as usize * format.sample_size;
    let mut aframe: Vec<u8> = Vec::new();
    let mut nb_samples: u32 = 0;
    let mut i: usize = 0;
    assert(heard(packets@.take(0), frame_bytes as int) =~= aframe@);
    while i < packets.len()
        invariant
            i <= packets@.len(),
            whole(packets@, frame_bytes as int),
            heard_samples(packets@) <= u32::MAX,
            aframe@ == heard(packets@.take(i as int), frame_bytes as int),
            nb_samples == heard_samples(packets@.take(i as int)),
        decreases packets@.len() - i,
    {
        assert(packets@.take(i + 1).drop_last() =~= packets@.take(i as int));
        assert(packets@.take(i + 1).last() == packets@[i as int]);
        proof {
            lemma_heard_samples_grow(packets@, i + 1);
        }
        let packet = packets[i];
        if !packet.silent {
            assert(0 <= packet.nb_frames * frame_bytes) by (nonlinear_arith);
            let limit: usize = packet.data.len();
            assert(packet.nb_frames * frame_bytes <= limit);
            let part = slice_subrange(packet.data, 0, packet.nb_frames as usize * frame_bytes);
            let ghost before = aframe@;
            aframe.extend_from_slice(part);
            assert(aframe@ =~= before + packet.data@.take(packet.nb_frames * frame_bytes));
            nb_samples = nb_samples + packet.nb_frames;
        }
        i = i + 1;
    }
    assert(packets@.take(i as int) =~= packets@);
    if aframe.len() == 0 {
        let half: usize = half_bytes(format);
        aframe.resize(half, 0);
        assert(aframe@ =~= Seq::new(half as nat, |i: int| 0u8));
        nb_samples = format.buffer_frames / 2;
    }
    Frame::Audio {
        aframe,
        nb_samples: #[verifier::truncate]
        (nb_samples as i32),
        sample_rate: format.sample_rate,
        nb_channels: format.nb_channels,
        sample_fmt: SAMPLE_FMT_FLT,
    }
}

fn half_bytes(format: &AudioFormat) -> (bytes: usize)
    requires
        format.valid(),
    ensures
        bytes == format.half_bytes(),
{
    if format.sample_size == 0 {
        return 0;
    }
    assert(format.buffer_frames * format.nb_channels <= format.buffer_frames * format.nb_channels
        * format.sample_size && format.buffer_frames * format.nb_channels >= 0)
        by (nonlinear_arith)
        requires
            format.sample_size >= 1,
            format.nb_channels >= 0,
    ;
    format.buffer_frames as usize * format.nb_channels as usize * format.sample_size / 2
}

/// The picture that a mapped texture holds: byte `k` of row `row` is the byte at that place of that
/// row in the texture, whose rows start `row_pitch` bytes apart.
pub proof fn law_rows_of_a_texture(
    mapped: Option<&[u8]>,
    row_pitch: u32,
    width: u32,
    height: u32,
    frame: Option<Frame>,
    row: int,
    k: int,
)
    requires
        call_ensures(video_frame, (mapped, row_pitch, width, height), frame),
        0 <= row < height,
        0 <= k < width * 4,
    ensures
        frame is Some <==> mapped is Some && row_pitch >= width * 4,
        frame is Some ==> {
            &&& frame->0 is Video
            &&& frame->0->vframe@.len() == width * height * 4
            &&& frame->0->vframe@[row * (width * 4) + k] == mapped->0@[row * row_pitch + k]
            &&& frame->0->size == (width, height)
            &&& frame->0->pix_fmt == 28
        },
{
    if frame is Some {
        crate::util::lemma_packed_at(
            mapped->0@,
            row_pitch as nat,
            (width * 4) as nat,
            height as nat,
            row,
            k,
        );
    }
}

/// Which targets can be captured.
pub proof fn law_direct_targets(target: &Target, can: bool)
    requires
        call_ensures(can_capture, (target,), can),
    ensures
        *target is Primary || *target is Monitor || *target is Window ==> can,
        *target is WindowName || *target is Pick || *target is PickFrom ==> !can,
{
}

proof fn lemma_heard_at_all(packets: Seq<Packet>, frame_bytes: int, j: int)
    requires
        0 <= j < packets.len(),
        !packets[j].silent,
        0 < packets[j].nb_frames * frame_bytes <= packets[j].data@.len(),
    ensures
        heard(packets, frame_bytes).len() > 0,
    decreases packets.len(),
{
    if j < packets.len() - 1 {
        lemma_heard_at_all(packets.drop_last(), frame_bytes, j);
    }
}

/// What a packet adds to a round that has sound already: nothing where it is silent, else as many of
/// its bytes as its samples take in all channels, behind those of the packets before it.
pub proof fn law_packets_join(
    format: &AudioFormat,
    packets: &Vec<Packet>,
    frame: Frame,
    more: &Vec<Packet>,
    packet: Packet,
    longer: Frame,
    k: int,
    j: int,
)
    requires
        call_ensures(audio_frame, (format, packets), frame),
        call_ensures(audio_frame, (format, more), longer),
        more@ == packets@.push(packet),
        0 <= j < packets@.len(),
        !packets@[j].silent,
        0 < packets@[j].nb_frames * (format.nb_channels * format.sample_size)
            <= packets@[j].data@.len(),
        format.nb_channels >= 0,
        packet.silent || packet.nb_frames * (format.nb_channels * format.sample_size)
            <= packet.data@.len(),
        0 <= k < packet.nb_frames * (format.nb_channels * format.sample_size),
    ensures
        frame is Audio,
        longer is Audio,
        packet.silent ==> longer->aframe@ == frame->aframe@ && longer->nb_samples
            == frame->nb_samples,
        !packet.silent ==> {
            let before = frame->aframe@;
            let bytes = packet.nb_frames * (format.nb_channels * format.sample_size);
            &&& longer->aframe@.len() == before.len() + bytes
            &&& longer->aframe@.take(before.len() as int) == before
            &&& longer->aframe@[before.len() + k] == packet.data@[k]
            &&& heard_samples(packets@) + packet.nb_frames <= i32::MAX && heard_samples(packets@)
                >= 0 ==> longer->nb_samples == frame->nb_samples + packet.nb_frames
        },
        longer->sample_rate == format.sample_rate,
        longer->nb_channels == format.nb_channels,
        longer->sample_fmt == 3,
{
    assert(more@.drop_last() =~= packets@);
    lemma_heard_at_all(packets@, format.frame_bytes(), j);
    let before = heard(packets@, format.frame_bytes());
    if !packet.silent {
        let bytes = packet.nb_frames * (format.nb_channels * format.sample_size);
        assert(longer->aframe@ =~= before + packet.data@.take(bytes));
        assert(longer->aframe@.take(before.len() as int) =~= before);
    }
}

/// A round of one packet that is not silent gives out its sound, and one of silence alone, or of
/// nothing, half a buffer of zeros.
pub proof fn law_rounds_of_little(
    format: &AudioFormat,
    none: &Vec<Packet>,
    quiet: Frame,
    single: &Vec<Packet>,
    packet: Packet,
    frame: Frame,
    i: int,
)
    requires
        call_ensures(audio_frame, (format, none), quiet),
        none@.len() == 0 || none@.len() == 1 && none@[0].silent,
        call_ensures(audio_frame, (format, single), frame),
        single@ == seq![packet],
        !packet.silent,
        format.nb_channels >= 0,
        0 < packet.nb_frames * (format.nb_channels * format.sample_size) <= packet.data@.len(),
    ensures
        quiet is Audio,
        quiet->aframe@.len() == format.buffer_frames * format.nb_channels * format.sample_size / 2,
        0 <= i < quiet->aframe@.len() ==> quiet->aframe@[i] == 0,
        format.buffer_frames / 2 <= i32::MAX ==> quiet->nb_samples == format.buffer_frames / 2,
        frame is Audio,
        frame->aframe@ == packet.data@.take(
            packet.nb_frames * (format.nb_channels * format.sample_size),
        ),
        packet.nb_frames <= i32::MAX ==> frame->nb_samples == packet.nb_frames,
{
    reveal_with_fuel(heard, 3);
    reveal_with_fuel(heard_samples, 3);
    let bytes = packet.nb_frames * (format.nb_channels * format.sample_size);
    assert(heard(single@, format.frame_bytes()) =~= packet.data@.take(bytes));
    assert(format.buffer_frames * format.nb_channels * format.sample_size >= 0)
        by (nonlinear_arith)
        requires
            format.buffer_frames >= 0,
            format.nb_channels >= 0,
            format.sample_size >= 0,
    ;
}

/// What a target is looked up as: the primary monitor, the monitor at an index, or the window with a
/// handle; and a monitor that is not there is not found.
pub proof fn law_targets_are_looked_up(
    target: &Target,
    desktop: &Desktop,
    source: Result<ItemSource, CaptureError>,
)
    requires
        call_ensures(capture_item, (target, desktop), source),
    ensures
        *target is Primary && desktop.primary is Some ==> source == Ok::<ItemSource, CaptureError>(
            ItemSource::Monitor(desktop.primary->0),
        ),
        *target is Monitor && 0 <= target->Monitor_0 < desktop.monitors@.len() ==> source == Ok::<
            ItemSource,
            CaptureError,
        >(ItemSource::Monitor(desktop.monitors@[target->Monitor_0 as int])),
        *target is Monitor && !(0 <= target->Monitor_0 < desktop.monitors@.len()) ==> source is Err
            && source->Err_0 is TargetNotFound,
        *target is Window ==> source == Ok::<ItemSource, CaptureError>(
            ItemSource::Window(target->Window_0),
        ),
{
}

/// Rounds are half of what the system has room for apart.
pub proof fn law_rounds_keep_up(format: &AudioFormat, poll: u64)
    requires
        call_ensures(poll_interval, (format,), poll),
        format.sample_rate > 0,
    ensures
        2 * poll <= 1_000_000_000 * format.buffer_frames / (format.sample_rate as int),
        1_000_000_000 * format.buffer_frames / (format.sample_rate as int) < 2 * poll + 2,
{
}

proof fn lemma_all_silent(packets: Seq<Packet>, frame_bytes: int)
    requires
        forall|i: int| 0 <= i < packets.len() ==> (#[trigger] packets[i]).silent,
    ensures
        heard(packets, frame_bytes) == Seq::<u8>::empty(),
        heard_samples(packets) == 0,
    decreases packets.len(),
{
    if packets.len() > 0 {
        let front = packets.drop_last();
        assert forall|i: int| 0 <= i < front.len() implies (#[trigger] front[i]).silent by {
            assert(front[i] == packets[i]);
        }
        lemma_all_silent(front, frame_bytes);
    }
}

/// A silent packet is left out, whatever its data is and whatever came before it.
pub proof fn law_silent_packets_are_left_out(
    format: &AudioFormat,
    packets: &Vec<Packet>,
    frame: Frame,
    more: &Vec<Packet>,
    packet: Packet,
    longer: Frame,
)
    requires
        call_ensures(audio_frame, (format, packets), frame),
        call_ensures(audio_frame, (format, more), longer),
        more@ == packets@.push(packet),
        packet.silent,
    ensures
        frame is Audio,
        longer is Audio,
        longer->aframe@ == frame->aframe@,
        longer->nb_samples == frame->nb_samples,
{
    assert(more@.drop_last() =~= packets@);
}

/// However many silent packets there are, a round of them gives out half a buffer of zeros, and the
/// first sound after them goes out as it is.
pub proof fn law_sound_after_silence(
    format: &AudioFormat,
    packets: &Vec<Packet>,
    quiet: Frame,
    more: &Vec<Packet>,
    packet: Packet,
    frame: Frame,
    i: int,
)
    requires
        call_ensures(audio_frame, (format, packets), quiet),
        forall|j: int| 0 <= j < packets@.len() ==> (#[trigger] packets@[j]).silent,
        call_ensures(audio_frame, (format, more), frame),
        more@ == packets@.push(packet),
        !packet.silent,
        format.nb_channels >= 0,
        0 < packet.nb_frames * (format.nb_channels * format.sample_size) <= packet.data@.len(),
    ensures
        quiet is Audio,
        quiet->aframe@.len() == format.buffer_frames * format.nb_channels * format.sample_size / 2,
        0 <= i < quiet->aframe@.len() ==> quiet->aframe@[i] == 0,
        quiet->nb_samples == (format.buffer_frames / 2) as i32,
        quiet->sample_rate == format.sample_rate,
        quiet->nb_channels == format.nb_channels,
        quiet->sample_fmt == 3,
        frame is Audio,
        frame->aframe@ == packet.data@.take(
            packet.nb_frames * (format.nb_channels * format.sample_size),
        ),
        frame->nb_samples == packet.nb_frames as i32,
{
    lemma_all_silent(packets@, format.frame_bytes());
    assert(more@.drop_last() =~= packets@);
    let bytes = packet.nb_frames * (format.nb_channels * format.sample_size);
    assert(heard(more@, format.frame_bytes()) =~= packet.data@.take(bytes));
    assert(format.buffer_frames * format.nb_channels * format.sample_size >= 0)
        by (nonlinear_arith)
        requires
            format.buffer_frames >= 0,
            format.nb_channels >= 0,
            format.sample_size >= 0,
    ;
}

proof fn lemma_heard_samples_at_most(packets: Seq<Packet>, most: int)
    requires
        forall|i: int| 0 <= i < packets.len() ==> (#[trigger] packets[i]).nb_frames <= most,
        most >= 0,
    ensures
        0 <= heard_samples(packets) <= packets.len() * most,
    decreases packets.len(),
{
    if packets.len() > 0 {
        let front = packets.drop_last();
        assert forall|i: int| 0 <= i < front.len() implies (#[trigger] front[i]).nb_frames
            <= most by {
            assert(front[i] == packets[i]);
        }
        lemma_heard_samples_at_most(front, most);
        assert(packets.last() == packets[packets.len() - 1]);
        assert((packets.len() - 1) * most + most == packets.len() * most) by (nonlinear_arith);
    }
}

/// Each packet with sound counts with its own samples, as far as 31 bits hold them all.
pub proof fn law_samples_are_counted(
    format: &AudioFormat,
    packets: &Vec<Packet>,
    frame: Frame,
    more: &Vec<Packet>,
    packet: Packet,
    longer: Frame,
    j: int,
    most: int,
)
    requires
        call_ensures(audio_frame, (format, packets), frame),
        call_ensures(audio_frame, (format, more), longer),
        more@ == packets@.push(packet),
        !packet.silent,
        0 <= j < packets@.len(),
        !packets@[j].silent,
        0 < packets@[j].nb_frames * (format.nb_channels * format.sample_size)
            <= packets@[j].data@.len(),
        most >= 0,
        forall|i: int| 0 <= i < more@.len() ==> (#[trigger] more@[i]).nb_frames <= most,
        more@.len() * most <= i32::MAX,
    ensures
        longer->nb_samples == frame->nb_samples + packet.nb_frames,
{
    lemma_heard_at_all(packets@, format.frame_bytes(), j);
    lemma_heard_at_all(more@, format.frame_bytes(), j);
    assert(more@.drop_last() =~= packets@);
    assert(more@[packets@.len() as int] == packet);
    assert forall|i: int| 0 <= i < packets@.len() implies (#[trigger] packets@[i]).nb_frames
        <= most by {
        assert(packets@[i] == more@[i]);
    }
    lemma_heard_samples_at_most(packets@, most);
    lemma_heard_samples_at_most(more@, most);
    assert(packets@.len() * most <= more@.len() * most) by (nonlinear_arith)
        requires
            packets@.len() <= more@.len(),
            most >= 0,
    ;
}

} // verus!
