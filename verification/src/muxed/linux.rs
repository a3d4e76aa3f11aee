//! What becomes of the buffers of PipeWire.

use crate::muxed::config::{PIX_FMT_BGRA, SAMPLE_FMT_FLTP};
use crate::scrframe::Frame;
use crate::util::pack_rows;
use vstd::prelude::*;

verus! {

/// What a buffer of the video stream leads to.
pub enum VideoStep {
    /// Leave the loop.
    Quit,
    /// Nothing.
    Nothing,
    /// Send a frame.
    Send(Frame),
}

/// Bytes from one row of a plane to the next; a stride of 0 or less says nothing, and rows then
/// follow one another.
pub open spec fn row_pitch(stride: i32, width: u32) -> int {
    if stride > 0 {
        stride as int
    } else {
        width * 4
    }
}

/// Whether a plane holds all rows of a frame of the given size, and each of them whole.
pub open spec fn holds_frame(plane: Seq<u8>, stride: i32, size: (u32, u32)) -> bool {
    &&& row_pitch(stride, size.0) >= size.0 * 4
    &&& row_pitch(stride, size.0) * size.1 <= plane.len()
}

/// The rows of a frame of the given size, without their padding.
fn frame_rows(plane: &[u8], stride: i32, size: (u32, u32)) -> (rows: Option<Vec<u8>>)
    ensures
        rows is Some <==> holds_frame(plane@, stride, size),
        rows is Some ==> rows->0@ == crate::util::packed(
            plane@,
            row_pitch(stride, size.0) as nat,
            (size.0 * 4) as nat,
            size.1 as nat,
        ),
        rows is Some ==> rows->0@.len() == size.0 * size.1 * 4,
{
    let (width, height) = size;
    let ghost pitch = row_pitch(stride, width);
    if height == 0 {
        if stride > 0 && (stride as u64) < width as u64 * 4 {
            return None;
        }
        assert(width * height * 4 == 0) by (nonlinear_arith)
            requires
                height == 0,
        ;
        let rows: Vec<u8> = Vec::new();
        assert(rows@ =~= crate::util::packed(plane@, pitch as nat, (width * 4) as nat, 0));
        return Some(rows);
    }
    assert(pitch * height >= pitch) by (nonlinear_arith)
        requires
            pitch >= 0,
            height >= 1,
    ;
    let total: usize = plane.len();
    let row_bytes: usize = match (width as usize).checked_mul(4) {
        Some(row_bytes) => row_bytes,
        None => return None,
    };
    let stride: usize = if stride > 0 {
        stride as usize
    } else {
        row_bytes
    };
    let want: usize = match stride.checked_mul(height as usize) {
        Some(want) => want,
        None => return None,
    };
    if total < want {
        return None;
    }
    assert(row_bytes * height == width * height * 4) by (nonlinear_arith)
        requires
            row_bytes == width * 4,
    ;
    pack_rows(Some(plane), stride, row_bytes, height as usize)
}

/// What a buffer of the video stream leads to. `planes` holds the filled part of each plane, and
/// `stride` is that of the first of them; a frame is its rows, without their padding.
pub fn video_process_callback(
    terminated: bool,
    planes: &Vec<&[u8]>,
    stride: i32,
    size: (u32, u32),
) -> (step: VideoStep)
    ensures
        step is Quit <==> terminated,
        step is Send <==> !terminated && planes@.len() > 0 && holds_frame(
            planes@[0]@,
            stride,
            size,
        ),
        match step {
            VideoStep::Send(Frame::Video { vframe, size: frame_size, pix_fmt }) => {
                &&& vframe@ == crate::util::packed(
                    planes@[0]@,
                    row_pitch(stride, size.0) as nat,
                    (size.0 * 4) as nat,
                    size.1 as nat,
                )
                &&& vframe@.len() == size.0 * size.1 * 4
                &&& frame_size == size
                &&& pix_fmt == PIX_FMT_BGRA
            },
            VideoStep::Send(Frame::Audio { .. }) => false,
            _ => true,
        },
{
    if terminated {
        return VideoStep::Quit;
    }
    if planes.len() < 1 {
        return VideoStep::Nothing;
    }
    match frame_rows(planes[0], stride, size) {
        Some(vframe) => VideoStep::Send(Frame::Video { vframe, size, pix_fmt: PIX_FMT_BGRA }),
        None => VideoStep::Nothing,
    }
}

/// The planes, one after the other.
pub open spec fn back_to_back(planes: Seq<&[u8]>) -> Seq<u8>
    decreases planes.len(),
{
    if planes.len() == 0 {
        Seq::empty()
    } else {
        back_to_back(planes.drop_last()) + planes.last()@
    }
}

/// The frame that a buffer of the audio stream stands for: every plane whole, and as many samples
/// as the first of them has.
pub fn audio_process_callback(planes: &Vec<&[u8]>, rate: u32, channels: u32) -> (frame: Option<
    Frame,
>)
    ensures
        frame is Some <==> planes@.len() > 0,
        match frame {
            Some(Frame::Audio { aframe, nb_samples, sample_rate, nb_channels, sample_fmt }) => {
                &&& aframe@ == back_to_back(planes@)
                &&& nb_samples == (planes@[0]@.len() / 4) as i32
                &&& sample_rate == rate as i32
                &&& nb_channels == channels as i32
                &&& sample_fmt == SAMPLE_FMT_FLTP
            },
            Some(Frame::Video { .. }) => false,
            None => true,
        },
{
    if planes.len() < 1 {
        return None;
    }
    let nb_samples: usize = planes[0].len() / 4;
    let mut aframe: Vec<u8> = Vec::new();
    let mut i: usize = 0;
    assert(back_to_back(planes@.take(0)) =~= aframe@);
    while i < planes.len()
        invariant
            i <= planes@.len(),
            aframe@ == back_to_back(planes@.take(i as int)),
        decreases planes@.len() - i,
    {
        assert(planes@.take(i + 1).drop_last() =~= planes@.take(i as int));
        assert(planes@.take(i + 1).last() == planes@[i as int]);
        let ghost before = aframe@;
        aframe.extend_from_slice(planes[i]);
        assert(aframe@ =~= before + planes@[i as int]@);
        i = i + 1;
    }
    assert(planes@.take(i as int) =~= planes@);
    Some(
        Frame::Audio {
            aframe,
            nb_samples: #[verifier::truncate]
            (nb_samples as i32),
            sample_rate: #[verifier::truncate]
            (rate as i32),
            nb_channels: #[verifier::truncate]
            (channels as i32),
            sample_fmt: SAMPLE_FMT_FLTP,
        },
    )
}

/// The picture that a buffer holds: byte `k` of row `row` is the byte at that place of that row in the
/// first plane, whose rows start as many bytes apart as its chunk says, or right after one another
/// where it does not say.
pub proof fn law_rows_of_the_picture(
    terminated: bool,
    planes: &Vec<&[u8]>,
    stride: i32,
    size: (u32, u32),
    step: VideoStep,
    row: int,
    k: int,
)
    requires
        call_ensures(video_process_callback, (terminated, planes, stride, size), step),
        0 <= row < size.1,
        0 <= k < size.0 * 4,
    ensures
        ({
            let (width, height) = size;
            let pitch = if stride > 0 {
                stride as int
            } else {
                width * 4
            };
            let whole = planes@.len() > 0 && pitch >= width * 4 && pitch * height
                <= planes@[0]@.len();
            &&& step is Quit <==> terminated
            &&& step is Send <==> !terminated && whole
            &&& step is Send ==> {
                let frame = step->Send_0;
                &&& frame is Video
                &&& frame->vframe@.len() == width * height * 4
                &&& frame->vframe@[row * (width * 4) + k] == planes@[0]@[row * pitch + k]
                &&& frame->size == size
                &&& frame->pix_fmt == 28
            }
        }),
{
    if step is Send {
        let (width, height) = size;
        let pitch = if stride > 0 {
            stride as int
        } else {
            width * 4
        };
        crate::util::lemma_packed_at(
            planes@[0]@,
            pitch as nat,
            (width * 4) as nat,
            height as nat,
            row,
            k,
        );
    }
}

proof fn lemma_back_to_back_at(planes: Seq<&[u8]>, p: int, k: int)
    requires
        0 <= p < planes.len(),
        0 <= k < planes[p]@.len(),
    ensures
        back_to_back(planes.take(p)).len() + k < back_to_back(planes).len(),
        back_to_back(planes)[back_to_back(planes.take(p)).len() + k] == planes[p]@[k],
    decreases planes.len(),
{
    let front = planes.drop_last();
    if p < front.len() {
        lemma_back_to_back_at(front, p, k);
        assert(front.take(p) =~= planes.take(p));
    } else {
        assert(planes.take(p) =~= front);
    }
}

/// The sound that a buffer holds: its planes whole, the first plane first and each right behind those
/// before it, with as many samples of 4 bytes as the first plane has.
pub proof fn law_sound_of_the_planes(
    planes: &Vec<&[u8]>,
    rate: u32,
    channels: u32,
    frame: Option<Frame>,
    more: &Vec<&[u8]>,
    plane: &[u8],
    longer: Option<Frame>,
    k: int,
)
    requires
        call_ensures(audio_process_callback, (planes, rate, channels), frame),
        call_ensures(audio_process_callback, (more, rate, channels), longer),
        more@ == planes@.push(plane),
        0 <= k < plane@.len(),
    ensures
        frame is Some <==> planes@.len() > 0,
        longer is Some && longer->0 is Audio,
        ({
            let before = if frame is Some {
                frame->0->aframe@
            } else {
                Seq::empty()
            };
            let sound = longer->0->aframe@;
            &&& frame is Some ==> frame->0 is Audio
            &&& sound.len() == before.len() + plane@.len()
            &&& sound.take(before.len() as int) == before
            &&& sound[before.len() + k] == plane@[k]
        }),
        more@[0]@.len() <= i32::MAX ==> longer->0->nb_samples == more@[0]@.len() / 4,
        rate <= i32::MAX ==> longer->0->sample_rate == rate,
        channels <= i32::MAX ==> longer->0->nb_channels == channels,
        longer->0->sample_fmt == 8,
{
    assert(more@.drop_last() =~= planes@);
    lemma_back_to_back_at(more@, planes@.len() as int, k);
    assert(more@.take(planes@.len() as int) =~= planes@);
    let before = back_to_back(planes@);
    assert(longer->0->aframe@ =~= before + plane@);
    assert(longer->0->aframe@.take(before.len() as int) =~= before);
    if planes@.len() == 0 {
        assert(before =~= Seq::<u8>::empty());
    }
}

/// Which buffers become pictures: those whose first plane holds every row in full, until the capture
/// is told to end.
pub proof fn law_whole_pictures_are_sent(
    terminated: bool,
    planes: &Vec<&[u8]>,
    stride: i32,
    size: (u32, u32),
    step: VideoStep,
)
    requires
        call_ensures(video_process_callback, (terminated, planes, stride, size), step),
    ensures
        ({
            let pitch = if stride > 0 {
                stride as int
            } else {
                size.0 * 4
            };
            let whole = planes@.len() > 0 && pitch >= size.0 * 4 && pitch * size.1
                <= planes@[0]@.len();
            &&& step is Quit <==> terminated
            &&& step is Send <==> !terminated && whole
        }),
{
}

} // verus!
