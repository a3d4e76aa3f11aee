//! What the PipeWire streams of a session are asked for, and what becomes of their buffers.

use crate::config::{AudioConfig, Target, VideoConfig};
use crate::error::{CaptureError, Unsupported};
use crate::format::{PixFmt, SampleFmt};
use crate::fps::{FpsGate, Sample};
use crate::frame::{AudioFrame, VideoFrame};
use crate::util::pack_rows;
use vstd::prelude::*;
use vstd::slice::slice_subrange;

verus! {

/// The `AvailableSourceTypes` bit of the portal for monitors.
pub const SOURCE_TYPE_MONITOR: u32 = 1;

/// The chunk flag of SPA for contents that cannot be used.
pub const CHUNK_FLAG_CORRUPTED: i32 = 1;

/// Bytes of one sample of the audio format asked for, 32 bit float.
pub const AUDIO_SAMPLE_BYTES: usize = 4;

/// The frame rate offered to the producer where no cap is configured.
pub const UNCAPPED_FRAMERATE: u32 = 1000;

/// The portal source types that a target stands for, 0 for every type the portal has.
pub open spec fn source_types_of(target: Target) -> Result<u32, CaptureError> {
    match target {
        Target::Pick | Target::PickFrom(_) => Ok(0),
        Target::Primary | Target::Monitor(_) => Ok(SOURCE_TYPE_MONITOR),
        Target::Window(_) | Target::WindowName(_) => Err(
            CaptureError::Unsupported(Unsupported::WindowTarget),
        ),
    }
}

/// The highest frame rate the producer is asked for.
pub open spec fn max_framerate_of(fps: Option<u32>) -> u32 {
    match fps {
        Some(fps) => if fps > 0 {
            fps
        } else {
            UNCAPPED_FRAMERATE
        },
        None => UNCAPPED_FRAMERATE,
    }
}

/// A capture session: what it asks of the portal and of PipeWire, and what it has settled on.
#[derive(Debug)]
pub struct PipewireSession {
    source_types: u32,
    max_framerate: u32,
    size: (u32, u32),
    sample_rate: Option<Option<i32>>,
    terminated: bool,
}

impl PipewireSession {
    /// The source types the portal is asked for.
    pub closed spec fn spec_source_types(&self) -> u32 {
        self.source_types
    }

    /// The highest frame rate the producer is asked for.
    pub closed spec fn spec_max_framerate(&self) -> u32 {
        self.max_framerate
    }

    /// The negotiated size, `(0, 0)` before there is one.
    pub closed spec fn spec_size(&self) -> (u32, u32) {
        self.size
    }

    /// `None` without audio, `Some(None)` until its sample rate is settled.
    pub closed spec fn spec_sample_rate(&self) -> Option<Option<i32>> {
        self.sample_rate
    }

    /// Whether the session was told to end.
    pub closed spec fn spec_terminated(&self) -> bool {
        self.terminated
    }

    /// The session that a configuration asks for.
    ///
    /// Neither Wayland nor X11 lets a client opt a window out of a screencast, and the portal's
    /// own picker makes the final choice, so hiding windows and naming one are refused.
    pub fn new(video: &VideoConfig, audio: &Option<AudioConfig>) -> (session: Result<
        Self,
        CaptureError,
    >)
        ensures
            session is Ok <==> video.hide@.len() == 0 && source_types_of(video.target) is Ok,
            match session {
                Ok(session) => {
                    &&& source_types_of(video.target) == Ok::<u32, CaptureError>(
                        session.spec_source_types(),
                    )
                    &&& session.spec_max_framerate() == max_framerate_of(video.fps)
                    &&& session.spec_size() == (0u32, 0u32)
                    &&& session.spec_sample_rate() == match *audio {
                        Some(_) => Some(None::<i32>),
                        None => None,
                    }
                    &&& !session.spec_terminated()
                },
                Err(e) => e == if video.hide@.len() > 0 {
                    CaptureError::Unsupported(Unsupported::HideWindows)
                } else {
                    CaptureError::Unsupported(Unsupported::WindowTarget)
                },
            },
    {
        if video.hide.len() != 0 {
            return Err(CaptureError::Unsupported(Unsupported::HideWindows));
        }
        let source_types: u32 = match &video.target {
            Target::Pick | Target::PickFrom(_) => 0,
            Target::Primary | Target::Monitor(_) => SOURCE_TYPE_MONITOR,
            Target::Window(_) | Target::WindowName(_) => {
                return Err(CaptureError::Unsupported(Unsupported::WindowTarget));
            },
        };
        let max_framerate: u32 = match video.fps {
            Some(fps) => {
                if fps > 0 {
                    fps
                } else {
                    UNCAPPED_FRAMERATE
                }
            },
            None => UNCAPPED_FRAMERATE,
        };
        let sample_rate = match audio {
            Some(_) => Some(None),
            None => None,
        };
        Ok(
            PipewireSession {
                source_types,
                max_framerate,
                size: (0, 0),
                sample_rate,
                terminated: false,
            },
        )
    }

    /// The source types to ask the portal for, 0 for every type it has.
    pub fn source_types(&self) -> (source_types: u32)
        ensures
            source_types == self.spec_source_types(),
    {
        self.source_types
    }

    /// The highest frame rate to ask the producer for.
    pub fn max_framerate(&self) -> (max_framerate: u32)
        ensures
            max_framerate == self.spec_max_framerate(),
    {
        self.max_framerate
    }

    /// Width and height of the captured video.
    pub fn size(&self) -> (size: (u32, u32))
        ensures
            size == self.spec_size(),
    {
        self.size
    }

    /// Sample rate of the captured audio: `None` without audio, and until it is settled.
    pub fn sample_rate(&self) -> (sample_rate: Option<i32>)
        ensures
            sample_rate == match self.spec_sample_rate() {
                Some(rate) => rate,
                None => None,
            },
    {
        match self.sample_rate {
            Some(rate) => rate,
            None => None,
        }
    }

    /// Record the size that the video stream has settled on; gives what to tell the setup, where
    /// it is still waiting.
    pub fn settle_size(&mut self, change: &SizeChange) -> (answer: Option<SetupAnswer>)
        ensures
            final(self).spec_size() == change.size,
            answer == if change.answer_setup {
                Some(SetupAnswer::Agreed)
            } else {
                None
            },
            final(self).spec_source_types() == old(self).spec_source_types(),
            final(self).spec_max_framerate() == old(self).spec_max_framerate(),
            final(self).spec_sample_rate() == old(self).spec_sample_rate(),
            final(self).spec_terminated() == old(self).spec_terminated(),
    {
        self.size = change.size;
        if change.answer_setup {
            Some(SetupAnswer::Agreed)
        } else {
            None
        }
    }

    /// Record the sample rate that the audio stream has settled on; without audio there is none.
    pub fn settle_sample_rate(&mut self, rate: i32)
        ensures
            final(self).spec_sample_rate() == match old(self).spec_sample_rate() {
                Some(_) => Some(Some(rate)),
                None => None,
            },
            final(self).spec_size() == old(self).spec_size(),
            final(self).spec_source_types() == old(self).spec_source_types(),
            final(self).spec_max_framerate() == old(self).spec_max_framerate(),
            final(self).spec_terminated() == old(self).spec_terminated(),
    {
        if self.sample_rate.is_some() {
            self.sample_rate = Some(Some(rate));
        }
    }

    /// End the session.
    pub fn terminate(&mut self)
        ensures
            final(self).spec_terminated(),
            final(self).spec_size() == old(self).spec_size(),
            final(self).spec_sample_rate() == old(self).spec_sample_rate(),
            final(self).spec_source_types() == old(self).spec_source_types(),
            final(self).spec_max_framerate() == old(self).spec_max_framerate(),
    {
        self.terminated = true;
    }

    /// Whether the session was told to end.
    pub fn is_terminated(&self) -> (terminated: bool)
        ensures
            terminated == self.spec_terminated(),
    {
        self.terminated
    }
}

/// Which PipeWire instance a stream connects to.
#[derive(Debug, Clone, Copy, PartialEq, Eq, Structural)]
pub enum Remote {
    /// The one the portal has granted access to. The screencast node is only reachable there;
    /// under a sandbox the default socket does not have it.
    Portal,
    /// The ordinary one. Desktop audio is not a screencast node.
    Ordinary,
}

/// What a stream carries.
#[derive(Debug, Clone, Copy, PartialEq, Eq, Structural)]
pub enum Media {
    /// Raw video in one of the [`offered_formats`], at no more than this many frames per second.
    Video {
        /// The highest frame rate.
        max_framerate: u32,
    },
    /// Raw audio, planar 32 bit float.
    Audio,
}

/// A stream to connect.
#[derive(Debug, Clone, Copy, PartialEq, Eq, Structural)]
pub struct StreamRequest {
    /// What it carries.
    pub media: Media,
    /// Where it connects to.
    pub remote: Remote,
    /// The node it is aimed at.
    pub target: Option<u32>,
    /// Whether to capture what a sink plays rather than what a source records.
    pub capture_sink: bool,
}

/// The stream for the frames of a screencast node.
pub open spec fn video_request(node_id: u32, max_framerate: u32) -> StreamRequest {
    StreamRequest {
        media: Media::Video { max_framerate },
        remote: Remote::Portal,
        target: Some(node_id),
        capture_sink: false,
    }
}

/// The stream for desktop audio.
///
/// It has no target: the screencast node is a *video* node, and an audio stream aimed at it can
/// never link. Capturing a sink is what tells the session manager to pick the default one's
/// monitor, and an explicit target would override it.
pub open spec fn audio_request() -> StreamRequest {
    StreamRequest {
        media: Media::Audio,
        remote: Remote::Ordinary,
        target: None,
        capture_sink: true,
    }
}

impl PipewireSession {
    /// The streams to connect, in order, once the portal has granted the given node: always the
    /// frames, and audio where it was asked for.
    pub fn streams(&self, node_id: u32) -> (streams: Vec<StreamRequest>)
        ensures
            streams@ == if self.spec_sample_rate() is Some {
                seq![video_request(node_id, self.spec_max_framerate()), audio_request()]
            } else {
                seq![video_request(node_id, self.spec_max_framerate())]
            },
    {
        let mut streams: Vec<StreamRequest> = Vec::new();
        streams.push(
            StreamRequest {
                media: Media::Video { max_framerate: self.max_framerate },
                remote: Remote::Portal,
                target: Some(node_id),
                capture_sink: false,
            },
        );
        if self.sample_rate.is_some() {
            streams.push(
                StreamRequest {
                    media: Media::Audio,
                    remote: Remote::Ordinary,
                    target: None,
                    capture_sink: true,
                },
            );
            assert(streams@ =~= seq![
                video_request(node_id, self.max_framerate),
                audio_request(),
            ]);
        } else {
            assert(streams@ =~= seq![video_request(node_id, self.max_framerate)]);
        }
        streams
    }
}

/// What it means that a PipeWire instance cannot be connected to: without the ordinary one there
/// is no audio to be had. `None` where the error of the connection itself says it all.
pub fn connection_refused(remote: Remote) -> (error: Option<CaptureError>)
    ensures
        error == match remote {
            Remote::Portal => None,
            Remote::Ordinary => Some(CaptureError::Unsupported(Unsupported::Audio)),
        },
{
    match remote {
        Remote::Portal => None,
        Remote::Ordinary => Some(CaptureError::Unsupported(Unsupported::Audio)),
    }
}

/// The part of a plane that its producer has filled.
#[derive(Debug, Clone, Copy)]
pub struct Chunk {
    /// Where the data starts, modulo the plane's size.
    pub offset: u32,
    /// Bytes of data.
    pub size: u32,
    /// Bytes from one row to the next, 0 or less where the producer does not say.
    pub stride: i32,
    /// SPA chunk flags.
    pub flags: i32,
}

/// One memory block of a buffer.
#[derive(Debug, Clone, Copy)]
pub struct Plane<'a> {
    /// The mapped memory, `None` where it is not mapped.
    pub data: Option<&'a [u8]>,
    /// What of it is filled.
    pub chunk: Chunk,
}

impl<'a> Plane<'a> {
    /// Whether the plane holds data that can be read.
    pub open spec fn readable(&self) -> bool {
        &&& self.data is Some
        &&& self.data->0@.len() > 0
        &&& self.chunk.size > 0
        &&& self.chunk.flags & CHUNK_FLAG_CORRUPTED == 0
    }

    /// The data of a readable plane: it starts at the offset, taken modulo the plane's size, and
    /// ends after `size` bytes or with the plane.
    pub open spec fn contents(&self) -> Seq<u8> {
        let memory = self.data->0@;
        let start = self.chunk.offset as int % memory.len() as int;
        let end = if start + self.chunk.size < memory.len() {
            start + self.chunk.size
        } else {
            memory.len() as int
        };
        memory.subrange(start, end)
    }

    /// Bytes that can be read, 0 where nothing can.
    pub open spec fn available(&self) -> nat {
        if self.readable() {
            self.contents().len()
        } else {
            0
        }
    }
}

/// The valid data of a chunk, as far as it is actually readable.
///
/// SPA defines `offset` modulo `maxsize` and only guarantees `size` up to the end of the
/// mapped allocation, so a producer may hand over an offset past it. Returns `None` for an
/// unmapped, empty or corrupt chunk.
pub fn chunk_slice<'a>(plane: &Plane<'a>) -> (slice: Option<&'a [u8]>)
    ensures
        slice is Some <==> plane.readable(),
        slice is Some ==> slice->0@ == plane.contents(),
        slice is Some ==> 0 < slice->0@.len() <= plane.chunk.size,
{
    let data = match plane.data {
        None => return None,
        Some(data) => data,
    };
    let maxsize: usize = data.len();
    if maxsize == 0 || plane.chunk.size == 0 {
        return None;
    }
    if plane.chunk.flags & CHUNK_FLAG_CORRUPTED != 0 {
        return None;
    }
    let offset: usize = plane.chunk.offset as usize % maxsize;
    let left: usize = maxsize - offset;
    let size: usize = plane.chunk.size as usize;
    let avail: usize = if left < size {
        left
    } else {
        size
    };
    Some(slice_subrange(data, offset, offset + avail))
}

/// A point in time on a clock that counts seconds and nanoseconds.
#[derive(Debug, Clone, Copy)]
pub struct Timespec {
    /// Whole seconds.
    pub sec: i64,
    /// Nanoseconds into the second.
    pub nsec: i64,
}

impl Timespec {
    /// The time in nanoseconds.
    pub open spec fn nanoseconds(&self) -> int {
        self.sec * 1_000_000_000 + self.nsec
    }

    /// Whether the time is one that 64 bits of nanoseconds can hold.
    pub open spec fn fits(&self) -> bool {
        &&& self.sec >= 0
        &&& self.nsec >= 0
        &&& self.nanoseconds() <= u64::MAX
    }
}

/// A clock that goes on keeps going on once it is counted in nanoseconds alone.
pub proof fn law_clock_keeps_order(a: Timespec, b: Timespec)
    requires
        a.nsec < 1_000_000_000,
        b.nsec >= 0,
        a.sec < b.sec || a.sec == b.sec && a.nsec <= b.nsec,
    ensures
        a.nanoseconds() <= b.nanoseconds(),
{
}

/// The timestamp that a buffer's header carries, if it carries one.
pub open spec fn header_ts(pts: Option<i64>) -> Option<u64> {
    match pts {
        Some(pts) => if pts > 0 {
            Some(pts as u64)
        } else {
            None
        },
        None => None,
    }
}

/// The buffer's presentation timestamp in nanoseconds.
///
/// `pts` is what the buffer's header says, `None` where the producer attached none despite
/// being asked for one. Then `now` stands in for it, read from `CLOCK_MONOTONIC` -- the domain
/// `pts` is on; `None` where the clock could not be read.
pub fn buffer_ts(pts: Option<i64>, now: Option<Timespec>) -> (ts: u64)
    requires
        header_ts(pts) is None && now is Some ==> now->0.fits(),
    ensures
        ts == match header_ts(pts) {
            Some(ts) => ts as int,
            None => match now {
                Some(now) => now.nanoseconds(),
                None => 0,
            },
        },
        header_ts(pts) is Some || now is Some && now->0.nanoseconds() > 0 ==> ts > 0,
{
    if let Some(pts) = pts {
        if pts > 0 {
            return pts as u64;
        }
    }
    match now {
        Some(now) => now.sec as u64 * 1_000_000_000 + now.nsec as u64,
        None => 0,
    }
}

/// The pixel layouts the video stream can settle on.
#[derive(Debug, Clone, Copy, PartialEq, Eq, Structural)]
pub enum VideoFormat {
    /// BGRA
    Bgra,
    /// BGR with an undefined fourth byte
    Bgrx,
    /// Anything else
    Other,
}

/// A video format, as far as the parameter that announced it could be parsed.
#[derive(Debug, Clone, Copy)]
pub struct VideoInfo {
    /// The pixel layout.
    pub format: VideoFormat,
    /// Width and height.
    pub size: (u32, u32),
}

/// What the audio stream has settled on, 0 where nothing is known yet.
#[derive(Debug, Clone, Copy)]
pub struct AudioInfo {
    /// Samples per second.
    pub rate: u32,
    /// Channels.
    pub channels: u32,
}

/// The pixel layouts the producer may choose from, the preferred one first.
///
/// BGRx too: wlroots-based portals offer only that for an XRGB8888 output. BGRA stays the
/// default, so a producer with both keeps alpha.
pub fn offered_formats() -> (formats: Vec<VideoFormat>)
    ensures
        formats@ == seq![VideoFormat::Bgra, VideoFormat::Bgrx],
{
    let mut formats: Vec<VideoFormat> = Vec::new();
    formats.push(VideoFormat::Bgra);
    formats.push(VideoFormat::Bgrx);
    assert(formats@ =~= seq![VideoFormat::Bgra, VideoFormat::Bgrx]);
    formats
}

/// What the frames of a layout are called.
pub open spec fn pix_fmt_of(format: VideoFormat) -> PixFmt {
    match format {
        VideoFormat::Bgrx => PixFmt::Bgr0,
        _ => PixFmt::Bgra,
    }
}

/// State of the video stream, as its callbacks see it.
#[derive(Debug)]
pub struct VideoData {
    gate: FpsGate,
    size: (u32, u32),
    pix_fmt: PixFmt,
    setup_pending: bool,
}

/// What a parameter change means for the session.
#[derive(Debug, Clone, Copy, PartialEq, Eq)]
pub struct SizeChange {
    /// The size that was negotiated.
    pub size: (u32, u32),
    /// Whether the setup is waiting to be told that it is.
    pub answer_setup: bool,
}

/// The states a stream can report.
#[derive(Debug, Clone, Copy, PartialEq, Eq, Structural)]
pub enum StreamState {
    /// It failed.
    Error,
    /// It is not connected, or not any more.
    Unconnected,
    /// It is on its way, or running.
    Alive,
}

/// What the end of a stream means for the session.
#[derive(Debug)]
pub struct StreamEnd {
    /// What to tell the setup, where it is still waiting.
    pub setup_answer: Option<SetupAnswer>,
}

/// What the setup of a session is told. The first answer counts.
#[derive(Debug)]
pub enum SetupAnswer {
    /// The video stream has agreed on a format, and the session has its size.
    Agreed,
    /// The session does not come about, for this reason.
    Failed(CaptureError),
    /// The session does not come about; the error is the platform's.
    Reported,
    /// The capture thread ended without an answer.
    Gone,
}

/// What the answer to the setup means: whether there is a session, or why there is none. `None`
/// stands for the platform's own error.
pub fn conclude(answer: SetupAnswer) -> (end: Result<(), Option<CaptureError>>)
    ensures
        end == match answer {
            SetupAnswer::Agreed => Ok::<(), Option<CaptureError>>(()),
            SetupAnswer::Failed(e) => Err(Some(e)),
            SetupAnswer::Reported => Err(None),
            SetupAnswer::Gone => Err(Some(CaptureError::WorkerGone)),
        },
{
    match answer {
        SetupAnswer::Agreed => Ok(()),
        SetupAnswer::Failed(e) => Err(Some(e)),
        SetupAnswer::Reported => Err(None),
        SetupAnswer::Gone => Err(Some(CaptureError::WorkerGone)),
    }
}

impl VideoData {
    /// The [`FpsGate`] that frames go through.
    pub closed spec fn gate(&self) -> FpsGate {
        self.gate
    }

    /// The negotiated size.
    pub closed spec fn size(&self) -> (u32, u32) {
        self.size
    }

    /// What the negotiated format is called here.
    pub closed spec fn pix_fmt(&self) -> PixFmt {
        self.pix_fmt
    }

    /// Whether the setup still waits for an answer.
    pub closed spec fn setup_pending(&self) -> bool {
        self.setup_pending
    }

    /// Whether the state is that of a stream whose callbacks were told the given events.
    pub open spec fn follows(&self, events: Seq<VideoEvent>) -> bool {
        &&& self.setup_pending() == setup_waits(events)
        &&& self.size() == settled_size(events)
    }

    /// A stream that has not negotiated anything yet.
    pub fn new(fps: Option<u32>) -> (data: Self)
        ensures
            data.gate().interval() == crate::fps::frame_interval(fps),
            data.gate().next() is None,
            data.size() == (0u32, 0u32),
            data.pix_fmt() == PixFmt::Bgra,
            data.setup_pending(),
            data.follows(Seq::empty()),
    {
        VideoData {
            gate: FpsGate::new(fps),
            size: (0, 0),
            pix_fmt: PixFmt::Bgra,
            setup_pending: true,
        }
    }

    /// Bytes from one row of a plane to the next.
    pub open spec fn stride(&self, plane: &Plane) -> int {
        if plane.chunk.stride > 0 {
            plane.chunk.stride as int
        } else {
            self.size().0 * 4
        }
    }

    /// Whether a plane holds a whole frame of the negotiated size.
    pub open spec fn usable(&self, plane: &Plane) -> bool {
        let stride = self.stride(plane);
        &&& plane.readable()
        &&& stride * self.size().1 > 0
        &&& plane.contents().len() >= stride * self.size().1
        &&& stride >= self.size().0 * 4
    }

    /// The sample that a buffer with the given planes is.
    pub open spec fn sample(&self, planes: Seq<Plane>, ts: u64) -> Sample {
        if planes.len() > 0 && self.usable(&planes[0]) {
            Sample::Video(ts)
        } else {
            Sample::Unusable(ts)
        }
    }

    /// The frame of a usable plane: its rows, without their padding.
    pub open spec fn holds(&self, plane: &Plane, ts: u64, frame: &VideoFrame) -> bool {
        &&& frame.vframe@ == crate::util::packed(
            plane.contents(),
            self.stride(plane) as nat,
            (self.size().0 * 4) as nat,
            self.size().1 as nat,
        )
        &&& frame.size == self.size()
        &&& frame.pix_fmt == self.pix_fmt()
        &&& frame.ts == ts
    }

    /// Whether a frame captured at `ts` can be judged.
    pub fn can_judge(&self, ts: u64) -> (fits: bool)
        ensures
            fits == self.gate().fits(ts),
    {
        self.gate.can_judge(ts)
    }
}

proof fn lemma_too_long(row_bytes: int, stride: int, height: int, avail: int)
    requires
        avail < row_bytes,
        height >= 0,
        avail >= 0,
    ensures
        !(stride * height > 0 && avail >= stride * height && stride >= row_bytes),
{
    if stride >= row_bytes && height > 0 {
        assert(stride * height >= stride) by (nonlinear_arith)
            requires
                stride > 0,
                height > 0,
        ;
    }
}

/// The frame that a buffer of the video stream stands for, if one should be delivered.
///
/// The buffer is validated before the cap is looked at: an unusable one must not spend the slot
/// the next real frame needs.
pub fn video_process_callback(data: &mut VideoData, planes: &Vec<Plane>, ts: u64) -> (frame: Option<
    VideoFrame,
>)
    requires
        planes@.len() > 0 && old(data).usable(&planes@[0]) ==> old(data).gate().fits(ts),
    ensures
        final(data).size() == old(data).size(),
        final(data).pix_fmt() == old(data).pix_fmt(),
        final(data).setup_pending() == old(data).setup_pending(),
        if planes@.len() > 0 && old(data).usable(&planes@[0]) {
            &&& frame is Some <==> old(data).gate().passes(ts)
            &&& old(data).gate().judged(ts, &final(data).gate())
            &&& frame is Some ==> old(data).holds(&planes@[0], ts, &frame->0)
        } else {
            &&& frame is None
            &&& *final(data) == *old(data)
        },
        frame is Some ==> frame->0.tight(),
        old(data).gate().delivers(
            old(data).sample(planes@, ts),
            crate::frame::video_ts(frame),
            &final(data).gate(),
        ),
{
    if planes.len() < 1 {
        return None;
    }
    let plane = planes[0];
    let base = match chunk_slice(&plane) {
        None => return None,
        Some(base) => base,
    };
    let avail: usize = base.len();
    let height: usize = data.size.1 as usize;
    // No buffer is longer than memory.
    let row_bytes: usize = match (data.size.0 as usize).checked_mul(4) {
        Some(row_bytes) => row_bytes,
        None => {
            proof {
                lemma_too_long(data.size.0 * 4, data.stride(&plane), height as int, avail as int);
            }
            return None;
        },
    };
    let stride: usize = if plane.chunk.stride > 0 {
        plane.chunk.stride as usize
    } else {
        row_bytes
    };
    let want: usize = match stride.checked_mul(height) {
        Some(want) => want,
        None => return None,
    };
    if want == 0 || avail < want || stride < row_bytes {
        return None;
    }
    if !data.gate.allow(ts) {
        return None;
    }
    let vframe = match pack_rows(Some(base), stride, row_bytes, height) {
        None => return None,
        Some(vframe) => vframe,
    };
    proof {
        crate::util::law_packed_length(
            base@,
            stride as nat,
            row_bytes as nat,
            height as nat,
        );
        assert(row_bytes * height == data.size.0 * data.size.1 * 4) by (nonlinear_arith)
            requires
                row_bytes == data.size.0 * 4,
                height == data.size.1,
        ;
    }
    Some(
        VideoFrame {
            vframe,
            size: (data.size.0, data.size.1),
            pix_fmt: data.pix_fmt,
            ts,
        },
    )
}

/// Take over a format that the video stream has negotiated.
///
/// `is_format` says whether the parameter is the stream's format at all, `raw_video` whether it
/// describes raw video, and `info` holds what was parsed out of it. Anything else leaves the
/// stream as it is.
pub fn video_param_change_callback(
    data: &mut VideoData,
    is_format: bool,
    raw_video: bool,
    info: Option<VideoInfo>,
) -> (change: Option<SizeChange>)
    ensures
        final(data).gate() == old(data).gate(),
        if is_format && raw_video && info is Some {
            &&& change == Some(
                SizeChange { size: info->0.size, answer_setup: old(data).setup_pending() },
            )
            &&& final(data).size() == info->0.size
            &&& final(data).pix_fmt() == pix_fmt_of(info->0.format)
            &&& !final(data).setup_pending()
        } else {
            &&& change is None
            &&& *final(data) == *old(data)
        },
        ({
            let event = VideoEvent::Param { is_format, raw_video, info };
            &&& change is Some <==> event.settles() is Some
            &&& change is Some && change->0.answer_setup <==> old(data).setup_pending()
                && event.answers()
            &&& final(data).size() == event.size_after(old(data).size())
            &&& final(data).setup_pending() == (old(data).setup_pending() && !event.answers())
            &&& forall|events: Seq<VideoEvent>| #[trigger]
                old(data).follows(events) ==> final(data).follows(events.push(event))
        }),
{
    proof {
        lemma_events_follow(VideoEvent::Param { is_format, raw_video, info });
    }
    if !is_format || !raw_video {
        return None;
    }
    let info = match info {
        None => return None,
        Some(info) => info,
    };
    data.pix_fmt = match info.format {
        VideoFormat::Bgrx => PixFmt::Bgr0,
        _ => PixFmt::Bgra,
    };
    data.size = info.size;
    let answer_setup = data.setup_pending;
    data.setup_pending = false;
    Some(SizeChange { size: info.size, answer_setup })
}

/// Leave the loop when the stream ends on its own, so that a consumer learns that the capture is
/// over instead of waiting forever. `None` while it lives.
///
/// Before a format is agreed the setup is still waiting, so it is told why rather than left
/// to find the channel closed.
pub fn video_state_change_callback(data: &mut VideoData, new: StreamState) -> (end: Option<
    StreamEnd,
>)
    ensures
        final(data).gate() == old(data).gate(),
        final(data).size() == old(data).size(),
        final(data).pix_fmt() == old(data).pix_fmt(),
        end is Some <==> new != StreamState::Alive,
        end is Some ==> {
            &&& end->0.setup_answer == if old(data).setup_pending() {
                Some(SetupAnswer::Failed(CaptureError::StreamFailed))
            } else {
                None
            }
            &&& !final(data).setup_pending()
        },
        end is None ==> *final(data) == *old(data),
        ({
            let event = VideoEvent::State(new);
            &&& end is Some && end->0.setup_answer is Some <==> old(data).setup_pending()
                && event.answers()
            &&& final(data).size() == event.size_after(old(data).size())
            &&& final(data).setup_pending() == (old(data).setup_pending() && !event.answers())
            &&& forall|events: Seq<VideoEvent>| #[trigger]
                old(data).follows(events) ==> final(data).follows(events.push(event))
        }),
{
    proof {
        lemma_events_follow(VideoEvent::State(new));
    }
    match new {
        StreamState::Error => {},
        StreamState::Unconnected => {},
        StreamState::Alive => return None,
    }
    let setup_answer = if data.setup_pending {
        Some(SetupAnswer::Failed(CaptureError::StreamFailed))
    } else {
        None
    };
    data.setup_pending = false;
    Some(StreamEnd { setup_answer })
}

/// What the callbacks of a video stream are told, one after the other.
pub ghost enum VideoEvent {
    /// A parameter has changed, see [`video_param_change_callback`].
    Param { is_format: bool, raw_video: bool, info: Option<VideoInfo> },
    /// The state has changed, see [`video_state_change_callback`].
    State(StreamState),
}

impl VideoEvent {
    /// The size that the event settles on, if it settles on one.
    pub open spec fn settles(self) -> Option<(u32, u32)> {
        match self {
            VideoEvent::Param { is_format, raw_video, info } => if is_format && raw_video && info
                is Some {
                Some(info->0.size)
            } else {
                None
            },
            VideoEvent::State(_) => None,
        }
    }

    /// The size that the session has after the event.
    pub open spec fn size_after(self, size: (u32, u32)) -> (u32, u32) {
        match self.settles() {
            Some(size) => size,
            None => size,
        }
    }

    /// What the setup is told by an event that answers it.
    pub open spec fn answer(self) -> SetupAnswer {
        match self {
            VideoEvent::Param { .. } => SetupAnswer::Agreed,
            VideoEvent::State(_) => SetupAnswer::Failed(CaptureError::StreamFailed),
        }
    }

    /// Whether the event answers the setup, given that the setup waits for an answer.
    pub open spec fn answers(self) -> bool {
        match self {
            VideoEvent::Param { is_format, raw_video, info } => is_format && raw_video && info
                is Some,
            VideoEvent::State(state) => state != StreamState::Alive,
        }
    }
}

/// Whether the setup still waits after the given events.
pub open spec fn setup_waits(events: Seq<VideoEvent>) -> bool
    decreases events.len(),
{
    events.len() == 0 || setup_waits(events.drop_last()) && !events.last().answers()
}

/// Whether the last of the given events is the one that answers the setup.
pub open spec fn answered_by_last(events: Seq<VideoEvent>) -> bool {
    events.len() > 0 && setup_waits(events.drop_last()) && events.last().answers()
}

proof fn lemma_events_follow(event: VideoEvent)
    ensures
        forall|events: Seq<VideoEvent>|
            {
                let more = #[trigger] events.push(event);
                &&& setup_waits(more) == (setup_waits(events) && !event.answers())
                &&& settled_size(more) == event.size_after(settled_size(events))
            },
{
    assert forall|events: Seq<VideoEvent>|
        {
            let more = #[trigger] events.push(event);
            &&& setup_waits(more) == (setup_waits(events) && !event.answers())
            &&& settled_size(more) == event.size_after(settled_size(events))
        } by {
        assert(events.push(event).drop_last() =~= events);
    }
}

/// What the setup is told by the given events, `None` while it waits.
pub open spec fn setup_answer(events: Seq<VideoEvent>) -> Option<SetupAnswer>
    decreases events.len(),
{
    if events.len() == 0 {
        None
    } else {
        match setup_answer(events.drop_last()) {
            Some(answer) => Some(answer),
            None => if events.last().answers() {
                Some(events.last().answer())
            } else {
                None
            },
        }
    }
}

/// The size that the session has after the given events, `(0, 0)` before there is one.
pub open spec fn settled_size(events: Seq<VideoEvent>) -> (u32, u32)
    decreases events.len(),
{
    if events.len() == 0 {
        (0, 0)
    } else {
        events.last().size_after(settled_size(events.drop_last()))
    }
}

/// The size of the first format that the stream agrees on, if it agrees on one.
pub open spec fn first_size(events: Seq<VideoEvent>) -> Option<(u32, u32)>
    decreases events.len(),
{
    if events.len() == 0 {
        None
    } else {
        match first_size(events.drop_last()) {
            Some(size) => Some(size),
            None => events.last().settles(),
        }
    }
}

/// The setup learns that a format is agreed on only once the session has the size of the first
/// one. A stream that ends before is told to the setup as a failure, and until either happens the
/// setup waits.
pub proof fn law_agreed_once_settled(events: Seq<VideoEvent>)
    ensures
        setup_answer(events) is None <==> setup_waits(events),
        setup_waits(events) ==> first_size(events) is None,
        setup_answer(events) == Some(SetupAnswer::Agreed) ==> first_size(events) is Some,
        answered_by_last(events) ==> match events.last().settles() {
            Some(size) => {
                &&& setup_answer(events) == Some(SetupAnswer::Agreed)
                &&& first_size(events) == Some(size)
                &&& settled_size(events) == size
            },
            None => setup_answer(events) == Some(
                SetupAnswer::Failed(CaptureError::StreamFailed),
            ),
        },
    decreases events.len(),
{
    if events.len() > 0 {
        law_agreed_once_settled(events.drop_last());
    }
}

/// What the setup was told stays, and so does the size until the stream agrees on another format.
pub proof fn law_settled_stays(events: Seq<VideoEvent>, later: Seq<VideoEvent>)
    ensures
        setup_answer(events) is Some ==> setup_answer(events + later) == setup_answer(events),
        (forall|i: int| 0 <= i < later.len() ==> (#[trigger] later[i]).settles() is None)
            ==> settled_size(events + later) == settled_size(events),
    decreases later.len(),
{
    if later.len() == 0 {
        assert(events + later =~= events);
    } else {
        let before = later.drop_last();
        law_settled_stays(events, before);
        assert((events + later).drop_last() =~= events + before);
        assert((events + later).last() == later.last());
        if forall|i: int| 0 <= i < later.len() ==> (#[trigger] later[i]).settles() is None {
            assert forall|i: int| 0 <= i < before.len() implies (
            #[trigger] before[i]).settles() is None by {
                assert(before[i] == later[i]);
            }
        }
    }
}

/// The setup is answered at most once, however the stream goes on.
pub proof fn law_setup_answered_once(events: Seq<VideoEvent>, i: int, j: int)
    requires
        0 <= i < j <= events.len(),
        answered_by_last(events.take(i)),
    ensures
        !answered_by_last(events.take(j)),
{
    lemma_setup_stays_answered(events, i, j - 1);
    assert(events.take(j).drop_last() =~= events.take(j - 1));
}

proof fn lemma_setup_stays_answered(events: Seq<VideoEvent>, i: int, j: int)
    requires
        0 <= i <= j <= events.len(),
        answered_by_last(events.take(i)),
    ensures
        !setup_waits(events.take(j)),
    decreases j - i,
{
    if i < j {
        lemma_setup_stays_answered(events, i, j - 1);
        assert(events.take(j).drop_last() =~= events.take(j - 1));
    }
}

/// The least number of bytes that each of the planes has to offer.
pub open spec fn shortest(planes: Seq<Plane>) -> nat
    decreases planes.len(),
{
    if planes.len() == 0 {
        0
    } else if planes.len() == 1 {
        planes[0].available()
    } else {
        let rest = shortest(planes.drop_last());
        if planes.last().available() < rest {
            planes.last().available()
        } else {
            rest
        }
    }
}

/// The first `bytes` bytes of every plane, one plane after the other.
pub open spec fn joined(planes: Seq<Plane>, bytes: nat) -> Seq<u8>
    decreases planes.len(),
{
    if planes.len() == 0 {
        Seq::empty()
    } else {
        joined(planes.drop_last(), bytes) + planes.last().contents().take(bytes as int)
    }
}

/// No plane has less to offer than the shortest.
pub proof fn law_shortest_is_least(planes: Seq<Plane>, i: int)
    requires
        0 <= i < planes.len(),
    ensures
        shortest(planes) <= planes[i].available(),
    decreases planes.len(),
{
    if planes.len() > 1 && i < planes.len() - 1 {
        law_shortest_is_least(planes.drop_last(), i);
        assert(planes.drop_last()[i] == planes[i]);
    }
}

/// Some plane has no more to offer than the shortest.
pub proof fn law_shortest_is_reached(planes: Seq<Plane>) -> (i: int)
    requires
        planes.len() > 0,
    ensures
        0 <= i < planes.len(),
        shortest(planes) == planes[i].available(),
    decreases planes.len(),
{
    if planes.len() == 1 {
        0
    } else {
        let j = law_shortest_is_reached(planes.drop_last());
        if planes.last().available() < shortest(planes.drop_last()) {
            planes.len() - 1
        } else {
            j
        }
    }
}

/// Joined planes hold the same number of bytes of each plane.
pub proof fn law_joined_length(planes: Seq<Plane>, bytes: nat)
    requires
        forall|i: int| 0 <= i < planes.len() ==> bytes <= (#[trigger] planes[i]).contents().len(),
    ensures
        joined(planes, bytes).len() == planes.len() * bytes,
    decreases planes.len(),
{
    if planes.len() > 0 {
        let front = planes.drop_last();
        assert forall|i: int| 0 <= i < front.len() implies bytes <= (
        #[trigger] front[i]).contents().len() by {
            assert(front[i] == planes[i]);
        }
        law_joined_length(front, bytes);
        assert((planes.len() - 1) * bytes + bytes == planes.len() * bytes) by (nonlinear_arith);
    }
}

impl AudioInfo {
    /// The sample that a buffer with the given planes is.
    pub open spec fn sample(&self, planes: Seq<Plane>, ts: u64) -> Sample {
        if self.rate != 0 && self.channels != 0 && shortest(planes) >= AUDIO_SAMPLE_BYTES {
            Sample::Audio(ts)
        } else {
            Sample::Unusable(ts)
        }
    }
}

/// The frame that a buffer of the audio stream stands for, if it holds any samples.
///
/// One plane per channel, all the same length, so the shortest readable one sets the frame's
/// sample count rather than misaligning the planes after it.
pub fn audio_process_callback(info: &AudioInfo, planes: &Vec<Plane>, ts: u64) -> (frame: Option<
    AudioFrame,
>)
    ensures
        frame is Some <==> info.rate != 0 && info.channels != 0 && shortest(planes@)
            >= AUDIO_SAMPLE_BYTES,
        frame is Some ==> {
            let nb_samples = shortest(planes@) / 4;
            &&& frame->0.aframe@ == joined(planes@, nb_samples * 4)
            &&& frame->0.aframe@.len() == planes@.len() * nb_samples * 4
            &&& frame->0.nb_samples == nb_samples
            &&& frame->0.sample_rate == info.rate as i32
            &&& frame->0.nb_channels == info.channels as i32
            &&& frame->0.sample_fmt == SampleFmt::F32P
            &&& frame->0.ts == ts
        },
        forall|gate: FpsGate| #[trigger]
            gate.delivers(info.sample(planes@, ts), crate::frame::audio_ts(frame), &gate),
{
    if planes.len() < 1 {
        return None;
    }
    if info.rate == 0 || info.channels == 0 {
        return None;
    }
    let mut plane_bytes: usize = match chunk_slice(&planes[0]) {
        Some(slice) => slice.len(),
        None => 0,
    };
    let mut i: usize = 1;
    assert(planes@.take(1) =~= seq![planes@[0]]);
    while i < planes.len()
        invariant
            1 <= i <= planes@.len(),
            plane_bytes == shortest(planes@.take(i as int)),
            plane_bytes <= u32::MAX,
        decreases planes@.len() - i,
    {
        let avail: usize = match chunk_slice(&planes[i]) {
            Some(slice) => slice.len(),
            None => 0,
        };
        assert(planes@.take(i + 1).drop_last() =~= planes@.take(i as int));
        assert(planes@.take(i + 1).last() == planes@[i as int]);
        if avail < plane_bytes {
            plane_bytes = avail;
        }
        i = i + 1;
    }
    assert(planes@.take(i as int) =~= planes@);
    let nb_samples: usize = plane_bytes / AUDIO_SAMPLE_BYTES;
    if nb_samples == 0 {
        return None;
    }
    let plane_bytes: usize = nb_samples * AUDIO_SAMPLE_BYTES;
    let mut aframe: Vec<u8> = Vec::new();
    let mut i: usize = 0;
    assert(joined(planes@.take(0), plane_bytes as nat) =~= aframe@);
    while i < planes.len()
        invariant
            i <= planes@.len(),
            0 < plane_bytes <= shortest(planes@),
            aframe@ == joined(planes@.take(i as int), plane_bytes as nat),
        decreases planes@.len() - i,
    {
        proof {
            law_shortest_is_least(planes@, i as int);
        }
        assert(planes@.take(i + 1).drop_last() =~= planes@.take(i as int));
        assert(planes@.take(i + 1).last() == planes@[i as int]);
        if let Some(base) = chunk_slice(&planes[i]) {
            let part = slice_subrange(base, 0, plane_bytes);
            let ghost before = aframe@;
            aframe.extend_from_slice(part);
            assert(aframe@ =~= before + part@);
            assert(part@ =~= planes@[i as int].contents().take(plane_bytes as int));
        }
        i = i + 1;
    }
    proof {
        assert(planes@.take(i as int) =~= planes@);
        assert forall|k: int| 0 <= k < planes@.len() implies plane_bytes <= (
        #[trigger] planes@[k]).contents().len() by {
            law_shortest_is_least(planes@, k);
        }
        law_joined_length(planes@, plane_bytes as nat);
        assert(planes@.len() * plane_bytes == planes@.len() * nb_samples * 4) by (nonlinear_arith)
            requires
                plane_bytes == nb_samples * 4,
        ;
    }
    Some(
        AudioFrame {
            aframe,
            nb_samples: nb_samples as i32,
            sample_rate: info.rate as i32,
            nb_channels: info.channels as i32,
            sample_fmt: SampleFmt::F32P,
            ts,
        },
    )
}

/// Take over a format that the audio stream has negotiated; gives the sample rate that is
/// settled by it, if any.
///
/// The arguments are those of [`video_param_change_callback`].
pub fn audio_param_change_callback(
    data: &mut AudioInfo,
    is_format: bool,
    raw_audio: bool,
    info: Option<AudioInfo>,
) -> (rate: Option<i32>)
    ensures
        *final(data) == if is_format && raw_audio && info is Some {
            info->0
        } else {
            *old(data)
        },
        rate == if is_format && raw_audio && info is Some && info->0.rate as i32 > 0 {
            Some(info->0.rate as i32)
        } else {
            None
        },
{
    if !is_format || !raw_audio {
        return None;
    }
    let info = match info {
        None => return None,
        Some(info) => info,
    };
    *data = info;
    let rate: i32 = info.rate as i32;
    if rate > 0 {
        Some(rate)
    } else {
        None
    }
}

/// The picture that a stream delivers once it has agreed on a format: byte `k` of row `row` is the
/// byte at that place of that row in the plane, whose rows start as many bytes apart as its chunk
/// says, or right after one another where it does not say.
pub proof fn law_rows_of_the_picture(
    agreed: &mut VideoData,
    info: VideoInfo,
    change: Option<SizeChange>,
    data: &mut VideoData,
    planes: &Vec<Plane>,
    ts: u64,
    frame: Option<VideoFrame>,
    row: int,
    k: int,
)
    requires
        call_ensures(video_param_change_callback, (agreed, true, true, Some(info)), change),
        *data == *final(agreed),
        call_ensures(video_process_callback, (data, planes, ts), frame),
        frame is Some,
        0 <= row < info.size.1,
        0 <= k < info.size.0 * 4,
    ensures
        planes@.len() > 0,
        planes@[0].data is Some,
        ({
            let (width, height) = info.size;
            let memory = planes@[0].data->0@;
            let chunk = planes@[0].chunk;
            let start = chunk.offset as int % memory.len() as int;
            &&& frame->0.vframe@.len() == width * height * 4
            &&& chunk.stride > 0 ==> frame->0.vframe@[row * (width * 4) + k] == memory[start + row
                * chunk.stride + k]
            &&& chunk.stride <= 0 ==> frame->0.vframe@[row * (width * 4) + k] == memory[start + row
                * (width * 4) + k]
            &&& frame->0.size == info.size
            &&& frame->0.pix_fmt == if info.format == VideoFormat::Bgrx {
                PixFmt::Bgr0
            } else {
                PixFmt::Bgra
            }
            &&& frame->0.ts == ts
        }),
{
    let (width, height) = info.size;
    let plane = planes@[0];
    let memory = plane.data->0@;
    let base = plane.contents();
    let stride = if plane.chunk.stride > 0 {
        plane.chunk.stride as int
    } else {
        width * 4
    };
    crate::util::lemma_packed_at(
        base,
        stride as nat,
        (width * 4) as nat,
        height as nat,
        row,
        k,
    );
    assert(0 <= row * stride + k < stride * height) by (nonlinear_arith)
        requires
            0 <= row < height,
            0 <= k < width * 4,
            width * 4 <= stride,
    ;
    assert((width * 4) * height == width * height * 4) by (nonlinear_arith);
}

/// Which buffers become pictures: those whose first plane is mapped, filled, intact and holds every
/// row of the agreed size in full. Each of them does, unless the cap holds it back; any other
/// changes nothing.
pub proof fn law_whole_pictures_are_delivered(
    data: &mut VideoData,
    planes: &Vec<Plane>,
    ts: u64,
    frame: Option<VideoFrame>,
)
    requires
        call_ensures(video_process_callback, (data, planes, ts), frame),
    ensures
        ({
            let (width, height) = old(data).size();
            let chunk = planes@[0].chunk;
            let memory = planes@[0].data->0@;
            let left = memory.len() - chunk.offset as int % memory.len() as int;
            let pitch = if chunk.stride > 0 {
                chunk.stride as int
            } else {
                width * 4
            };
            let whole = {
                &&& planes@.len() > 0
                &&& planes@[0].data is Some
                &&& memory.len() > 0
                &&& chunk.size > 0
                &&& chunk.flags & 1 == 0
                &&& pitch * height > 0
                &&& pitch >= width * 4
                &&& chunk.size >= pitch * height
                &&& left >= pitch * height
            };
            let due = {
                ||| old(data).gate().interval() == 0
                ||| old(data).gate().next() is None
                ||| old(data).gate().next()->0 <= ts
            };
            &&& frame is Some <==> whole && due
            &&& !whole ==> *final(data) == *old(data)
        }),
{
}

/// What can be read of a plane: from its offset on, taken around its end, as many bytes as its
/// chunk counts or as are left of it.
pub proof fn law_chunks_start_at_their_offset(plane: &Plane, slice: Option<&[u8]>, i: int)
    requires
        call_ensures(chunk_slice, (plane,), slice),
    ensures
        slice is Some <==> {
            &&& plane.data is Some
            &&& plane.data->0@.len() > 0
            &&& plane.chunk.size > 0
            &&& plane.chunk.flags & 1 == 0
        },
        slice is Some ==> {
            let memory = plane.data->0@;
            let start = plane.chunk.offset as int % memory.len() as int;
            &&& slice->0@.len() <= plane.chunk.size
            &&& slice->0@.len() <= memory.len() - start
            &&& slice->0@.len() == plane.chunk.size || slice->0@.len() == memory.len() - start
            &&& 0 <= i < slice->0@.len() ==> slice->0@[i] == memory[start + i]
        },
{
}

/// When a buffer was captured: what its header says where that is past zero, else what the clock
/// says, else zero.
pub proof fn law_buffer_times(pts: Option<i64>, now: Option<Timespec>, ts: u64)
    requires
        call_ensures(buffer_ts, (pts, now), ts),
    ensures
        pts is Some && pts->0 > 0 ==> ts == pts->0,
        (pts is None || pts->0 <= 0) && now is Some ==> ts == now->0.sec * 1_000_000_000
            + now->0.nsec,
        (pts is None || pts->0 <= 0) && now is None ==> ts == 0,
{
}

/// What a configuration asks of the portal and of the producer: monitors for a monitor, anything
/// for a picker, no more frames than its cap, and no window by name. Nothing is settled yet.
pub proof fn law_session_of_a_configuration(
    video: &VideoConfig,
    audio: &Option<AudioConfig>,
    session: Result<PipewireSession, CaptureError>,
    types: u32,
    max: u32,
    size: (u32, u32),
    rate: Option<i32>,
)
    requires
        call_ensures(PipewireSession::new, (video, audio), session),
        session is Ok ==> {
            &&& call_ensures(PipewireSession::source_types, (&session->Ok_0,), types)
            &&& call_ensures(PipewireSession::max_framerate, (&session->Ok_0,), max)
            &&& call_ensures(PipewireSession::size, (&session->Ok_0,), size)
            &&& call_ensures(PipewireSession::sample_rate, (&session->Ok_0,), rate)
        },
    ensures
        video.hide@.len() > 0 ==> session == Err::<PipewireSession, CaptureError>(
            CaptureError::Unsupported(Unsupported::HideWindows),
        ),
        video.hide@.len() == 0 && (video.target is Window || video.target is WindowName)
            ==> session == Err::<PipewireSession, CaptureError>(
            CaptureError::Unsupported(Unsupported::WindowTarget),
        ),
        video.hide@.len() == 0 && (video.target is Primary || video.target is Monitor) ==> session
            is Ok && types == 1,
        video.hide@.len() == 0 && (video.target is Pick || video.target is PickFrom) ==> session
            is Ok && types == 0,
        session is Ok ==> {
            &&& video.fps is Some && video.fps->0 > 0 ==> max == video.fps->0
            &&& video.fps is None || video.fps->0 == 0 ==> max == 1000
            &&& size == (0u32, 0u32)
            &&& rate is None
        },
{
}

/// The streams of a session: one for the pictures of the granted node, on the remote that the
/// portal has opened, and where audio was asked for one for what the default sink plays, on the
/// ordinary remote and without a target.
pub proof fn law_streams_of_a_session(
    video: &VideoConfig,
    audio: &Option<AudioConfig>,
    session: Result<PipewireSession, CaptureError>,
    node_id: u32,
    streams: Vec<StreamRequest>,
)
    requires
        call_ensures(PipewireSession::new, (video, audio), session),
        session is Ok,
        call_ensures(PipewireSession::streams, (&session->Ok_0, node_id), streams),
    ensures
        streams@.len() == if audio is Some {
            2int
        } else {
            1int
        },
        streams@[0].media is Video,
        streams@[0].media->max_framerate == if video.fps is Some && video.fps->0 > 0 {
            video.fps->0
        } else {
            1000
        },
        streams@[0].remote is Portal,
        streams@[0].target == Some(node_id),
        !streams@[0].capture_sink,
        audio is Some ==> {
            &&& streams@[1].media is Audio
            &&& streams@[1].remote is Ordinary
            &&& streams@[1].target is None
            &&& streams@[1].capture_sink
        },
{
}

/// A session has the size and the sample rate that were settled last, and is over once it was told
/// so; the sample rate only where audio was asked for.
pub proof fn law_session_keeps_what_is_settled(
    video: &VideoConfig,
    audio: &Option<AudioConfig>,
    session: Result<PipewireSession, CaptureError>,
    sized: &mut PipewireSession,
    change: &SizeChange,
    answer: Option<SetupAnswer>,
    rated: &mut PipewireSession,
    rate: i32,
    ended: &mut PipewireSession,
    size: (u32, u32),
    sample_rate: Option<i32>,
    before: bool,
    after: bool,
)
    requires
        call_ensures(PipewireSession::new, (video, audio), session),
        session is Ok,
        *sized == session->Ok_0,
        call_ensures(PipewireSession::settle_size, (sized, change), answer),
        *rated == *final(sized),
        call_ensures(PipewireSession::settle_sample_rate, (rated, rate), ()),
        *ended == *final(rated),
        call_ensures(PipewireSession::is_terminated, (&*ended,), before),
        call_ensures(PipewireSession::terminate, (ended,), ()),
        call_ensures(PipewireSession::size, (&*final(ended),), size),
        call_ensures(PipewireSession::sample_rate, (&*final(ended),), sample_rate),
        call_ensures(PipewireSession::is_terminated, (&*final(ended),), after),
    ensures
        size == change.size,
        sample_rate == if audio is Some {
            Some(rate)
        } else {
            None
        },
        answer is Some <==> change.answer_setup,
        answer is Some ==> answer->0 is Agreed,
        !before,
        after,
{
}

proof fn lemma_joined_at(planes: Seq<Plane>, bytes: nat, p: int, k: int)
    requires
        forall|i: int| 0 <= i < planes.len() ==> bytes <= (#[trigger] planes[i]).contents().len(),
        0 <= p < planes.len(),
        0 <= k < bytes,
    ensures
        0 <= p * bytes + k < joined(planes, bytes).len(),
        joined(planes, bytes)[p * bytes + k] == planes[p].contents()[k],
    decreases planes.len(),
{
    let front = planes.drop_last();
    assert forall|i: int| 0 <= i < front.len() implies bytes <= (
    #[trigger] front[i]).contents().len() by {
        assert(front[i] == planes[i]);
    }
    law_joined_length(front, bytes);
    law_joined_length(planes, bytes);
    assert(0 <= p * bytes + k < planes.len() * bytes) by (nonlinear_arith)
        requires
            0 <= p < planes.len(),
            0 <= k < bytes,
    ;
    if p < front.len() {
        lemma_joined_at(front, bytes, p, k);
        assert(front[p] == planes[p]);
    } else {
        assert(p == front.len());
    }
}

/// The sound that a buffer holds: one channel after the other, of each as many samples of 4 bytes
/// as the shortest channel has whole. Sample byte `k` of channel `p` is that byte of what can be
/// read of plane `p`.
pub proof fn law_sound_of_each_channel(
    info: &AudioInfo,
    planes: &Vec<Plane>,
    ts: u64,
    frame: Option<AudioFrame>,
    p: int,
    k: int,
)
    requires
        call_ensures(audio_process_callback, (info, planes, ts), frame),
        frame is Some,
        0 <= p < planes@.len(),
        0 <= k < frame->0.nb_samples * 4,
    ensures
        frame->0.nb_samples > 0,
        frame->0.aframe@.len() == planes@.len() * (frame->0.nb_samples * 4),
        frame->0.sample_rate == info.rate as i32,
        frame->0.nb_channels == info.channels as i32,
        frame->0.sample_fmt is F32P,
        frame->0.ts == ts,
        ({
            let chunk = planes@[p].chunk;
            let memory = planes@[p].data->0@;
            let start = chunk.offset as int % memory.len() as int;
            &&& planes@[p].data is Some
            &&& chunk.flags & 1 == 0
            &&& frame->0.nb_samples * 4 <= chunk.size
            &&& frame->0.nb_samples * 4 <= memory.len() - start
            &&& frame->0.aframe@[p * (frame->0.nb_samples * 4) + k] == memory[start + k]
        }),
{
    let bytes = (shortest(planes@) / 4 * 4) as nat;
    assert forall|i: int| 0 <= i < planes@.len() implies bytes <= (
    #[trigger] planes@[i]).contents().len() by {
        law_shortest_is_least(planes@, i);
    }
    law_shortest_is_least(planes@, p);
    lemma_joined_at(planes@, bytes, p, k);
    law_joined_length(planes@, bytes);
}

/// No sound is left behind: there is a channel with less than one more sample to read. And a buffer
/// is dropped only where some channel has not even one, or where the format is not known.
pub proof fn law_no_sound_is_left_behind(
    info: &AudioInfo,
    planes: &Vec<Plane>,
    ts: u64,
    frame: Option<AudioFrame>,
) -> (p: int)
    requires
        call_ensures(audio_process_callback, (info, planes, ts), frame),
    ensures
        planes@.len() == 0 ==> frame is None,
        planes@.len() > 0 ==> 0 <= p < planes@.len(),
        planes@.len() > 0 ==> ({
            let chunk = planes@[p].chunk;
            let memory = planes@[p].data->0@;
            let start = chunk.offset as int % memory.len() as int;
            let samples = if frame is Some {
                frame->0.nb_samples as int
            } else {
                0
            };
            ||| planes@[p].data is None
            ||| memory.len() == 0
            ||| chunk.flags & 1 != 0
            ||| chunk.size < (samples + 1) * 4
            ||| memory.len() - start < (samples + 1) * 4
            ||| info.rate == 0
            ||| info.channels == 0
        }),
        info.rate == 0 || info.channels == 0 ==> frame is None,
{
    if planes@.len() > 0 {
        law_shortest_is_reached(planes@)
    } else {
        0
    }
}

/// Who answers the setup: the first format that the stream agrees on, or else the end of the stream,
/// and nothing after that.
pub proof fn law_first_answer_counts(
    fps: Option<u32>,
    fresh: VideoData,
    first: &mut VideoData,
    a: VideoInfo,
    agreed: Option<SizeChange>,
    second: &mut VideoData,
    b: VideoInfo,
    changed: Option<SizeChange>,
    third: &mut VideoData,
    state: StreamState,
    end: Option<StreamEnd>,
    early: &mut VideoData,
    early_end: Option<StreamEnd>,
)
    requires
        call_ensures(VideoData::new, (fps,), fresh),
        *first == fresh,
        call_ensures(video_param_change_callback, (first, true, true, Some(a)), agreed),
        *second == *final(first),
        call_ensures(video_param_change_callback, (second, true, true, Some(b)), changed),
        *third == *final(second),
        call_ensures(video_state_change_callback, (third, state), end),
        *early == fresh,
        call_ensures(video_state_change_callback, (early, state), early_end),
    ensures
        agreed is Some && agreed->0.size == a.size && agreed->0.answer_setup,
        changed is Some && changed->0.size == b.size && !changed->0.answer_setup,
        end is Some <==> state is Error || state is Unconnected,
        end is Some ==> end->0.setup_answer is None,
        early_end is Some <==> state is Error || state is Unconnected,
        early_end is Some ==> early_end->0.setup_answer == Some(
            SetupAnswer::Failed(CaptureError::StreamFailed),
        ),
{
}

/// The sample rate of the sound is the one of the format that the stream agrees on.
pub proof fn law_sound_rate(
    data: &mut AudioInfo,
    is_format: bool,
    raw_audio: bool,
    info: Option<AudioInfo>,
    rate: Option<i32>,
)
    requires
        call_ensures(audio_param_change_callback, (data, is_format, raw_audio, info), rate),
    ensures
        is_format && raw_audio && info is Some ==> {
            &&& *final(data) == info->0
            &&& 0 < info->0.rate <= i32::MAX ==> rate is Some && rate->0 == info->0.rate
            &&& info->0.rate == 0 || info->0.rate > i32::MAX ==> rate is None
        },
        !is_format || !raw_audio || info is None ==> *final(data) == *old(data) && rate is None,
{
    if info is Some {
        let hz = info->0.rate;
        assert(hz > 0x7fff_ffff ==> (hz as i32) < 0) by (bit_vector);
    }
}

/// A stream starts with the cap of its configuration, of which nothing is spent yet.
pub proof fn law_streams_start_with_the_cap(fps: Option<u32>, data: VideoData)
    requires
        call_ensures(VideoData::new, (fps,), data),
    ensures
        ({
            let interval = data.gate().interval();
            &&& fps is None || fps->0 == 0 ==> interval == 0
            &&& fps is Some && fps->0 > 0 ==> interval * fps->0 <= 1_000_000_000 && (interval + 1)
                * fps->0 > 1_000_000_000
        }),
        data.gate().next() is None,
{
    if fps is Some && fps->0 > 0 {
        crate::fps::law_interval_is_the_cap(fps->0);
    }
}

/// The cap judges a whole picture as it judges any frame, and no other buffer.
pub proof fn law_pictures_are_judged(
    data: &mut VideoData,
    planes: &Vec<Plane>,
    ts: u64,
    frame: Option<VideoFrame>,
    judge: &mut FpsGate,
    allowed: bool,
    can: bool,
    fits: bool,
)
    requires
        call_ensures(video_process_callback, (data, planes, ts), frame),
        call_ensures(VideoData::can_judge, (&*data, ts), can),
        *judge == data.gate(),
        call_ensures(FpsGate::can_judge, (&*judge, ts), fits),
        call_ensures(FpsGate::allow, (judge, ts), allowed),
    ensures
        can <==> fits,
        frame is Some ==> allowed,
        frame is Some ==> final(data).gate().interval() == final(judge).interval(),
        frame is Some ==> final(data).gate().next() == final(judge).next(),
        frame is None ==> final(data).gate().interval() == old(data).gate().interval(),
        frame is None ==> final(data).gate().next() == old(data).gate().next(),
        final(data).size() == old(data).size(),
        final(data).pix_fmt() == old(data).pix_fmt(),
        final(data).setup_pending() == old(data).setup_pending(),
{
}

/// The producer may choose BGRA, which comes first, or BGR with an undefined fourth byte.
pub proof fn law_offered_layouts(formats: Vec<VideoFormat>)
    requires
        call_ensures(offered_formats, (), formats),
    ensures
        formats@.len() == 2,
        formats@[0] is Bgra,
        formats@[1] is Bgrx,
{
}

/// What a setup comes to: a session where a format was agreed on, else the reason why there is none.
pub proof fn law_setups_are_concluded(answer: SetupAnswer, end: Result<(), Option<CaptureError>>)
    requires
        call_ensures(conclude, (answer,), end),
    ensures
        end is Ok <==> answer is Agreed,
        answer is Failed ==> end->Err_0 == Some(answer->Failed_0),
        answer is Reported ==> end->Err_0 is None,
        answer is Gone ==> end->Err_0 is Some && end->Err_0->0 is WorkerGone,
{
}

/// Without the ordinary PipeWire there is no audio; without that of the portal, the error of the
/// connection says it all.
pub proof fn law_refused_connections(remote: Remote, error: Option<CaptureError>)
    requires
        call_ensures(connection_refused, (remote,), error),
    ensures
        remote is Portal ==> error is None,
        remote is Ordinary ==> error == Some(CaptureError::Unsupported(Unsupported::Audio)),
{
}

} // verus!
