//! Video frames.

use crate::scrframe::frame;
use vstd::prelude::*;

verus! {

/// Video frame
pub struct VFrame {
    /// Video data
    pub vframe: Vec<u8>,
    /// (Width, Height) of the video frame
    pub size: (u32, u32),
    /// https://docs.rs/rsmpeg/latest/rsmpeg/?search=AV_PIX_FMT
    pub pix_fmt: i32,
}

/// What a [`VFrame`] shows of itself for debugging.
#[derive(Debug, Clone, Copy, PartialEq, Eq)]
pub struct VFrameDebug {
    /// Number of bytes of video data
    pub vframe: usize,
    /// (Width, Height) of the video frame
    pub size: (u32, u32),
    /// Pixel format id
    pub pix_fmt: i32,
}

impl VFrame {
    /// The frame as it is shown for debugging: the number of bytes stands for the bytes.
    pub fn debug(&self) -> (shown: VFrameDebug)
        ensures
            shown.vframe == self.vframe@.len(),
            shown.size == self.size,
            shown.pix_fmt == self.pix_fmt,
    {
        VFrameDebug { vframe: self.vframe.len(), size: self.size, pix_fmt: self.pix_fmt }
    }
}

impl AsRef<[u8]> for VFrame {
    fn as_ref(&self) -> (data: &[u8])
        ensures
            data@ == self.vframe@,
    {
        self.vframe.as_slice()
    }
}

impl frame::VFrame for VFrame {
    open spec fn spec_data(&self) -> Seq<u8> {
        self.vframe@
    }

    open spec fn spec_size(&self) -> (u32, u32) {
        self.size
    }

    open spec fn spec_pix_fmt(&self) -> i32 {
        self.pix_fmt
    }

    open spec fn spec_ts(&self, elapsed: u128) -> Option<u128> {
        None
    }

    fn data(&self) -> (data: &[u8]) {
        self.vframe.as_slice()
    }

    fn size(&self) -> (size: (u32, u32)) {
        (self.size.0, self.size.1)
    }

    fn pix_fmt(&self) -> (pix_fmt: i32) {
        self.pix_fmt
    }

    fn ts(&self, elapsed: u128) -> (ts: Option<u128>) {
        None
    }
}

/// Video frame that is to be shown at the time it is handed over.
pub struct RealTimeVFrame {
    /// Video data
    pub vframe: Vec<u8>,
    /// (Width, Height) of the video frame
    pub size: (u32, u32),
    /// https://docs.rs/rsmpeg/latest/rsmpeg/?search=AV_PIX_FMT
    pub pix_fmt: i32,
}

/// What a [`RealTimeVFrame`] shows of itself for debugging.
#[derive(Debug, Clone, Copy, PartialEq, Eq)]
pub struct RealTimeVFrameDebug {
    /// Number of bytes of video data
    pub vframe: usize,
    /// (Width, Height) of the video frame
    pub size: (u32, u32),
    /// Pixel format id
    pub pix_fmt: i32,
}

impl RealTimeVFrame {
    /// The frame as it is shown for debugging: the number of bytes stands for the bytes.
    pub fn debug(&self) -> (shown: RealTimeVFrameDebug)
        ensures
            shown.vframe == self.vframe@.len(),
            shown.size == self.size,
            shown.pix_fmt == self.pix_fmt,
    {
        RealTimeVFrameDebug { vframe: self.vframe.len(), size: self.size, pix_fmt: self.pix_fmt }
    }
}

impl AsRef<[u8]> for RealTimeVFrame {
    fn as_ref(&self) -> (data: &[u8])
        ensures
            data@ == self.vframe@,
    {
        self.vframe.as_slice()
    }
}

impl frame::VFrame for RealTimeVFrame {
    open spec fn spec_data(&self) -> Seq<u8> {
        self.vframe@
    }

    open spec fn spec_size(&self) -> (u32, u32) {
        self.size
    }

    open spec fn spec_pix_fmt(&self) -> i32 {
        self.pix_fmt
    }

    open spec fn spec_ts(&self, elapsed: u128) -> Option<u128> {
        Some(elapsed)
    }

    fn data(&self) -> (data: &[u8]) {
        self.vframe.as_slice()
    }

    fn size(&self) -> (size: (u32, u32)) {
        (self.size.0, self.size.1)
    }

    fn pix_fmt(&self) -> (pix_fmt: i32) {
        self.pix_fmt
    }

    fn ts(&self, elapsed: u128) -> (ts: Option<u128>) {
        Some(elapsed)
    }
}

impl From<VFrame> for RealTimeVFrame {
    fn from(vframe: VFrame) -> (frame: Self) {
        RealTimeVFrame { vframe: vframe.vframe, size: vframe.size, pix_fmt: vframe.pix_fmt }
    }
}

impl vstd::std_specs::convert::FromSpecImpl<VFrame> for RealTimeVFrame {
    open spec fn obeys_from_spec() -> bool {
        true
    }

    open spec fn from_spec(vframe: VFrame) -> Self {
        RealTimeVFrame { vframe: vframe.vframe, size: vframe.size, pix_fmt: vframe.pix_fmt }
    }
}

/// Borrowed video frame
pub struct VFrameRef<'a> {
    /// Video data
    pub vframe: &'a [u8],
    /// (Width, Height) of the video frame
    pub size: (u32, u32),
    /// https://docs.rs/rsmpeg/latest/rsmpeg/?search=AV_PIX_FMT
    pub pix_fmt: i32,
}

/// What a [`VFrameRef`] shows of itself for debugging.
#[derive(Debug, Clone, Copy, PartialEq, Eq)]
pub struct VFrameRefDebug {
    /// Number of bytes of video data
    pub vframe: usize,
    /// (Width, Height) of the video frame
    pub size: (u32, u32),
    /// Pixel format id
    pub pix_fmt: i32,
}

impl<'a> VFrameRef<'a> {
    /// The frame as it is shown for debugging: the number of bytes stands for the bytes.
    pub fn debug(&self) -> (shown: VFrameRefDebug)
        ensures
            shown.vframe == self.vframe@.len(),
            shown.size == self.size,
            shown.pix_fmt == self.pix_fmt,
    {
        VFrameRefDebug { vframe: self.vframe.len(), size: self.size, pix_fmt: self.pix_fmt }
    }
}

impl<'a> AsRef<[u8]> for VFrameRef<'a> {
    fn as_ref(&self) -> (data: &[u8])
        ensures
            data@ == self.vframe@,
    {
        self.vframe
    }
}

impl<'a> frame::VFrame for VFrameRef<'a> {
    open spec fn spec_data(&self) -> Seq<u8> {
        self.vframe@
    }

    open spec fn spec_size(&self) -> (u32, u32) {
        self.size
    }

    open spec fn spec_pix_fmt(&self) -> i32 {
        self.pix_fmt
    }

    open spec fn spec_ts(&self, elapsed: u128) -> Option<u128> {
        None
    }

    fn data(&self) -> (data: &[u8]) {
        self.vframe
    }

    fn size(&self) -> (size: (u32, u32)) {
        (self.size.0, self.size.1)
    }

    fn pix_fmt(&self) -> (pix_fmt: i32) {
        self.pix_fmt
    }

    fn ts(&self, elapsed: u128) -> (ts: Option<u128>) {
        None
    }
}

impl<'a> From<&'a VFrame> for VFrameRef<'a> {
    fn from(vframe: &'a VFrame) -> (frame: Self)
        ensures
            frame.vframe@ == vframe.vframe@,
            frame.size == vframe.size,
            frame.pix_fmt == vframe.pix_fmt,
    {
        VFrameRef {
            vframe: vframe.vframe.as_slice(),
            size: vframe.size,
            pix_fmt: vframe.pix_fmt,
        }
    }
}

impl<'a> vstd::std_specs::convert::FromSpecImpl<&'a VFrame> for VFrameRef<'a> {
    open spec fn obeys_from_spec() -> bool {
        false
    }

    open spec fn from_spec(vframe: &'a VFrame) -> Self {
        arbitrary()
    }
}

/// Borrowed video frame that is to be shown at the time it is handed over.
pub struct RealTimeVFrameRef<'a> {
    /// Video data
    pub vframe: &'a [u8],
    /// (Width, Height) of the video frame
    pub size: (u32, u32),
    /// https://docs.rs/rsmpeg/latest/rsmpeg/?search=AV_PIX_FMT
    pub pix_fmt: i32,
}

/// What a [`RealTimeVFrameRef`] shows of itself for debugging.
#[derive(Debug, Clone, Copy, PartialEq, Eq)]
pub struct RealTimeVFrameRefDebug {
    /// Number of bytes of video data
    pub vframe: usize,
    /// (Width, Height) of the video frame
    pub size: (u32, u32),
    /// Pixel format id
    pub pix_fmt: i32,
}

impl<'a> RealTimeVFrameRef<'a> {
    /// The frame as it is shown for debugging: the number of bytes stands for the bytes.
    pub fn debug(&self) -> (shown: RealTimeVFrameRefDebug)
        ensures
            shown.vframe == self.vframe@.len(),
            shown.size == self.size,
            shown.pix_fmt == self.pix_fmt,
    {
        RealTimeVFrameRefDebug { vframe: self.vframe.len(), size: self.size, pix_fmt: self.pix_fmt }
    }
}

impl<'a> AsRef<[u8]> for RealTimeVFrameRef<'a> {
    fn as_ref(&self) -> (data: &[u8])
        ensures
            data@ == self.vframe@,
    {
        self.vframe
    }
}

impl<'a> frame::VFrame for RealTimeVFrameRef<'a> {
    open spec fn spec_data(&self) -> Seq<u8> {
        self.vframe@
    }

    open spec fn spec_size(&self) -> (u32, u32) {
        self.size
    }

    open spec fn spec_pix_fmt(&self) -> i32 {
        self.pix_fmt
    }

    open spec fn spec_ts(&self, elapsed: u128) -> Option<u128> {
        Some(elapsed)
    }

    fn data(&self) -> (data: &[u8]) {
        self.vframe
    }

    fn size(&self) -> (size: (u32, u32)) {
        (self.size.0, self.size.1)
    }

    fn pix_fmt(&self) -> (pix_fmt: i32) {
        self.pix_fmt
    }

    fn ts(&self, elapsed: u128) -> (ts: Option<u128>) {
        Some(elapsed)
    }
}

impl<'a> From<&'a VFrame> for RealTimeVFrameRef<'a> {
    fn from(vframe: &'a VFrame) -> (frame: Self)
        ensures
            frame.vframe@ == vframe.vframe@,
            frame.size == vframe.size,
            frame.pix_fmt == vframe.pix_fmt,
    {
        RealTimeVFrameRef {
            vframe: vframe.vframe.as_slice(),
            size: vframe.size,
            pix_fmt: vframe.pix_fmt,
        }
    }
}

impl<'a> vstd::std_specs::convert::FromSpecImpl<&'a VFrame> for RealTimeVFrameRef<'a> {
    open spec fn obeys_from_spec() -> bool {
        false
    }

    open spec fn from_spec(vframe: &'a VFrame) -> Self {
        arbitrary()
    }
}

/// What encoders read of a video frame is what the frame holds, and its time is left to the encoder.
pub proof fn law_frames_read_as_they_are(
    frame: &VFrame,
    data: &[u8],
    size: (u32, u32),
    pix_fmt: i32,
    elapsed: u128,
    ts: Option<u128>,
)
    requires
        call_ensures(<VFrame as frame::VFrame>::data, (frame,), data),
        call_ensures(<VFrame as frame::VFrame>::size, (frame,), size),
        call_ensures(<VFrame as frame::VFrame>::pix_fmt, (frame,), pix_fmt),
        call_ensures(<VFrame as frame::VFrame>::ts, (frame, elapsed), ts),
    ensures
        data@ == frame.vframe@,
        size == frame.size,
        pix_fmt == frame.pix_fmt,
        ts is None,
{
}

/// What encoders read of a real-time video frame is what the frame holds, and its time is that of the handover.
pub proof fn law_real_time_frames_read_as_they_are(
    frame: &RealTimeVFrame,
    data: &[u8],
    size: (u32, u32),
    pix_fmt: i32,
    elapsed: u128,
    ts: Option<u128>,
)
    requires
        call_ensures(<RealTimeVFrame as frame::VFrame>::data, (frame,), data),
        call_ensures(<RealTimeVFrame as frame::VFrame>::size, (frame,), size),
        call_ensures(<RealTimeVFrame as frame::VFrame>::pix_fmt, (frame,), pix_fmt),
        call_ensures(<RealTimeVFrame as frame::VFrame>::ts, (frame, elapsed), ts),
    ensures
        data@ == frame.vframe@,
        size == frame.size,
        pix_fmt == frame.pix_fmt,
        ts == Some(elapsed),
{
}

/// What encoders read of a borrowed video frame is what the frame holds, and its time is left to the encoder.
pub proof fn law_borrowed_frames_read_as_they_are(
    frame: &VFrameRef,
    data: &[u8],
    size: (u32, u32),
    pix_fmt: i32,
    elapsed: u128,
    ts: Option<u128>,
)
    requires
        call_ensures(<VFrameRef as frame::VFrame>::data, (frame,), data),
        call_ensures(<VFrameRef as frame::VFrame>::size, (frame,), size),
        call_ensures(<VFrameRef as frame::VFrame>::pix_fmt, (frame,), pix_fmt),
        call_ensures(<VFrameRef as frame::VFrame>::ts, (frame, elapsed), ts),
    ensures
        data@ == frame.vframe@,
        size == frame.size,
        pix_fmt == frame.pix_fmt,
        ts is None,
{
}

/// What encoders read of a borrowed real-time video frame is what the frame holds, and its time is that of the handover.
pub proof fn law_borrowed_real_time_frames_read_as_they_are(
    frame: &RealTimeVFrameRef,
    data: &[u8],
    size: (u32, u32),
    pix_fmt: i32,
    elapsed: u128,
    ts: Option<u128>,
)
    requires
        call_ensures(<RealTimeVFrameRef as frame::VFrame>::data, (frame,), data),
        call_ensures(<RealTimeVFrameRef as frame::VFrame>::size, (frame,), size),
        call_ensures(<RealTimeVFrameRef as frame::VFrame>::pix_fmt, (frame,), pix_fmt),
        call_ensures(<RealTimeVFrameRef as frame::VFrame>::ts, (frame, elapsed), ts),
    ensures
        data@ == frame.vframe@,
        size == frame.size,
        pix_fmt == frame.pix_fmt,
        ts == Some(elapsed),
{
}

/// A frame keeps its bytes, its size and its format when it becomes one of another kind.
pub proof fn law_frames_keep_what_they_hold(
    frame: VFrame,
    owned: RealTimeVFrame,
    borrowed: VFrameRef,
    now: RealTimeVFrameRef,
)
    requires
        call_ensures(<RealTimeVFrame as From<VFrame>>::from, (frame,), owned),
        call_ensures(<VFrameRef as From<&VFrame>>::from, (&frame,), borrowed),
        call_ensures(<RealTimeVFrameRef as From<&VFrame>>::from, (&frame,), now),
    ensures
        owned.vframe@ == frame.vframe@ && owned.size == frame.size && owned.pix_fmt
            == frame.pix_fmt,
        borrowed.vframe@ == frame.vframe@ && borrowed.size == frame.size && borrowed.pix_fmt
            == frame.pix_fmt,
        now.vframe@ == frame.vframe@ && now.size == frame.size && now.pix_fmt == frame.pix_fmt,
{
}

/// What frames show of themselves is how many bytes they hold, and the rest as it is.
pub proof fn law_frames_show_themselves(
    owned: &VFrame,
    shown: VFrameDebug,
    borrowed: &VFrameRef,
    told: VFrameRefDebug,
)
    requires
        call_ensures(VFrame::debug, (owned,), shown),
        call_ensures(VFrameRef::debug, (borrowed,), told),
    ensures
        shown.vframe == owned.vframe@.len(),
        shown.size == owned.size,
        shown.pix_fmt == owned.pix_fmt,
        told.vframe == borrowed.vframe@.len(),
        told.size == borrowed.size,
        told.pix_fmt == borrowed.pix_fmt,
{
}

/// What frames without timestamps show of themselves is how many bytes they hold, and the rest as it
/// is.
pub proof fn law_real_time_frames_show_themselves(
    owned: &RealTimeVFrame,
    shown: RealTimeVFrameDebug,
    borrowed: &RealTimeVFrameRef,
    told: RealTimeVFrameRefDebug,
)
    requires
        call_ensures(RealTimeVFrame::debug, (owned,), shown),
        call_ensures(RealTimeVFrameRef::debug, (borrowed,), told),
    ensures
        shown.vframe == owned.vframe@.len(),
        shown.size == owned.size,
        shown.pix_fmt == owned.pix_fmt,
        told.vframe == borrowed.vframe@.len(),
        told.size == borrowed.size,
        told.pix_fmt == borrowed.pix_fmt,
{
}

} // verus!
