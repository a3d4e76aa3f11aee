//! The picture: what is captured, how the capture is set up, and what becomes of its frames.

use crate::config::Target;
use crate::error::{CaptureError, Unsupported};
use crate::format::PixFmt;
use crate::fps::{FpsGate, Sample};
use crate::frame::VideoFrame;
use crate::pattern::{compile, first_flagged};
use crate::util::pack_rows;
use regex::Regex;
use vstd::prelude::*;

verus! {

/// A top-level window.
#[derive(Debug)]
pub struct WindowRecord {
    /// Its `HWND`.
    pub hwnd: isize,
    /// Whether it is visible.
    pub visible: bool,
    /// Its title in UTF-16.
    pub title: Vec<u16>,
}

impl WindowRecord {
    /// Whether the window is visible and has a title that is one of `language`.
    pub open spec fn titled(self, language: Set<Seq<char>>) -> bool {
        &&& self.visible
        &&& self.title@.len() > 0
        &&& language.contains(crate::pattern::utf16_text(self.title@))
    }
}

/// For each window whether it is visible and has a title that is one of `language`.
pub open spec fn titled_flags(windows: Seq<WindowRecord>, language: Set<Seq<char>>) -> Seq<bool> {
    windows.map_values(|window: WindowRecord| window.titled(language))
}

/// For each window whether it is visible and has a title that the regex matches.
pub fn match_titles(re: &Regex, windows: &Vec<WindowRecord>) -> (flags: Vec<bool>)
    ensures
        flags@ == titled_flags(windows@, crate::pattern::regex_language(*re)),
{
    let ghost language = crate::pattern::regex_language(*re);
    let mut flags: Vec<bool> = Vec::new();
    let mut i: usize = 0;
    while i < windows.len()
        invariant
            i <= windows@.len(),
            language == crate::pattern::regex_language(*re),
            flags@ =~= titled_flags(windows@, language).take(i as int),
        decreases windows@.len() - i,
    {
        let window = &windows[i];
        let mut flag = false;
        if window.visible && window.title.len() > 0 {
            let title = String::from_utf16_lossy(window.title.as_slice());
            flag = re.is_match(title.as_str());
        }
        assert(titled_flags(windows@, language)[i as int] == flag);
        flags.push(flag);
        i = i + 1;
    }
    flags
}

/// The first of the windows that is flagged.
pub fn first_window(windows: &Vec<WindowRecord>, flags: &Vec<bool>) -> (found: Result<
    isize,
    CaptureError,
>)
    requires
        windows@.len() == flags@.len(),
    ensures
        found == match crate::pattern::first_set(flags@) {
            Some(i) => Ok(windows@[i].hwnd),
            None => Err(CaptureError::TargetNotFound),
        },
{
    match first_flagged(flags) {
        Some(i) => Ok(windows[i].hwnd),
        None => Err(CaptureError::TargetNotFound),
    }
}

/// The first visible window whose title matches a regex. A pattern that is no regex is refused, and
/// so is one that compiles to more than the limit allows.
pub fn window_by_title(pattern: &str, windows: &Vec<WindowRecord>) -> (found: Result<
    isize,
    CaptureError,
>)
    ensures
        if found is Err && found->Err_0 is BadWindowRegex {
            crate::pattern::refuses(found->Err_0, pattern@)
        } else {
            &&& crate::pattern::is_regex(pattern@)
            &&& found == match crate::pattern::first_set(
                titled_flags(windows@, crate::pattern::pattern_language(pattern@)),
            ) {
                Some(i) => Ok(windows@[i].hwnd),
                None => Err(CaptureError::TargetNotFound),
            }
        },
{
    let re = match compile(pattern) {
        Ok(re) => re,
        Err(e) => return Err(e),
    };
    let flags = match_titles(&re, windows);
    first_window(windows, &flags)
}

/// The monitor with the given index.
pub fn monitor_from_index(index: isize, monitors: &Vec<isize>) -> (monitor: Result<
    isize,
    CaptureError,
>)
    ensures
        monitor == if 0 <= index < monitors@.len() {
            Ok(monitors@[index as int])
        } else {
            Err(CaptureError::TargetNotFound)
        },
{
    if index < 0 {
        return Err(CaptureError::TargetNotFound);
    }
    let index: usize = index as usize;
    if index < monitors.len() {
        Ok(monitors[index])
    } else {
        Err(CaptureError::TargetNotFound)
    }
}

/// What of the desktop a target is looked up in; only what the target needs has to be there.
#[derive(Debug)]
pub struct Desktop {
    /// The primary monitor's `HMONITOR`, if there is one.
    pub primary: Option<isize>,
    /// Every monitor's `HMONITOR`, in the order of the system.
    pub monitors: Vec<isize>,
    /// Every top-level window, in the order of the system.
    pub windows: Vec<WindowRecord>,
}

/// What to make a capture item for.
#[derive(Debug, Clone, Copy, PartialEq, Eq, Structural)]
pub enum ItemSource {
    /// A monitor.
    Monitor(isize),
    /// A window.
    Window(isize),
    /// Whatever the user picks, in a picker presented from this window.
    Picker(isize),
}

/// What to make a capture item for.
///
/// The picker of Windows needs a window to be presented from.
pub fn capture_item(target: &Target, desktop: &Desktop) -> (source: Result<
    ItemSource,
    CaptureError,
>)
    ensures
        match *target {
            Target::Primary => source == match desktop.primary {
                Some(monitor) => Ok(ItemSource::Monitor(monitor)),
                None => Err(CaptureError::TargetNotFound),
            },
            Target::Monitor(index) => source == if 0 <= index < desktop.monitors@.len() {
                Ok(ItemSource::Monitor(desktop.monitors@[index as int]))
            } else {
                Err(CaptureError::TargetNotFound)
            },
            Target::Window(hwnd) => source == Ok::<ItemSource, CaptureError>(
                ItemSource::Window(hwnd),
            ),
            Target::WindowName(pattern) => if source is Err && source->Err_0 is BadWindowRegex {
                crate::pattern::refuses(source->Err_0, pattern@)
            } else {
                &&& crate::pattern::is_regex(pattern@)
                &&& source == match crate::pattern::first_set(
                    titled_flags(
                        desktop.windows@,
                        crate::pattern::pattern_language(pattern@),
                    ),
                ) {
                    Some(i) => Ok(ItemSource::Window(desktop.windows@[i].hwnd)),
                    None => Err(CaptureError::TargetNotFound),
                }
            },
            Target::PickFrom(parent) => source == Ok::<ItemSource, CaptureError>(
                ItemSource::Picker(parent),
            ),
            Target::Pick => source == Err::<ItemSource, CaptureError>(
                CaptureError::Unsupported(Unsupported::Picker),
            ),
        },
{
    match target {
        Target::Primary => match desktop.primary {
            Some(monitor) => Ok(ItemSource::Monitor(monitor)),
            None => Err(CaptureError::TargetNotFound),
        },
        Target::Monitor(index) => match monitor_from_index(*index, &desktop.monitors) {
            Ok(monitor) => Ok(ItemSource::Monitor(monitor)),
            Err(e) => Err(e),
        },
        Target::Window(hwnd) => Ok(ItemSource::Window(*hwnd)),
        Target::WindowName(pattern) => match window_by_title(pattern.as_str(), &desktop.windows) {
            Ok(hwnd) => Ok(ItemSource::Window(hwnd)),
            Err(e) => Err(e),
        },
        Target::PickFrom(parent) => Ok(ItemSource::Picker(*parent)),
        Target::Pick => Err(CaptureError::Unsupported(Unsupported::Picker)),
    }
}

/// What it means that the picker gave no item. Dismissing it yields a null item, which is reported
/// as an error with the code of a success. `None` where the error itself says it all.
pub fn pick_failed(code: i32) -> (error: Option<CaptureError>)
    ensures
        error == if code >= 0 {
            Some(CaptureError::Cancelled)
        } else {
            None
        },
{
    if code >= 0 {
        Some(CaptureError::Cancelled)
    } else {
        None
    }
}

/// The least time between two updates of a session under a cap, in units of 100 ns.
pub fn min_update_interval(fps: Option<u32>) -> (interval: Option<i64>)
    ensures
        interval == match fps {
            Some(fps) => if fps > 0 {
                Some((10_000_000int / fps as int) as i64)
            } else {
                None
            },
            None => None,
        },
{
    match fps {
        Some(fps) => {
            if fps > 0 {
                Some(10_000_000i64 / fps as i64)
            } else {
                None
            }
        },
        None => None,
    }
}

/// Whether a frame says when it was captured.
pub open spec fn has_time(relative: Option<i64>) -> bool {
    relative is Some && relative->0 >= 0
}

/// When a frame was captured, in nanoseconds.
///
/// `relative` is what the frame says, in units of 100 ns; `now` stands in for it where it does
/// not say.
pub fn frame_ts(relative: Option<i64>, now: u64) -> (ts: u64)
    requires
        has_time(relative) ==> relative->0 * 100 <= u64::MAX,
    ensures
        ts == if has_time(relative) {
            relative->0 * 100
        } else {
            now as int
        },
{
    match relative {
        Some(relative) => {
            if relative >= 0 {
                relative as u64 * 100
            } else {
                now
            }
        },
        None => now,
    }
}

/// Whether the message loop goes on after `GetMessageW` has returned `ret`.
pub fn pump_goes_on(ret: i32, terminated: bool) -> (goes_on: bool)
    ensures
        goes_on == (ret != -1 && ret != 0 && !terminated),
{
    ret != -1 && ret != 0 && !terminated
}

/// State of the running capture, as its frame handler sees it.
#[derive(Debug)]
pub struct FrameHandler {
    gate: FpsGate,
    size: (u32, u32),
    staging: Option<(u32, u32)>,
}

impl FrameHandler {
    /// The [`FpsGate`] that frames go through.
    pub closed spec fn gate(&self) -> FpsGate {
        self.gate
    }

    /// The size of the captured video.
    pub closed spec fn spec_size(&self) -> (u32, u32) {
        self.size
    }

    /// The size of the texture that frames are copied through, if there is one.
    pub closed spec fn staging(&self) -> Option<(u32, u32)> {
        self.staging
    }

    /// A capture of an item of the given size.
    pub fn new(fps: Option<u32>, size: (u32, u32)) -> (handler: Self)
        ensures
            handler.gate().interval() == crate::fps::frame_interval(fps),
            handler.gate().next() is None,
            handler.spec_size() == size,
            handler.staging() is None,
    {
        FrameHandler { gate: FpsGate::new(fps), size, staging: None }
    }

    /// Width and height of the captured video.
    pub fn size(&self) -> (size: (u32, u32))
        ensures
            size == self.spec_size(),
    {
        self.size
    }

    /// Whether a frame captured at `ts` can be judged.
    pub fn can_judge(&self, ts: u64) -> (fits: bool)
        ensures
            fits == self.gate().fits(ts),
    {
        self.gate.can_judge(ts)
    }

    /// Whether a frame captured at `ts` should be delivered.
    pub fn arrived(&mut self, ts: u64) -> (deliver: bool)
        requires
            old(self).gate().fits(ts),
        ensures
            deliver == old(self).gate().passes(ts),
            old(self).gate().judged(ts, &final(self).gate()),
            old(self).gate().delivers(
                Sample::Video(ts),
                if deliver {
                    Some(ts)
                } else {
                    None
                },
                &final(self).gate(),
            ),
            final(self).spec_size() == old(self).spec_size(),
            final(self).staging() == old(self).staging(),
    {
        self.gate.allow(ts)
    }

    /// Take note of the size of a frame; gives whether a new texture is needed to copy it
    /// through.
    pub fn measured(&mut self, width: u32, height: u32) -> (needs_staging: bool)
        ensures
            needs_staging == (old(self).staging() != Some((width, height))),
            final(self).spec_size() == (width, height),
            final(self).staging() == old(self).staging(),
            final(self).gate() == old(self).gate(),
    {
        self.size = (width, height);
        match self.staging {
            Some((w, h)) => w != width || h != height,
            None => true,
        }
    }

    /// Take note of a texture that was made to copy frames through.
    pub fn staged(&mut self, width: u32, height: u32)
        ensures
            final(self).staging() == Some((width, height)),
            final(self).spec_size() == old(self).spec_size(),
            final(self).gate() == old(self).gate(),
    {
        self.staging = Some((width, height));
    }
}

/// The frame that a mapped texture holds: its rows, without their padding. `None` where nothing
/// is mapped, or where rows are too close to one another to be whole.
pub fn mapped_frame(
    data: Option<&[u8]>,
    row_pitch: u32,
    width: u32,
    height: u32,
    ts: u64,
) -> (frame: Option<VideoFrame>)
    requires
        data is Some && row_pitch >= width * 4 ==> row_pitch * height <= data->0@.len(),
    ensures
        frame is Some <==> data is Some && row_pitch >= width * 4,
        frame is Some ==> {
            &&& frame->0.vframe@ == crate::util::packed(
                data->0@,
                row_pitch as nat,
                (width * 4) as nat,
                height as nat,
            )
            &&& frame->0.size == (width, height)
            &&& frame->0.pix_fmt == PixFmt::Bgra
            &&& frame->0.ts == ts
            &&& frame->0.tight()
        },
{
    let row_bytes: usize = match (width as usize).checked_mul(4) {
        Some(row_bytes) => row_bytes,
        None => return None,
    };
    let vframe = match pack_rows(data, row_pitch as usize, row_bytes, height as usize) {
        None => return None,
        Some(vframe) => vframe,
    };
    assert(row_bytes * height == width * height * 4) by (nonlinear_arith)
        requires
            row_bytes == width * 4,
    ;
    Some(VideoFrame { vframe, size: (width, height), pix_fmt: PixFmt::Bgra, ts })
}

/// What the setup of a capture is told.
#[derive(Debug)]
pub enum SetupEvent {
    /// Whether Windows.Graphics.Capture is supported.
    Supported(bool),
    /// The window is hidden.
    Hidden,
    /// The target is resolved to a capture item of this size.
    Item {
        /// Its width.
        width: i32,
        /// Its height.
        height: i32,
    },
    /// The capture thread is running, under this id.
    Running(u32),
    /// The capture thread ended without an answer.
    WorkerGone,
    /// What was asked for has failed; the error is the platform's.
    Failed,
}

/// What to do next to set a capture up.
#[derive(Debug)]
pub enum SetupAction {
    /// Ask whether Windows.Graphics.Capture is supported.
    CheckSupport,
    /// Hide a window.
    Hide(isize),
    /// Resolve the target and read the item's size.
    ///
    /// Only once the windows are hidden: a picker would otherwise offer them.
    ResolveItem,
    /// Start the capture thread.
    Spawn,
    /// The capture runs.
    Ready {
        /// The size of the captured item.
        size: (u32, u32),
        /// The capture thread.
        thread_id: u32,
        /// The windows to let go of when the capture ends.
        hidden: Vec<isize>,
    },
    /// The capture does not run.
    Fail {
        /// The windows to let go of.
        restore: Vec<isize>,
        /// The error, `None` for the one that the platform has reported.
        error: Option<CaptureError>,
    },
}

/// [`SetupAction`] with its lists as sequences.
pub ghost enum SetupStep {
    /// See [`SetupAction::CheckSupport`].
    CheckSupport,
    /// See [`SetupAction::Hide`].
    Hide(isize),
    /// See [`SetupAction::ResolveItem`].
    ResolveItem,
    /// See [`SetupAction::Spawn`].
    Spawn,
    /// See [`SetupAction::Ready`].
    Ready { size: (u32, u32), thread_id: u32, hidden: Seq<isize> },
    /// See [`SetupAction::Fail`].
    Fail { restore: Seq<isize>, error: Option<CaptureError> },
}

impl View for SetupAction {
    type V = SetupStep;

    open spec fn view(&self) -> SetupStep {
        match *self {
            SetupAction::CheckSupport => SetupStep::CheckSupport,
            SetupAction::Hide(hwnd) => SetupStep::Hide(hwnd),
            SetupAction::ResolveItem => SetupStep::ResolveItem,
            SetupAction::Spawn => SetupStep::Spawn,
            SetupAction::Ready { size, thread_id, hidden } => SetupStep::Ready {
                size,
                thread_id,
                hidden: hidden@,
            },
            SetupAction::Fail { restore, error } => SetupStep::Fail { restore: restore@, error },
        }
    }
}

/// Where the setup stands.
#[derive(Debug, Clone, Copy, PartialEq, Eq, Structural)]
pub enum SetupPhase {
    /// It is being asked whether capture is supported.
    Support,
    /// A window is being hidden.
    Hide,
    /// The target is being resolved.
    Resolve,
    /// The capture thread is being started.
    Spawn,
    /// Nothing is left to do.
    Over,
}

/// State of the setup.
pub ghost struct SetupState {
    /// The windows to hide.
    pub hide: Seq<isize>,
    /// How many of them are hidden.
    pub done: int,
    /// The size of the capture item, once it is known.
    pub size: (u32, u32),
    /// Where the setup stands.
    pub phase: SetupPhase,
}

impl SetupState {
    /// Whether the setup is waiting to be told this.
    pub open spec fn expects(self, event: SetupEvent) -> bool {
        match self.phase {
            SetupPhase::Support => event is Supported || event is Failed,
            SetupPhase::Hide => event is Hidden || event is Failed,
            SetupPhase::Resolve => event is Item || event is Failed,
            SetupPhase::Spawn => event is Running || event is WorkerGone || event is Failed,
            SetupPhase::Over => false,
        }
    }

    /// The end of a setup that has failed: what was hidden so far is let go of.
    pub open spec fn failed(self, error: Option<CaptureError>) -> (SetupState, SetupStep) {
        (
            SetupState { phase: SetupPhase::Over, ..self },
            SetupStep::Fail { restore: self.hide.take(self.done), error },
        )
    }

    /// Hide the next window, or resolve the target once all are hidden.
    pub open spec fn hide_next(self) -> (SetupState, SetupStep) {
        if self.done < self.hide.len() {
            (
                SetupState { phase: SetupPhase::Hide, ..self },
                SetupStep::Hide(self.hide[self.done]),
            )
        } else {
            (SetupState { phase: SetupPhase::Resolve, ..self }, SetupStep::ResolveItem)
        }
    }

    /// What follows an event.
    pub open spec fn next(self, event: SetupEvent) -> (SetupState, SetupStep) {
        match event {
            SetupEvent::Supported(supported) => if supported {
                self.hide_next()
            } else {
                self.failed(Some(CaptureError::Unsupported(Unsupported::ScreenCapture)))
            },
            SetupEvent::Hidden => SetupState { done: self.done + 1, ..self }.hide_next(),
            SetupEvent::Item { width, height } => (
                SetupState {
                    size: (width as u32, height as u32),
                    phase: SetupPhase::Spawn,
                    ..self
                },
                SetupStep::Spawn,
            ),
            SetupEvent::Running(thread_id) => (
                SetupState { phase: SetupPhase::Over, ..self },
                SetupStep::Ready { size: self.size, thread_id, hidden: self.hide },
            ),
            SetupEvent::WorkerGone => self.failed(Some(CaptureError::WorkerGone)),
            SetupEvent::Failed => self.failed(None),
        }
    }

    /// Whether the count of hidden windows fits where the setup stands.
    pub open spec fn valid(self) -> bool {
        &&& 0 <= self.done <= self.hide.len()
        &&& self.phase == SetupPhase::Support ==> self.done == 0
        &&& self.phase == SetupPhase::Hide ==> self.done < self.hide.len()
        &&& self.phase == SetupPhase::Resolve || self.phase == SetupPhase::Spawn ==> self.done
            == self.hide.len()
    }
}

/// Sets a capture up, and takes it down again where that fails halfway.
#[derive(Debug)]
pub struct VideoSetup {
    hide: Vec<isize>,
    done: usize,
    size: (u32, u32),
    phase: SetupPhase,
}

impl View for VideoSetup {
    type V = SetupState;

    closed spec fn view(&self) -> SetupState {
        SetupState {
            hide: self.hide@,
            done: self.done as int,
            size: self.size,
            phase: self.phase,
        }
    }
}

impl VideoSetup {
    /// A capture that hides the given windows; the first thing to do is
    /// [`SetupAction::CheckSupport`].
    pub fn new(hide: Vec<isize>) -> (setup: Self)
        ensures
            setup@ == (SetupState {
                hide: hide@,
                done: 0,
                size: (0u32, 0u32),
                phase: SetupPhase::Support,
            }),
            setup@.valid(),
    {
        VideoSetup { hide, done: 0, size: (0, 0), phase: SetupPhase::Support }
    }

    /// Whether the setup is waiting to be told this.
    pub fn expects(&self, event: &SetupEvent) -> (expected: bool)
        ensures
            expected == self@.expects(*event),
    {
        match (self.phase, event) {
            (SetupPhase::Support, SetupEvent::Supported(_)) => true,
            (SetupPhase::Hide, SetupEvent::Hidden) => true,
            (SetupPhase::Resolve, SetupEvent::Item { .. }) => true,
            (SetupPhase::Spawn, SetupEvent::Running(_)) => true,
            (SetupPhase::Spawn, SetupEvent::WorkerGone) => true,
            (SetupPhase::Over, SetupEvent::Failed) => false,
            (_, SetupEvent::Failed) => true,
            _ => false,
        }
    }

    fn hidden_so_far(&self) -> (hidden: Vec<isize>)
        requires
            self@.valid(),
        ensures
            hidden@ == self@.hide.take(self@.done),
    {
        let mut hidden: Vec<isize> = Vec::new();
        let mut i: usize = 0;
        while i < self.done
            invariant
                i <= self.done <= self.hide@.len(),
                hidden@ =~= self.hide@.take(i as int),
            decreases self.done - i,
        {
            hidden.push(self.hide[i]);
            i = i + 1;
        }
        hidden
    }

    fn fail(&mut self, error: Option<CaptureError>) -> (action: SetupAction)
        requires
            old(self)@.valid(),
        ensures
            (final(self)@, action@) == old(self)@.failed(error),
    {
        self.phase = SetupPhase::Over;
        SetupAction::Fail { restore: self.hidden_so_far(), error }
    }

    fn hide_next(&mut self) -> (action: SetupAction)
        ensures
            (final(self)@, action@) == old(self)@.hide_next(),
    {
        if self.done < self.hide.len() {
            self.phase = SetupPhase::Hide;
            SetupAction::Hide(self.hide[self.done])
        } else {
            self.phase = SetupPhase::Resolve;
            SetupAction::ResolveItem
        }
    }

    /// What to do next, once what was asked for has happened or failed.
    pub fn step(&mut self, event: SetupEvent) -> (action: SetupAction)
        requires
            old(self)@.valid(),
            old(self)@.expects(event),
        ensures
            final(self)@.valid(),
            (final(self)@, action@) == old(self)@.next(event),
    {
        match event {
            SetupEvent::Supported(supported) => {
                if supported {
                    self.hide_next()
                } else {
                    self.fail(Some(CaptureError::Unsupported(Unsupported::ScreenCapture)))
                }
            },
            SetupEvent::Hidden => {
                let count: usize = self.hide.len();
                assert(self.done < count);
                self.done = self.done + 1;
                self.hide_next()
            },
            SetupEvent::Item { width, height } => {
                self.size = (width as u32, height as u32);
                self.phase = SetupPhase::Spawn;
                SetupAction::Spawn
            },
            SetupEvent::Running(thread_id) => {
                self.phase = SetupPhase::Over;
                let hidden = self.hidden_so_far();
                assert(self.hide@.take(self.done as int) =~= self.hide@);
                SetupAction::Ready { size: self.size, thread_id, hidden }
            },
            SetupEvent::WorkerGone => self.fail(Some(CaptureError::WorkerGone)),
            SetupEvent::Failed => self.fail(None),
        }
    }
}

/// Whether an event can be the outcome of a step.
pub open spec fn can_follow(step: SetupStep, event: SetupEvent) -> bool {
    match step {
        SetupStep::CheckSupport => event is Supported || event is Failed,
        SetupStep::Hide(_) => event is Hidden || event is Failed,
        SetupStep::ResolveItem => event is Item || event is Failed,
        SetupStep::Spawn => event is Running || event is WorkerGone || event is Failed,
        SetupStep::Ready { .. } | SetupStep::Fail { .. } => false,
    }
}

/// Whatever the outcome of a step, the setup is waiting for it.
pub proof fn law_outcome_is_expected(state: SetupState, event: SetupEvent, outcome: SetupEvent)
    requires
        state.valid(),
        state.expects(event),
        can_follow(state.next(event).1, outcome),
    ensures
        state.next(event).0.expects(outcome),
{
}

/// A setup: its state after the given events, and its steps so far.
pub open spec fn setup_run(hide: Seq<isize>, events: Seq<SetupEvent>) -> (
    SetupState,
    Seq<SetupStep>,
)
    decreases events.len(),
{
    if events.len() == 0 {
        (
            SetupState { hide, done: 0, size: (0u32, 0u32), phase: SetupPhase::Support },
            seq![SetupStep::CheckSupport],
        )
    } else {
        let (state, steps) = setup_run(hide, events.drop_last());
        let (after, step) = state.next(events.last());
        (after, steps.push(step))
    }
}

/// Whether each event is one that the setup was waiting for.
pub open spec fn in_order(hide: Seq<isize>, events: Seq<SetupEvent>) -> bool
    decreases events.len(),
{
    events.len() > 0 ==> {
        &&& in_order(hide, events.drop_last())
        &&& setup_run(hide, events.drop_last()).0.expects(events.last())
    }
}

/// The windows that a setup was told are hidden, in order: those of the steps that were followed
/// by [`SetupEvent::Hidden`].
pub open spec fn reported_hidden(hide: Seq<isize>, events: Seq<SetupEvent>) -> Seq<isize>
    decreases events.len(),
{
    if events.len() == 0 {
        Seq::empty()
    } else {
        let earlier = reported_hidden(hide, events.drop_last());
        let asked = setup_run(hide, events.drop_last()).1.last();
        match (events.last(), asked) {
            (SetupEvent::Hidden, SetupStep::Hide(hwnd)) => earlier.push(hwnd),
            _ => earlier,
        }
    }
}

proof fn lemma_setup_run(hide: Seq<isize>, events: Seq<SetupEvent>)
    requires
        in_order(hide, events),
    ensures
        setup_run(hide, events).0.valid(),
        setup_run(hide, events).0.hide == hide,
        setup_run(hide, events).1.len() == events.len() + 1,
        reported_hidden(hide, events) == hide.take(setup_run(hide, events).0.done),
        setup_run(hide, events).0.phase == SetupPhase::Hide ==> setup_run(
            hide,
            events,
        ).1.last() == SetupStep::Hide(hide[setup_run(hide, events).0.done]),
    decreases events.len(),
{
    if events.len() == 0 {
        assert(hide.take(0) =~= Seq::<isize>::empty());
    } else {
        let front = events.drop_last();
        lemma_setup_run(hide, front);
        let (state, steps) = setup_run(hide, front);
        if events.last() is Hidden {
            assert(hide.take(state.done).push(hide[state.done]) =~= hide.take(state.done + 1));
        }
    }
}

/// Where a setup fails, it lets go of exactly the windows that it has hidden; where it succeeds,
/// every window it was asked to hide is hidden, and is let go of when the capture ends.
pub proof fn law_setup_lets_go_of_what_it_hid(hide: Seq<isize>, events: Seq<SetupEvent>)
    requires
        in_order(hide, events),
    ensures
        match setup_run(hide, events).1.last() {
            SetupStep::Fail { restore, error } => restore == reported_hidden(hide, events),
            SetupStep::Ready { size, thread_id, hidden } => {
                &&& hidden == reported_hidden(hide, events)
                &&& hidden == hide
            },
            _ => true,
        },
{
    lemma_setup_run(hide, events);
    if events.len() > 0 {
        lemma_setup_run(hide, events.drop_last());
        assert(hide.take(hide.len() as int) =~= hide);
    }
}

/// A setup that fails leaves every window as it was before.
pub proof fn law_failed_setup_leaves_no_trace(
    desk: crate::windows::utils::Desk,
    hide: Seq<isize>,
    events: Seq<SetupEvent>,
)
    requires
        crate::windows::utils::desk_valid(desk),
        in_order(hide, events),
        setup_run(hide, events).1.last() is Fail,
    ensures
        crate::windows::utils::desk_unhide_all(
            crate::windows::utils::desk_hide_all(desk, reported_hidden(hide, events)),
            setup_run(hide, events).1.last()->restore,
        ) == desk,
{
    law_setup_lets_go_of_what_it_hid(hide, events);
    crate::windows::utils::law_hiding_leaves_no_trace(desk, reported_hidden(hide, events));
}

/// The target is resolved only once every window is hidden, so a picker does not offer them.
pub proof fn law_hidden_before_resolved(hide: Seq<isize>, events: Seq<SetupEvent>)
    requires
        in_order(hide, events),
        setup_run(hide, events).1.last() is ResolveItem,
    ensures
        reported_hidden(hide, events) == hide,
{
    lemma_setup_run(hide, events);
    if events.len() > 0 {
        lemma_setup_run(hide, events.drop_last());
        assert(hide.take(hide.len() as int) =~= hide);
    }
}

/// Which windows are flagged: a visible window with a title is, exactly where the text of the whole
/// title is one that the regex matches. No other window is.
pub proof fn law_whole_titles_are_matched(
    re: &Regex,
    windows: &Vec<WindowRecord>,
    flags: Vec<bool>,
    i: int,
)
    requires
        call_ensures(match_titles, (re, windows), flags),
    ensures
        flags@.len() == windows@.len(),
        0 <= i < windows@.len() && windows@[i].visible && windows@[i].title@.len() > 0 ==> (flags@[i]
            <==> crate::pattern::regex_language(*re).contains(
            crate::pattern::utf16_text(windows@[i].title@),
        )),
        0 <= i < windows@.len() && (!windows@[i].visible || windows@[i].title@.len() == 0)
            ==> !flags@[i],
{
}

/// Which window a title finds: a visible one whose whole title the pattern matches, and none comes
/// before it; without any, the target is not found.
pub proof fn law_first_window_with_the_title(
    pattern: &str,
    windows: &Vec<WindowRecord>,
    found: Result<isize, CaptureError>,
) -> (i: int)
    requires
        call_ensures(window_by_title, (pattern, windows), found),
    ensures
        !crate::pattern::is_regex(pattern@) ==> found is Err && found->Err_0 is BadWindowRegex,
        found is Err ==> found->Err_0 is BadWindowRegex || found->Err_0 is TargetNotFound,
        found is Err && found->Err_0 is BadWindowRegex ==> !crate::pattern::is_regex(pattern@)
            || crate::pattern::exceeds_limit(found->Err_0->BadWindowRegex_0),
        found is Ok ==> {
            &&& 0 <= i < windows@.len()
            &&& found->Ok_0 == windows@[i].hwnd
            &&& windows@[i].visible
            &&& windows@[i].title@.len() > 0
            &&& crate::pattern::pattern_language(pattern@).contains(
                crate::pattern::utf16_text(windows@[i].title@),
            )
        },
        found is Ok || found->Err_0 is TargetNotFound ==> forall|j: int|
            0 <= j < windows@.len() && (found is Ok ==> j < i) && (
            #[trigger] windows@[j]).visible && windows@[j].title@.len() > 0
                ==> !crate::pattern::pattern_language(pattern@).contains(
                crate::pattern::utf16_text(windows@[j].title@),
            ),
{
    let language = crate::pattern::pattern_language(pattern@);
    let flags = titled_flags(windows@, language);
    crate::pattern::law_first_set(flags);
    let i = match crate::pattern::first_set(flags) {
        Some(i) => i,
        None => 0,
    };
    if found is Ok || found->Err_0 is TargetNotFound {
        assert forall|j: int|
            0 <= j < windows@.len() && (found is Ok ==> j < i) && (
            #[trigger] windows@[j]).visible && windows@[j].title@.len() > 0 implies !language.contains(
            crate::pattern::utf16_text(windows@[j].title@),
        ) by {
            assert(!flags[j]);
        }
    }
    if found is Ok {
        assert(flags[i]);
    }
    i
}

/// The first of flagged windows: it is flagged, and none before it is.
pub proof fn law_first_of_the_flagged(
    windows: &Vec<WindowRecord>,
    flags: &Vec<bool>,
    found: Result<isize, CaptureError>,
) -> (i: int)
    requires
        call_ensures(first_window, (windows, flags), found),
    ensures
        found is Ok ==> 0 <= i < flags@.len() && flags@[i] && found->Ok_0 == windows@[i].hwnd
            && forall|j: int| 0 <= j < i ==> !(#[trigger] flags@[j]),
        found is Err ==> found->Err_0 is TargetNotFound && forall|j: int|
            0 <= j < flags@.len() ==> !(#[trigger] flags@[j]),
{
    crate::pattern::law_first_set(flags@);
    match crate::pattern::first_set(flags@) {
        Some(i) => i,
        None => 0,
    }
}

/// What a target is looked up as: the primary monitor, the monitor at an index, the window with a
/// handle, the window that a title finds, or a picker; and what is not there is not found.
pub proof fn law_targets_are_looked_up(
    target: &Target,
    desktop: &Desktop,
    source: Result<ItemSource, CaptureError>,
    index: isize,
    monitor: Result<isize, CaptureError>,
)
    requires
        call_ensures(capture_item, (target, desktop), source),
        call_ensures(monitor_from_index, (index, &desktop.monitors), monitor),
    ensures
        *target is Primary && desktop.primary is Some ==> source == Ok::<ItemSource, CaptureError>(
            ItemSource::Monitor(desktop.primary->0),
        ),
        *target is Primary && desktop.primary is None ==> source is Err && source->Err_0
            is TargetNotFound,
        0 <= index < desktop.monitors@.len() ==> monitor == Ok::<isize, CaptureError>(
            desktop.monitors@[index as int],
        ),
        index < 0 || index >= desktop.monitors@.len() ==> monitor is Err && monitor->Err_0
            is TargetNotFound,
        *target == Target::Monitor(index) && monitor is Ok ==> source == Ok::<
            ItemSource,
            CaptureError,
        >(ItemSource::Monitor(monitor->Ok_0)),
        *target == Target::Monitor(index) && monitor is Err ==> source is Err && source->Err_0
            is TargetNotFound,
        *target is Window ==> source == Ok::<ItemSource, CaptureError>(
            ItemSource::Window(target->Window_0),
        ),
        *target is PickFrom ==> source == Ok::<ItemSource, CaptureError>(
            ItemSource::Picker(target->PickFrom_0),
        ),
        *target is Pick ==> source == Err::<ItemSource, CaptureError>(
            CaptureError::Unsupported(Unsupported::Picker),
        ),
{
}

/// A target by title is the first visible window whose whole title the pattern matches.
pub proof fn law_target_by_title(
    pattern: String,
    desktop: &Desktop,
    source: Result<ItemSource, CaptureError>,
) -> (i: int)
    requires
        call_ensures(capture_item, (&Target::WindowName(pattern), desktop), source),
    ensures
        !crate::pattern::is_regex(pattern@) ==> source is Err && source->Err_0 is BadWindowRegex,
        source is Err ==> source->Err_0 is TargetNotFound || source->Err_0 is BadWindowRegex && (
        !crate::pattern::is_regex(pattern@) || crate::pattern::exceeds_limit(
            source->Err_0->BadWindowRegex_0,
        )),
        source is Ok ==> {
            &&& 0 <= i < desktop.windows@.len()
            &&& source->Ok_0 == ItemSource::Window(desktop.windows@[i].hwnd)
            &&& desktop.windows@[i].visible
            &&& desktop.windows@[i].title@.len() > 0
            &&& crate::pattern::pattern_language(pattern@).contains(
                crate::pattern::utf16_text(desktop.windows@[i].title@),
            )
        },
        source is Ok || source->Err_0 is TargetNotFound ==> forall|j: int|
            0 <= j < desktop.windows@.len() && (source is Ok ==> j < i) && (
            #[trigger] desktop.windows@[j]).visible && desktop.windows@[j].title@.len() > 0
                ==> !crate::pattern::pattern_language(pattern@).contains(
                crate::pattern::utf16_text(desktop.windows@[j].title@),
            ),
{
    let windows = desktop.windows@;
    let language = crate::pattern::pattern_language(pattern@);
    let flags = titled_flags(windows, language);
    crate::pattern::law_first_set(flags);
    let i = match crate::pattern::first_set(flags) {
        Some(i) => i,
        None => 0,
    };
    if source is Ok || source->Err_0 is TargetNotFound {
        assert forall|j: int|
            0 <= j < windows.len() && (source is Ok ==> j < i) && (
            #[trigger] windows[j]).visible && windows[j].title@.len() > 0 implies !language.contains(
            crate::pattern::utf16_text(windows[j].title@),
        ) by {
            assert(!flags[j]);
        }
    }
    if source is Ok {
        assert(flags[i]);
    }
    i
}

/// The picture that a mapped texture holds: byte `k` of row `row` is the byte at that place of that
/// row in the texture, whose rows start `row_pitch` bytes apart.
pub proof fn law_rows_of_a_texture(
    data: Option<&[u8]>,
    row_pitch: u32,
    width: u32,
    height: u32,
    ts: u64,
    frame: Option<VideoFrame>,
    row: int,
    k: int,
)
    requires
        call_ensures(mapped_frame, (data, row_pitch, width, height, ts), frame),
        0 <= row < height,
        0 <= k < width * 4,
    ensures
        frame is Some <==> data is Some && row_pitch >= width * 4,
        frame is Some ==> {
            &&& frame->0.vframe@.len() == width * height * 4
            &&& frame->0.vframe@[row * (width * 4) + k] == data->0@[row * row_pitch + k]
            &&& frame->0.size == (width, height)
            &&& frame->0.pix_fmt is Bgra
            &&& frame->0.ts == ts
        },
{
    if frame is Some {
        crate::util::lemma_packed_at(
            data->0@,
            row_pitch as nat,
            (width * 4) as nat,
            height as nat,
            row,
            k,
        );
        assert((width * 4) * height == width * height * 4) by (nonlinear_arith);
    }
}

/// When a picture was captured: what it says itself, in units of 100 ns, where that is not before
/// zero, else the time at hand.
pub proof fn law_picture_times(relative: Option<i64>, now: u64, ts: u64)
    requires
        call_ensures(frame_ts, (relative, now), ts),
    ensures
        relative is Some && relative->0 >= 0 ==> ts == relative->0 * 100,
        relative is None || relative->0 < 0 ==> ts == now,
{
}

/// What a handler does with a picture: the cap decides, the size is that of the picture that was
/// measured last, and a new texture is needed exactly where none of that size was made last.
pub proof fn law_handler_follows_the_pictures(
    fps: Option<u32>,
    size: (u32, u32),
    made: FrameHandler,
    before: (u32, u32),
    handler: &mut FrameHandler,
    ts: u64,
    deliver: bool,
    a: &mut FrameHandler,
    width: u32,
    height: u32,
    first: bool,
    b: &mut FrameHandler,
    staged: (u32, u32),
    c: &mut FrameHandler,
    other: (u32, u32),
    again: bool,
    after: (u32, u32),
)
    requires
        call_ensures(FrameHandler::new, (fps, size), made),
        call_ensures(FrameHandler::size, (&made,), before),
        *handler == made,
        call_ensures(FrameHandler::arrived, (handler, ts), deliver),
        *a == *final(handler),
        call_ensures(FrameHandler::measured, (a, width, height), first),
        *b == *final(a),
        call_ensures(FrameHandler::staged, (b, staged.0, staged.1), ()),
        *c == *final(b),
        call_ensures(FrameHandler::measured, (c, other.0, other.1), again),
        call_ensures(FrameHandler::size, (&*final(c),), after),
    ensures
        before == size,
        deliver,
        first,
        again <==> other != staged,
        after == other,
{
}

/// What a setup does after each event: it hides one window after the other, resolves the target once
/// all are hidden, runs at the size of what was resolved, and where it fails lets go of what it has
/// hidden so far.
pub proof fn law_setup_step(setup: &mut VideoSetup, event: SetupEvent, action: SetupAction)
    requires
        call_ensures(VideoSetup::step, (setup, event), action),
        0 <= setup@.done <= setup@.hide.len(),
    ensures
        final(setup)@.hide == old(setup)@.hide,
        ({
            let hide = old(setup)@.hide;
            let done = if event is Hidden {
                old(setup)@.done + 1
            } else {
                old(setup)@.done
            };
            let failed = event is Failed || event is WorkerGone || event
                == SetupEvent::Supported(false);
            &&& final(setup)@.done == done
            &&& action is Fail <==> failed
            &&& failed ==> action->restore@ == hide.take(done)
            &&& event is Failed ==> action->error is None
            &&& event is WorkerGone ==> action->error == Some(CaptureError::WorkerGone)
            &&& event == SetupEvent::Supported(false) ==> action->error == Some(
                CaptureError::Unsupported(Unsupported::ScreenCapture),
            )
            &&& event == SetupEvent::Supported(true) || event is Hidden ==> {
                &&& done < hide.len() ==> action is Hide && action->Hide_0 == hide[done]
                &&& done >= hide.len() ==> action is ResolveItem
            }
            &&& event is Item ==> {
                &&& action is Spawn
                &&& final(setup)@.size == (event->width as u32, event->height as u32)
            }
            &&& !(event is Item) ==> final(setup)@.size == old(setup)@.size
            &&& event is Running ==> {
                &&& action is Ready
                &&& action->size == old(setup)@.size
                &&& action->thread_id == event->Running_0
                &&& action->hidden@ == hide
            }
        }),
{
}

/// A setup that hides one window, from beginning to end: it asks for support, hides the window,
/// resolves the target, starts, and runs at the size of what was resolved.
pub proof fn law_setup_from_beginning_to_end(
    hide: Vec<isize>,
    made: VideoSetup,
    a: &mut VideoSetup,
    hiding: SetupAction,
    b: &mut VideoSetup,
    resolving: SetupAction,
    c: &mut VideoSetup,
    width: i32,
    height: i32,
    spawning: SetupAction,
    d: &mut VideoSetup,
    thread_id: u32,
    ready: SetupAction,
)
    requires
        hide@.len() == 1,
        call_ensures(VideoSetup::new, (hide,), made),
        *a == made,
        call_ensures(VideoSetup::step, (a, SetupEvent::Supported(true)), hiding),
        *b == *final(a),
        call_ensures(VideoSetup::step, (b, SetupEvent::Hidden), resolving),
        *c == *final(b),
        call_ensures(VideoSetup::step, (c, SetupEvent::Item { width, height }), spawning),
        *d == *final(c),
        call_ensures(VideoSetup::step, (d, SetupEvent::Running(thread_id)), ready),
        width >= 0,
        height >= 0,
    ensures
        hiding is Hide && hiding->Hide_0 == hide@[0],
        resolving is ResolveItem,
        spawning is Spawn,
        ready is Ready,
        ready->size.0 == width,
        ready->size.1 == height,
        ready->thread_id == thread_id,
        ready->hidden@ == hide@,
{
}

/// A setup waits for the outcome of what it has asked for, good or bad, and for nothing once it is
/// over.
pub proof fn law_setup_waits_for_outcomes(
    setup: &mut VideoSetup,
    event: SetupEvent,
    action: SetupAction,
    outcome: SetupEvent,
    expected: bool,
)
    requires
        setup@.expects(event),
        setup@.valid(),
        call_ensures(VideoSetup::step, (setup, event), action),
        call_ensures(VideoSetup::expects, (&*final(setup), &outcome), expected),
    ensures
        expected <==> match action {
            SetupAction::CheckSupport => outcome is Supported || outcome is Failed,
            SetupAction::Hide(_) => outcome is Hidden || outcome is Failed,
            SetupAction::ResolveItem => outcome is Item || outcome is Failed,
            SetupAction::Spawn => outcome is Running || outcome is WorkerGone || outcome is Failed,
            SetupAction::Ready { .. } | SetupAction::Fail { .. } => false,
        },
{
}

/// A setup first waits to be told whether capture is supported, and has all of its windows still to
/// hide, in the order they were named in.
pub proof fn law_setup_waits_for_support(
    hide: Vec<isize>,
    made: VideoSetup,
    outcome: SetupEvent,
    expected: bool,
)
    requires
        call_ensures(VideoSetup::new, (hide,), made),
        call_ensures(VideoSetup::expects, (&made, &outcome), expected),
    ensures
        expected <==> outcome is Supported || outcome is Failed,
        made@.hide == hide@,
        made@.done == 0,
{
}

/// A handler starts with the cap of its configuration, of which nothing is spent yet.
pub proof fn law_handlers_start_with_the_cap(
    fps: Option<u32>,
    size: (u32, u32),
    handler: FrameHandler,
)
    requires
        call_ensures(FrameHandler::new, (fps, size), handler),
    ensures
        ({
            let interval = handler.gate().interval();
            &&& fps is None || fps->0 == 0 ==> interval == 0
            &&& fps is Some && fps->0 > 0 ==> interval * fps->0 <= 1_000_000_000 && (interval + 1)
                * fps->0 > 1_000_000_000
        }),
        handler.gate().next() is None,
{
    if fps is Some && fps->0 > 0 {
        crate::fps::law_interval_is_the_cap(fps->0);
    }
}

/// The cap judges a picture as it judges any frame, and measuring or staging one spends nothing.
pub proof fn law_pictures_are_judged(
    handler: &mut FrameHandler,
    ts: u64,
    deliver: bool,
    judge: &mut FpsGate,
    allowed: bool,
    can: bool,
    fits: bool,
    measured: &mut FrameHandler,
    size: (u32, u32),
    needed: bool,
    staged: &mut FrameHandler,
)
    requires
        call_ensures(FrameHandler::arrived, (handler, ts), deliver),
        call_ensures(FrameHandler::can_judge, (&*handler, ts), can),
        *judge == handler.gate(),
        call_ensures(FpsGate::can_judge, (&*judge, ts), fits),
        call_ensures(FpsGate::allow, (judge, ts), allowed),
        call_ensures(FrameHandler::measured, (measured, size.0, size.1), needed),
        call_ensures(FrameHandler::staged, (staged, size.0, size.1), ()),
    ensures
        can <==> fits,
        deliver <==> allowed,
        final(handler).gate().interval() == final(judge).interval(),
        final(handler).gate().next() == final(judge).next(),
        final(handler).spec_size() == old(handler).spec_size(),
        final(measured).gate() == old(measured).gate(),
        final(staged).gate() == old(staged).gate(),
        final(staged).spec_size() == old(staged).spec_size(),
{
}

/// A picker that was dismissed reports no failure of its own.
pub proof fn law_dismissed_pickers(code: i32, error: Option<CaptureError>)
    requires
        call_ensures(pick_failed, (code,), error),
    ensures
        code >= 0 ==> error is Some && error->0 is Cancelled,
        code < 0 ==> error is None,
{
}

/// Under a cap a session is asked for no more updates than the cap allows, to a tenth of a
/// microsecond; without one it is asked for nothing.
pub proof fn law_updates_under_a_cap(fps: Option<u32>, interval: Option<i64>)
    requires
        call_ensures(min_update_interval, (fps,), interval),
    ensures
        interval is Some <==> fps is Some && fps->0 > 0,
        interval is Some ==> {
            &&& interval->0 >= 0
            &&& interval->0 * fps->0 <= 10_000_000
            &&& (interval->0 + 1) * fps->0 > 10_000_000
        },
{
    if fps is Some && fps->0 > 0 {
        let f = fps->0 as int;
        let q = 10_000_000int / f;
        vstd::arithmetic::div_mod::lemma_fundamental_div_mod(10_000_000, f);
        assert(0 <= q <= 10_000_000 && q * f <= 10_000_000 && (q + 1) * f > 10_000_000)
            by (nonlinear_arith)
            requires
                10_000_000 == f * q + 10_000_000int % f,
                0 <= 10_000_000int % f < f,
                f > 0,
        ;
    }
}

/// The message loop goes on until it is told to quit, fails, or the capture ends.
pub proof fn law_message_loop(ret: i32, terminated: bool, goes_on: bool)
    requires
        call_ensures(pump_goes_on, (ret, terminated), goes_on),
    ensures
        ret == 0 || ret == -1 || terminated ==> !goes_on,
        ret > 0 && !terminated ==> goes_on,
        ret < -1 && !terminated ==> goes_on,
{
}

} // verus!
