//! What is captured, how the stream is set up, and how it ends.

use crate::config::{CaptureConfig, Target};
use crate::error::{CaptureError, ScreenCaptureKitError, Unsupported};
use crate::macos::delegate::{ns_error, NsError};
use crate::pattern::{compile, first_flagged};
use regex::Regex;
use vstd::prelude::*;

verus! {

/// A display that can be captured.
#[derive(Debug, Clone, Copy, PartialEq, Eq)]
pub struct DisplayRecord {
    /// Width in points.
    pub width: usize,
    /// Height in points.
    pub height: usize,
}

/// A window that can be captured.
#[derive(Debug)]
pub struct WindowRecord {
    /// Its `CGWindowID`.
    pub id: u32,
    /// Whether it is on the screen.
    pub on_screen: bool,
    /// Its title, if it has one.
    pub title: Option<String>,
    /// Width in points.
    pub width: usize,
    /// Height in points.
    pub height: usize,
}

impl WindowRecord {
    /// Whether the window is on the screen and has a title that is one of `language`.
    pub open spec fn titled(self, language: Set<Seq<char>>) -> bool {
        &&& self.on_screen
        &&& self.title is Some
        &&& language.contains(self.title->0@)
    }
}

/// What the system lets this process capture.
#[derive(Debug)]
pub struct ShareableContent {
    /// The displays, the primary one first.
    pub displays: Vec<DisplayRecord>,
    /// The windows.
    pub windows: Vec<WindowRecord>,
}

/// What to make a content filter for, by its position in the [`ShareableContent`].
#[derive(Debug, Clone, Copy, PartialEq, Eq, Structural)]
pub enum FilterSource {
    /// A display.
    Display(usize),
    /// A window.
    Window(usize),
}

/// For each window whether it has the given id.
pub open spec fn id_flags(windows: Seq<WindowRecord>, id: int) -> Seq<bool> {
    windows.map_values(|window: WindowRecord| window.id == id)
}

/// For each window whether it is on the screen and has a title that is one of `language`.
pub open spec fn titled_flags(windows: Seq<WindowRecord>, language: Set<Seq<char>>) -> Seq<bool> {
    windows.map_values(|window: WindowRecord| window.titled(language))
}

/// What of the content a target names; `language` holds the titles that the target's pattern
/// matches.
pub open spec fn named_source(
    target: Target,
    content: ShareableContent,
    language: Option<Set<Seq<char>>>,
) -> Option<FilterSource> {
    let window = |i: Option<int>|
        match i {
            Some(i) => Some(FilterSource::Window(i as usize)),
            None => None,
        };
    match target {
        Target::Primary => if content.displays@.len() > 0 {
            Some(FilterSource::Display(0))
        } else {
            None
        },
        Target::Monitor(index) => if 0 <= index < content.displays@.len() {
            Some(FilterSource::Display(index as usize))
        } else {
            None
        },
        Target::Window(id) => window(
            crate::pattern::first_set(id_flags(content.windows@, id as int)),
        ),
        Target::WindowName(_) => match language {
            Some(language) => window(
                crate::pattern::first_set(titled_flags(content.windows@, language)),
            ),
            None => None,
        },
        Target::Pick | Target::PickFrom(_) => None,
    }
}

impl FilterSource {
    /// The size of the source in points.
    pub open spec fn points(self, content: ShareableContent) -> (usize, usize) {
        match self {
            FilterSource::Display(i) => (
                content.displays@[i as int].width,
                content.displays@[i as int].height,
            ),
            FilterSource::Window(i) => (
                content.windows@[i as int].width,
                content.windows@[i as int].height,
            ),
        }
    }
}

fn flag_ids(windows: &Vec<WindowRecord>, id: isize) -> (flags: Vec<bool>)
    ensures
        flags@ == id_flags(windows@, id as int),
{
    let wanted = crate::macos::window_id(id);
    let mut flags: Vec<bool> = Vec::new();
    let mut i: usize = 0;
    while i < windows.len()
        invariant
            i <= windows@.len(),
            match wanted {
                Some(wanted) => wanted == id,
                None => id < 0 || id > u32::MAX,
            },
            flags@ =~= id_flags(windows@, id as int).take(i as int),
        decreases windows@.len() - i,
    {
        let flag = match wanted {
            Some(wanted) => windows[i].id == wanted,
            None => false,
        };
        flags.push(flag);
        i = i + 1;
    }
    flags
}

/// For each window whether it is on the screen and has a title that the regex matches.
pub fn match_titles(re: &Regex, windows: &Vec<WindowRecord>) -> (flags: Vec<bool>)
    ensures
        flags@ == titled_flags(windows@, crate::pattern::regex_language(*re)),
{
    let ghost language = crate::pattern::regex_language(*re);
    let mut flags: Vec<bool> = Vec::new();
    let mut i: usize = 0;
    while i < windows.len()
        invariant
            i <= windows@.len(),
            language == crate::pattern::regex_language(*re),
            flags@ =~= titled_flags(windows@, language).take(i as int),
        decreases windows@.len() - i,
    {
        let window = &windows[i];
        let mut flag = false;
        if window.on_screen {
            if let Some(title) = &window.title {
                flag = re.is_match(title.as_str());
            }
        }
        assert(titled_flags(windows@, language)[i as int] == flag);
        flags.push(flag);
        i = i + 1;
    }
    flags
}

/// The titles that a regex matches, where there is one.
pub open spec fn language_of(re: Option<&Regex>) -> Option<Set<Seq<char>>> {
    match re {
        Some(re) => Some(crate::pattern::regex_language(*re)),
        None => None,
    }
}

/// What of the content to capture, and its size in points.
pub fn content_filter(content: &ShareableContent, target: &Target, re: Option<&Regex>) -> (filter:
    Result<(FilterSource, (usize, usize)), CaptureError>)
    ensures
        filter == if *target is Pick || *target is PickFrom {
            Err(CaptureError::Unsupported(Unsupported::Picker))
        } else {
            match named_source(*target, *content, language_of(re)) {
                Some(source) => Ok((source, source.points(*content))),
                None => Err(CaptureError::TargetNotFound),
            }
        },
{
    let source = match target {
        Target::Primary => {
            if content.displays.len() > 0 {
                Some(FilterSource::Display(0))
            } else {
                None
            }
        },
        Target::Monitor(index) => {
            if *index >= 0 && (*index as usize) < content.displays.len() {
                Some(FilterSource::Display(*index as usize))
            } else {
                None
            }
        },
        Target::Window(id) => {
            let flags = flag_ids(&content.windows, *id);
            match first_flagged(&flags) {
                Some(i) => Some(FilterSource::Window(i)),
                None => None,
            }
        },
        Target::WindowName(_) => match re {
            Some(re) => {
                let flags = match_titles(re, &content.windows);
                match first_flagged(&flags) {
                    Some(i) => Some(FilterSource::Window(i)),
                    None => None,
                }
            },
            None => None,
        },
        Target::Pick | Target::PickFrom(_) => {
            return Err(CaptureError::Unsupported(Unsupported::Picker));
        },
    };
    match source {
        Some(FilterSource::Display(i)) => {
            let display = &content.displays[i];
            Ok((FilterSource::Display(i), (display.width, display.height)))
        },
        Some(FilterSource::Window(i)) => {
            let window = &content.windows[i];
            Ok((FilterSource::Window(i), (window.width, window.height)))
        },
        None => Err(CaptureError::TargetNotFound),
    }
}

/// Check a configuration, and compile the pattern of its target if it has one.
///
/// `has_audio` says whether the system can capture audio.
pub fn check_config(config: &CaptureConfig, has_audio: bool) -> (checked: Result<
    Option<Regex>,
    CaptureError,
>)
    ensures
        if config.has_empty_channel() {
            checked == Err::<Option<Regex>, CaptureError>(CaptureError::ZeroChannelCapacity)
        } else if config.audio is Some && !has_audio {
            checked == Err::<Option<Regex>, CaptureError>(
                CaptureError::Unsupported(Unsupported::Audio),
            )
        } else {
            match config.video.target {
                Target::WindowName(pattern) => match checked {
                    Ok(re) => re is Some && crate::pattern::is_regex(pattern@)
                        && crate::pattern::regex_language(re->0)
                        == crate::pattern::pattern_language(pattern@),
                    Err(e) => crate::pattern::refuses(e, pattern@),
                },
                _ => checked == Ok::<Option<Regex>, CaptureError>(None),
            }
        },
{
    match config.validate() {
        Ok(_) => {},
        Err(e) => return Err(e),
    }
    if config.audio.is_some() && !has_audio {
        return Err(CaptureError::Unsupported(Unsupported::Audio));
    }
    match &config.video.target {
        Target::WindowName(pattern) => match compile(pattern.as_str()) {
            Ok(re) => Ok(Some(re)),
            Err(e) => Err(e),
        },
        _ => Ok(None),
    }
}

/// The pixel format of the stream, `BGRA`.
pub const PIXEL_FORMAT: u32 = 0x4247_5241;

/// How to configure the stream.
#[derive(Debug, Clone, Copy, PartialEq, Eq)]
pub struct StreamSettings {
    /// Width in pixels.
    pub width: usize,
    /// Height in pixels.
    pub height: usize,
    /// Whether to capture audio. The microphone is never captured.
    pub captures_audio: bool,
    /// The pixel format's code.
    pub pixel_format: u32,
    /// The least time between two frames, as the value and the timescale of a `CMTime`.
    pub minimum_frame_interval: Option<(i64, i32)>,
}

/// The least time between two frames under a cap.
pub open spec fn interval_of(fps: Option<u32>) -> Option<(i64, i32)> {
    match fps {
        Some(fps) => if fps > 0 {
            Some((1i64, fps as i32))
        } else {
            None
        },
        None => None,
    }
}

/// How to configure a stream of the given size in pixels.
pub open spec fn settings_of(
    size: (usize, usize),
    captures_audio: bool,
    fps: Option<u32>,
) -> StreamSettings {
    StreamSettings {
        width: size.0,
        height: size.1,
        captures_audio,
        pixel_format: PIXEL_FORMAT,
        minimum_frame_interval: interval_of(fps),
    }
}

/// How to configure a stream of the given size in pixels.
pub fn stream_settings(size: (usize, usize), captures_audio: bool, fps: Option<u32>) -> (settings:
    StreamSettings)
    ensures
        settings == settings_of(size, captures_audio, fps),
{
    let minimum_frame_interval: Option<(i64, i32)> = match fps {
        Some(fps) => {
            if fps > 0 {
                Some(
                    (
                        1,
                        #[verifier::truncate]
                        (fps as i32),
                    ),
                )
            } else {
                None
            }
        },
        None => None,
    };
    StreamSettings {
        width: size.0,
        height: size.1,
        captures_audio,
        pixel_format: PIXEL_FORMAT,
        minimum_frame_interval,
    }
}

/// What the setup of a stream is told.
#[derive(Debug)]
pub enum SetupEvent {
    /// The system has no picker.
    PickerMissing,
    /// The user dismissed the picker.
    Cancelled,
    /// The user picked something; its size in pixels, where the system can say it.
    Picked(Option<(usize, usize)>),
    /// What the system lets this process capture.
    Content(ShareableContent),
    /// The system gave neither content nor an error.
    NoContent,
    /// The filter is made; its size in pixels, where the system can say it.
    Filter(Option<(usize, usize)>),
    /// The stream is made.
    Opened,
    /// The output is attached.
    Attached,
    /// The output could not be attached.
    AttachFailed,
    /// The stream runs.
    Started,
    /// The system reports an error.
    Failed(NsError),
    /// The system dropped the request without an answer.
    Gone,
}

/// What to do next to set a stream up.
#[derive(Debug)]
pub enum SetupAction {
    /// Let the user choose with the system picker.
    PresentPicker,
    /// Ask what can be captured.
    GetContent,
    /// Make a content filter.
    MakeFilter(FilterSource),
    /// Make the stream.
    Open(StreamSettings),
    /// Attach the output for frames.
    AttachScreen,
    /// Attach the output for audio.
    AttachAudio,
    /// Start the stream.
    Start,
    /// The capture runs, at this size.
    Ready(u32, u32),
    /// The capture does not run.
    Fail(CaptureError),
}

/// Where the setup stands.
#[derive(Debug, Clone, Copy, PartialEq, Eq, Structural)]
pub enum SetupPhase {
    /// The picker is open.
    Pick,
    /// It is being asked what can be captured.
    Content,
    /// The filter is being made.
    Filter,
    /// The stream is being made.
    Open,
    /// The output for frames is being attached.
    Screen,
    /// The output for audio is being attached.
    Audio,
    /// The stream is being started.
    Start,
    /// Nothing is left to do.
    Over,
}

/// State of the setup.
pub ghost struct SetupState {
    /// What to capture.
    pub target: Target,
    /// The titles that the target's pattern matches.
    pub language: Option<Set<Seq<char>>>,
    /// Whether to capture audio.
    pub audio: bool,
    /// The cap on the frame rate.
    pub fps: Option<u32>,
    /// The size: in points until the filter is made, then in pixels.
    pub size: (usize, usize),
    /// Where the setup stands.
    pub phase: SetupPhase,
}

impl SetupState {
    /// Whether the setup is waiting to be told this.
    pub open spec fn expects(self, event: SetupEvent) -> bool {
        match self.phase {
            SetupPhase::Pick => {
                ||| event is PickerMissing
                ||| event is Cancelled
                ||| event is Picked
                ||| event is Failed
                ||| event is Gone
            },
            SetupPhase::Content => {
                ||| event is Content
                ||| event is NoContent
                ||| event is Failed
                ||| event is Gone
            },
            SetupPhase::Filter => event is Filter,
            SetupPhase::Open => event is Opened,
            SetupPhase::Screen | SetupPhase::Audio => event is Attached || event is AttachFailed,
            SetupPhase::Start => event is Started || event is Failed || event is Gone,
            SetupPhase::Over => false,
        }
    }

    /// The state before anything has happened, and what to do first.
    pub open spec fn first(
        target: Target,
        language: Option<Set<Seq<char>>>,
        audio: bool,
        fps: Option<u32>,
    ) -> (SetupState, SetupAction) {
        let state = SetupState {
            target,
            language,
            audio,
            fps,
            size: (0usize, 0usize),
            phase: SetupPhase::Content,
        };
        if target is Pick {
            (SetupState { phase: SetupPhase::Pick, ..state }, SetupAction::PresentPicker)
        } else {
            (state, SetupAction::GetContent)
        }
    }

    /// The end of a setup that has failed.
    pub open spec fn failed(self, error: CaptureError) -> (SetupState, SetupAction) {
        (SetupState { phase: SetupPhase::Over, ..self }, SetupAction::Fail(error))
    }

    /// Make the stream, now that its size in pixels is known.
    pub open spec fn open(self, size: (usize, usize)) -> (SetupState, SetupAction) {
        (
            SetupState { size, phase: SetupPhase::Open, ..self },
            SetupAction::Open(settings_of(size, self.audio, self.fps)),
        )
    }

    /// What follows an event.
    pub open spec fn next(self, event: SetupEvent) -> (SetupState, SetupAction) {
        match event {
            SetupEvent::PickerMissing => self.failed(
                CaptureError::Unsupported(Unsupported::Picker),
            ),
            SetupEvent::Cancelled => self.failed(CaptureError::Cancelled),
            SetupEvent::Picked(size) => match size {
                Some(size) => self.open(size),
                None => self.failed(CaptureError::Unsupported(Unsupported::Picker)),
            },
            SetupEvent::Content(content) => if self.target is PickFrom || self.target is Pick {
                self.failed(CaptureError::Unsupported(Unsupported::Picker))
            } else {
                match named_source(self.target, content, self.language) {
                    Some(source) => (
                        SetupState {
                            size: source.points(content),
                            phase: SetupPhase::Filter,
                            ..self
                        },
                        SetupAction::MakeFilter(source),
                    ),
                    None => self.failed(CaptureError::TargetNotFound),
                }
            },
            SetupEvent::NoContent => self.failed(
                CaptureError::ScreenCaptureKit(ScreenCaptureKitError::NoShareableContent),
            ),
            SetupEvent::Filter(size) => match size {
                Some(size) => self.open(size),
                None => self.open(self.size),
            },
            SetupEvent::Opened => (
                SetupState { phase: SetupPhase::Screen, ..self },
                SetupAction::AttachScreen,
            ),
            SetupEvent::Attached => if self.phase == SetupPhase::Screen && self.audio {
                (SetupState { phase: SetupPhase::Audio, ..self }, SetupAction::AttachAudio)
            } else {
                (SetupState { phase: SetupPhase::Start, ..self }, SetupAction::Start)
            },
            SetupEvent::AttachFailed => self.failed(
                CaptureError::ScreenCaptureKit(ScreenCaptureKitError::OutputAttach),
            ),
            SetupEvent::Started => (
                SetupState { phase: SetupPhase::Over, ..self },
                SetupAction::Ready(self.size.0 as u32, self.size.1 as u32),
            ),
            SetupEvent::Failed(e) => self.failed(e.meaning()),
            SetupEvent::Gone => self.failed(CaptureError::WorkerGone),
        }
    }
}

/// Sets a stream up.
#[derive(Debug)]
pub struct StreamSetup {
    target: Target,
    re: Option<Regex>,
    audio: bool,
    fps: Option<u32>,
    size: (usize, usize),
    phase: SetupPhase,
}

impl View for StreamSetup {
    type V = SetupState;

    closed spec fn view(&self) -> SetupState {
        SetupState {
            target: self.target,
            language: match self.re {
                Some(re) => Some(crate::pattern::regex_language(re)),
                None => None,
            },
            audio: self.audio,
            fps: self.fps,
            size: self.size,
            phase: self.phase,
        }
    }
}

impl StreamSetup {
    /// The setup of a stream, and the first thing to do for it. `re` is what [`check_config`] has
    /// given.
    pub fn new(target: Target, re: Option<Regex>, audio: bool, fps: Option<u32>) -> (setup: (
        Self,
        SetupAction,
    ))
        ensures
            (setup.0@, setup.1) == SetupState::first(
                target,
                match re {
                    Some(re) => Some(crate::pattern::regex_language(re)),
                    None => None,
                },
                audio,
                fps,
            ),
    {
        let picks = match target {
            Target::Pick => true,
            _ => false,
        };
        let phase = if picks {
            SetupPhase::Pick
        } else {
            SetupPhase::Content
        };
        let action = if picks {
            SetupAction::PresentPicker
        } else {
            SetupAction::GetContent
        };
        (StreamSetup { target, re, audio, fps, size: (0, 0), phase }, action)
    }

    /// Whether the setup is waiting to be told this.
    pub fn expects(&self, event: &SetupEvent) -> (expected: bool)
        ensures
            expected == self@.expects(*event),
    {
        match (self.phase, event) {
            (SetupPhase::Pick, SetupEvent::PickerMissing) => true,
            (SetupPhase::Pick, SetupEvent::Cancelled) => true,
            (SetupPhase::Pick, SetupEvent::Picked(_)) => true,
            (SetupPhase::Pick, SetupEvent::Failed(_)) => true,
            (SetupPhase::Pick, SetupEvent::Gone) => true,
            (SetupPhase::Content, SetupEvent::Content(_)) => true,
            (SetupPhase::Content, SetupEvent::NoContent) => true,
            (SetupPhase::Content, SetupEvent::Failed(_)) => true,
            (SetupPhase::Content, SetupEvent::Gone) => true,
            (SetupPhase::Filter, SetupEvent::Filter(_)) => true,
            (SetupPhase::Open, SetupEvent::Opened) => true,
            (SetupPhase::Screen, SetupEvent::Attached) => true,
            (SetupPhase::Screen, SetupEvent::AttachFailed) => true,
            (SetupPhase::Audio, SetupEvent::Attached) => true,
            (SetupPhase::Audio, SetupEvent::AttachFailed) => true,
            (SetupPhase::Start, SetupEvent::Started) => true,
            (SetupPhase::Start, SetupEvent::Failed(_)) => true,
            (SetupPhase::Start, SetupEvent::Gone) => true,
            _ => false,
        }
    }

    fn fail(&mut self, error: CaptureError) -> (action: SetupAction)
        ensures
            (final(self)@, action) == old(self)@.failed(error),
    {
        self.phase = SetupPhase::Over;
        SetupAction::Fail(error)
    }

    fn open(&mut self, size: (usize, usize)) -> (action: SetupAction)
        ensures
            (final(self)@, action) == old(self)@.open(size),
    {
        self.size = size;
        self.phase = SetupPhase::Open;
        SetupAction::Open(stream_settings(size, self.audio, self.fps))
    }

    /// What to do next, once what was asked for has happened or failed.
    pub fn step(&mut self, event: SetupEvent) -> (action: SetupAction)
        requires
            old(self)@.expects(event),
        ensures
            (final(self)@, action) == old(self)@.next(event),
    {
        match event {
            SetupEvent::PickerMissing => {
                self.fail(CaptureError::Unsupported(Unsupported::Picker))
            },
            SetupEvent::Cancelled => self.fail(CaptureError::Cancelled),
            SetupEvent::Picked(size) => match size {
                Some(size) => self.open(size),
                None => self.fail(CaptureError::Unsupported(Unsupported::Picker)),
            },
            SetupEvent::Content(content) => {
                match content_filter(&content, &self.target, self.re.as_ref()) {
                    Ok((source, points)) => {
                        self.size = points;
                        self.phase = SetupPhase::Filter;
                        SetupAction::MakeFilter(source)
                    },
                    Err(e) => self.fail(e),
                }
            },
            SetupEvent::NoContent => {
                self.fail(CaptureError::from(ScreenCaptureKitError::NoShareableContent))
            },
            SetupEvent::Filter(size) => match size {
                Some(size) => self.open(size),
                None => {
                    let points = self.size;
                    self.open(points)
                },
            },
            SetupEvent::Opened => {
                self.phase = SetupPhase::Screen;
                SetupAction::AttachScreen
            },
            SetupEvent::Attached => {
                if self.phase == SetupPhase::Screen && self.audio {
                    self.phase = SetupPhase::Audio;
                    SetupAction::AttachAudio
                } else {
                    self.phase = SetupPhase::Start;
                    SetupAction::Start
                }
            },
            SetupEvent::AttachFailed => {
                self.fail(CaptureError::from(ScreenCaptureKitError::OutputAttach))
            },
            SetupEvent::Started => {
                self.phase = SetupPhase::Over;
                let (width, height) = self.size;
                SetupAction::Ready(
                    #[verifier::truncate]
                    (width as u32),
                    #[verifier::truncate]
                    (height as u32),
                )
            },
            SetupEvent::Failed(e) => self.fail(ns_error(e)),
            SetupEvent::Gone => self.fail(CaptureError::WorkerGone),
        }
    }
}

/// Whether an event can be the outcome of an action.
pub open spec fn can_follow(action: SetupAction, event: SetupEvent) -> bool {
    match action {
        SetupAction::PresentPicker => {
            ||| event is PickerMissing
            ||| event is Cancelled
            ||| event is Picked
            ||| event is Failed
            ||| event is Gone
        },
        SetupAction::GetContent => {
            ||| event is Content
            ||| event is NoContent
            ||| event is Failed
            ||| event is Gone
        },
        SetupAction::MakeFilter(_) => event is Filter,
        SetupAction::Open(_) => event is Opened,
        SetupAction::AttachScreen | SetupAction::AttachAudio => {
            event is Attached || event is AttachFailed
        },
        SetupAction::Start => event is Started || event is Failed || event is Gone,
        SetupAction::Ready(..) | SetupAction::Fail(_) => false,
    }
}

/// Whatever the outcome of the first action, the setup is waiting for it.
pub proof fn law_first_outcome_is_expected(
    target: Target,
    language: Option<Set<Seq<char>>>,
    audio: bool,
    fps: Option<u32>,
    outcome: SetupEvent,
)
    requires
        can_follow(SetupState::first(target, language, audio, fps).1, outcome),
    ensures
        SetupState::first(target, language, audio, fps).0.expects(outcome),
{
}

/// Whatever the outcome of an action, the setup is waiting for it.
pub proof fn law_outcome_is_expected(state: SetupState, event: SetupEvent, outcome: SetupEvent)
    requires
        state.expects(event),
        can_follow(state.next(event).1, outcome),
    ensures
        state.next(event).0.expects(outcome),
{
}

/// A setup: its state after the given events, and its actions so far.
pub open spec fn setup_run(
    target: Target,
    language: Option<Set<Seq<char>>>,
    audio: bool,
    fps: Option<u32>,
    events: Seq<SetupEvent>,
) -> (SetupState, Seq<SetupAction>)
    decreases events.len(),
{
    if events.len() == 0 {
        let (state, action) = SetupState::first(target, language, audio, fps);
        (state, seq![action])
    } else {
        let (state, actions) = setup_run(target, language, audio, fps, events.drop_last());
        let (after, action) = state.next(events.last());
        (after, actions.push(action))
    }
}

/// Whether each event is one that the setup was waiting for.
pub open spec fn in_order(
    target: Target,
    language: Option<Set<Seq<char>>>,
    audio: bool,
    fps: Option<u32>,
    events: Seq<SetupEvent>,
) -> bool
    decreases events.len(),
{
    events.len() > 0 ==> {
        &&& in_order(target, language, audio, fps, events.drop_last())
        &&& setup_run(target, language, audio, fps, events.drop_last()).0.expects(events.last())
    }
}

proof fn lemma_outputs(
    target: Target,
    language: Option<Set<Seq<char>>>,
    audio: bool,
    fps: Option<u32>,
    events: Seq<SetupEvent>,
)
    requires
        in_order(target, language, audio, fps, events),
    ensures
        ({
            let (state, actions) = setup_run(target, language, audio, fps, events);
            &&& state.audio == audio
            &&& actions.contains(SetupAction::AttachAudio) ==> audio
            &&& state.phase == SetupPhase::Screen || state.phase == SetupPhase::Audio || state.phase
                == SetupPhase::Start ==> actions.contains(SetupAction::AttachScreen)
            &&& state.phase == SetupPhase::Audio || state.phase == SetupPhase::Start && audio
                ==> actions.contains(SetupAction::AttachAudio)
            &&& state.phase == SetupPhase::Audio ==> audio
            &&& actions.last() is Start ==> state.phase == SetupPhase::Start
        }),
    decreases events.len(),
{
    let (state, actions) = setup_run(target, language, audio, fps, events);
    if events.len() > 0 {
        let front = events.drop_last();
        lemma_outputs(target, language, audio, fps, front);
        let (before, earlier) = setup_run(target, language, audio, fps, front);
        let action = before.next(events.last()).1;
        assert(actions == earlier.push(action));
        assert(actions[actions.len() - 1] == action);
        assert forall|a: SetupAction| earlier.contains(a) implies actions.contains(a) by {
            let i = choose|i: int| 0 <= i < earlier.len() && earlier[i] == a;
            assert(actions[i] == a);
        }
        if actions.contains(SetupAction::AttachAudio) && !earlier.contains(
            SetupAction::AttachAudio,
        ) {
            let i = choose|i: int|
                0 <= i < actions.len() && actions[i] == SetupAction::AttachAudio;
            if i < earlier.len() {
                assert(earlier[i] == SetupAction::AttachAudio);
            }
        }
    }
}

/// By the time the stream is started, its output for frames is attached, and its output for audio
/// where audio was asked for; where it was not, none ever is.
pub proof fn law_outputs_before_start(
    target: Target,
    language: Option<Set<Seq<char>>>,
    audio: bool,
    fps: Option<u32>,
    events: Seq<SetupEvent>,
)
    requires
        in_order(target, language, audio, fps, events),
    ensures
        ({
            let actions = setup_run(target, language, audio, fps, events).1;
            &&& actions.last() is Start ==> actions.contains(SetupAction::AttachScreen)
            &&& actions.last() is Start && audio ==> actions.contains(SetupAction::AttachAudio)
            &&& actions.contains(SetupAction::AttachAudio) ==> audio
        }),
{
    lemma_outputs(target, language, audio, fps, events);
}

/// What the setup has come to, for the one who waits for it.
#[derive(Debug)]
pub enum SetupAnswer {
    /// The capture runs.
    Running,
    /// It does not.
    Failed(CaptureError),
    /// The capture thread ended without an answer.
    Gone,
}

/// What to do once the setup has been answered: with an error, every window that was hidden for
/// the capture gets its sharing type back.
#[derive(Debug)]
pub enum SetupEnd<W> {
    /// The capture runs; the windows stay hidden until it ends.
    Running(Vec<W>),
    /// The capture does not run; the windows are let go of.
    Failed(Vec<W>, CaptureError),
}

/// What to do once the setup has been answered.
pub fn conclude<W>(answer: SetupAnswer, hidden: Vec<W>) -> (end: SetupEnd<W>)
    ensures
        end == match answer {
            SetupAnswer::Running => SetupEnd::Running(hidden),
            SetupAnswer::Failed(e) => SetupEnd::Failed(hidden, e),
            SetupAnswer::Gone => SetupEnd::Failed(hidden, CaptureError::WorkerGone),
        },
{
    match answer {
        SetupAnswer::Running => SetupEnd::Running(hidden),
        SetupAnswer::Failed(e) => SetupEnd::Failed(hidden, e),
        SetupAnswer::Gone => SetupEnd::Failed(hidden, CaptureError::WorkerGone),
    }
}

/// The end of a stream, which the capture thread waits for.
///
/// The stream can be asked to stop, and it can stop itself; both answer the wait, and the first
/// answer counts, so the wait never needs a timeout.
#[derive(Debug)]
pub struct StopWait {
    stopped: bool,
    answer: Option<Option<CaptureError>>,
}

impl StopWait {
    /// Whether the stream has stopped itself.
    pub closed spec fn stopped(&self) -> bool {
        self.stopped
    }

    /// What the wait was answered, if it was: an error where asking to stop has failed.
    pub closed spec fn spec_answer(&self) -> Option<Option<CaptureError>> {
        self.answer
    }

    /// Whether a stream that has stopped itself has answered the wait.
    pub open spec fn valid(&self) -> bool {
        self.stopped() ==> self.spec_answer() is Some
    }

    /// A stream that runs.
    pub fn new() -> (wait: Self)
        ensures
            wait.valid(),
            !wait.stopped(),
            wait.spec_answer() is None,
    {
        StopWait { stopped: false, answer: None }
    }

    /// The stream has stopped itself.
    pub fn stream_stopped(&mut self)
        ensures
            final(self).valid(),
            final(self).stopped(),
            final(self).spec_answer() == match old(self).spec_answer() {
                Some(answer) => Some(answer),
                None => Some(None),
            },
    {
        self.stopped = true;
        if self.answer.is_none() {
            self.answer = Some(None);
        }
    }

    /// Whether to ask the stream to stop.
    ///
    /// Asking a stream that has stopped already can leave the completion handler never firing.
    pub fn must_ask(&self) -> (ask: bool)
        ensures
            ask == !self.stopped(),
    {
        !self.stopped
    }

    /// The stream was asked to stop and has answered, with an error where it failed.
    pub fn stop_completed(&mut self, error: Option<NsError>)
        requires
            old(self).valid(),
        ensures
            final(self).valid(),
            final(self).stopped() == old(self).stopped(),
            final(self).spec_answer() == match old(self).spec_answer() {
                Some(answer) => Some(answer),
                None => Some(
                    match error {
                        Some(e) => Some(e.meaning()),
                        None => None,
                    },
                ),
            },
    {
        if self.answer.is_none() {
            self.answer = Some(
                match error {
                    Some(e) => Some(ns_error(e)),
                    None => None,
                },
            );
        }
    }

    /// What the wait was answered, if it was: an error where asking to stop has failed.
    pub fn answer(&self) -> (answer: Option<&Option<CaptureError>>)
        ensures
            match self.spec_answer() {
                Some(given) => answer is Some && *answer->0 == given,
                None => answer is None,
            },
    {
        self.answer.as_ref()
    }
}

/// Which windows are flagged: one on the screen with a title is, exactly where the regex matches the
/// whole title. No other window is.
pub proof fn law_whole_titles_are_matched(
    re: &Regex,
    windows: &Vec<WindowRecord>,
    flags: Vec<bool>,
    i: int,
)
    requires
        call_ensures(match_titles, (re, windows), flags),
    ensures
        flags@.len() == windows@.len(),
        0 <= i < windows@.len() && windows@[i].on_screen && windows@[i].title is Some ==> (flags@[i]
            <==> crate::pattern::regex_language(*re).contains(windows@[i].title->0@)),
        0 <= i < windows@.len() && (!windows@[i].on_screen || windows@[i].title is None)
            ==> !flags@[i],
{
}

/// What of the displays a target names: the first for the primary monitor, the one at an index, and
/// nothing where there is none; with its own size.
pub proof fn law_displays_are_looked_up(
    content: &ShareableContent,
    target: &Target,
    re: Option<&Regex>,
    filter: Result<(FilterSource, (usize, usize)), CaptureError>,
)
    requires
        call_ensures(content_filter, (content, target, re), filter),
        *target is Primary || *target is Monitor,
        content.displays@.len() <= usize::MAX,
    ensures
        ({
            let index = if *target is Monitor {
                target->Monitor_0 as int
            } else {
                0
            };
            &&& filter is Ok <==> 0 <= index < content.displays@.len()
            &&& filter is Ok ==> {
                let (source, size) = filter->Ok_0;
                &&& source is Display && source->Display_0 == index
                &&& size == (content.displays@[index].width, content.displays@[index].height)
            }
            &&& filter is Err ==> filter->Err_0 is TargetNotFound
        }),
{
}

/// What of the windows a target names: the first with its id, or the first on the screen whose whole
/// title the regex matches; with its own size. Without one the target is not found.
pub proof fn law_windows_are_looked_up(
    content: &ShareableContent,
    target: &Target,
    re: Option<&Regex>,
    filter: Result<(FilterSource, (usize, usize)), CaptureError>,
) -> (i: int)
    requires
        call_ensures(content_filter, (content, target, re), filter),
        *target is Window || *target is WindowName && re is Some,
        content.windows@.len() <= usize::MAX,
    ensures
        filter is Err ==> filter->Err_0 is TargetNotFound,
        filter is Ok ==> {
            let (source, size) = filter->Ok_0;
            let window = content.windows@[i];
            &&& 0 <= i < content.windows@.len()
            &&& source is Window && source->Window_0 == i
            &&& size == (window.width, window.height)
            &&& *target is Window ==> window.id == target->Window_0
            &&& *target is WindowName ==> window.on_screen && window.title is Some
                && crate::pattern::regex_language(*re->0).contains(window.title->0@)
        },
        forall|j: int|
            0 <= j < content.windows@.len() && (filter is Ok ==> j < i) ==> {
                let window = #[trigger] content.windows@[j];
                &&& *target is Window ==> window.id != target->Window_0
                &&& *target is WindowName ==> !(window.on_screen && window.title is Some
                    && crate::pattern::regex_language(*re->0).contains(window.title->0@))
            },
{
    let windows = content.windows@;
    let flags = if *target is Window {
        id_flags(windows, target->Window_0 as int)
    } else {
        titled_flags(windows, crate::pattern::regex_language(*re->0))
    };
    crate::pattern::law_first_set(flags);
    let i = match crate::pattern::first_set(flags) {
        Some(i) => i,
        None => 0,
    };
    assert forall|j: int| 0 <= j < windows.len() && (filter is Ok ==> j < i) implies {
        let window = #[trigger] windows[j];
        &&& *target is Window ==> window.id != target->Window_0
        &&& *target is WindowName ==> !(window.on_screen && window.title is Some
            && crate::pattern::regex_language(*re->0).contains(window.title->0@))
    } by {
        assert(!flags[j]);
    }
    if filter is Ok {
        assert(flags[i]);
    }
    i
}

/// A picker is no content, and a title without a regex finds nothing.
pub proof fn law_pickers_are_no_content(
    content: &ShareableContent,
    target: &Target,
    re: Option<&Regex>,
    filter: Result<(FilterSource, (usize, usize)), CaptureError>,
)
    requires
        call_ensures(content_filter, (content, target, re), filter),
    ensures
        *target is Pick || *target is PickFrom ==> filter is Err && filter->Err_0
            == CaptureError::Unsupported(Unsupported::Picker),
        *target is WindowName && re is None ==> filter is Err && filter->Err_0 is TargetNotFound,
{
}

/// What a configuration is refused for: an empty channel, audio where the system has none, and a
/// pattern that is no regex, in this order. Otherwise the pattern is compiled.
pub proof fn law_configurations_are_checked(
    config: &CaptureConfig,
    has_audio: bool,
    checked: Result<Option<Regex>, CaptureError>,
)
    requires
        call_ensures(check_config, (config, has_audio), checked),
    ensures
        ({
            let empty = config.video.channel_capacity == 0 || config.audio is Some
                && config.audio->0.channel_capacity == 0;
            let mute = config.audio is Some && !has_audio;
            let named = config.video.target is WindowName;
            let pattern = config.video.target->WindowName_0@;
            &&& empty ==> checked is Err && checked->Err_0 is ZeroChannelCapacity
            &&& !empty && mute ==> checked is Err && checked->Err_0 == CaptureError::Unsupported(
                Unsupported::Audio,
            )
            &&& !empty && !mute && !named ==> checked is Ok && checked->Ok_0 is None
            &&& !empty && !mute && named && checked is Ok ==> {
                &&& checked->Ok_0 is Some
                &&& crate::pattern::is_regex(pattern)
                &&& crate::pattern::regex_language(checked->Ok_0->0)
                    == crate::pattern::pattern_language(pattern)
            }
            &&& !empty && !mute && named && checked is Err ==> {
                &&& checked->Err_0 is BadWindowRegex
                &&& !crate::pattern::is_regex(pattern) || crate::pattern::exceeds_limit(
                    checked->Err_0->BadWindowRegex_0,
                )
            }
        }),
{
}

/// How a stream is configured: at the given size, in BGRA, with audio where it was asked for, and
/// with no more frames a second than its cap.
pub proof fn law_stream_configuration(
    size: (usize, usize),
    captures_audio: bool,
    fps: Option<u32>,
    settings: StreamSettings,
)
    requires
        call_ensures(stream_settings, (size, captures_audio, fps), settings),
    ensures
        settings.width == size.0,
        settings.height == size.1,
        settings.captures_audio == captures_audio,
        settings.pixel_format == 0x4247_5241,
        fps is None || fps->0 == 0 ==> settings.minimum_frame_interval is None,
        fps is Some && 0 < fps->0 <= i32::MAX ==> {
            &&& settings.minimum_frame_interval is Some
            &&& (settings.minimum_frame_interval->0).0 == 1
            &&& (settings.minimum_frame_interval->0).1 == fps->0
        },
        fps is Some && fps->0 > 0 ==> settings.minimum_frame_interval == Some(
            (1i64, fps->0 as i32),
        ),
{
}

/// A setup of a target by content, from beginning to end: it asks for the content, makes a filter for
/// what the target names, opens the stream at the size of the filter in pixels, or at that of the
/// content where the system cannot say it, attaches its outputs, starts, and runs at that size.
pub proof fn law_setup_from_beginning_to_end(
    target: Target,
    re: Option<Regex>,
    audio: bool,
    fps: Option<u32>,
    made: (StreamSetup, SetupAction),
    a: &mut StreamSetup,
    content: ShareableContent,
    filter: Result<(FilterSource, (usize, usize)), CaptureError>,
    filtering: SetupAction,
    b: &mut StreamSetup,
    pixels: Option<(usize, usize)>,
    opening: SetupAction,
    settings: StreamSettings,
    c: &mut StreamSetup,
    attaching: SetupAction,
    d: &mut StreamSetup,
    then: SetupAction,
)
    requires
        call_ensures(StreamSetup::new, (target, re, audio, fps), made),
        !(target is Pick),
        *a == made.0,
        call_ensures(
            content_filter,
            (
                &content,
                &target,
                match re {
                    Some(re) => Some(&re),
                    None => None,
                },
            ),
            filter,
        ),
        call_ensures(StreamSetup::step, (a, SetupEvent::Content(content)), filtering),
        filter is Ok,
        *b == *final(a),
        call_ensures(StreamSetup::step, (b, SetupEvent::Filter(pixels)), opening),
        call_ensures(
            stream_settings,
            (
                if pixels is Some {
                    pixels->0
                } else {
                    (filter->Ok_0).1
                },
                audio,
                fps,
            ),
            settings,
        ),
        *c == *final(b),
        call_ensures(StreamSetup::step, (c, SetupEvent::Opened), attaching),
        *d == *final(c),
        call_ensures(StreamSetup::step, (d, SetupEvent::Attached), then),
    ensures
        made.1 is GetContent,
        filtering == SetupAction::MakeFilter((filter->Ok_0).0),
        opening == SetupAction::Open(settings),
        attaching is AttachScreen,
        audio ==> then is AttachAudio,
        !audio ==> then is Start,
{
}

/// A setup with a picker opens the stream at the size of what was picked; a picker that is dismissed
/// cancels, and one that is missing or cannot say what was picked is not supported.
pub proof fn law_setup_with_a_picker(
    re: Option<Regex>,
    audio: bool,
    fps: Option<u32>,
    made: (StreamSetup, SetupAction),
    setup: &mut StreamSetup,
    event: SetupEvent,
    action: SetupAction,
    settings: StreamSettings,
)
    requires
        call_ensures(StreamSetup::new, (Target::Pick, re, audio, fps), made),
        *setup == made.0,
        call_ensures(StreamSetup::step, (setup, event), action),
        event is Picked && event->Picked_0 is Some ==> call_ensures(
            stream_settings,
            (event->Picked_0->0, audio, fps),
            settings,
        ),
    ensures
        made.1 is PresentPicker,
        event is Picked && event->Picked_0 is Some ==> action == SetupAction::Open(settings),
        event == SetupEvent::Picked(None) || event is PickerMissing ==> action
            == SetupAction::Fail(CaptureError::Unsupported(Unsupported::Picker)),
        event is Cancelled ==> action == SetupAction::Fail(CaptureError::Cancelled),
{
}

/// How the steps of a setup end: it runs at the size that the stream was opened at, and what fails
/// says why.
pub proof fn law_setup_ends(
    setup: &mut StreamSetup,
    event: SetupEvent,
    action: SetupAction,
    error: CaptureError,
)
    requires
        call_ensures(StreamSetup::step, (setup, event), action),
        event is Failed ==> call_ensures(ns_error, (event->Failed_0,), error),
    ensures
        event is Started && old(setup)@.size.0 <= u32::MAX && old(setup)@.size.1 <= u32::MAX ==> {
            &&& action is Ready
            &&& action->Ready_0 == old(setup)@.size.0
            &&& action->Ready_1 == old(setup)@.size.1
        },
        event is Started ==> action == SetupAction::Ready(
            old(setup)@.size.0 as u32,
            old(setup)@.size.1 as u32,
        ),
        event is NoContent ==> action == SetupAction::Fail(
            CaptureError::ScreenCaptureKit(ScreenCaptureKitError::NoShareableContent),
        ),
        event is AttachFailed ==> action == SetupAction::Fail(
            CaptureError::ScreenCaptureKit(ScreenCaptureKitError::OutputAttach),
        ),
        event is Gone ==> action == SetupAction::Fail(CaptureError::WorkerGone),
        event is Failed ==> action == SetupAction::Fail(error),
        event == SetupEvent::Filter(None) ==> final(setup)@.size == old(setup)@.size,
        event is Filter && event->Filter_0 is Some ==> final(setup)@.size == event->Filter_0->0,
        event is Picked && event->Picked_0 is Some ==> final(setup)@.size == event->Picked_0->0,
        event is Opened || event is Attached || event is Started ==> final(setup)@.size
            == old(setup)@.size,
        action is AttachAudio ==> old(setup)@.audio,
{
}

/// A setup waits for the outcome of what it has asked for, good or bad, and for nothing once it is
/// over.
pub proof fn law_setup_waits_for_outcomes(
    setup: &mut StreamSetup,
    event: SetupEvent,
    action: SetupAction,
    outcome: SetupEvent,
    expected: bool,
)
    requires
        setup@.expects(event),
        call_ensures(StreamSetup::step, (setup, event), action),
        call_ensures(StreamSetup::expects, (&*final(setup), &outcome), expected),
    ensures
        expected <==> match action {
            SetupAction::PresentPicker => outcome is PickerMissing || outcome is Cancelled
                || outcome is Picked || outcome is Failed || outcome is Gone,
            SetupAction::GetContent => outcome is Content || outcome is NoContent || outcome
                is Failed || outcome is Gone,
            SetupAction::MakeFilter(_) => outcome is Filter,
            SetupAction::Open(_) => outcome is Opened,
            SetupAction::AttachScreen | SetupAction::AttachAudio => outcome is Attached
                || outcome is AttachFailed,
            SetupAction::Start => outcome is Started || outcome is Failed || outcome is Gone,
            SetupAction::Ready(..) | SetupAction::Fail(_) => false,
        },
{
}

/// The first answer to the wait for the end of a stream counts, and a stream that has stopped itself
/// is not asked to stop.
pub proof fn law_first_end_counts(
    made: StopWait,
    ask: bool,
    wait: &mut StopWait,
    asked: Option<NsError>,
    then: &mut StopWait,
    ask_then: bool,
    answer: Option<&Option<CaptureError>>,
    itself: &mut StopWait,
    late: &mut StopWait,
    late_answer: Option<&Option<CaptureError>>,
    none: Option<&Option<CaptureError>>,
    error: CaptureError,
)
    requires
        call_ensures(StopWait::new, (), made),
        call_ensures(StopWait::must_ask, (&made,), ask),
        call_ensures(StopWait::answer, (&made,), none),
        *wait == made,
        call_ensures(StopWait::stop_completed, (wait, asked), ()),
        asked is Some ==> call_ensures(ns_error, (asked->0,), error),
        *then == *final(wait),
        call_ensures(StopWait::stream_stopped, (then,), ()),
        call_ensures(StopWait::must_ask, (&*final(then),), ask_then),
        call_ensures(StopWait::answer, (&*final(then),), answer),
        *itself == made,
        call_ensures(StopWait::stream_stopped, (itself,), ()),
        *late == *final(itself),
        call_ensures(StopWait::stop_completed, (late, asked), ()),
        call_ensures(StopWait::answer, (&*final(late),), late_answer),
    ensures
        ask,
        none is None,
        answer is Some,
        asked is Some ==> *answer->0 == Some(error),
        asked is None ==> *answer->0 is None,
        !ask_then,
        late_answer is Some && *late_answer->0 is None,
{
}

/// A setup first waits for the picker where there is one, else for the content.
pub proof fn law_setup_waits_for_a_choice(
    target: Target,
    re: Option<Regex>,
    audio: bool,
    fps: Option<u32>,
    made: (StreamSetup, SetupAction),
    outcome: SetupEvent,
    expected: bool,
)
    requires
        call_ensures(StreamSetup::new, (target, re, audio, fps), made),
        call_ensures(StreamSetup::expects, (&made.0, &outcome), expected),
    ensures
        target is Pick ==> (expected <==> outcome is PickerMissing || outcome is Cancelled
            || outcome is Picked || outcome is Failed || outcome is Gone),
        !(target is Pick) ==> (expected <==> outcome is Content || outcome is NoContent || outcome
            is Failed || outcome is Gone),
{
}

/// A stream that was picked runs at the size that the picker has said, once its outputs are attached:
/// the one for frames, and the one for audio where audio was asked for.
pub proof fn law_picked_stream_runs_at_its_size(
    re: Option<Regex>,
    audio: bool,
    fps: Option<u32>,
    made: (StreamSetup, SetupAction),
    a: &mut StreamSetup,
    size: (usize, usize),
    opening: SetupAction,
    b: &mut StreamSetup,
    screen: SetupAction,
    c: &mut StreamSetup,
    next: SetupAction,
    d: &mut StreamSetup,
    start: SetupAction,
    e: &mut StreamSetup,
    ready: SetupAction,
)
    requires
        call_ensures(StreamSetup::new, (Target::Pick, re, audio, fps), made),
        *a == made.0,
        call_ensures(StreamSetup::step, (a, SetupEvent::Picked(Some(size))), opening),
        *b == *final(a),
        call_ensures(StreamSetup::step, (b, SetupEvent::Opened), screen),
        *c == *final(b),
        call_ensures(StreamSetup::step, (c, SetupEvent::Attached), next),
        audio ==> *d == *final(c) && call_ensures(
            StreamSetup::step,
            (d, SetupEvent::Attached),
            start,
        ),
        *e == if audio {
            *final(d)
        } else {
            *final(c)
        },
        call_ensures(StreamSetup::step, (e, SetupEvent::Started), ready),
        size.0 <= u32::MAX,
        size.1 <= u32::MAX,
    ensures
        opening is Open,
        (opening->Open_0).width == size.0,
        (opening->Open_0).height == size.1,
        (opening->Open_0).captures_audio == audio,
        screen is AttachScreen,
        audio ==> next is AttachAudio && start is Start,
        !audio ==> next is Start,
        ready is Ready,
        ready->Ready_0 == size.0,
        ready->Ready_1 == size.1,
{
}

/// A setup ends where the content does not have what its target names, and says why.
pub proof fn law_content_that_is_not_there(
    target: Target,
    re: Option<Regex>,
    audio: bool,
    fps: Option<u32>,
    made: (StreamSetup, SetupAction),
    setup: &mut StreamSetup,
    content: ShareableContent,
    filter: Result<(FilterSource, (usize, usize)), CaptureError>,
    action: SetupAction,
)
    requires
        call_ensures(StreamSetup::new, (target, re, audio, fps), made),
        *setup == made.0,
        call_ensures(
            content_filter,
            (
                &content,
                &target,
                match re {
                    Some(re) => Some(&re),
                    None => None,
                },
            ),
            filter,
        ),
        call_ensures(StreamSetup::step, (setup, SetupEvent::Content(content)), action),
        filter is Err,
    ensures
        action == SetupAction::Fail(filter->Err_0),
{
}

/// What a setup comes to: a running capture that keeps its windows hidden, or else the reason why there
/// is none and the windows to let go of.
pub proof fn law_setups_are_concluded<W>(answer: SetupAnswer, hidden: Vec<W>, end: SetupEnd<W>)
    requires
        call_ensures(conclude::<W>, (answer, hidden), end),
    ensures
        end is Running <==> answer is Running,
        end is Running ==> end->Running_0 == hidden,
        end is Failed ==> end->Failed_0 == hidden,
        answer is Failed ==> end->Failed_1 == answer->Failed_0,
        answer is Gone ==> end->Failed_1 is WorkerGone,
{
}

/// A setup knows from the start what it is for, and no step changes that.
pub proof fn law_setup_keeps_what_it_is_for(
    target: Target,
    re: Option<Regex>,
    audio: bool,
    fps: Option<u32>,
    made: (StreamSetup, SetupAction),
    setup: &mut StreamSetup,
    event: SetupEvent,
    action: SetupAction,
)
    requires
        call_ensures(StreamSetup::new, (target, re, audio, fps), made),
        call_ensures(StreamSetup::step, (setup, event), action),
    ensures
        made.0@.target == target,
        made.0@.audio == audio,
        made.0@.fps == fps,
        re is None ==> made.0@.language is None,
        re is Some ==> made.0@.language == Some(crate::pattern::regex_language(re->0)),
        final(setup)@.target == old(setup)@.target,
        final(setup)@.audio == old(setup)@.audio,
        final(setup)@.fps == old(setup)@.fps,
        final(setup)@.language == old(setup)@.language,
{
}

/// The stream is opened as it was asked for once its size in pixels is known, its output for frames is
/// attached first, its output for audio only where audio was asked for, and then it is started.
pub proof fn law_outputs_in_turn(
    setup: &mut StreamSetup,
    event: SetupEvent,
    action: SetupAction,
    settings: StreamSettings,
)
    requires
        call_ensures(StreamSetup::step, (setup, event), action),
        event is Filter ==> call_ensures(
            stream_settings,
            (
                if event->Filter_0 is Some {
                    event->Filter_0->0
                } else {
                    setup@.size
                },
                setup@.audio,
                setup@.fps,
            ),
            settings,
        ),
    ensures
        event is Filter ==> action == SetupAction::Open(settings),
        event is Opened ==> action is AttachScreen,
        event is Attached && old(setup)@.phase is Screen && old(setup)@.audio ==> action
            is AttachAudio,
        event is Attached && old(setup)@.phase is Screen && !old(setup)@.audio ==> action is Start,
        event is Attached && old(setup)@.phase is Audio ==> action is Start,
{
}

/// Once the wait for the end of a stream was answered, the answer stays, whatever happens then; and a
/// stream that has stopped itself stays one that is not asked to stop.
pub proof fn law_answers_stay(
    wait: &mut StopWait,
    itself: &mut StopWait,
    error: Option<NsError>,
    before: Option<&Option<CaptureError>>,
    after: Option<&Option<CaptureError>>,
    then: Option<&Option<CaptureError>>,
    ask: bool,
    ask_after: bool,
    ask_then: bool,
)
    requires
        *itself == *wait,
        call_ensures(StopWait::answer, (&*wait,), before),
        call_ensures(StopWait::must_ask, (&*wait,), ask),
        call_ensures(StopWait::stop_completed, (wait, error), ()),
        call_ensures(StopWait::answer, (&*final(wait),), after),
        call_ensures(StopWait::must_ask, (&*final(wait),), ask_after),
        call_ensures(StopWait::stream_stopped, (itself,), ()),
        call_ensures(StopWait::answer, (&*final(itself),), then),
        call_ensures(StopWait::must_ask, (&*final(itself),), ask_then),
    ensures
        after is Some,
        then is Some,
        before is Some ==> *after->0 == *before->0 && *then->0 == *before->0,
        before is None && error is None ==> *after->0 is None,
        before is None ==> *then->0 is None,
        ask_after == ask,
        !ask_then,
{
}

} // verus!
