use scrcap::config::{AudioConfig, CaptureConfig, Target, VideoConfig};
use scrcap::error::{CaptureError, ScreenCaptureKitError, Unsupported};
use scrcap::format::{PixFmt, SampleFmt};
use scrcap::macos::capture::{
    check_config, conclude, content_filter, DisplayRecord, FilterSource, SetupAction,
    SetupAnswer, SetupEnd, SetupEvent, ShareableContent, StopWait, StreamSettings, StreamSetup,
    WindowRecord, PIXEL_FORMAT,
};
use scrcap::macos::delegate::{
    asbd_sample_fmt, cm_time_ns, copy_audio_planes, ns_error, sample_ts, AudioDescription, CmTime,
    NsError, PixelBuffer, StreamOutput, LINEAR_PCM,
};
use scrcap::macos::{pack_size, unpack_size, window_id, AtomicSize};

#[test]
fn sizes_survive_packing() {
    for (width, height) in [(0, 0), (1, 2), (u32::MAX, 0), (0, u32::MAX), (1920, 1080)] {
        assert_eq!(unpack_size(pack_size(width, height)), (width, height));
        let size = AtomicSize::new();
        assert_eq!(size.load(), (0, 0));
        size.store(width, height);
        assert_eq!(size.load(), (width, height));
    }
    assert_eq!(pack_size(1, 2), 0x1_0000_0002);
}

#[test]
fn window_numbers_become_ids() {
    assert_eq!(window_id(0), Some(0));
    assert_eq!(window_id(u32::MAX as isize), Some(u32::MAX));
    assert_eq!(window_id(-1), None);
    assert_eq!(window_id(u32::MAX as isize + 1), None);
}

fn time(value: i64, timescale: i32, valid: bool) -> CmTime {
    CmTime { value, timescale, valid }
}

#[test]
fn times_become_nanoseconds() {
    assert_eq!(cm_time_ns(time(3, 2, true)), Some(1_500_000_000));
    assert_eq!(cm_time_ns(time(1, 3, true)), Some(333_333_333));
    assert_eq!(cm_time_ns(time(0, 1, true)), Some(0));
    // A third of a second is no later than 0.34 s, in whatever scale.
    assert!(cm_time_ns(time(1, 3, true)) <= cm_time_ns(time(34, 100, true)));
    assert_eq!(cm_time_ns(time(1, 1, false)), None);
    assert_eq!(cm_time_ns(time(1, 0, true)), None);
    assert_eq!(cm_time_ns(time(1, -1, true)), None);
    assert_eq!(cm_time_ns(time(-1, 1, true)), None);
    let large = (i64::MAX as u128 * 1_000_000_000) as u64;
    assert_eq!(cm_time_ns(time(i64::MAX, 1, true)), Some(large));
}

#[test]
fn host_clock_stands_in() {
    let bad = time(1, 1, false);
    assert_eq!(sample_ts(time(1, 1, true), time(2, 1, true)), 1_000_000_000);
    assert_eq!(sample_ts(bad, time(2, 1, true)), 2_000_000_000);
    assert_eq!(sample_ts(bad, bad), 0);
}

fn asbd(flags: u32, bits: u32) -> AudioDescription {
    AudioDescription {
        sample_rate: 48_000,
        format_id: LINEAR_PCM,
        format_flags: flags,
        channels_per_frame: 2,
        bits_per_channel: bits,
    }
}

#[test]
fn audio_descriptions_have_names() {
    for (flags, bits, sample_fmt) in [
        (1, 32, Some(SampleFmt::F32)),
        (1 | 32, 32, Some(SampleFmt::F32P)),
        (1 | 4 | 8, 64, Some(SampleFmt::F64)),
        (1 | 32, 64, Some(SampleFmt::F64P)),
        (1, 16, None),
        (4 | 8, 16, Some(SampleFmt::S16)),
        (4 | 8 | 32, 16, Some(SampleFmt::S16P)),
        (4 | 8, 32, Some(SampleFmt::S32)),
        (4 | 8 | 32, 32, Some(SampleFmt::S32P)),
        (4, 16, None),
        (8, 8, Some(SampleFmt::U8)),
        (8 | 32, 8, Some(SampleFmt::U8P)),
        (8, 16, None),
        (4 | 8, 8, None),
        (0, 8, None),
    ] {
        assert_eq!(asbd_sample_fmt(&asbd(flags, bits)), sample_fmt);
    }
    let other = AudioDescription { format_id: 1, ..asbd(1, 32) };
    assert_eq!(asbd_sample_fmt(&other), None);
}

#[test]
fn planes_are_copied_back_to_back() {
    let (a, b): (&[u8], &[u8]) = (&[1, 2], &[3]);
    assert_eq!(copy_audio_planes(Some(&vec![Some(a), Some(b)])), Some(vec![1, 2, 3]));
    assert_eq!(copy_audio_planes(Some(&vec![])), Some(vec![]));
    assert_eq!(copy_audio_planes(Some(&vec![Some(a), None])), None);
    assert_eq!(copy_audio_planes(None), None);
}

fn buffer(base: &[u8], bytes_per_row: usize, width: usize, height: usize) -> PixelBuffer<'_> {
    PixelBuffer { base: Some(base), bytes_per_row, width, height }
}

#[test]
fn pixel_buffers_become_frames() {
    let mut output = StreamOutput::new(Some(10), false);
    let memory = [1, 2, 3, 4, 0, 5, 6, 7, 8, 0];
    let sample = output.screen_sample(&buffer(&memory, 5, 1, 2), 3).unwrap();
    assert_eq!(sample.frame.vframe, vec![1, 2, 3, 4, 5, 6, 7, 8]);
    assert_eq!(sample.frame.size, (1, 2));
    assert_eq!(sample.frame.pix_fmt, PixFmt::Bgra);
    assert_eq!(sample.frame.ts, 3);
    assert_eq!(sample.new_size, Some((1, 2)));
    // Too early for the cap.
    assert!(output.screen_sample(&buffer(&memory, 5, 1, 2), 4).is_none());
    let later = 1_000_000_000;
    assert!(output.can_judge(later));
    let sample = output.screen_sample(&buffer(&memory, 5, 1, 2), later).unwrap();
    assert_eq!(sample.new_size, None);
    let sample = output.screen_sample(&buffer(&memory, 10, 2, 1), 2 * later).unwrap();
    assert_eq!(sample.new_size, Some((2, 1)));
}

#[test]
fn unusable_pixel_buffers_do_not_count_against_the_cap() {
    let mut output = StreamOutput::new(Some(10), false);
    let memory = [0; 8];
    let missing = PixelBuffer { base: None, ..buffer(&memory, 4, 1, 2) };
    assert!(output.screen_sample(&missing, 3).is_none());
    assert!(output.screen_sample(&buffer(&memory, 3, 1, 2), 3).is_none());
    assert!(output.screen_sample(&buffer(&memory, 4, 1, 2), 3).is_some());
}

#[test]
fn audio_samples_become_frames() {
    let mut output = StreamOutput::new(None, true);
    assert_eq!(output.sample_rate(), None);
    let (left, right): (&[u8], &[u8]) = (&[1, 2, 3, 4], &[5, 6, 7, 8]);
    let planes = vec![Some(left), Some(right)];
    let format = asbd(1 | 32, 32);
    let frame = output.audio_sample(Some(&format), Some(&planes), 1, 9).unwrap();
    assert_eq!(frame.aframe, vec![1, 2, 3, 4, 5, 6, 7, 8]);
    assert_eq!(frame.nb_samples, 1);
    assert_eq!(frame.sample_rate, 48_000);
    assert_eq!(frame.nb_channels, 2);
    assert_eq!(frame.sample_fmt, SampleFmt::F32P);
    assert_eq!(frame.ts, 9);
    assert_eq!(output.sample_rate(), Some(48_000));
}

#[test]
fn audio_samples_that_cannot_be_delivered() {
    let plane: &[u8] = &[1, 2, 3, 4];
    let planes = vec![Some(plane)];
    let mut output = StreamOutput::new(None, true);
    assert!(output.audio_sample(None, Some(&planes), 1, 9).is_none());
    for format in [
        asbd(0, 32),
        AudioDescription { sample_rate: 0, ..asbd(1, 32) },
        AudioDescription { channels_per_frame: 0, ..asbd(1, 32) },
    ] {
        assert!(output.audio_sample(Some(&format), Some(&planes), 1, 9).is_none());
        assert_eq!(output.sample_rate(), None);
    }
    // The rate is known even where the planes are missing.
    assert!(output.audio_sample(Some(&asbd(1, 32)), None, 1, 9).is_none());
    assert_eq!(output.sample_rate(), Some(48_000));
    let mut mute = StreamOutput::new(None, false);
    assert!(mute.audio_sample(Some(&asbd(1, 32)), Some(&planes), 1, 9).is_none());
    assert_eq!(mute.sample_rate(), None);
}

#[test]
fn error_codes_have_meanings() {
    let stream = |code| ns_error(NsError { of_stream: true, code });
    for code in [-3801, -3803] {
        assert!(matches!(stream(code), CaptureError::PermissionDenied));
    }
    for (code, expected) in [
        (-3817, ScreenCaptureKitError::Stopped),
        (-3821, ScreenCaptureKitError::Stopped),
        (-3802, ScreenCaptureKitError::FailedToStart),
        (-3818, ScreenCaptureKitError::FailedToStart),
        (-3804, ScreenCaptureKitError::Stream(-3804)),
        (0, ScreenCaptureKitError::Stream(0)),
    ] {
        match stream(code) {
            CaptureError::ScreenCaptureKit(e) => assert_eq!(e, expected),
            other => panic!("{other:?}"),
        }
    }
    match ns_error(NsError { of_stream: false, code: -3801 }) {
        CaptureError::ScreenCaptureKit(e) => assert_eq!(e, ScreenCaptureKitError::Other(-3801)),
        other => panic!("{other:?}"),
    }
}

fn window(id: u32, on_screen: bool, title: Option<&str>) -> WindowRecord {
    WindowRecord {
        id,
        on_screen,
        title: title.map(|t| t.to_string()),
        width: id as usize * 10,
        height: id as usize,
    }
}

fn content() -> ShareableContent {
    ShareableContent {
        displays: vec![
            DisplayRecord { width: 800, height: 600 },
            DisplayRecord { width: 640, height: 480 },
        ],
        windows: vec![
            window(4, false, Some("editor")),
            window(5, true, None),
            window(6, true, Some("editor")),
            window(7, true, Some("editor")),
        ],
    }
}

#[test]
fn targets_become_filters() {
    let re = regex::Regex::new("^edit").unwrap();
    for (target, source, size) in [
        (Target::Primary, FilterSource::Display(0), (800, 600)),
        (Target::Monitor(1), FilterSource::Display(1), (640, 480)),
        (Target::Window(7), FilterSource::Window(3), (70, 7)),
        (Target::WindowName("^edit".to_string()), FilterSource::Window(2), (60, 6)),
    ] {
        assert_eq!(content_filter(&content(), &target, Some(&re)).unwrap(), (source, size));
    }
}

#[test]
fn targets_that_are_missing() {
    let re = regex::Regex::new("^terminal").unwrap();
    let name = Target::WindowName("^terminal".to_string());
    let bare = ShareableContent { displays: vec![], windows: vec![] };
    for (content, target) in [
        (bare, Target::Primary),
        (content(), Target::Monitor(2)),
        (content(), Target::Monitor(-1)),
        (content(), Target::Window(8)),
        (content(), Target::Window(-1)),
        (content(), name.clone()),
    ] {
        assert!(matches!(
            content_filter(&content, &target, Some(&re)),
            Err(CaptureError::TargetNotFound)
        ));
    }
    assert!(matches!(
        content_filter(&content(), &name, None),
        Err(CaptureError::TargetNotFound)
    ));
    for target in [Target::Pick, Target::PickFrom(1)] {
        assert!(matches!(
            content_filter(&content(), &target, None),
            Err(CaptureError::Unsupported(Unsupported::Picker))
        ));
    }
}

fn config(target: Target, capacity: usize, audio: bool) -> CaptureConfig {
    CaptureConfig {
        video: VideoConfig { channel_capacity: capacity, hide: vec![], target, fps: Some(60) },
        audio: audio.then_some(AudioConfig { channel_capacity: 8 }),
    }
}

#[test]
fn configurations_are_checked() {
    assert!(matches!(check_config(&config(Target::Primary, 2, true), true), Ok(None)));
    assert!(matches!(check_config(&config(Target::Primary, 2, false), false), Ok(None)));
    let good = config(Target::WindowName("a+".to_string()), 2, false);
    assert!(check_config(&good, true).unwrap().unwrap().is_match("caat"));
    let bad = config(Target::WindowName("a(".to_string()), 2, false);
    assert!(matches!(check_config(&bad, true), Err(CaptureError::BadWindowRegex(_))));
    assert!(matches!(
        check_config(&config(Target::WindowName("a(".to_string()), 0, true), false),
        Err(CaptureError::ZeroChannelCapacity)
    ));
    assert!(matches!(
        check_config(&config(Target::Primary, 2, true), false),
        Err(CaptureError::Unsupported(Unsupported::Audio))
    ));
}

fn tell(setup: &mut StreamSetup, event: SetupEvent) -> SetupAction {
    assert!(setup.expects(&event));
    setup.step(event)
}

fn settings(width: usize, height: usize, captures_audio: bool, fps: Option<u32>) -> StreamSettings {
    StreamSettings {
        width,
        height,
        captures_audio,
        pixel_format: u32::from_be_bytes(*b"BGRA"),
        minimum_frame_interval: fps.map(|fps| (1, fps as i32)),
    }
}

fn failure(action: SetupAction) -> CaptureError {
    match action {
        SetupAction::Fail(error) => error,
        other => panic!("{other:?}"),
    }
}

#[test]
fn stream_with_audio_is_set_up() {
    assert_eq!(PIXEL_FORMAT, u32::from_be_bytes(*b"BGRA"));
    let (mut setup, action) = StreamSetup::new(Target::Monitor(1), None, true, Some(30));
    assert!(matches!(action, SetupAction::GetContent));
    match tell(&mut setup, SetupEvent::Content(content())) {
        SetupAction::MakeFilter(source) => assert_eq!(source, FilterSource::Display(1)),
        other => panic!("{other:?}"),
    }
    // The size in pixels where the system can say it.
    match tell(&mut setup, SetupEvent::Filter(Some((1280, 960)))) {
        SetupAction::Open(s) => assert_eq!(s, settings(1280, 960, true, Some(30))),
        other => panic!("{other:?}"),
    }
    assert!(matches!(tell(&mut setup, SetupEvent::Opened), SetupAction::AttachScreen));
    assert!(matches!(tell(&mut setup, SetupEvent::Attached), SetupAction::AttachAudio));
    assert!(matches!(tell(&mut setup, SetupEvent::Attached), SetupAction::Start));
    assert!(matches!(tell(&mut setup, SetupEvent::Started), SetupAction::Ready(1280, 960)));
    assert!(!setup.expects(&SetupEvent::Started));
}

#[test]
fn stream_without_audio_is_set_up() {
    let (mut setup, _) = StreamSetup::new(Target::Primary, None, false, None);
    tell(&mut setup, SetupEvent::Content(content()));
    // The size in points where the system cannot say it in pixels.
    match tell(&mut setup, SetupEvent::Filter(None)) {
        SetupAction::Open(s) => assert_eq!(s, settings(800, 600, false, None)),
        other => panic!("{other:?}"),
    }
    tell(&mut setup, SetupEvent::Opened);
    assert!(matches!(tell(&mut setup, SetupEvent::Attached), SetupAction::Start));
}

#[test]
fn cap_of_zero_is_no_cap() {
    let (mut setup, _) = StreamSetup::new(Target::Primary, None, false, Some(0));
    tell(&mut setup, SetupEvent::Content(content()));
    match tell(&mut setup, SetupEvent::Filter(None)) {
        SetupAction::Open(s) => assert_eq!(s.minimum_frame_interval, None),
        other => panic!("{other:?}"),
    }
}

#[test]
fn user_picks() {
    let (mut setup, action) = StreamSetup::new(Target::Pick, None, false, None);
    assert!(matches!(action, SetupAction::PresentPicker));
    match tell(&mut setup, SetupEvent::Picked(Some((10, 20)))) {
        SetupAction::Open(s) => assert_eq!((s.width, s.height), (10, 20)),
        other => panic!("{other:?}"),
    }
}

#[test]
fn picker_fails() {
    for (event, expected) in [
        (SetupEvent::PickerMissing, "unsupported on this system: the system picker"),
        (SetupEvent::Picked(None), "unsupported on this system: the system picker"),
        (SetupEvent::Cancelled, "the user cancelled the capture request"),
        (SetupEvent::Gone, "the capture thread terminated unexpectedly"),
        (
            SetupEvent::Failed(NsError { of_stream: true, code: -3801 }),
            "screen capture permission was denied",
        ),
    ] {
        let (mut setup, _) = StreamSetup::new(Target::Pick, None, false, None);
        assert_eq!(failure(tell(&mut setup, event)).message(), expected);
    }
}

#[test]
fn content_fails() {
    for (event, expected) in [
        (SetupEvent::NoContent, "ScreenCaptureKit: no shareable content"),
        (SetupEvent::Gone, "the capture thread terminated unexpectedly"),
        (
            SetupEvent::Failed(NsError { of_stream: true, code: -3803 }),
            "screen capture permission was denied",
        ),
        (SetupEvent::Content(content()), "no capture target matched"),
    ] {
        let (mut setup, _) = StreamSetup::new(Target::Monitor(9), None, false, None);
        assert_eq!(failure(tell(&mut setup, event)).message(), expected);
    }
}

#[test]
fn window_is_found_by_its_title() {
    let target = Target::WindowName("edit.r".to_string());
    let re = check_config(&config(target.clone(), 1, false), true).unwrap();
    let (mut setup, _) = StreamSetup::new(target, re, false, None);
    match tell(&mut setup, SetupEvent::Content(content())) {
        SetupAction::MakeFilter(source) => assert_eq!(source, FilterSource::Window(2)),
        other => panic!("{other:?}"),
    }
}

#[test]
fn outputs_and_start_fail() {
    let opened = || {
        let (mut setup, _) = StreamSetup::new(Target::Primary, None, true, None);
        tell(&mut setup, SetupEvent::Content(content()));
        tell(&mut setup, SetupEvent::Filter(None));
        tell(&mut setup, SetupEvent::Opened);
        setup
    };
    let attach = "ScreenCaptureKit: the stream output could not be attached";
    let mut setup = opened();
    assert_eq!(failure(tell(&mut setup, SetupEvent::AttachFailed)).message(), attach);
    let mut setup = opened();
    tell(&mut setup, SetupEvent::Attached);
    assert_eq!(failure(tell(&mut setup, SetupEvent::AttachFailed)).message(), attach);
    for (event, expected) in [
        (
            SetupEvent::Failed(NsError { of_stream: true, code: -3802 }),
            "ScreenCaptureKit: the stream failed to start",
        ),
        (SetupEvent::Gone, "the capture thread terminated unexpectedly"),
    ] {
        let mut setup = opened();
        tell(&mut setup, SetupEvent::Attached);
        tell(&mut setup, SetupEvent::Attached);
        assert_eq!(failure(tell(&mut setup, event)).message(), expected);
    }
}

#[test]
fn failed_capture_lets_go_of_its_windows() {
    match conclude(SetupAnswer::Running, vec![1, 2]) {
        SetupEnd::Running(hidden) => assert_eq!(hidden, vec![1, 2]),
        other => panic!("{other:?}"),
    }
    match conclude(SetupAnswer::Failed(CaptureError::Cancelled), vec![1, 2]) {
        SetupEnd::Failed(hidden, CaptureError::Cancelled) => assert_eq!(hidden, vec![1, 2]),
        other => panic!("{other:?}"),
    }
    match conclude(SetupAnswer::Gone, vec![1, 2]) {
        SetupEnd::Failed(hidden, CaptureError::WorkerGone) => assert_eq!(hidden, vec![1, 2]),
        other => panic!("{other:?}"),
    }
}

#[test]
fn first_answer_ends_the_wait() {
    let mut wait = StopWait::new();
    assert!(wait.must_ask());
    assert!(wait.answer().is_none());
    wait.stop_completed(Some(NsError { of_stream: true, code: -3804 }));
    wait.stream_stopped();
    assert!(matches!(
        wait.answer(),
        Some(Some(CaptureError::ScreenCaptureKit(ScreenCaptureKitError::Stream(-3804))))
    ));
    let mut wait = StopWait::new();
    wait.stream_stopped();
    assert!(!wait.must_ask());
    wait.stop_completed(Some(NsError { of_stream: true, code: -3804 }));
    assert!(matches!(wait.answer(), Some(None)));
    let mut wait = StopWait::new();
    wait.stop_completed(None);
    assert!(wait.must_ask());
    assert!(matches!(wait.answer(), Some(None)));
}
