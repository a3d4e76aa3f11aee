use scrcap::config::Target;
use scrcap::error::{CaptureError, Unsupported};
use scrcap::format::{PixFmt, SampleFmt};
use scrcap::windows::audio::{
    ends_capture, mix_format, qpc_now, starts_round, wasapi_sample_fmt, AudioPump, Batch,
    MixFormat, Packet, Published, Waited, WaveFormat, KSDATAFORMAT_SUBTYPE_IEEE_FLOAT, KSDATAFORMAT_SUBTYPE_PCM,
};
use scrcap::windows::capture::{
    capture_item, first_window, frame_ts, mapped_frame, min_update_interval, monitor_from_index,
    pick_failed, pump_goes_on, window_by_title, Desktop, FrameHandler, ItemSource, SetupAction,
    SetupEvent, VideoSetup, WindowRecord,
};
use scrcap::windows::utils::{HiddenWindows, HideStep};

fn window(hwnd: isize, visible: bool, title: &str) -> WindowRecord {
    WindowRecord { hwnd, visible, title: title.encode_utf16().collect() }
}

fn desktop() -> Desktop {
    Desktop {
        primary: Some(100),
        monitors: vec![100, 101],
        windows: vec![
            window(1, false, "editor"),
            window(2, true, ""),
            window(3, true, "Editor \u{1f600}"),
            window(4, true, "editor"),
        ],
    }
}

#[test]
fn first_visible_window_with_the_title() {
    let windows = desktop().windows;
    assert_eq!(window_by_title("(?i)editor", &windows).unwrap(), 3);
    assert_eq!(window_by_title("editor", &windows).unwrap(), 4);
    assert_eq!(window_by_title("^Editor \u{1f600}$", &windows).unwrap(), 3);
    assert!(matches!(
        window_by_title("terminal", &windows),
        Err(CaptureError::TargetNotFound)
    ));
    // A window without a title does not match, whatever the pattern.
    assert_eq!(window_by_title("", &windows).unwrap(), 3);
    assert!(matches!(
        window_by_title("*", &windows),
        Err(CaptureError::BadWindowRegex(_))
    ));
}

#[test]
fn titles_with_broken_surrogates_still_match() {
    let broken = WindowRecord { hwnd: 9, visible: true, title: vec![0x61, 0xd800, 0x62] };
    assert_eq!(window_by_title("^a\u{fffd}b$", &vec![broken]).unwrap(), 9);
}

#[test]
fn flags_choose_the_window() {
    let windows = desktop().windows;
    let none = vec![false; 4];
    assert!(matches!(first_window(&windows, &none), Err(CaptureError::TargetNotFound)));
    let two = vec![false, true, false, true];
    assert_eq!(first_window(&windows, &two).unwrap(), 2);
}

#[test]
fn monitors_are_counted_from_zero() {
    let monitors = vec![7, 8];
    assert_eq!(monitor_from_index(0, &monitors).unwrap(), 7);
    assert_eq!(monitor_from_index(1, &monitors).unwrap(), 8);
    for index in [-1, 2, isize::MIN, isize::MAX] {
        assert!(matches!(
            monitor_from_index(index, &monitors),
            Err(CaptureError::TargetNotFound)
        ));
    }
}

#[test]
fn targets_become_items() {
    let desktop = desktop();
    for (target, source) in [
        (Target::Primary, ItemSource::Monitor(100)),
        (Target::Monitor(1), ItemSource::Monitor(101)),
        (Target::Window(77), ItemSource::Window(77)),
        (Target::WindowName("^ed".to_string()), ItemSource::Window(4)),
        (Target::PickFrom(5), ItemSource::Picker(5)),
    ] {
        assert_eq!(capture_item(&target, &desktop).unwrap(), source);
    }
}

#[test]
fn targets_that_are_not_there() {
    let bare = Desktop { primary: None, monitors: vec![], windows: vec![] };
    for target in [Target::Primary, Target::Monitor(0), Target::WindowName("x".to_string())] {
        assert!(matches!(
            capture_item(&target, &bare),
            Err(CaptureError::TargetNotFound)
        ));
    }
    assert!(matches!(
        capture_item(&Target::Pick, &desktop()),
        Err(CaptureError::Unsupported(Unsupported::Picker))
    ));
}

#[test]
fn dismissing_the_picker_cancels() {
    assert!(matches!(pick_failed(0), Some(CaptureError::Cancelled)));
    assert!(pick_failed(-1).is_none());
}

#[test]
fn update_interval_follows_the_cap() {
    assert_eq!(min_update_interval(Some(60)), Some(166_666));
    assert_eq!(min_update_interval(Some(0)), None);
    assert_eq!(min_update_interval(None), None);
}

#[test]
fn frame_times_are_in_nanoseconds() {
    assert_eq!(frame_ts(Some(3), 9), 300);
    assert_eq!(frame_ts(Some(0), 9), 0);
    assert_eq!(frame_ts(Some(-1), 9), 9);
    assert_eq!(frame_ts(None, 9), 9);
}

#[test]
fn message_loop_ends() {
    assert!(pump_goes_on(1, false));
    assert!(!pump_goes_on(1, true));
    assert!(!pump_goes_on(0, false));
    assert!(!pump_goes_on(-1, false));
}

#[test]
fn staging_texture_is_kept_while_the_size_stays() {
    let mut handler = FrameHandler::new(Some(10), (5, 5));
    assert_eq!(handler.size(), (5, 5));
    assert!(handler.can_judge(0));
    assert!(handler.arrived(0));
    assert!(!handler.arrived(1));
    assert!(handler.measured(4, 3));
    assert_eq!(handler.size(), (4, 3));
    // Making the texture has failed, so it is needed again.
    assert!(handler.measured(4, 3));
    handler.staged(4, 3);
    assert!(!handler.measured(4, 3));
    assert!(handler.measured(3, 4));
    assert_eq!(handler.size(), (3, 4));
}

#[test]
fn mapped_textures_become_frames() {
    let memory = [1, 2, 3, 4, 0, 5, 6, 7, 8, 0];
    let frame = mapped_frame(Some(&memory), 5, 1, 2, 3).unwrap();
    assert_eq!(frame.vframe, vec![1, 2, 3, 4, 5, 6, 7, 8]);
    assert_eq!((frame.size, frame.pix_fmt, frame.ts), ((1, 2), PixFmt::Bgra, 3));
    assert!(mapped_frame(None, 5, 1, 2, 3).is_none());
    assert!(mapped_frame(Some(&memory), 3, 1, 2, 3).is_none());
}

fn tell(setup: &mut VideoSetup, event: SetupEvent) -> SetupAction {
    assert!(setup.expects(&event));
    setup.step(event)
}

fn hidden_both() -> VideoSetup {
    let mut setup = VideoSetup::new(vec![7, 8]);
    assert!(matches!(tell(&mut setup, SetupEvent::Supported(true)), SetupAction::Hide(7)));
    assert!(matches!(tell(&mut setup, SetupEvent::Hidden), SetupAction::Hide(8)));
    assert!(matches!(tell(&mut setup, SetupEvent::Hidden), SetupAction::ResolveItem));
    setup
}

fn failure(action: SetupAction) -> (Vec<isize>, Option<CaptureError>) {
    match action {
        SetupAction::Fail { restore, error } => (restore, error),
        other => panic!("{other:?}"),
    }
}

#[test]
fn capture_is_set_up() {
    let mut setup = hidden_both();
    let item = SetupEvent::Item { width: 640, height: 480 };
    assert!(matches!(tell(&mut setup, item), SetupAction::Spawn));
    match tell(&mut setup, SetupEvent::Running(3)) {
        SetupAction::Ready { size, thread_id, hidden } => {
            assert_eq!(size, (640, 480));
            assert_eq!(thread_id, 3);
            assert_eq!(hidden, vec![7, 8]);
        }
        other => panic!("{other:?}"),
    }
    assert!(!setup.expects(&SetupEvent::Failed));
}

#[test]
fn capture_that_is_not_supported() {
    let mut setup = VideoSetup::new(vec![7]);
    let (restore, error) = failure(tell(&mut setup, SetupEvent::Supported(false)));
    assert!(restore.is_empty());
    assert!(matches!(
        error,
        Some(CaptureError::Unsupported(Unsupported::ScreenCapture))
    ));
}

#[test]
fn failed_setup_lets_go_of_what_it_hid() {
    let mut setup = VideoSetup::new(vec![7, 8, 9]);
    tell(&mut setup, SetupEvent::Supported(true));
    tell(&mut setup, SetupEvent::Hidden);
    let (restore, error) = failure(tell(&mut setup, SetupEvent::Failed));
    assert_eq!(restore, vec![7]);
    assert!(error.is_none());

    let (restore, _) = failure(tell(&mut hidden_both(), SetupEvent::Failed));
    assert_eq!(restore, vec![7, 8]);

    let mut setup = hidden_both();
    tell(&mut setup, SetupEvent::Item { width: 1, height: 1 });
    let (restore, error) = failure(tell(&mut setup, SetupEvent::WorkerGone));
    assert_eq!(restore, vec![7, 8]);
    assert!(matches!(error, Some(CaptureError::WorkerGone)));
}

#[test]
fn window_is_restored_by_the_last_capture() {
    let mut hidden = HiddenWindows::new();
    assert_eq!(hidden.hide_window_from_capture(5), HideStep::Exclude);
    assert_eq!(hidden.captures(5), 0);
    hidden.excluded(5, 1);
    assert_eq!(hidden.captures(5), 1);
    assert_eq!(hidden.hide_window_from_capture(5), HideStep::Done);
    assert_eq!(hidden.captures(5), 2);
    assert_eq!(hidden.unhide_window(5), None);
    assert_eq!(hidden.unhide_window(5), Some(1));
    assert_eq!(hidden.captures(5), 0);
    assert_eq!(hidden.unhide_window(5), None);
}

#[test]
fn window_stays_excluded_while_a_capture_hides_it() {
    let mut hidden = HiddenWindows::new();
    for hwnd in [5, 6] {
        assert_eq!(hidden.hide_window_from_capture(hwnd), HideStep::Exclude);
        hidden.excluded(hwnd, 0);
    }
    assert_eq!(hidden.hide_window_from_capture(5), HideStep::Done);
    // Neither another window nor one of two captures lets go of it.
    assert_eq!(hidden.unhide_window(6), Some(0));
    assert_eq!(hidden.unhide_window(5), None);
    assert_eq!(hidden.captures(5), 1);
}

#[test]
fn windows_are_restored_one_by_one() {
    let mut hidden = HiddenWindows::new();
    for (hwnd, affinity) in [(1, 0), (2, 1), (3, 17)] {
        assert_eq!(hidden.hide_window_from_capture(hwnd), HideStep::Exclude);
        hidden.excluded(hwnd, affinity);
    }
    assert_eq!(hidden.unhide_window(1), Some(0));
    assert_eq!(hidden.unhide_window(3), Some(17));
    assert_eq!(hidden.captures(2), 1);
    assert_eq!(hidden.unhide_window(2), Some(1));
}

fn wave(tag: u32, bits: u16, cb_size: u16, sub_format: u128) -> WaveFormat {
    WaveFormat {
        tag,
        channels: 2,
        samples_per_sec: 48_000,
        bits_per_sample: bits,
        cb_size,
        sub_format,
    }
}

#[test]
fn mix_formats_have_names() {
    let float = KSDATAFORMAT_SUBTYPE_IEEE_FLOAT;
    let pcm = KSDATAFORMAT_SUBTYPE_PCM;
    for (format, sample_fmt) in [
        (wave(3, 32, 0, 0), Some(SampleFmt::F32)),
        (wave(3, 64, 0, 0), Some(SampleFmt::F64)),
        (wave(3, 16, 0, 0), None),
        (wave(1, 8, 0, 0), Some(SampleFmt::U8)),
        (wave(1, 16, 0, 0), Some(SampleFmt::S16)),
        (wave(1, 32, 0, 0), Some(SampleFmt::S32)),
        (wave(1, 24, 0, 0), None),
        (wave(65534, 32, 22, float), Some(SampleFmt::F32)),
        (wave(65534, 16, 22, pcm), Some(SampleFmt::S16)),
        (wave(65534, 32, 22, 0), None),
        (wave(65534, 32, 21, float), None),
        (wave(2, 32, 22, float), None),
    ] {
        assert_eq!(wasapi_sample_fmt(&format), sample_fmt);
        match mix_format(&format) {
            Ok(mix) => {
                assert_eq!(Some(mix.sample_fmt), sample_fmt);
                assert_eq!(mix.sample_size, format.bits_per_sample as usize / 8);
                assert_eq!((mix.sample_rate, mix.nb_channels), (48_000, 2));
            }
            Err(e) => {
                assert_eq!(sample_fmt, None);
                assert!(matches!(e, CaptureError::Unsupported(Unsupported::SampleFormat)));
            }
        }
    }
}

#[test]
fn counter_becomes_nanoseconds() {
    assert_eq!(qpc_now(10_000_000, Some(25)), 2500);
    assert_eq!(qpc_now(3, Some(1)), 333_333_333);
    assert_eq!(qpc_now(1, Some(i64::MAX)), (i64::MAX as u128 * 1_000_000_000) as u64);
    assert!(0 < qpc_now(3, Some(1)) && qpc_now(3, Some(1)) <= qpc_now(3, Some(2)));
    assert_eq!(qpc_now(0, Some(25)), 0);
    assert_eq!(qpc_now(-1, Some(25)), 0);
    assert_eq!(qpc_now(1, Some(-25)), 0);
    assert_eq!(qpc_now(1, None), 0);
}

fn pump(sample_fmt: SampleFmt, sample_size: usize) -> AudioPump {
    let format = MixFormat { sample_rate: 1000, nb_channels: 2, sample_size, sample_fmt };
    AudioPump::new(format, 1000, 1_000_000)
}

fn add(pump: &AudioPump, batch: &mut Batch, packet: &Packet) {
    assert!(pump.can_add(batch, packet));
    pump.add_packet(batch, packet);
}

#[test]
fn rounds_are_half_a_buffer_apart() {
    let format = MixFormat {
        sample_rate: 48_000,
        nb_channels: 2,
        sample_size: 4,
        sample_fmt: SampleFmt::F32,
    };
    assert_eq!(AudioPump::new(format, 480, 0).poll_interval(), 5_000_000);
    assert_eq!(AudioPump::new(format, 48_000, 0).poll_interval(), 10_000_000);
    assert_eq!(AudioPump::new(format, 480, 0).packet_bytes(3), 24);
}

#[test]
fn packets_become_one_frame() {
    let mut pump = pump(SampleFmt::S16, 2);
    let mut batch = Batch::new();
    let sound = [1, 2, 3, 4];
    add(&pump, &mut batch, &Packet { nb_frames: 1, silent: false, data: &sound, qpc: 20_000 });
    add(&pump, &mut batch, &Packet { nb_frames: 1, silent: true, data: &[], qpc: 30_000 });
    assert!(pump.can_finish(&batch, 5_000_000));
    let frame = pump.finish(batch, 5_000_000).unwrap();
    assert_eq!(frame.aframe, vec![1, 2, 3, 4, 0, 0, 0, 0]);
    assert_eq!(frame.nb_samples, 2);
    assert_eq!(frame.sample_rate, 1000);
    assert_eq!(frame.nb_channels, 2);
    assert_eq!(frame.sample_fmt, SampleFmt::S16);
    assert_eq!(frame.ts, 2_000_000);
    // The two samples last 2 ms, so a packet that claims to be earlier starts where they end.
    let mut batch = Batch::new();
    add(&pump, &mut batch, &Packet { nb_frames: 1, silent: false, data: &sound, qpc: 20_000 });
    assert_eq!(pump.finish(batch, 5_000_000).unwrap().ts, 4_000_000);
}

#[test]
fn silence_fills_gaps() {
    let mut pump = pump(SampleFmt::U8, 1);
    // Less than a sample has passed.
    assert!(pump.finish(Batch::new(), 1_999_999).is_none());
    let frame = pump.finish(Batch::new(), 4_000_000).unwrap();
    assert_eq!(frame.aframe, vec![128; 6]);
    assert_eq!((frame.nb_samples, frame.ts), (3, 1_000_000));
    // The clock has gone backwards.
    assert!(pump.finish(Batch::new(), 0).is_none());
    // A minute of silence comes out a second at a time.
    let frame = pump.finish(Batch::new(), 60_000_000_000).unwrap();
    assert_eq!((frame.nb_samples, frame.ts), (1000, 4_000_000));
    let frame = pump.finish(Batch::new(), 60_000_000_000).unwrap();
    assert_eq!((frame.nb_samples, frame.ts), (1000, 1_004_000_000));
}

#[test]
fn packets_beyond_the_limits_are_not_taken() {
    let pump = pump(SampleFmt::S16, 2);
    let mut batch = Batch::new();
    let packet = Packet { nb_frames: 1, silent: false, data: &[0; 3], qpc: 0 };
    assert!(!pump.can_add(&batch, &packet));
    let late = Packet { nb_frames: 1, silent: true, data: &[], qpc: u64::MAX };
    assert!(!pump.can_add(&batch, &late));
    add(&pump, &mut batch, &Packet { nb_frames: 1, silent: true, data: &[], qpc: 0 });
    let many = Packet { nb_frames: u32::MAX, silent: true, data: &[], qpc: 0 };
    assert!(!pump.can_add(&batch, &many));
}

#[test]
fn only_a_lost_listener_ends_the_capture() {
    assert!(!ends_capture(Published::Sent));
    assert!(!ends_capture(Published::Full));
    assert!(ends_capture(Published::Disconnected));
}

#[test]
fn rounds_start_when_the_time_is_up() {
    assert!(starts_round(false, Waited::TimedOut));
    assert!(!starts_round(true, Waited::TimedOut));
    assert!(!starts_round(false, Waited::Woken));
    assert!(!starts_round(false, Waited::Disconnected));
}
