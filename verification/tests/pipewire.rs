use scrcap::config::{AudioConfig, Target, VideoConfig};
use scrcap::error::{CaptureError, Unsupported};
use scrcap::format::{PixFmt, SampleFmt};
use scrcap::linux::pipewire::{
    audio_param_change_callback, audio_process_callback, buffer_ts, chunk_slice, conclude,
    connection_refused, offered_formats, video_param_change_callback, video_process_callback,
    video_state_change_callback, AudioInfo, Chunk, Media, PipewireSession, Plane, Remote,
    SetupAnswer, SizeChange, StreamRequest, StreamState, Timespec, VideoData, VideoFormat, VideoInfo,
};

fn config(target: Target, hide: Vec<isize>, fps: Option<u32>) -> VideoConfig {
    VideoConfig { channel_capacity: 2, hide, target, fps }
}

fn plane(data: &[u8], offset: u32, size: u32, stride: i32) -> Plane<'_> {
    Plane { data: Some(data), chunk: Chunk { offset, size, stride, flags: 0 } }
}

fn session(audio: bool) -> PipewireSession {
    let audio = audio.then_some(AudioConfig { channel_capacity: 4 });
    match PipewireSession::new(&config(Target::Primary, vec![], Some(30)), &audio) {
        Ok(session) => session,
        Err(e) => panic!("{e:?}"),
    }
}

/// A stream that has negotiated frames of the given size.
fn negotiated(width: u32, height: u32, format: VideoFormat) -> VideoData {
    let mut data = VideoData::new(Some(10));
    let info = VideoInfo { format, size: (width, height) };
    video_param_change_callback(&mut data, true, true, Some(info));
    data
}

#[test]
fn targets_become_source_types() {
    for (target, types) in [
        (Target::Primary, 1),
        (Target::Monitor(7), 1),
        (Target::Pick, 0),
    ] {
        let session = PipewireSession::new(&config(target, vec![], None), &None);
        assert_eq!(session.unwrap().source_types(), types);
    }
}

#[test]
fn windows_cannot_be_named() {
    for target in [Target::Window(3), Target::WindowName("x".to_string())] {
        assert!(matches!(
            PipewireSession::new(&config(target, vec![], None), &None),
            Err(CaptureError::Unsupported(Unsupported::WindowTarget))
        ));
    }
}

#[test]
fn windows_cannot_be_hidden() {
    for target in [Target::Primary, Target::Window(3)] {
        assert!(matches!(
            PipewireSession::new(&config(target, vec![1], None), &None),
            Err(CaptureError::Unsupported(Unsupported::HideWindows))
        ));
    }
}

#[test]
fn frame_rate_is_capped_at_the_producer() {
    for (fps, max) in [(Some(30), 30), (Some(0), 1000), (None, 1000)] {
        let session = PipewireSession::new(&config(Target::Pick, vec![], fps), &None);
        assert_eq!(session.unwrap().max_framerate(), max);
    }
}

#[test]
fn session_settles() {
    let mut with = session(true);
    assert_eq!(with.size(), (0, 0));
    assert_eq!(with.sample_rate(), None);
    let first = SizeChange { size: (640, 480), answer_setup: true };
    assert!(matches!(with.settle_size(&first), Some(SetupAnswer::Agreed)));
    with.settle_sample_rate(48_000);
    assert_eq!(with.size(), (640, 480));
    assert_eq!(with.sample_rate(), Some(48_000));
    let second = SizeChange { size: (64, 48), answer_setup: false };
    assert!(with.settle_size(&second).is_none());
    assert_eq!(with.size(), (64, 48));
    assert!(!with.is_terminated());
    with.terminate();
    assert!(with.is_terminated());
    let mut without = session(false);
    without.settle_sample_rate(48_000);
    assert_eq!(without.sample_rate(), None);
}

#[test]
fn streams_of_a_session() {
    let video = StreamRequest {
        media: Media::Video { max_framerate: 30 },
        remote: Remote::Portal,
        target: Some(55),
        capture_sink: false,
    };
    let audio = StreamRequest {
        media: Media::Audio,
        remote: Remote::Ordinary,
        target: None,
        capture_sink: true,
    };
    assert_eq!(session(false).streams(55), vec![video]);
    assert_eq!(session(true).streams(55), vec![video, audio]);
}

#[test]
fn no_audio_without_the_daemon() {
    assert!(connection_refused(Remote::Portal).is_none());
    assert!(matches!(
        connection_refused(Remote::Ordinary),
        Some(CaptureError::Unsupported(Unsupported::Audio))
    ));
}

#[test]
fn alpha_is_preferred() {
    assert_eq!(offered_formats(), vec![VideoFormat::Bgra, VideoFormat::Bgrx]);
}

#[test]
fn chunks_end_with_their_memory() {
    let memory = [1, 2, 3, 4, 5];
    assert_eq!(chunk_slice(&plane(&memory, 1, 2, 0)), Some(&memory[1..3]));
    assert_eq!(chunk_slice(&plane(&memory, 3, 9, 0)), Some(&memory[3..]));
    // The offset counts modulo the size of the memory.
    assert_eq!(chunk_slice(&plane(&memory, 7, 2, 0)), Some(&memory[2..4]));
}

#[test]
fn unusable_chunks() {
    let memory = [1, 2, 3];
    assert_eq!(chunk_slice(&plane(&memory, 0, 0, 0)), None);
    assert_eq!(chunk_slice(&plane(&[], 0, 3, 0)), None);
    let chunk = Chunk { offset: 0, size: 3, stride: 0, flags: 0 };
    assert_eq!(chunk_slice(&Plane { data: None, chunk }), None);
    let corrupted = Chunk { flags: 3, ..chunk };
    assert_eq!(chunk_slice(&Plane { data: Some(&memory), chunk: corrupted }), None);
    let other_flag = Chunk { flags: 2, ..chunk };
    assert_eq!(chunk_slice(&Plane { data: Some(&memory), chunk: other_flag }), Some(&memory[..]));
}

#[test]
fn timestamps_come_from_the_header_or_the_clock() {
    let now = Some(Timespec { sec: 3, nsec: 7 });
    assert_eq!(buffer_ts(Some(12), now), 12);
    assert_eq!(buffer_ts(Some(0), now), 3_000_000_007);
    assert_eq!(buffer_ts(Some(-1), now), 3_000_000_007);
    assert_eq!(buffer_ts(None, now), 3_000_000_007);
    assert_eq!(buffer_ts(None, None), 0);
    let earlier = Some(Timespec { sec: 2, nsec: 999_999_999 });
    assert!(buffer_ts(None, earlier) <= buffer_ts(None, now));
}

#[test]
fn video_frames_lose_their_padding() {
    let mut data = negotiated(1, 2, VideoFormat::Bgrx);
    let memory = [1, 2, 3, 4, 0, 0, 5, 6, 7, 8, 0, 0];
    let frame = video_process_callback(&mut data, &vec![plane(&memory, 0, 12, 6)], 5).unwrap();
    assert_eq!(frame.vframe, vec![1, 2, 3, 4, 5, 6, 7, 8]);
    assert_eq!(frame.size, (1, 2));
    assert_eq!(frame.pix_fmt, PixFmt::Bgr0);
    assert_eq!(frame.ts, 5);
}

#[test]
fn rows_are_tight_where_no_stride_is_given() {
    let mut data = negotiated(1, 2, VideoFormat::Bgra);
    let memory = [1, 2, 3, 4, 5, 6, 7, 8];
    let frame = video_process_callback(&mut data, &vec![plane(&memory, 0, 8, 0)], 5).unwrap();
    assert_eq!(frame.vframe, memory);
    assert_eq!(frame.pix_fmt, PixFmt::Bgra);
}

#[test]
fn unusable_buffers_do_not_spend_a_slot() {
    let mut data = negotiated(1, 2, VideoFormat::Other);
    let memory = [0; 12];
    for planes in [
        vec![],
        vec![plane(&memory, 0, 7, 0)],
        vec![plane(&memory, 0, 12, 3)],
        vec![plane(&memory, 0, 12, i32::MAX)],
        vec![plane(&memory, 0, 0, 0)],
    ] {
        assert!(video_process_callback(&mut data, &planes, 5).is_none());
    }
    assert!(data.can_judge(5));
    assert!(video_process_callback(&mut data, &vec![plane(&memory, 0, 8, 0)], 5).is_some());
    // Only now is the slot spent.
    assert!(video_process_callback(&mut data, &vec![plane(&memory, 0, 8, 0)], 6).is_none());
}

#[test]
fn frames_before_a_format_are_dropped() {
    let mut data = VideoData::new(None);
    let memory = [0; 8];
    assert!(video_process_callback(&mut data, &vec![plane(&memory, 0, 8, 0)], 5).is_none());
}

#[test]
fn setup_is_answered_once() {
    let mut data = VideoData::new(None);
    let info = VideoInfo { format: VideoFormat::Bgra, size: (3, 4) };
    assert_eq!(video_param_change_callback(&mut data, false, true, Some(info)), None);
    assert_eq!(video_param_change_callback(&mut data, true, false, Some(info)), None);
    assert_eq!(video_param_change_callback(&mut data, true, true, None), None);
    assert_eq!(
        video_param_change_callback(&mut data, true, true, Some(info)),
        Some(SizeChange { size: (3, 4), answer_setup: true })
    );
    assert_eq!(
        video_param_change_callback(&mut data, true, true, Some(info)),
        Some(SizeChange { size: (3, 4), answer_setup: false })
    );
    let end = video_state_change_callback(&mut data, StreamState::Error).unwrap();
    assert!(end.setup_answer.is_none());
}

#[test]
fn stream_that_fails_early_fails_the_setup() {
    let mut data = VideoData::new(None);
    assert!(video_state_change_callback(&mut data, StreamState::Alive).is_none());
    let end = video_state_change_callback(&mut data, StreamState::Unconnected).unwrap();
    assert!(matches!(
        end.setup_answer,
        Some(SetupAnswer::Failed(CaptureError::StreamFailed))
    ));
    let end = video_state_change_callback(&mut data, StreamState::Error).unwrap();
    assert!(end.setup_answer.is_none());
}

#[test]
fn setup_concludes_with_the_first_agreed_size() {
    let mut session = session(false);
    let mut data = VideoData::new(None);
    let info = |size| Some(VideoInfo { format: VideoFormat::Bgra, size });
    assert!(video_param_change_callback(&mut data, true, false, info((1, 2))).is_none());
    let change = video_param_change_callback(&mut data, true, true, info((3, 4))).unwrap();
    let answer = session.settle_size(&change).unwrap();
    assert_eq!(session.size(), (3, 4));
    assert!(conclude(answer).is_ok());
    let change = video_param_change_callback(&mut data, true, true, info((5, 6))).unwrap();
    assert!(session.settle_size(&change).is_none());
    assert_eq!(session.size(), (5, 6));
}

#[test]
fn setup_that_does_not_come_about() {
    assert!(matches!(
        conclude(SetupAnswer::Failed(CaptureError::StreamFailed)),
        Err(Some(CaptureError::StreamFailed))
    ));
    assert!(matches!(conclude(SetupAnswer::Reported), Err(None)));
    assert!(matches!(conclude(SetupAnswer::Gone), Err(Some(CaptureError::WorkerGone))));
}

#[test]
fn shortest_plane_sets_the_sample_count() {
    let info = AudioInfo { rate: 48_000, channels: 2 };
    let left = [1, 1, 1, 1, 2, 2, 2, 2, 3];
    let right = [4, 4, 4, 4, 5, 5, 5];
    let planes = vec![plane(&left, 0, 9, 0), plane(&right, 0, 7, 0)];
    let frame = audio_process_callback(&info, &planes, 8).unwrap();
    assert_eq!(frame.aframe, vec![1, 1, 1, 1, 4, 4, 4, 4]);
    assert_eq!(frame.nb_samples, 1);
    assert_eq!(frame.sample_rate, 48_000);
    assert_eq!(frame.nb_channels, 2);
    assert_eq!(frame.sample_fmt, SampleFmt::F32P);
    assert_eq!(frame.ts, 8);
}

#[test]
fn buffers_without_sound() {
    let info = AudioInfo { rate: 48_000, channels: 2 };
    let sound = [0; 8];
    assert!(audio_process_callback(&info, &vec![], 8).is_none());
    let short = vec![plane(&sound, 0, 8, 0), plane(&sound, 0, 3, 0)];
    assert!(audio_process_callback(&info, &short, 8).is_none());
    let empty = vec![plane(&sound, 0, 8, 0), plane(&sound, 0, 0, 0)];
    assert!(audio_process_callback(&info, &empty, 8).is_none());
    for info in [AudioInfo { rate: 0, channels: 2 }, AudioInfo { rate: 1, channels: 0 }] {
        assert!(audio_process_callback(&info, &vec![plane(&sound, 0, 8, 0)], 8).is_none());
    }
}

#[test]
fn audio_formats_settle_the_rate() {
    let mut data = AudioInfo { rate: 0, channels: 0 };
    let info = AudioInfo { rate: 44_100, channels: 2 };
    assert_eq!(audio_param_change_callback(&mut data, false, true, Some(info)), None);
    assert_eq!(audio_param_change_callback(&mut data, true, false, Some(info)), None);
    assert_eq!(audio_param_change_callback(&mut data, true, true, None), None);
    assert_eq!(data.rate, 0);
    assert_eq!(audio_param_change_callback(&mut data, true, true, Some(info)), Some(44_100));
    assert_eq!((data.rate, data.channels), (44_100, 2));
    let none = AudioInfo { rate: 0, channels: 2 };
    assert_eq!(audio_param_change_callback(&mut data, true, true, Some(none)), None);
    assert_eq!(data.rate, 0);
}
