use scrcap::config::Target;
use scrcap::error::CaptureError;
use scrcap::muxed::dummy::{goes_on, noise_frame, DummyCapture};
use scrcap::muxed::{linux, macos, windows};
use scrcap::scrframe::Frame;
use scrcap::windows::audio::Packet;
use scrcap::windows::capture::{Desktop, ItemSource};

#[test]
fn noise_comes_while_there_is_room() {
    let mut capture = DummyCapture::new();
    assert_eq!(capture.size(), (1080, 720));
    assert!(capture.next_frame(true).is_none());
    match capture.next_frame(false) {
        Some(Frame::Video { vframe, size: (width, height), pix_fmt }) => {
            assert_eq!(vframe.len(), (width * height * 4) as usize);
            assert_eq!((width, height, pix_fmt), (1080, 720, 28));
            assert!(vframe.iter().any(|b| *b != vframe[0]));
        }
        other => panic!("{:?}", other.map(|_| ())),
    }
    match noise_frame(vec![1]) {
        Frame::Video { vframe, size, pix_fmt } => {
            assert_eq!((vframe, size, pix_fmt), (vec![1], (1080, 720), 28))
        }
        Frame::Audio { .. } => panic!("no audio"),
    }
}

#[test]
fn stop_is_seen_after_a_frame() {
    assert!(goes_on(false, true));
    assert!(goes_on(true, false));
    assert!(!goes_on(true, true));
}

#[test]
fn pipewire_rows_are_packed() {
    let (a, b): (&[u8], &[u8]) = (&[1, 2, 3, 4, 5, 6, 7, 8, 9, 10, 11, 12], &[6, 7]);
    for (stride, rows) in [
        (0, vec![1, 2, 3, 4, 5, 6, 7, 8]),
        (-4, vec![1, 2, 3, 4, 5, 6, 7, 8]),
        (4, vec![1, 2, 3, 4, 5, 6, 7, 8]),
        (6, vec![1, 2, 3, 4, 7, 8, 9, 10]),
    ] {
        match linux::video_process_callback(false, &vec![a, b], stride, (1, 2)) {
            linux::VideoStep::Send(Frame::Video { vframe, size, pix_fmt }) => {
                assert_eq!((vframe, size, pix_fmt), (rows, (1, 2), 28))
            }
            _ => panic!("no frame"),
        }
    }
}

#[test]
fn pipewire_buffers_without_a_whole_frame_are_dropped() {
    let a: &[u8] = &[1, 2, 3, 4, 5, 6, 7, 8];
    let step = |terminated, planes: Vec<&[u8]>, stride, size| {
        linux::video_process_callback(terminated, &planes, stride, size)
    };
    assert!(matches!(step(true, vec![a], 0, (1, 2)), linux::VideoStep::Quit));
    assert!(matches!(step(false, vec![], 0, (1, 2)), linux::VideoStep::Nothing));
    // Too short for the rows, and rows too close to one another.
    assert!(matches!(step(false, vec![a], 5, (1, 2)), linux::VideoStep::Nothing));
    assert!(matches!(step(false, vec![a], 3, (1, 2)), linux::VideoStep::Nothing));
    assert!(matches!(step(false, vec![a], 3, (1, 0)), linux::VideoStep::Nothing));
    match step(false, vec![a], 0, (1, 0)) {
        linux::VideoStep::Send(Frame::Video { vframe, size, .. }) => {
            assert_eq!((vframe, size), (vec![], (1, 0)))
        }
        _ => panic!("no frame"),
    }
}

#[test]
fn pipewire_planes_of_sound_are_taken_whole() {
    let (a, b): (&[u8], &[u8]) = (&[1, 2, 3, 4, 5], &[6, 7]);
    match linux::audio_process_callback(&vec![a, b], 48_000, 2) {
        Some(Frame::Audio { aframe, nb_samples, sample_rate, nb_channels, sample_fmt }) => {
            assert_eq!(aframe, vec![1, 2, 3, 4, 5, 6, 7]);
            assert_eq!((nb_samples, sample_rate, nb_channels, sample_fmt), (1, 48_000, 2, 8));
        }
        _ => panic!("no frame"),
    }
    assert!(linux::audio_process_callback(&vec![], 48_000, 2).is_none());
}

#[test]
fn screen_capture_kit_samples_are_taken_whole() {
    assert!(macos::can_capture(&Target::Primary));
    assert!(!macos::can_capture(&Target::Monitor(0)));
    assert!(!macos::can_capture(&Target::Pick));
    match macos::video_frame(&[1; 24], 12, 2) {
        Frame::Video { vframe, size, pix_fmt } => {
            assert_eq!((vframe, size, pix_fmt), (vec![1; 24], (3, 2), 28))
        }
        Frame::Audio { .. } => panic!("no audio"),
    }
    match macos::video_frame(&[1, 2, 3, 4, 5, 6, 7, 8, 9, 10], 5, 2) {
        Frame::Video { vframe, size, .. } => {
            assert_eq!((vframe, size), (vec![1, 2, 3, 4, 6, 7, 8, 9], (1, 2)))
        }
        Frame::Audio { .. } => panic!("no audio"),
    }
    match macos::audio_frame(&[1, 2], 7, 44_100, 1) {
        Frame::Audio { aframe, nb_samples, sample_rate, nb_channels, sample_fmt } => {
            assert_eq!(aframe, vec![1, 2]);
            assert_eq!((nb_samples, sample_rate, nb_channels, sample_fmt), (7, 44_100, 1, 8));
        }
        Frame::Video { .. } => panic!("no video"),
    }
}

#[test]
fn windows_targets() {
    let desktop = Desktop { primary: Some(9), monitors: vec![40, 41], windows: vec![] };
    for (target, source) in [
        (Target::Primary, ItemSource::Monitor(9)),
        (Target::Monitor(0), ItemSource::Monitor(40)),
        (Target::Monitor(1), ItemSource::Monitor(41)),
        (Target::Window(6), ItemSource::Window(6)),
    ] {
        assert!(windows::can_capture(&target));
        assert_eq!(windows::capture_item(&target, &desktop).unwrap(), source);
    }
    for index in [-5, 2] {
        assert!(matches!(
            windows::capture_item(&Target::Monitor(index), &desktop),
            Err(CaptureError::TargetNotFound)
        ));
    }
    for target in [Target::WindowName("x".to_string()), Target::Pick, Target::PickFrom(1)] {
        assert!(!windows::can_capture(&target));
    }
}

#[test]
fn windows_rows_are_packed() {
    let mapped = [1, 2, 3, 4, 5, 6, 7, 8, 9, 10, 11, 12];
    match windows::video_frame(Some(&mapped), 6, 1, 2) {
        Some(Frame::Video { vframe, size, pix_fmt }) => {
            assert_eq!((vframe, size, pix_fmt), (vec![1, 2, 3, 4, 7, 8, 9, 10], (1, 2), 28))
        }
        _ => panic!("no frame"),
    }
    assert!(windows::video_frame(Some(&mapped), 3, 1, 2).is_none());
    assert!(windows::video_frame(None, 4, 1, 2).is_none());
}

fn format() -> windows::AudioFormat {
    windows::AudioFormat { sample_rate: 1000, nb_channels: 2, sample_size: 1, buffer_frames: 5 }
}

#[test]
fn silent_packets_are_left_out() {
    assert_eq!(windows::poll_interval(&format()), 2_500_000);
    let packet = |nb_frames, silent, data| Packet { nb_frames, silent, data, qpc: 0 };
    let packets = vec![
        packet(1, false, &[1, 2, 9]),
        packet(3, true, &[]),
        packet(1, false, &[3, 4]),
    ];
    match windows::audio_frame(&format(), &packets) {
        Frame::Audio { aframe, nb_samples, sample_rate, nb_channels, sample_fmt } => {
            assert_eq!(aframe, vec![1, 2, 3, 4]);
            assert_eq!((nb_samples, sample_rate, nb_channels, sample_fmt), (2, 1000, 2, 3));
        }
        Frame::Video { .. } => panic!("no video"),
    }
}

#[test]
fn zeros_stand_in_for_silence() {
    let silent = Packet { nb_frames: 3, silent: true, data: &[], qpc: 0 };
    for packets in [vec![], vec![silent]] {
        match windows::audio_frame(&format(), &packets) {
            Frame::Audio { aframe, nb_samples, .. } => {
                assert_eq!(aframe, vec![0; 5]);
                assert_eq!(nb_samples, 2);
            }
            Frame::Video { .. } => panic!("no video"),
        }
    }
}

#[test]
fn capture_test() {
    let mut capture = DummyCapture::new();
    let mut nb_frames = 0;
    let mut total_nb_samples = 0;
    for i in 0..300 {
        println!("{i}");
        match capture.next_frame(false).unwrap() {
            Frame::Video { vframe, size: (width, height), .. } => {
                assert_eq!(vframe.len(), (width * height * 4) as usize);
                nb_frames += 1;
            }
            Frame::Audio { nb_samples, .. } => {
                total_nb_samples += nb_samples;
            }
        }
    }
    assert_eq!((nb_frames, total_nb_samples), (300, 0));
}
