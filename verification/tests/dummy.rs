use scrcap::config::{AudioConfig, CaptureConfig, Target, VideoConfig};
use scrcap::dummy::{noise_frame, DummyCapture, DummyStep, HEIGHT, WIDTH};
use scrcap::error::CaptureError;
use scrcap::format::PixFmt;

fn config(channel_capacity: usize, fps: Option<u32>) -> CaptureConfig {
    CaptureConfig {
        video: VideoConfig { channel_capacity, hide: vec![], target: Target::Primary, fps },
        audio: Some(AudioConfig { channel_capacity: 64 }),
    }
}

fn capture(fps: Option<u32>) -> DummyCapture {
    match DummyCapture::new(&config(2, fps)) {
        Ok(capture) => capture,
        Err(e) => panic!("{e:?}"),
    }
}

#[test]
fn frames_are_tight_and_in_order() {
    let mut capture = capture(Some(60));
    assert_eq!(capture.size(), (1080, 720));
    let mut last_ts = 0;
    let mut nb_frames = 0;
    for i in 1..60 {
        let ts = i * 10_000_000;
        assert!(capture.can_judge(ts));
        match capture.step(false, false, ts) {
            DummyStep::Send(frame) => {
                let (width, height) = frame.size;
                assert_eq!(frame.vframe.len(), (width * height * 4) as usize);
                assert_eq!(frame.pix_fmt, PixFmt::Bgra);
                assert!(frame.ts > 0 && frame.ts >= last_ts);
                last_ts = frame.ts;
                nb_frames += 1;
            }
            DummyStep::Sleep => {}
            DummyStep::Stop => panic!("nobody asked"),
        }
    }
    // 590 ms at a cap of 60 fps.
    assert_eq!(nb_frames, 35);
}

#[test]
fn noise_is_random() {
    let mut capture = capture(None);
    let frame = |capture: &mut DummyCapture| match capture.step(false, false, 1) {
        DummyStep::Send(frame) => frame.vframe,
        _ => panic!("no frame"),
    };
    let (a, b) = (frame(&mut capture), frame(&mut capture));
    assert_ne!(a, b);
    let mut seen = [false; 256];
    for byte in a {
        seen[byte as usize] = true;
    }
    assert!(seen.iter().all(|s| *s));
}

#[test]
fn captures_start_from_the_same_seed() {
    let first = |_: ()| match capture(None).step(false, false, 1) {
        DummyStep::Send(frame) => frame.vframe,
        _ => panic!("no frame"),
    };
    assert_eq!(first(()), first(()));
}

#[test]
fn stop_and_full_come_first() {
    let mut capture = capture(Some(1));
    assert!(matches!(capture.step(true, true, 0), DummyStep::Stop));
    assert!(matches!(capture.step(false, true, 0), DummyStep::Sleep));
    assert!(matches!(capture.step(false, false, 0), DummyStep::Send(_)));
    assert!(matches!(capture.step(false, false, 1), DummyStep::Sleep));
    assert!(matches!(capture.step(true, false, 1), DummyStep::Stop));
}

#[test]
fn empty_channel_is_refused() {
    assert!(matches!(
        DummyCapture::new(&config(0, None)),
        Err(CaptureError::ZeroChannelCapacity)
    ));
}

#[test]
fn noise_frames_hold_their_noise() {
    let frame = noise_frame(vec![1, 2, 3], 4);
    assert_eq!(frame.vframe, vec![1, 2, 3]);
    assert_eq!(frame.size, (WIDTH, HEIGHT));
    assert_eq!(frame.ts, 4);
}

/// Video and audio share one monotonic clock, so one running maximum covers both.
fn check_ts(ts: u64, last: &mut u64) {
    assert!(ts > 0, "frame has no timestamp");
    assert!(ts >= *last, "timestamp went backwards: {ts} after {last}");
    *last = ts;
}

#[test]
fn lib_capture_test() {
    let mut capture = capture(Some(60));
    let mut nb_frames = 0;
    let mut last_ts = 0;
    let now = std::time::Instant::now();
    while nb_frames < 300 {
        let ts = now.elapsed().as_nanos() as u64;
        assert!(ts < 19_000_000_000, "no 300 frames in time");
        if let DummyStep::Send(frame) = capture.step(false, false, ts) {
            let (width, height) = frame.size;
            assert_eq!(frame.vframe.len(), (width * height * 4) as usize);
            check_ts(frame.ts, &mut last_ts);
            nb_frames += 1;
        }
    }
    let ts = now.elapsed().as_nanos() as u64;
    assert!(matches!(capture.step(true, false, ts), DummyStep::Stop));
    println!(
        "frames: {nb_frames}; fps: {} hz",
        nb_frames as f32 / now.elapsed().as_secs_f32()
    );
}
