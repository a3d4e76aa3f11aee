use scrcap::fps::FpsGate;

fn delivered(fps: Option<u32>, ts: &[u64]) -> Vec<u64> {
    let mut gate = FpsGate::new(fps);
    let mut out = Vec::new();
    for t in ts {
        assert!(gate.can_judge(*t));
        if gate.allow(*t) {
            out.push(*t);
        }
    }
    out
}

#[test]
fn no_cap_delivers_every_frame() {
    let ts = [5, 5, 4, 1_000_000_000, 0];
    assert_eq!(delivered(None, &ts), ts);
    assert_eq!(delivered(Some(0), &ts), ts);
}

#[test]
fn cap_drops_frames_that_come_too_early() {
    // 10 fps: one frame every 100 ms.
    let ms = 1_000_000;
    let ts: Vec<u64> = (0..10).map(|i| i * 50 * ms).collect();
    let kept: Vec<u64> = (0..5).map(|i| i * 100 * ms).collect();
    assert_eq!(delivered(Some(10), &ts), kept);
}

#[test]
fn faster_source_keeps_the_cap() {
    // A 75 Hz source under a cap of 60 fps: no fewer than 60 frames of a second get through.
    let interval = 1_000_000_000 / 75;
    let ts: Vec<u64> = (0..75).map(|i| i * interval).collect();
    let kept = delivered(Some(60), &ts);
    assert_eq!(kept.len(), 60);
    let cap = 1_000_000_000 / 60;
    for (k, t) in kept.iter().enumerate() {
        let k = k as u64;
        assert!(k * cap <= *t && *t < (k + 1) * cap);
    }
}

#[test]
fn slower_source_loses_nothing() {
    let ts: Vec<u64> = (0..30).map(|i| i * 1_000_000_000 / 24).collect();
    assert_eq!(delivered(Some(60), &ts), ts);
}

#[test]
fn timestamps_never_go_back() {
    // Pictures and sound on one clock; the cap of 10 fps holds the pictures back only.
    let ms = 1_000_000;
    let mut gate = FpsGate::new(Some(10));
    let mut out = Vec::new();
    for (picture, t) in [(true, 1), (false, 1), (true, 40), (false, 60), (true, 101), (true, 101)] {
        if !picture || gate.allow(t * ms) {
            out.push((picture, t));
        }
    }
    assert_eq!(out, [(true, 1), (false, 1), (false, 60), (true, 101)]);
    assert!(out.windows(2).all(|pair| 0 < pair[0].1 && pair[0].1 <= pair[1].1));
}

#[test]
fn late_frame_restarts_the_schedule() {
    let mut gate = FpsGate::new(Some(10));
    let ms = 1_000_000;
    assert!(gate.allow(0));
    // Due at 100 ms; 250 ms is more than one interval late, so the next is due at 350 ms.
    assert!(gate.allow(250 * ms));
    assert!(!gate.allow(349 * ms));
    assert!(gate.allow(350 * ms));
}

#[test]
fn slightly_late_frame_keeps_the_schedule() {
    let mut gate = FpsGate::new(Some(10));
    let ms = 1_000_000;
    assert!(gate.allow(0));
    assert!(gate.allow(150 * ms));
    assert!(!gate.allow(199 * ms));
    assert!(gate.allow(200 * ms));
}

#[test]
fn frames_at_the_end_of_time_cannot_be_judged() {
    let mut gate = FpsGate::new(Some(10));
    assert!(!gate.can_judge(u64::MAX));
    assert!(gate.can_judge(u64::MAX - 100_000_000));
    assert!(gate.allow(u64::MAX - 100_000_000));
    assert!(!gate.can_judge(u64::MAX));
    assert!(gate.can_judge(u64::MAX - 1));
    assert!(!gate.allow(u64::MAX - 1));
    assert!(FpsGate::new(None).can_judge(u64::MAX));
}

#[test]
fn cap_beyond_a_billion_is_no_cap() {
    assert_eq!(delivered(Some(2_000_000_000), &[3, 3, 2]), [3, 3, 2]);
}
