use scrcap::format::{PixFmt, SampleFmt};
use scrcap::frame::{AFrame, AudioFrame, VFrame, VideoFrame};
use scrcap::util::pack_rows;

fn video() -> VideoFrame {
    VideoFrame {
        vframe: vec![1, 2, 3, 4, 5, 6, 7, 8],
        size: (2, 1),
        pix_fmt: PixFmt::Bgr0,
        ts: 9,
    }
}

fn audio() -> AudioFrame {
    AudioFrame {
        aframe: vec![1, 2, 3, 4],
        nb_samples: 2,
        sample_rate: 48_000,
        nb_channels: 1,
        sample_fmt: SampleFmt::S16,
        ts: 7,
    }
}

#[test]
fn video_frame_shows_its_length_only() {
    assert_eq!(
        format!("{:?}", video().debug()),
        "VideoFrameDebug { vframe: 8, size: (2, 1), pix_fmt: Bgr0, ts: 9 }"
    );
}

#[test]
fn audio_frame_shows_its_length_only() {
    assert_eq!(
        format!("{:?}", audio().debug()),
        "AudioFrameDebug { aframe: 4, nb_samples: 2, sample_rate: 48000, nb_channels: 1, \
         sample_fmt: S16, ts: 7 }"
    );
}

#[test]
fn frames_expose_what_encoders_need() {
    let v = video().clone();
    assert_eq!(v.as_ref(), [1, 2, 3, 4, 5, 6, 7, 8]);
    assert_eq!(v.data(), v.as_ref());
    assert_eq!(v.size(), (2, 1));
    assert_eq!(v.pix_fmt(), PixFmt::Bgr0);
    assert_eq!(v.ts(), 9);
    let a = audio().clone();
    assert_eq!(a.as_ref(), [1, 2, 3, 4]);
    assert_eq!(a.data(), a.as_ref());
    assert_eq!(a.nb_samples(), 2);
    assert_eq!(a.sample_rate(), 48_000);
    assert_eq!(a.nb_channels(), 1);
    assert_eq!(a.sample_fmt(), SampleFmt::S16);
    assert_eq!(a.ts(), 7);
}

#[test]
fn padding_comes_off() {
    let base = [1, 2, 3, 0, 4, 5, 6, 0];
    assert_eq!(pack_rows(Some(&base), 4, 3, 2), Some(vec![1, 2, 3, 4, 5, 6]));
}

#[test]
fn rows_without_padding_stay_as_they_are() {
    let base = [1, 2, 3, 4, 5, 6];
    assert_eq!(pack_rows(Some(&base), 3, 3, 2), Some(base.to_vec()));
}

#[test]
fn rows_that_overlap_cannot_be_unpadded() {
    let base = [0; 8];
    assert_eq!(pack_rows(Some(&base), 3, 4, 2), None);
    assert_eq!(pack_rows(None, 4, 4, 2), None);
}

#[test]
fn no_rows_are_no_bytes() {
    assert_eq!(pack_rows(Some(&[]), 4, 3, 0), Some(vec![]));
    assert_eq!(pack_rows(Some(&[9, 9]), 1, 0, 2), Some(vec![]));
}
