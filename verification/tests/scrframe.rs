use scrcap::scrframe::frame::{AFrame as _, VFrame as _};
use scrcap::scrframe::{
    AFrame, AFrameRef, Frame, RealTimeVFrame, RealTimeVFrameRef, VFrame, VFrameRef,
};

fn vframe() -> VFrame {
    VFrame { vframe: vec![1, 2, 3, 4], size: (1, 1), pix_fmt: 28 }
}

fn aframe() -> AFrame {
    AFrame {
        aframe: vec![1, 2],
        nb_samples: 5,
        sample_rate: 48_000,
        nb_channels: 2,
        sample_fmt: 8,
    }
}

#[test]
fn video_frames_by_value_and_by_reference() {
    let frame = vframe();
    let reference = VFrameRef::from(&frame);
    let now = RealTimeVFrameRef::from(&frame);
    assert_eq!(reference.as_ref(), frame.as_ref());
    assert_eq!(now.as_ref(), frame.as_ref());
    assert_eq!((reference.size(), reference.pix_fmt()), ((1, 1), 28));
    assert_eq!((now.size(), now.pix_fmt()), ((1, 1), 28));
    assert_eq!(reference.data(), frame.data());
    assert_eq!(now.data(), frame.data());
    assert_eq!((frame.size(), frame.pix_fmt()), ((1, 1), 28));
    let owned = RealTimeVFrame::from(vframe());
    assert_eq!(owned.as_ref(), frame.as_ref());
    assert_eq!(owned.data(), frame.data());
    assert_eq!((owned.size(), owned.pix_fmt()), ((1, 1), 28));
}

#[test]
fn only_real_time_frames_have_a_time() {
    let frame = vframe();
    assert_eq!(frame.ts(7), None);
    assert_eq!(VFrameRef::from(&frame).ts(7), None);
    assert_eq!(RealTimeVFrameRef::from(&frame).ts(7), Some(7));
    assert_eq!(RealTimeVFrame::from(frame).ts(u128::MAX), Some(u128::MAX));
}

#[test]
fn video_frames_show_their_length() {
    let frame = vframe();
    let shown = "{ vframe: 4, size: (1, 1), pix_fmt: 28 }";
    assert_eq!(format!("{:?}", frame.debug()), format!("VFrameDebug {shown}"));
    assert_eq!(
        format!("{:?}", VFrameRef::from(&frame).debug()),
        format!("VFrameRefDebug {shown}")
    );
    assert_eq!(
        format!("{:?}", RealTimeVFrameRef::from(&frame).debug()),
        format!("RealTimeVFrameRefDebug {shown}")
    );
    assert_eq!(
        format!("{:?}", RealTimeVFrame::from(frame).debug()),
        format!("RealTimeVFrameDebug {shown}")
    );
}

#[test]
fn audio_frames_expose_their_fields() {
    let frame = aframe();
    assert_eq!(frame.as_ref(), [1, 2]);
    assert_eq!(frame.data(), [1, 2]);
    assert_eq!((frame.nb_samples(), frame.sample_rate()), (5, 48_000));
    assert_eq!((frame.nb_channels(), frame.sample_fmt()), (2, 8));
    let reference = AFrameRef {
        aframe: &frame.aframe,
        nb_samples: 5,
        sample_rate: 48_000,
        nb_channels: 2,
        sample_fmt: 8,
    };
    assert_eq!(reference.as_ref(), [1, 2]);
    assert_eq!(reference.data(), [1, 2]);
    assert_eq!((reference.nb_samples(), reference.sample_rate()), (5, 48_000));
    assert_eq!((reference.nb_channels(), reference.sample_fmt()), (2, 8));
    let shown = "{ aframe: 2, nb_samples: 5, sample_rate: 48000, nb_channels: 2, sample_fmt: 8 }";
    assert_eq!(format!("{:?}", frame.debug()), format!("AFrameDebug {shown}"));
    assert_eq!(format!("{:?}", reference.debug()), format!("AFrameRefDebug {shown}"));
}

#[test]
fn frames_of_either_kind_hand_out_their_bytes() {
    let video = Frame::Video { vframe: vec![1, 2, 3, 4], size: (1, 1), pix_fmt: 28 };
    let audio = Frame::Audio {
        aframe: vec![5],
        nb_samples: 1,
        sample_rate: 2,
        nb_channels: 3,
        sample_fmt: 4,
    };
    assert_eq!(video.as_ref(), [1, 2, 3, 4]);
    assert_eq!(audio.as_ref(), [5]);
    assert_eq!(format!("{:?}", video.clone()), format!("{video:?}"));
    assert_eq!(format!("{:?}", audio.clone()), format!("{audio:?}"));
}
