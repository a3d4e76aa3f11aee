use scrcap::config::{AudioConfig, CaptureConfig, Target, VideoConfig};
use scrcap::error::{
    CaptureError, PortalCall, PortalError, ScreenCaptureKitError, Unsupported,
};
use scrcap::pattern::compile;

fn config(video: usize, audio: Option<usize>) -> CaptureConfig {
    CaptureConfig {
        video: VideoConfig {
            channel_capacity: video,
            hide: vec![],
            target: Target::Primary,
            fps: Some(60),
        },
        audio: audio.map(|channel_capacity| AudioConfig { channel_capacity }),
    }
}

#[test]
fn empty_channels_are_refused() {
    assert!(config(2, Some(64)).validate().is_ok());
    assert!(config(1, None).validate().is_ok());
    assert!(matches!(
        config(0, None).validate(),
        Err(CaptureError::ZeroChannelCapacity)
    ));
    assert!(matches!(
        config(2, Some(0)).validate(),
        Err(CaptureError::ZeroChannelCapacity)
    ));
}

#[test]
fn targets_can_be_cloned() {
    for target in [
        Target::Primary,
        Target::Monitor(-1),
        Target::Window(3),
        Target::WindowName("a.*".to_string()),
        Target::Pick,
        Target::PickFrom(4),
    ] {
        assert_eq!(target.clone(), target);
    }
}

#[test]
fn messages_of_plain_errors() {
    for (error, message) in [
        (CaptureError::Cancelled, "the user cancelled the capture request"),
        (CaptureError::PermissionDenied, "screen capture permission was denied"),
        (CaptureError::TargetNotFound, "no capture target matched"),
        (CaptureError::ZeroChannelCapacity, "channel_capacity must be at least 1"),
        (CaptureError::WorkerGone, "the capture thread terminated unexpectedly"),
        (CaptureError::StreamFailed, "the capture stream failed"),
        (CaptureError::SpaParams, "could not build the PipeWire stream parameters"),
    ] {
        assert_eq!(error.message(), message);
    }
}

#[test]
fn messages_of_missing_capabilities() {
    for (what, message) in [
        (Unsupported::ScreenCapture, "screen capture"),
        (Unsupported::Direct3D, "Direct3D 11"),
        (Unsupported::HideWindows, "hiding windows from the capture"),
        (Unsupported::WindowTarget, "capturing a single window"),
        (Unsupported::Picker, "the system picker"),
        (Unsupported::Audio, "capturing audio"),
        (Unsupported::SampleFormat, "the negotiated audio sample format"),
    ] {
        assert_eq!(what.message(), message);
        assert_eq!(
            CaptureError::from(what).message(),
            format!("unsupported on this system: {message}")
        );
    }
}

#[test]
fn messages_of_the_portal() {
    for (error, message) in [
        (
            PortalError::NoMatchingSource { wanted: 1, available: 0xfe },
            "no source of the requested kind (wanted 0x1, available 0xfe)",
        ),
        (
            PortalError::Refused { call: PortalCall::Start, response: 2 },
            "Start failed with response 2",
        ),
        (
            PortalError::MalformedReply { call: PortalCall::CreateSession },
            "CreateSession returned a malformed reply",
        ),
        (
            PortalError::NoResponse { call: PortalCall::SelectSources },
            "SelectSources produced no response",
        ),
        (PortalError::Vanished { call: PortalCall::Start }, "Start lost its portal"),
    ] {
        assert_eq!(error.message(), message);
        assert_eq!(
            CaptureError::from(error).message(),
            format!("the ScreenCast portal: {message}")
        );
    }
}

#[test]
fn messages_of_screen_capture_kit() {
    for (error, message) in [
        (ScreenCaptureKitError::NoShareableContent, "no shareable content"),
        (ScreenCaptureKitError::FailedToStart, "the stream failed to start"),
        (ScreenCaptureKitError::Stopped, "the system stopped the stream"),
        (ScreenCaptureKitError::OutputAttach, "the stream output could not be attached"),
        (ScreenCaptureKitError::Stream(-3804), "SCStream error -3804"),
        (ScreenCaptureKitError::Stream(0), "SCStream error 0"),
        (ScreenCaptureKitError::Other(4097), "error 4097 from another error domain"),
        (
            ScreenCaptureKitError::Other(isize::MIN),
            "error -9223372036854775808 from another error domain",
        ),
    ] {
        assert_eq!(error.message(), message);
        assert_eq!(
            CaptureError::from(error).message(),
            format!("ScreenCaptureKit: {message}")
        );
    }
}

#[test]
fn largest_codes_are_spelled_out() {
    let refused = PortalError::Refused { call: PortalCall::Start, response: u32::MAX };
    assert_eq!(refused.message(), "Start failed with response 4294967295");
    let none = PortalError::NoMatchingSource { wanted: u32::MAX, available: 0 };
    assert_eq!(
        none.message(),
        "no source of the requested kind (wanted 0xffffffff, available 0x0)"
    );
}

#[test]
fn bad_patterns_say_why() {
    let error = match compile("(") {
        Ok(_) => panic!("an unclosed group"),
        Err(error) => error,
    };
    assert!(matches!(error, CaptureError::BadWindowRegex(_)));
    let detail = match &error {
        CaptureError::BadWindowRegex(e) => e.to_string(),
        _ => unreachable!(),
    };
    assert!(detail.contains("unclosed group"));
    assert_eq!(
        error.message(),
        format!("the window name pattern is not a valid regex: {detail}")
    );
    let from = CaptureError::from(regex::Regex::new("[").unwrap_err());
    assert!(matches!(from, CaptureError::BadWindowRegex(_)));
}

#[test]
fn patterns_that_compile_to_too_much_are_refused() {
    assert!(compile("(?:a{100}){10}").unwrap().is_match(&"a".repeat(1000)));
    assert!(matches!(
        compile("(?:a{1000}){1000}"),
        Err(CaptureError::BadWindowRegex(regex::Error::CompiledTooBig(_)))
    ));
    assert!(matches!(
        compile("a{2,1}"),
        Err(CaptureError::BadWindowRegex(regex::Error::Syntax(_)))
    ));
}

#[test]
fn calls_have_the_names_of_their_methods() {
    assert_eq!(PortalCall::CreateSession.name(), "CreateSession");
    assert_eq!(PortalCall::SelectSources.name(), "SelectSources");
    assert_eq!(PortalCall::Start.name(), "Start");
}
