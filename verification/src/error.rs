//! Error types for the screen capture library.

use crate::text::{push_decimal, push_hexadecimal};
use vstd::prelude::*;
use vstd::string::*;

verus! {

/// The error of the regex crate, carried through as it is.
#[verifier::external_type_specification]
#[verifier::external_body]
pub struct ExRegexError(regex::Error);

/// Everything that can go wrong while setting up or running a capture, apart from the errors
/// of the platform calls themselves.
///
/// Variants are grouped by what a caller can *do* about them: [`Cancelled`] and
/// [`PermissionDenied`] are user decisions, [`TargetNotFound`] and the `Bad*` variants
/// are wrong arguments, [`Unsupported`] is a missing capability, and the rest are failures
/// reported by the platform.
///
/// [`Cancelled`]: Self::Cancelled
/// [`PermissionDenied`]: Self::PermissionDenied
/// [`TargetNotFound`]: Self::TargetNotFound
/// [`Unsupported`]: Self::Unsupported
#[derive(Debug)]
#[non_exhaustive]
pub enum CaptureError {
    /// The user dismissed the system picker or the permission prompt without choosing.
    ///
    /// Not a malfunction: ask again, or give up quietly.
    Cancelled,
    /// The system refuses to let this process capture the screen.
    ///
    /// macOS: Screen Recording in System Settings > Privacy & Security, which only takes
    /// effect after the app is restarted. Linux: the portal's permission dialog.
    PermissionDenied,
    /// Nothing on the system matched the requested target.
    ///
    /// The monitor index is out of range, or no window has that id or title.
    TargetNotFound,
    /// The window name of the target is not a valid regex.
    BadWindowRegex(regex::Error),
    /// `channel_capacity` was 0 on a video or audio config.
    ///
    /// Frames are published without waiting, which on a rendezvous channel only lands
    /// while a consumer happens to be parked in `recv`, so 0 would drop nearly everything.
    ZeroChannelCapacity,
    /// The running system cannot do what the configuration asked for.
    Unsupported(Unsupported),
    /// The capture thread terminated unexpectedly.
    WorkerGone,
    /// The stream failed or was disconnected before a format had been agreed on.
    StreamFailed,
    /// The ScreenCast portal refused the request or answered it with something unusable.
    Portal(PortalError),
    /// The PipeWire stream parameters could not be built. A bug in this crate.
    SpaParams,
    /// ScreenCaptureKit reported a failure with no more specific meaning here.
    ScreenCaptureKit(ScreenCaptureKitError),
}

impl CaptureError {
    /// The text of every error but [`BadWindowRegex`](Self::BadWindowRegex), whose text ends in
    /// what the regex crate has to say.
    pub open spec fn text(&self) -> Seq<char> {
        match *self {
            CaptureError::Cancelled => "the user cancelled the capture request"@,
            CaptureError::PermissionDenied => "screen capture permission was denied"@,
            CaptureError::TargetNotFound => "no capture target matched"@,
            CaptureError::BadWindowRegex(_) => "the window name pattern is not a valid regex: "@,
            CaptureError::ZeroChannelCapacity => "channel_capacity must be at least 1"@,
            CaptureError::Unsupported(what) => "unsupported on this system: "@ + what.text(),
            CaptureError::WorkerGone => "the capture thread terminated unexpectedly"@,
            CaptureError::StreamFailed => "the capture stream failed"@,
            CaptureError::Portal(e) => "the ScreenCast portal: "@ + e.text(),
            CaptureError::SpaParams => "could not build the PipeWire stream parameters"@,
            CaptureError::ScreenCaptureKit(e) => "ScreenCaptureKit: "@ + e.text(),
        }
    }

    /// The error in words.
    pub fn message(&self) -> (message: String)
        ensures
            match *self {
                CaptureError::BadWindowRegex(e) => exists|detail: String|
                    #[trigger] to_string_from_display_ensures(&e, detail) && message@
                        == self.text() + detail@,
                _ => message@ == self.text(),
            },
    {
        match self {
            CaptureError::Cancelled => "the user cancelled the capture request".to_string(),
            CaptureError::PermissionDenied => "screen capture permission was denied".to_string(),
            CaptureError::TargetNotFound => "no capture target matched".to_string(),
            CaptureError::BadWindowRegex(e) => {
                let detail = e.to_string();
                "the window name pattern is not a valid regex: ".to_string().concat(
                    detail.as_str(),
                )
            },
            CaptureError::ZeroChannelCapacity => "channel_capacity must be at least 1".to_string(),
            CaptureError::Unsupported(what) => {
                "unsupported on this system: ".to_string().concat(what.message())
            },
            CaptureError::WorkerGone => "the capture thread terminated unexpectedly".to_string(),
            CaptureError::StreamFailed => "the capture stream failed".to_string(),
            CaptureError::Portal(e) => {
                let detail = e.message();
                "the ScreenCast portal: ".to_string().concat(detail.as_str())
            },
            CaptureError::SpaParams => {
                "could not build the PipeWire stream parameters".to_string()
            },
            CaptureError::ScreenCaptureKit(e) => {
                let detail = e.message();
                "ScreenCaptureKit: ".to_string().concat(detail.as_str())
            },
        }
    }
}

impl From<regex::Error> for CaptureError {
    fn from(e: regex::Error) -> (error: Self) {
        CaptureError::BadWindowRegex(e)
    }
}

impl vstd::std_specs::convert::FromSpecImpl<regex::Error> for CaptureError {
    open spec fn obeys_from_spec() -> bool {
        true
    }

    open spec fn from_spec(e: regex::Error) -> Self {
        CaptureError::BadWindowRegex(e)
    }
}

impl From<Unsupported> for CaptureError {
    fn from(what: Unsupported) -> (error: Self) {
        CaptureError::Unsupported(what)
    }
}

impl vstd::std_specs::convert::FromSpecImpl<Unsupported> for CaptureError {
    open spec fn obeys_from_spec() -> bool {
        true
    }

    open spec fn from_spec(what: Unsupported) -> Self {
        CaptureError::Unsupported(what)
    }
}

impl From<PortalError> for CaptureError {
    fn from(e: PortalError) -> (error: Self) {
        CaptureError::Portal(e)
    }
}

impl vstd::std_specs::convert::FromSpecImpl<PortalError> for CaptureError {
    open spec fn obeys_from_spec() -> bool {
        true
    }

    open spec fn from_spec(e: PortalError) -> Self {
        CaptureError::Portal(e)
    }
}

impl From<ScreenCaptureKitError> for CaptureError {
    fn from(e: ScreenCaptureKitError) -> (error: Self) {
        CaptureError::ScreenCaptureKit(e)
    }
}

impl vstd::std_specs::convert::FromSpecImpl<ScreenCaptureKitError> for CaptureError {
    open spec fn obeys_from_spec() -> bool {
        true
    }

    open spec fn from_spec(e: ScreenCaptureKitError) -> Self {
        CaptureError::ScreenCaptureKit(e)
    }
}

/// A capability the running system does not provide.
///
/// Every variant is a hard no for this machine, so the only useful reactions are to turn
/// the feature off and retry, or to tell the user why it is missing.
#[derive(Debug, Clone, Copy, PartialEq, Eq, Structural)]
#[non_exhaustive]
pub enum Unsupported {
    /// Screen capture at all: Windows.Graphics.Capture is missing or disabled.
    ScreenCapture,
    /// Direct3D 11 with BGRA support, which the Windows backend copies frames through.
    Direct3D,
    /// Hiding windows from the capture. No Wayland or X11 mechanism exists for it: the
    /// portal's `SelectSources` takes no exclusion list, and X11 capture is an unmediated
    /// read of the root window.
    HideWindows,
    /// Capturing one window. On Linux the portal's own picker makes the final choice, so a
    /// caller cannot name the window.
    WindowTarget,
    /// The system picker. macOS needs 14.0 or newer for `SCContentSharingPicker`.
    Picker,
    /// Capturing audio. macOS needs 13.0 or newer for it.
    Audio,
    /// The audio format the system negotiated is not one [`SampleFmt`] can name.
    ///
    /// [`SampleFmt`]: crate::format::SampleFmt
    SampleFormat,
}

impl Unsupported {
    /// What is missing, in words.
    pub open spec fn text(self) -> Seq<char> {
        match self {
            Unsupported::ScreenCapture => "screen capture"@,
            Unsupported::Direct3D => "Direct3D 11"@,
            Unsupported::HideWindows => "hiding windows from the capture"@,
            Unsupported::WindowTarget => "capturing a single window"@,
            Unsupported::Picker => "the system picker"@,
            Unsupported::Audio => "capturing audio"@,
            Unsupported::SampleFormat => "the negotiated audio sample format"@,
        }
    }

    /// What is missing, in words.
    pub fn message(self) -> (message: &'static str)
        ensures
            message@ == self.text(),
    {
        match self {
            Unsupported::ScreenCapture => "screen capture",
            Unsupported::Direct3D => "Direct3D 11",
            Unsupported::HideWindows => "hiding windows from the capture",
            Unsupported::WindowTarget => "capturing a single window",
            Unsupported::Picker => "the system picker",
            Unsupported::Audio => "capturing audio",
            Unsupported::SampleFormat => "the negotiated audio sample format",
        }
    }
}

/// Which ScreenCast portal call a [`PortalError`] came from.
#[derive(Debug, Clone, Copy, PartialEq, Eq, Structural)]
#[non_exhaustive]
pub enum PortalCall {
    /// `org.freedesktop.portal.ScreenCast.CreateSession`
    CreateSession,
    /// `org.freedesktop.portal.ScreenCast.SelectSources`
    SelectSources,
    /// `org.freedesktop.portal.ScreenCast.Start`
    Start,
}

impl PortalCall {
    /// The method's name on the bus.
    pub open spec fn text(self) -> Seq<char> {
        match self {
            PortalCall::CreateSession => "CreateSession"@,
            PortalCall::SelectSources => "SelectSources"@,
            PortalCall::Start => "Start"@,
        }
    }

    /// The method's name on the bus.
    pub fn name(self) -> (name: &'static str)
        ensures
            name@ == self.text(),
    {
        match self {
            PortalCall::CreateSession => "CreateSession",
            PortalCall::SelectSources => "SelectSources",
            PortalCall::Start => "Start",
        }
    }
}

/// A failure reported by the XDG desktop portal.
#[derive(Debug, Clone, Copy, PartialEq, Eq, Structural)]
#[non_exhaustive]
pub enum PortalError {
    /// The portal advertises no source of the kind the target asked for, so the picker
    /// would have nothing to offer. Both fields are `AvailableSourceTypes` bitmasks.
    NoMatchingSource {
        /// What the target asked for.
        wanted: u32,
        /// What the portal has.
        available: u32,
    },
    /// The portal answered the call with a failure code other than "cancelled".
    Refused {
        /// The call that failed.
        call: PortalCall,
        /// The portal's `Response` code.
        response: u32,
    },
    /// The reply arrived without something the ScreenCast interface requires.
    MalformedReply {
        /// The call that answered.
        call: PortalCall,
    },
    /// The request signal never carried a response.
    NoResponse {
        /// The call that was waited on.
        call: PortalCall,
    },
    /// The portal left the bus, and the pending request with it.
    Vanished {
        /// The call that was waited on.
        call: PortalCall,
    },
}

impl PortalError {
    /// The failure in words.
    pub open spec fn text(self) -> Seq<char> {
        match self {
            PortalError::NoMatchingSource { wanted, available } => {
                "no source of the requested kind (wanted "@ + crate::text::hexadecimal(
                    wanted as nat,
                ) + ", available "@ + crate::text::hexadecimal(available as nat) + ")"@
            },
            PortalError::Refused { call, response } => {
                call.text() + " failed with response "@ + crate::text::decimal(response as int)
            },
            PortalError::MalformedReply { call } => call.text() + " returned a malformed reply"@,
            PortalError::NoResponse { call } => call.text() + " produced no response"@,
            PortalError::Vanished { call } => call.text() + " lost its portal"@,
        }
    }

    /// The failure in words.
    pub fn message(&self) -> (message: String)
        ensures
            message@ == self.text(),
    {
        match *self {
            PortalError::NoMatchingSource { wanted, available } => {
                let mut message = "no source of the requested kind (wanted ".to_string();
                push_hexadecimal(&mut message, wanted);
                let mut message = message.concat(", available ");
                push_hexadecimal(&mut message, available);
                message.concat(")")
            },
            PortalError::Refused { call, response } => {
                let mut message = call.name().to_string().concat(" failed with response ");
                push_decimal(&mut message, response as i64);
                message
            },
            PortalError::MalformedReply { call } => {
                call.name().to_string().concat(" returned a malformed reply")
            },
            PortalError::NoResponse { call } => {
                call.name().to_string().concat(" produced no response")
            },
            PortalError::Vanished { call } => call.name().to_string().concat(" lost its portal"),
        }
    }
}

/// A failure reported by ScreenCaptureKit.
///
/// The cases a caller can act on -- permission refused, the user cancelling, the user
/// pressing Stop Sharing -- are lifted into [`CaptureError`] itself; what is left is
/// carried here with its raw `NSError` code.
#[derive(Debug, Clone, Copy, PartialEq, Eq, Structural)]
#[non_exhaustive]
pub enum ScreenCaptureKitError {
    /// `getShareableContent` returned neither content nor an error.
    NoShareableContent,
    /// The stream would not start.
    FailedToStart,
    /// The system ended the stream -- the user pressed Stop Sharing, or the display went
    /// away. The frame channels close right after.
    Stopped,
    /// A frame or audio output could not be attached to the stream.
    OutputAttach,
    /// Some other `SCStreamErrorDomain` code; see `SCStreamErrorCode`.
    Stream(isize),
    /// An `NSError` from a domain other than `SCStreamErrorDomain`.
    Other(isize),
}

impl ScreenCaptureKitError {
    /// The failure in words.
    pub open spec fn text(self) -> Seq<char> {
        match self {
            ScreenCaptureKitError::NoShareableContent => "no shareable content"@,
            ScreenCaptureKitError::FailedToStart => "the stream failed to start"@,
            ScreenCaptureKitError::Stopped => "the system stopped the stream"@,
            ScreenCaptureKitError::OutputAttach => "the stream output could not be attached"@,
            ScreenCaptureKitError::Stream(code) => {
                "SCStream error "@ + crate::text::decimal(code as int)
            },
            ScreenCaptureKitError::Other(code) => {
                "error "@ + crate::text::decimal(code as int) + " from another error domain"@
            },
        }
    }

    /// The failure in words.
    pub fn message(&self) -> (message: String)
        ensures
            message@ == self.text(),
    {
        match *self {
            ScreenCaptureKitError::NoShareableContent => "no shareable content".to_string(),
            ScreenCaptureKitError::FailedToStart => "the stream failed to start".to_string(),
            ScreenCaptureKitError::Stopped => "the system stopped the stream".to_string(),
            ScreenCaptureKitError::OutputAttach => {
                "the stream output could not be attached".to_string()
            },
            ScreenCaptureKitError::Stream(code) => {
                let mut message = "SCStream error ".to_string();
                push_decimal(&mut message, code as i64);
                message
            },
            ScreenCaptureKitError::Other(code) => {
                let mut message = "error ".to_string();
                push_decimal(&mut message, code as i64);
                message.concat(" from another error domain")
            },
        }
    }
}

/// What the errors say that carry something: the code, the name of the call and the numbers that they
/// carry.
pub proof fn law_errors_say_what_they_carry(
    call: PortalCall,
    name: &str,
    response: u32,
    refused: String,
    wanted: u32,
    available: u32,
    missing: String,
    malformed: String,
    silent: String,
    gone: String,
    code: isize,
    stream: String,
    other: String,
)
    requires
        call_ensures(PortalCall::name, (call,), name),
        call_ensures(
            PortalError::message,
            (&PortalError::Refused { call, response },),
            refused,
        ),
        call_ensures(
            PortalError::message,
            (&PortalError::NoMatchingSource { wanted, available },),
            missing,
        ),
        call_ensures(PortalError::message, (&PortalError::MalformedReply { call },), malformed),
        call_ensures(PortalError::message, (&PortalError::NoResponse { call },), silent),
        call_ensures(PortalError::message, (&PortalError::Vanished { call },), gone),
        call_ensures(
            ScreenCaptureKitError::message,
            (&ScreenCaptureKitError::Stream(code),),
            stream,
        ),
        call_ensures(
            ScreenCaptureKitError::message,
            (&ScreenCaptureKitError::Other(code),),
            other,
        ),
    ensures
        call is CreateSession ==> name@ == "CreateSession"@,
        call is SelectSources ==> name@ == "SelectSources"@,
        call is Start ==> name@ == "Start"@,
        refused@ == name@ + " failed with response "@ + crate::text::decimal(response as int),
        missing@ == "no source of the requested kind (wanted "@ + crate::text::hexadecimal(
            wanted as nat,
        ) + ", available "@ + crate::text::hexadecimal(available as nat) + ")"@,
        malformed@ == name@ + " returned a malformed reply"@,
        silent@ == name@ + " produced no response"@,
        gone@ == name@ + " lost its portal"@,
        stream@ == "SCStream error "@ + crate::text::decimal(code as int),
        other@ == "error "@ + crate::text::decimal(code as int) + " from another error domain"@,
{
}

/// What the errors say that carry nothing.
pub proof fn law_errors_say_what_is_wrong(e: CaptureError, message: String)
    requires
        call_ensures(CaptureError::message, (&e,), message),
    ensures
        e is Cancelled ==> message@ == "the user cancelled the capture request"@,
        e is PermissionDenied ==> message@ == "screen capture permission was denied"@,
        e is TargetNotFound ==> message@ == "no capture target matched"@,
        e is ZeroChannelCapacity ==> message@ == "channel_capacity must be at least 1"@,
        e is WorkerGone ==> message@ == "the capture thread terminated unexpectedly"@,
        e is StreamFailed ==> message@ == "the capture stream failed"@,
        e is SpaParams ==> message@ == "could not build the PipeWire stream parameters"@,
{
}

/// What the errors say that hold another error: a few words, and then what that one says.
pub proof fn law_errors_say_what_they_hold(
    e: CaptureError,
    message: String,
    what: &str,
    portal: String,
    kit: String,
)
    requires
        call_ensures(CaptureError::message, (&e,), message),
        e is Unsupported ==> call_ensures(Unsupported::message, (e->Unsupported_0,), what),
        e is Portal ==> call_ensures(PortalError::message, (&e->Portal_0,), portal),
        e is ScreenCaptureKit ==> call_ensures(
            ScreenCaptureKitError::message,
            (&e->ScreenCaptureKit_0,),
            kit,
        ),
    ensures
        e is Unsupported ==> message@ == "unsupported on this system: "@ + what@,
        e is Portal ==> message@ == "the ScreenCast portal: "@ + portal@,
        e is ScreenCaptureKit ==> message@ == "ScreenCaptureKit: "@ + kit@,
        e is BadWindowRegex ==> exists|detail: String|
            #[trigger] to_string_from_display_ensures(&e->BadWindowRegex_0, detail) && message@
                == "the window name pattern is not a valid regex: "@ + detail@,
{
}

/// What is missing, in words.
pub proof fn law_missing_capabilities(what: Unsupported, message: &str)
    requires
        call_ensures(Unsupported::message, (what,), message),
    ensures
        what is ScreenCapture ==> message@ == "screen capture"@,
        what is Direct3D ==> message@ == "Direct3D 11"@,
        what is HideWindows ==> message@ == "hiding windows from the capture"@,
        what is WindowTarget ==> message@ == "capturing a single window"@,
        what is Picker ==> message@ == "the system picker"@,
        what is Audio ==> message@ == "capturing audio"@,
        what is SampleFormat ==> message@ == "the negotiated audio sample format"@,
{
}

/// An error of one kind becomes the capture error that holds it.
pub proof fn law_errors_are_held(
    what: Unsupported,
    a: CaptureError,
    portal: PortalError,
    b: CaptureError,
    kit: ScreenCaptureKitError,
    c: CaptureError,
    regex: regex::Error,
    d: CaptureError,
)
    requires
        call_ensures(<CaptureError as From<Unsupported>>::from, (what,), a),
        call_ensures(<CaptureError as From<PortalError>>::from, (portal,), b),
        call_ensures(<CaptureError as From<ScreenCaptureKitError>>::from, (kit,), c),
        call_ensures(<CaptureError as From<regex::Error>>::from, (regex,), d),
    ensures
        a == CaptureError::Unsupported(what),
        b == CaptureError::Portal(portal),
        c == CaptureError::ScreenCaptureKit(kit),
        d == CaptureError::BadWindowRegex(regex),
{
}

/// What the failures of ScreenCaptureKit say that carry nothing.
pub proof fn law_stream_failures(e: ScreenCaptureKitError, message: String)
    requires
        call_ensures(ScreenCaptureKitError::message, (&e,), message),
    ensures
        e is NoShareableContent ==> message@ == "no shareable content"@,
        e is FailedToStart ==> message@ == "the stream failed to start"@,
        e is Stopped ==> message@ == "the system stopped the stream"@,
        e is OutputAttach ==> message@ == "the stream output could not be attached"@,
{
}

} // verus!
