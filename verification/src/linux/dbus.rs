//! The conversation with the ScreenCast portal that grants a session.
//!
//! The portal answers each request with a signal, possibly after asking the user, so the
//! conversation alternates between calls on the bus and decisions. [`DbusScreen`] makes the
//! decisions: it is told what a call returned and says what to do next.

use crate::error::{CaptureError, PortalCall, PortalError};
use vstd::prelude::*;
use vstd::string::*;

verus! {

/// The name the portal owns on the bus.
pub const PORTAL_BUS_NAME: &'static str = "org.freedesktop.portal.Desktop";

/// `AvailableCursorModes` bit for a cursor drawn into the frames.
pub const CURSOR_MODE_EMBEDDED: u32 = 2;

/// A value of a reply, as far as it can be read: as a string, as a number, or as a container.
#[derive(Debug)]
pub struct DbusValue {
    /// The value as a string, if it is one.
    pub text: Option<String>,
    /// The value as an unsigned number, if it is one.
    pub number: Option<u64>,
    /// What is inside the value, if it is a container.
    pub items: Option<Vec<DbusValue>>,
}

/// The signal that answers a request.
#[derive(Debug)]
pub struct Response {
    /// 0 for success, 1 where the user cancelled, anything else for a failure.
    pub response: u32,
    /// The named values that come with it.
    pub results: Vec<(String, DbusValue)>,
}

/// The value that a reply gives under a name.
pub open spec fn lookup(results: Seq<(String, DbusValue)>, key: Seq<char>) -> Option<DbusValue>
    decreases results.len(),
{
    if results.len() == 0 {
        None
    } else if results[0].0@ == key {
        Some(results[0].1)
    } else {
        lookup(results.drop_first(), key)
    }
}

/// The first value inside a container.
pub open spec fn first_item(value: Option<DbusValue>) -> Option<DbusValue> {
    match value {
        Some(value) => match value.items {
            Some(items) => if items@.len() > 0 {
                Some(items@[0])
            } else {
                None
            },
            None => None,
        },
        None => None,
    }
}

/// The handle of the session that `CreateSession` has created.
pub open spec fn session_handle(response: Response) -> Option<Seq<char>> {
    match lookup(response.results@, "session_handle"@) {
        Some(value) => match value.text {
            Some(text) => Some(text@),
            None => None,
        },
        None => None,
    }
}

/// The PipeWire node that `Start` has granted: the first field of the first stream, inside the
/// variant that holds the streams.
pub open spec fn stream_node(response: Response) -> Option<u64> {
    match first_item(
        first_item(first_item(lookup(response.results@, "streams"@))),
    ) {
        Some(value) => value.number,
        None => None,
    }
}

/// What a response code stands for.
pub open spec fn verdict(response: u32, call: PortalCall) -> Result<(), CaptureError> {
    if response == 0 {
        Ok(())
    } else if response == 1 {
        Err(CaptureError::Cancelled)
    } else {
        Err(CaptureError::Portal(PortalError::Refused { call, response }))
    }
}

/// Whether the portal granted a request.
///
/// Code 1 is the portal's "the user cancelled the interaction".
pub fn check_response(resp: &Response, call: PortalCall) -> (checked: Result<(), CaptureError>)
    ensures
        checked == verdict(resp.response, call),
{
    match resp.response {
        0 => Ok(()),
        1 => Err(CaptureError::Cancelled),
        response => Err(CaptureError::Portal(PortalError::Refused { call, response })),
    }
}

/// The characters that are left once leading colons are taken off.
pub open spec fn without_colons(name: Seq<char>) -> Seq<char>
    decreases name.len(),
{
    if name.len() > 0 && name[0] == ':' {
        without_colons(name.drop_first())
    } else {
        name
    }
}

/// A unique bus name, as it occurs in object paths.
pub open spec fn path_element(unique_name: Seq<char>) -> Seq<char> {
    without_colons(unique_name).map_values(
        |c: char|
            if c == '.' {
                '_'
            } else {
                c
            },
    )
}

/// The word that names the request of a call.
pub open spec fn request_name(call: PortalCall) -> Seq<char> {
    match call {
        PortalCall::CreateSession => "create"@,
        PortalCall::SelectSources => "select"@,
        PortalCall::Start => "start"@,
    }
}

/// The token that the request of a call is made under.
pub open spec fn request_token(call: PortalCall) -> Seq<char> {
    "scrcap_"@ + request_name(call)
}

/// The object path on which the response to a request is predicted to arrive.
pub open spec fn request_path(sender: Seq<char>, call: PortalCall) -> Seq<char> {
    "/org/freedesktop/portal/desktop/request/"@ + sender + "/"@ + request_token(call)
}

/// Where the conversation stands: what it is waiting to be told.
#[derive(Debug, Clone, Copy, PartialEq, Eq, Structural)]
pub enum PortalPhase {
    /// Nothing has been asked yet, or nothing is left to ask.
    Idle,
    /// The match for a response is being installed.
    Watch(PortalCall),
    /// A request is being made.
    Call(PortalCall),
    /// The match for a response is being installed on a path other than the predicted one.
    WatchActual(PortalCall),
    /// A response is being waited for.
    Wait(PortalCall),
    /// `AvailableSourceTypes` is being read.
    ReadSources,
    /// `AvailableCursorModes` is being read.
    ReadCursor,
    /// `OpenPipeWireRemote` is being called.
    OpenRemote,
}

/// What the conversation is told.
#[derive(Debug)]
pub enum PortalEvent {
    /// The match is installed.
    MatchAdded,
    /// A request was made; its response arrives on `path`.
    Returned {
        /// The object path of the request.
        path: String,
    },
    /// The bus was given time; a response may have arrived.
    Processed {
        /// The response, if it has.
        response: Option<Response>,
    },
    /// The portal's `AvailableSourceTypes`.
    SourceTypes(u32),
    /// The portal's `AvailableCursorModes`, `None` where it has no such property.
    CursorModes(Option<u32>),
    /// The PipeWire remote is open.
    RemoteOpened,
}

/// What to do next.
#[derive(Debug)]
pub enum PortalAction {
    /// Match the `Response` signal on a path.
    AddMatch {
        /// The object path.
        path: String,
        /// Whether the match is the first for a request: what was matched for earlier requests
        /// and not yet handed over is then no response to this one.
        fresh: bool,
    },
    /// Call `CreateSession`.
    CreateSession {
        /// Option of that name.
        handle_token: String,
        /// Option of that name.
        session_handle_token: String,
    },
    /// Read `AvailableSourceTypes`.
    GetSourceTypes,
    /// Read `AvailableCursorModes`.
    GetCursorModes,
    /// Call `SelectSources`.
    SelectSources {
        /// The session.
        handle: String,
        /// Option of that name.
        handle_token: String,
        /// Option of that name.
        types: u32,
        /// Option of that name.
        multiple: bool,
        /// Option of that name, left out where it is `None`.
        cursor_mode: Option<u32>,
    },
    /// Call `Start`, without a parent window.
    Start {
        /// The session.
        handle: String,
        /// Option of that name.
        handle_token: String,
    },
    /// Give the bus time to deliver.
    Process,
    /// Call `OpenPipeWireRemote`.
    OpenRemote {
        /// The session.
        handle: String,
    },
    /// The session is granted.
    Finish {
        /// The PipeWire node of its video.
        node_id: u32,
    },
    /// The session is not granted.
    Fail(CaptureError),
}

/// [`PortalAction`] with its strings as sequences of characters.
pub ghost enum PortalStep {
    /// See [`PortalAction::AddMatch`].
    AddMatch { path: Seq<char>, fresh: bool },
    /// See [`PortalAction::CreateSession`].
    CreateSession { handle_token: Seq<char>, session_handle_token: Seq<char> },
    /// See [`PortalAction::GetSourceTypes`].
    GetSourceTypes,
    /// See [`PortalAction::GetCursorModes`].
    GetCursorModes,
    /// See [`PortalAction::SelectSources`].
    SelectSources {
        handle: Seq<char>,
        handle_token: Seq<char>,
        types: u32,
        multiple: bool,
        cursor_mode: Option<u32>,
    },
    /// See [`PortalAction::Start`].
    Start { handle: Seq<char>, handle_token: Seq<char> },
    /// See [`PortalAction::Process`].
    Process,
    /// See [`PortalAction::OpenRemote`].
    OpenRemote { handle: Seq<char> },
    /// See [`PortalAction::Finish`].
    Finish { node_id: u32 },
    /// See [`PortalAction::Fail`].
    Fail(CaptureError),
}

impl View for PortalAction {
    type V = PortalStep;

    open spec fn view(&self) -> PortalStep {
        match *self {
            PortalAction::AddMatch { path, fresh } => PortalStep::AddMatch { path: path@, fresh },
            PortalAction::CreateSession { handle_token, session_handle_token } => {
                PortalStep::CreateSession {
                    handle_token: handle_token@,
                    session_handle_token: session_handle_token@,
                }
            },
            PortalAction::GetSourceTypes => PortalStep::GetSourceTypes,
            PortalAction::GetCursorModes => PortalStep::GetCursorModes,
            PortalAction::SelectSources { handle, handle_token, types, multiple, cursor_mode } => {
                PortalStep::SelectSources {
                    handle: handle@,
                    handle_token: handle_token@,
                    types,
                    multiple,
                    cursor_mode,
                }
            },
            PortalAction::Start { handle, handle_token } => PortalStep::Start {
                handle: handle@,
                handle_token: handle_token@,
            },
            PortalAction::Process => PortalStep::Process,
            PortalAction::OpenRemote { handle } => PortalStep::OpenRemote { handle: handle@ },
            PortalAction::Finish { node_id } => PortalStep::Finish { node_id },
            PortalAction::Fail(e) => PortalStep::Fail(e),
        }
    }
}

/// State of the conversation.
pub ghost struct PortalState {
    /// This connection's name, as it occurs in object paths.
    pub sender: Seq<char>,
    /// Whether the portal has left the bus.
    pub portal_gone: bool,
    /// The source types the target stands for, 0 for all.
    pub wanted: u32,
    /// The session, once it is created.
    pub handle: Seq<char>,
    /// The source types that the picker will offer, once they are known.
    pub source_type: u32,
    /// The granted node, once it is known.
    pub node_id: u32,
    /// Where the conversation stands.
    pub phase: PortalPhase,
}

impl PortalState {
    /// Whether this is what the conversation is waiting to be told.
    pub open spec fn expects(self, event: PortalEvent) -> bool {
        match self.phase {
            PortalPhase::Idle => false,
            PortalPhase::Watch(_) | PortalPhase::WatchActual(_) => event is MatchAdded,
            PortalPhase::Call(_) => event is Returned,
            PortalPhase::Wait(_) => event is Processed,
            PortalPhase::ReadSources => event is SourceTypes,
            PortalPhase::ReadCursor => event is CursorModes,
            PortalPhase::OpenRemote => event is RemoteOpened,
        }
    }

    /// The state in another phase.
    pub open spec fn at(self, phase: PortalPhase) -> PortalState {
        PortalState { phase, ..self }
    }

    /// The end of the conversation without a session.
    pub open spec fn failed(self, error: CaptureError) -> (PortalState, PortalStep) {
        (self.at(PortalPhase::Idle), PortalStep::Fail(error))
    }

    /// Watch for the response to a call before it is made.
    pub open spec fn watch(self, call: PortalCall) -> (PortalState, PortalStep) {
        (
            self.at(PortalPhase::Watch(call)),
            PortalStep::AddMatch { path: request_path(self.sender, call), fresh: true },
        )
    }

    /// The first step of the conversation.
    pub open spec fn started(self, wanted: u32) -> (PortalState, PortalStep) {
        PortalState { wanted, ..self }.watch(PortalCall::CreateSession)
    }

    /// What follows a match that is installed on the predicted path.
    pub open spec fn watched(self, call: PortalCall) -> (PortalState, PortalStep) {
        match call {
            PortalCall::CreateSession => (
                self.at(PortalPhase::Call(call)),
                PortalStep::CreateSession {
                    handle_token: request_token(call),
                    session_handle_token: request_token(call),
                },
            ),
            PortalCall::SelectSources => (
                self.at(PortalPhase::ReadCursor),
                PortalStep::GetCursorModes,
            ),
            PortalCall::Start => (
                self.at(PortalPhase::Call(call)),
                PortalStep::Start { handle: self.handle, handle_token: request_token(call) },
            ),
        }
    }

    /// What follows a request that was made.
    pub open spec fn requested(self, call: PortalCall, path: Seq<char>) -> (
        PortalState,
        PortalStep,
    ) {
        if path == request_path(self.sender, call) {
            (self.at(PortalPhase::Wait(call)), PortalStep::Process)
        } else {
            (self.at(PortalPhase::WatchActual(call)), PortalStep::AddMatch { path, fresh: false })
        }
    }

    /// What follows once the bus was given time.
    pub open spec fn processed(self, call: PortalCall, response: Option<Response>) -> (
        PortalState,
        PortalStep,
    ) {
        match response {
            None => if self.portal_gone {
                self.failed(CaptureError::Portal(PortalError::Vanished { call }))
            } else {
                (self, PortalStep::Process)
            },
            Some(response) => match verdict(response.response, call) {
                Err(error) => self.failed(error),
                Ok(()) => self.granted(call, response),
            },
        }
    }

    /// What follows a request that the portal has granted.
    pub open spec fn granted(self, call: PortalCall, response: Response) -> (
        PortalState,
        PortalStep,
    ) {
        match call {
            PortalCall::CreateSession => match session_handle(response) {
                Some(handle) => (
                    PortalState { handle, phase: PortalPhase::ReadSources, ..self },
                    PortalStep::GetSourceTypes,
                ),
                None => self.failed(CaptureError::Portal(PortalError::MalformedReply { call })),
            },
            PortalCall::SelectSources => self.watch(PortalCall::Start),
            PortalCall::Start => match stream_node(response) {
                Some(node) => (
                    PortalState { node_id: node as u32, phase: PortalPhase::OpenRemote, ..self },
                    PortalStep::OpenRemote { handle: self.handle },
                ),
                None => self.failed(CaptureError::Portal(PortalError::MalformedReply { call })),
            },
        }
    }

    /// What follows once it is known which source types the portal has.
    pub open spec fn offered(self, available: u32) -> (PortalState, PortalStep) {
        if self.wanted != 0 && available & self.wanted == 0 {
            self.failed(
                CaptureError::Portal(
                    PortalError::NoMatchingSource { wanted: self.wanted, available },
                ),
            )
        } else {
            PortalState {
                source_type: if self.wanted == 0 {
                    available
                } else {
                    available & self.wanted
                },
                ..self
            }.watch(PortalCall::SelectSources)
        }
    }

    /// What follows once it is known which cursor modes the portal has.
    pub open spec fn pointed(self, modes: Option<u32>) -> (PortalState, PortalStep) {
        (
            self.at(PortalPhase::Call(PortalCall::SelectSources)),
            PortalStep::SelectSources {
                handle: self.handle,
                handle_token: request_token(PortalCall::SelectSources),
                types: self.source_type,
                multiple: false,
                cursor_mode: if modes is Some && modes->0 & CURSOR_MODE_EMBEDDED != 0 {
                    Some(CURSOR_MODE_EMBEDDED)
                } else {
                    None
                },
            },
        )
    }

    /// What follows an event that the conversation was waiting for.
    pub open spec fn next(self, event: PortalEvent) -> (PortalState, PortalStep) {
        match (self.phase, event) {
            (PortalPhase::Watch(call), PortalEvent::MatchAdded) => self.watched(call),
            (PortalPhase::Call(call), PortalEvent::Returned { path }) => self.requested(
                call,
                path@,
            ),
            (PortalPhase::WatchActual(call), PortalEvent::MatchAdded) => (
                self.at(PortalPhase::Wait(call)),
                PortalStep::Process,
            ),
            (PortalPhase::Wait(call), PortalEvent::Processed { response }) => self.processed(
                call,
                response,
            ),
            (PortalPhase::ReadSources, PortalEvent::SourceTypes(available)) => self.offered(
                available,
            ),
            (PortalPhase::ReadCursor, PortalEvent::CursorModes(modes)) => self.pointed(modes),
            _ => (
                self.at(PortalPhase::Idle),
                PortalStep::Finish { node_id: self.node_id },
            ),
        }
    }
}

/// The conversation with the portal.
#[derive(Debug)]
pub struct DbusScreen {
    sender: String,
    portal_gone: bool,
    wanted: u32,
    handle: String,
    source_type: u32,
    node_id: u32,
    phase: PortalPhase,
}

impl View for DbusScreen {
    type V = PortalState;

    closed spec fn view(&self) -> PortalState {
        PortalState {
            sender: self.sender@,
            portal_gone: self.portal_gone,
            wanted: self.wanted,
            handle: self.handle@,
            source_type: self.source_type,
            node_id: self.node_id,
            phase: self.phase,
        }
    }
}

fn request_token_of(call: PortalCall) -> (token: String)
    ensures
        token@ == request_token(call),
{
    "scrcap_".to_string().concat(
        match call {
            PortalCall::CreateSession => "create",
            PortalCall::SelectSources => "select",
            PortalCall::Start => "start",
        },
    )
}

fn find_result<'a>(results: &'a Vec<(String, DbusValue)>, key: &String) -> (value: Option<
    &'a DbusValue,
>)
    ensures
        match lookup(results@, key@) {
            Some(found) => value is Some && *value->0 == found,
            None => value is None,
        },
{
    let mut i: usize = 0;
    assert(results@.skip(0) =~= results@);
    while i < results.len()
        invariant
            i <= results@.len(),
            lookup(results@, key@) == lookup(results@.skip(i as int), key@),
        decreases results@.len() - i,
    {
        assert(results@.skip(i as int)[0] == results@[i as int]);
        if results[i].0 == *key {
            return Some(&results[i].1);
        }
        assert(results@.skip(i as int).drop_first() =~= results@.skip(i + 1));
        i = i + 1;
    }
    None
}

fn open_item<'a>(value: Option<&'a DbusValue>) -> (item: Option<&'a DbusValue>)
    ensures
        match first_item(
            match value {
                Some(value) => Some(*value),
                None => None,
            },
        ) {
            Some(found) => item is Some && *item->0 == found,
            None => item is None,
        },
{
    match value {
        Some(value) => match &value.items {
            Some(items) => {
                if items.len() > 0 {
                    Some(&items[0])
                } else {
                    None
                }
            },
            None => None,
        },
        None => None,
    }
}

impl DbusScreen {
    /// A conversation over the connection with the given unique name.
    pub fn new(unique_name: &str) -> (screen: Self)
        ensures
            screen@ == (PortalState {
                sender: path_element(unique_name@),
                portal_gone: false,
                wanted: 0,
                handle: Seq::empty(),
                source_type: 0,
                node_id: 0,
                phase: PortalPhase::Idle,
            }),
    {
        let total: usize = unique_name.unicode_len();
        let mut start: usize = 0;
        assert(unique_name@.skip(0) =~= unique_name@);
        while start < total && unique_name.get_char(start) == ':'
            invariant
                total == unique_name@.len(),
                start <= total,
                without_colons(unique_name@) == without_colons(unique_name@.skip(start as int)),
            decreases total - start,
        {
            assert(unique_name@.skip(start as int)[0] == unique_name@[start as int]);
            assert(unique_name@.skip(start as int).drop_first() =~= unique_name@.skip(start + 1));
            start = start + 1;
        }
        let ghost rest = unique_name@.skip(start as int);
        assert(without_colons(rest) == rest) by {
            if rest.len() > 0 {
                assert(rest[0] == unique_name@[start as int]);
            }
        }
        let mut sender = String::new();
        let mut i: usize = start;
        while i < total
            invariant
                total == unique_name@.len(),
                start <= i <= total,
                rest == unique_name@.skip(start as int),
                without_colons(unique_name@) == rest,
                sender@ =~= path_element(unique_name@).take(i - start),
            decreases total - i,
        {
            let c = unique_name.get_char(i);
            assert(rest[i - start] == c);
            if c == '.' {
                sender.push('_');
            } else {
                sender.push(c);
            }
            i = i + 1;
        }
        assert(sender@ =~= path_element(unique_name@));
        let screen = DbusScreen {
            sender,
            portal_gone: false,
            wanted: 0,
            handle: String::new(),
            source_type: 0,
            node_id: 0,
            phase: PortalPhase::Idle,
        };
        assert(screen.handle@ =~= Seq::<char>::empty());
        screen
    }

    /// Note that a name on the bus has changed hands.
    ///
    /// Once the portal has left, every pending request has gone with it. An empty old owner is
    /// the portal being activated, not going away.
    pub fn name_owner_changed(&mut self, name: &String, old_owner: &str)
        ensures
            final(self)@ == (PortalState {
                portal_gone: old(self)@.portal_gone || (name@ == PORTAL_BUS_NAME@
                    && old_owner@.len() > 0),
                ..old(self)@
            }),
    {
        if *name == PORTAL_BUS_NAME.to_string() && !old_owner.is_empty() {
            self.portal_gone = true;
        }
    }

    /// Begin the conversation: ask for a session that captures one of `wanted_source_types`, or
    /// of every type the portal has where that is 0.
    pub fn start(&mut self, wanted_source_types: u32) -> (action: PortalAction)
        ensures
            (final(self)@, action@) == old(self)@.started(wanted_source_types),
    {
        self.wanted = wanted_source_types;
        self.watch(PortalCall::CreateSession)
    }

    /// Whether this is what the conversation is waiting to be told.
    pub fn expects(&self, event: &PortalEvent) -> (expected: bool)
        ensures
            expected == self@.expects(*event),
    {
        match (self.phase, event) {
            (PortalPhase::Watch(_), PortalEvent::MatchAdded) => true,
            (PortalPhase::WatchActual(_), PortalEvent::MatchAdded) => true,
            (PortalPhase::Call(_), PortalEvent::Returned { .. }) => true,
            (PortalPhase::Wait(_), PortalEvent::Processed { .. }) => true,
            (PortalPhase::ReadSources, PortalEvent::SourceTypes(_)) => true,
            (PortalPhase::ReadCursor, PortalEvent::CursorModes(_)) => true,
            (PortalPhase::OpenRemote, PortalEvent::RemoteOpened) => true,
            _ => false,
        }
    }

    /// What to do next, once what was asked for has happened.
    pub fn step(&mut self, event: PortalEvent) -> (action: PortalAction)
        requires
            old(self)@.expects(event),
        ensures
            (final(self)@, action@) == old(self)@.next(event),
    {
        match (self.phase, event) {
            (PortalPhase::Watch(call), PortalEvent::MatchAdded) => self.request(call),
            (PortalPhase::Call(call), PortalEvent::Returned { path }) => {
                // The path is only predicted; watch the one the portal actually returned too if
                // a portal ever disagrees, so a mismatch costs the race rather than the wait.
                if path == self.predicted_path(call) {
                    self.phase = PortalPhase::Wait(call);
                    PortalAction::Process
                } else {
                    self.phase = PortalPhase::WatchActual(call);
                    PortalAction::AddMatch { path, fresh: false }
                }
            },
            (PortalPhase::WatchActual(call), PortalEvent::MatchAdded) => {
                self.phase = PortalPhase::Wait(call);
                PortalAction::Process
            },
            (PortalPhase::Wait(call), PortalEvent::Processed { response }) => self.recv_resp(
                call,
                response,
            ),
            (PortalPhase::ReadSources, PortalEvent::SourceTypes(available)) => {
                self.choose_sources(available)
            },
            (PortalPhase::ReadCursor, PortalEvent::CursorModes(modes)) => self.select_sources(
                modes,
            ),
            _ => {
                self.phase = PortalPhase::Idle;
                PortalAction::Finish { node_id: self.node_id }
            },
        }
    }

    fn predicted_path(&self, call: PortalCall) -> (path: String)
        ensures
            path@ == request_path(self@.sender, call),
    {
        let token = request_token_of(call);
        "/org/freedesktop/portal/desktop/request/".to_string().concat(
            self.sender.as_str(),
        ).concat("/").concat(token.as_str())
    }

    /// Install the `Response` match *before* the call that triggers it.
    ///
    /// Installing it is itself a round trip to the bus and D-Bus drops signals no rule
    /// matches, so a portal that answers without asking the user -- a remembered
    /// permission, an auto-accepting portal -- would otherwise win the race and the wait
    /// would never end. The request's object path can be predicted, so
    /// the rule can go in first.
    fn watch(&mut self, call: PortalCall) -> (action: PortalAction)
        ensures
            (final(self)@, action@) == old(self)@.watch(call),
    {
        self.phase = PortalPhase::Watch(call);
        PortalAction::AddMatch { path: self.predicted_path(call), fresh: true }
    }

    fn request(&mut self, call: PortalCall) -> (action: PortalAction)
        ensures
            (final(self)@, action@) == old(self)@.watched(call),
    {
        match call {
            PortalCall::CreateSession => {
                self.phase = PortalPhase::Call(call);
                PortalAction::CreateSession {
                    handle_token: request_token_of(call),
                    session_handle_token: request_token_of(call),
                }
            },
            PortalCall::SelectSources => {
                self.phase = PortalPhase::ReadCursor;
                PortalAction::GetCursorModes
            },
            PortalCall::Start => {
                self.phase = PortalPhase::Call(call);
                PortalAction::Start {
                    handle: self.handle.clone(),
                    handle_token: request_token_of(call),
                }
            },
        }
    }

    fn fail(&mut self, error: CaptureError) -> (action: PortalAction)
        ensures
            (final(self)@, action@) == old(self)@.failed(error),
    {
        self.phase = PortalPhase::Idle;
        PortalAction::Fail(error)
    }

    /// Keep pumping the bus until the watched request answers.
    ///
    /// Deliberately without a deadline: `SelectSources` and `Start` raise the portal's own
    /// picker, so the wait is as long as the user takes. A portal that leaves the bus
    /// mid-request is caught: its requests go with it and would never answer.
    fn recv_resp(&mut self, call: PortalCall, response: Option<Response>) -> (action: PortalAction)
        requires
            old(self)@.phase == PortalPhase::Wait(call),
        ensures
            (final(self)@, action@) == old(self)@.processed(call, response),
    {
        let response = match response {
            None => {
                if self.portal_gone {
                    return self.fail(CaptureError::Portal(PortalError::Vanished { call }));
                }
                return PortalAction::Process;
            },
            Some(response) => response,
        };
        match check_response(&response, call) {
            Ok(()) => {},
            Err(error) => return self.fail(error),
        }
        match call {
            PortalCall::CreateSession => {
                let value = find_result(&response.results, &"session_handle".to_string());
                let text = match value {
                    Some(value) => &value.text,
                    None => &None,
                };
                match text {
                    Some(handle) => {
                        self.handle = handle.clone();
                        self.phase = PortalPhase::ReadSources;
                        PortalAction::GetSourceTypes
                    },
                    None => self.fail(CaptureError::Portal(PortalError::MalformedReply { call })),
                }
            },
            PortalCall::SelectSources => self.watch(PortalCall::Start),
            PortalCall::Start => {
                let streams = find_result(&response.results, &"streams".to_string());
                let array = open_item(streams);
                let stream = open_item(array);
                let node = match open_item(stream) {
                    Some(value) => value.number,
                    None => None,
                };
                match node {
                    Some(node) => {
                        self.node_id = node as u32;
                        self.phase = PortalPhase::OpenRemote;
                        PortalAction::OpenRemote { handle: self.handle.clone() }
                    },
                    None => self.fail(CaptureError::Portal(PortalError::MalformedReply { call })),
                }
            },
        }
    }

    fn choose_sources(&mut self, available: u32) -> (action: PortalAction)
        ensures
            (final(self)@, action@) == old(self)@.offered(available),
    {
        let source_type: u32 = if self.wanted == 0 {
            available
        } else {
            let wanted: u32 = available & self.wanted;
            if wanted == 0 {
                return self.fail(
                    CaptureError::Portal(
                        PortalError::NoMatchingSource { wanted: self.wanted, available },
                    ),
                );
            }
            wanted
        };
        self.source_type = source_type;
        self.watch(PortalCall::SelectSources)
    }

    /// The portal rejects a cursor mode its backend does not advertise, and a version 1
    /// portal has no such property at all; the cursor is then left at the default.
    fn select_sources(&mut self, modes: Option<u32>) -> (action: PortalAction)
        ensures
            (final(self)@, action@) == old(self)@.pointed(modes),
    {
        let modes: u32 = match modes {
            Some(modes) => modes,
            None => 0,
        };
        assert(0u32 & CURSOR_MODE_EMBEDDED == 0) by (bit_vector);
        let cursor_mode = if modes & CURSOR_MODE_EMBEDDED != 0 {
            Some(CURSOR_MODE_EMBEDDED)
        } else {
            None
        };
        self.phase = PortalPhase::Call(PortalCall::SelectSources);
        PortalAction::SelectSources {
            handle: self.handle.clone(),
            handle_token: request_token_of(PortalCall::SelectSources),
            types: self.source_type,
            multiple: false,
            cursor_mode,
        }
    }
}

/// Whether an event can be the outcome of a step.
pub open spec fn can_follow(step: PortalStep, event: PortalEvent) -> bool {
    match step {
        PortalStep::AddMatch { .. } => event is MatchAdded,
        PortalStep::CreateSession { .. } => event is Returned,
        PortalStep::GetSourceTypes => event is SourceTypes,
        PortalStep::GetCursorModes => event is CursorModes,
        PortalStep::SelectSources { .. } => event is Returned,
        PortalStep::Start { .. } => event is Returned,
        PortalStep::Process => event is Processed,
        PortalStep::OpenRemote { .. } => event is RemoteOpened,
        PortalStep::Finish { .. } | PortalStep::Fail(_) => false,
    }
}

/// A conversation that starts as it is told to waits for the outcome of its first step.
pub proof fn law_first_outcome_is_expected(state: PortalState, wanted: u32, outcome: PortalEvent)
    requires
        can_follow(state.started(wanted).1, outcome),
    ensures
        state.started(wanted).0.expects(outcome),
{
}

/// Whatever the outcome of a step, the conversation is waiting for it: a driver that performs
/// each step and reports its outcome never says anything unexpected.
pub proof fn law_outcome_is_expected(
    state: PortalState,
    event: PortalEvent,
    outcome: PortalEvent,
)
    requires
        state.expects(event),
        can_follow(state.next(event).1, outcome),
    ensures
        state.next(event).0.expects(outcome),
{
}

/// A conversation: its state after the given events, and its steps so far.
pub open spec fn conversation(start: PortalState, wanted: u32, events: Seq<PortalEvent>) -> (
    PortalState,
    Seq<PortalStep>,
)
    decreases events.len(),
{
    if events.len() == 0 {
        (start.started(wanted).0, seq![start.started(wanted).1])
    } else {
        let (state, steps) = conversation(start, wanted, events.drop_last());
        let (after, step) = state.next(events.last());
        (after, steps.push(step))
    }
}

/// Whether each event is one that the conversation was waiting for.
pub open spec fn in_order(start: PortalState, wanted: u32, events: Seq<PortalEvent>) -> bool
    decreases events.len(),
{
    events.len() > 0 ==> {
        &&& in_order(start, wanted, events.drop_last())
        &&& conversation(start, wanted, events.drop_last()).0.expects(events.last())
    }
}

/// Whether a step makes the given portal request.
pub open spec fn makes(step: PortalStep, call: PortalCall) -> bool {
    match call {
        PortalCall::CreateSession => step is CreateSession,
        PortalCall::SelectSources => step is SelectSources,
        PortalCall::Start => step is Start,
    }
}

/// Whether the response to a call is being watched for in the given steps.
pub open spec fn watched_in(steps: Seq<PortalStep>, sender: Seq<char>, call: PortalCall) -> bool {
    steps.contains(PortalStep::AddMatch { path: request_path(sender, call), fresh: true })
}

proof fn lemma_watched_so_far(start: PortalState, wanted: u32, events: Seq<PortalEvent>)
    requires
        in_order(start, wanted, events),
    ensures
        conversation(start, wanted, events).0.sender == start.sender,
        conversation(start, wanted, events).1.len() == events.len() + 1,
        match conversation(start, wanted, events).0.phase {
            PortalPhase::Watch(call) => watched_in(
                conversation(start, wanted, events).1,
                start.sender,
                call,
            ),
            PortalPhase::ReadCursor => watched_in(
                conversation(start, wanted, events).1,
                start.sender,
                PortalCall::SelectSources,
            ),
            _ => true,
        },
    decreases events.len(),
{
    let (after, steps) = conversation(start, wanted, events);
    if events.len() == 0 {
        assert(steps[0] == PortalStep::AddMatch {
            path: request_path(start.sender, PortalCall::CreateSession),
            fresh: true,
        });
    } else {
        let front = events.drop_last();
        lemma_watched_so_far(start, wanted, front);
        let (state, before) = conversation(start, wanted, front);
        let step = state.next(events.last()).1;
        assert(steps == before.push(step));
        assert(steps.last() == step);
        if after.phase is ReadCursor {
            assert(state.phase == PortalPhase::Watch(PortalCall::SelectSources));
            let wanted_step = PortalStep::AddMatch {
                path: request_path(start.sender, PortalCall::SelectSources),
                fresh: true,
            };
            let j = choose|j: int| 0 <= j < before.len() && before[j] == wanted_step;
            assert(steps[j] == wanted_step);
        }
    }
}

/// Every request is made only once its response is being watched for: a portal that answers at
/// once cannot win the race.
pub proof fn law_watched_before_requested(
    start: PortalState,
    wanted: u32,
    events: Seq<PortalEvent>,
    call: PortalCall,
)
    requires
        events.len() > 0,
        in_order(start, wanted, events),
        makes(conversation(start, wanted, events).1.last(), call),
    ensures
        watched_in(conversation(start, wanted, events.drop_last()).1, start.sender, call),
{
    lemma_watched_so_far(start, wanted, events.drop_last());
}

/// The picker is never asked to offer a source type that the portal does not have, nor one that
/// the target did not ask for.
pub proof fn law_sources_are_available(state: PortalState, available: u32)
    requires
        !(state.offered(available).1 is Fail),
    ensures
        state.offered(available).0.source_type & available == state.offered(
            available,
        ).0.source_type,
        state.wanted != 0 ==> state.offered(available).0.source_type & state.wanted
            == state.offered(available).0.source_type && state.offered(available).0.source_type
            != 0,
{
    let wanted = state.wanted;
    assert(available & available == available) by (bit_vector);
    assert((available & wanted) & available == available & wanted) by (bit_vector);
    assert((available & wanted) & wanted == available & wanted) by (bit_vector);
}

/// As long as the portal stays on the bus, a wait without a response goes on.
pub proof fn law_wait_has_no_deadline(state: PortalState, call: PortalCall)
    requires
        state.phase == PortalPhase::Wait(call),
        !state.portal_gone,
    ensures
        state.next(PortalEvent::Processed { response: None }) == (state, PortalStep::Process),
{
}

proof fn lemma_lookup_at(results: Seq<(String, DbusValue)>, key: Seq<char>, i: int)
    requires
        0 <= i <= results.len(),
        forall|j: int| 0 <= j < i ==> (#[trigger] results[j]).0@ != key,
        i < results.len() ==> results[i].0@ == key,
    ensures
        i < results.len() ==> lookup(results, key) == Some(results[i].1),
        i == results.len() ==> lookup(results, key) is None,
    decreases i,
{
    if i > 0 {
        let rest = results.drop_first();
        assert(results[0].0@ != key);
        assert forall|j: int| 0 <= j < i - 1 implies (#[trigger] rest[j]).0@ != key by {
            assert(results[j + 1].0@ != key);
        }
        lemma_lookup_at(rest, key, i - 1);
    }
}

proof fn lemma_without_colons(name: Seq<char>, n: int)
    requires
        0 <= n <= name.len(),
        forall|i: int| 0 <= i < n ==> (#[trigger] name[i]) == ':',
        n < name.len() ==> name[n] != ':',
    ensures
        without_colons(name) == name.skip(n),
    decreases n,
{
    if n == 0 {
        assert(name.skip(0) =~= name);
    } else {
        assert(name[0] == ':');
        let rest = name.drop_first();
        assert forall|i: int| 0 <= i < n - 1 implies (#[trigger] rest[i]) == ':' by {
            assert(name[i + 1] == ':');
        }
        lemma_without_colons(rest, n - 1);
        assert(rest.skip(n - 1) =~= name.skip(n));
    }
}

/// Where the first response is watched for: under a path with the name of this connection, without
/// its leading colons and with underscores in place of its dots.
pub proof fn law_first_watch(
    unique_name: &str,
    colons: int,
    made: DbusScreen,
    screen: &mut DbusScreen,
    wanted: u32,
    action: PortalAction,
    outcome: PortalEvent,
    expected: bool,
)
    requires
        call_ensures(DbusScreen::new, (unique_name,), made),
        *screen == made,
        call_ensures(DbusScreen::start, (screen, wanted), action),
        call_ensures(DbusScreen::expects, (&*final(screen), &outcome), expected),
        0 <= colons <= unique_name@.len(),
        forall|i: int| 0 <= i < colons ==> (#[trigger] unique_name@[i]) == ':',
        colons < unique_name@.len() ==> unique_name@[colons] != ':',
    ensures
        action is AddMatch,
        action->fresh,
        expected <==> outcome is MatchAdded,
        final(screen)@.wanted == wanted,
        !final(screen)@.portal_gone,
        ({
            let sender = Seq::new(
                (unique_name@.len() - colons) as nat,
                |i: int|
                    if unique_name@[colons + i] == '.' {
                        '_'
                    } else {
                        unique_name@[colons + i]
                    },
            );
            action->path@ == "/org/freedesktop/portal/desktop/request/"@ + sender + "/"@
                + "scrcap_"@ + "create"@
        }),
{
    lemma_without_colons(unique_name@, colons);
    let sender = Seq::new(
        (unique_name@.len() - colons) as nat,
        |i: int|
            if unique_name@[colons + i] == '.' {
                '_'
            } else {
                unique_name@[colons + i]
            },
    );
    assert(path_element(unique_name@) =~= sender);
    assert(action->path@ =~= "/org/freedesktop/portal/desktop/request/"@ + sender + "/"@
        + "scrcap_"@ + "create"@);
}

/// What a response code means: 0 grants, 1 is a user who cancelled, and any other refuses with that
/// code.
pub proof fn law_response_codes(
    resp: &Response,
    call: PortalCall,
    checked: Result<(), CaptureError>,
)
    requires
        call_ensures(check_response, (resp, call), checked),
    ensures
        checked is Ok <==> resp.response == 0,
        resp.response == 1 ==> checked->Err_0 is Cancelled,
        resp.response > 1 ==> checked->Err_0 == CaptureError::Portal(
            PortalError::Refused { call, response: resp.response },
        ),
{
}

/// A portal that leaves the bus is gone, one that comes onto it is not, and no other name matters.
pub proof fn law_portal_leaves(screen: &mut DbusScreen, name: &String, old_owner: &str)
    requires
        call_ensures(DbusScreen::name_owner_changed, (screen, name, old_owner), ()),
    ensures
        name@ == "org.freedesktop.portal.Desktop"@ && old_owner@.len() > 0
            ==> final(screen)@.portal_gone,
        name@ != "org.freedesktop.portal.Desktop"@ || old_owner@.len() == 0
            ==> final(screen)@.portal_gone == old(screen)@.portal_gone,
        final(screen)@.phase == old(screen)@.phase,
        final(screen)@.handle == old(screen)@.handle,
        final(screen)@.wanted == old(screen)@.wanted,
        final(screen)@.sender == old(screen)@.sender,
        final(screen)@.source_type == old(screen)@.source_type,
        final(screen)@.node_id == old(screen)@.node_id,
{
}

/// A wait goes on until there is a response or the portal is gone; a response that does not grant the
/// request ends the conversation with what its code means.
pub proof fn law_waits_end(
    screen: &mut DbusScreen,
    call: PortalCall,
    response: Option<Response>,
    action: PortalAction,
    checked: Result<(), CaptureError>,
)
    requires
        screen@.phase == PortalPhase::Wait(call),
        call_ensures(DbusScreen::step, (screen, PortalEvent::Processed { response }), action),
        response is Some ==> call_ensures(check_response, (&response->0, call), checked),
    ensures
        response is None && !old(screen)@.portal_gone ==> action is Process && final(screen)@
            == old(screen)@,
        response is None && old(screen)@.portal_gone ==> action == PortalAction::Fail(
            CaptureError::Portal(PortalError::Vanished { call }),
        ),
        response is Some && checked is Err ==> action == PortalAction::Fail(checked->Err_0),
{
}

/// The session is the text that the granted request gives first under its name; without one the reply
/// is malformed.
pub proof fn law_session_handle(
    screen: &mut DbusScreen,
    response: Response,
    action: PortalAction,
    i: int,
)
    requires
        screen@.phase == PortalPhase::Wait(PortalCall::CreateSession),
        call_ensures(
            DbusScreen::step,
            (screen, PortalEvent::Processed { response: Some(response) }),
            action,
        ),
        response.response == 0,
        0 <= i <= response.results@.len(),
        forall|j: int|
            0 <= j < i ==> (#[trigger] response.results@[j]).0@ != "session_handle"@,
        i < response.results@.len() ==> response.results@[i].0@ == "session_handle"@,
    ensures
        i < response.results@.len() && response.results@[i].1.text is Some ==> {
            &&& action is GetSourceTypes
            &&& final(screen)@.handle == response.results@[i].1.text->0@
        },
        i == response.results@.len() || response.results@[i].1.text is None ==> action
            == PortalAction::Fail(
            CaptureError::Portal(
                PortalError::MalformedReply { call: PortalCall::CreateSession },
            ),
        ),
        final(screen)@.wanted == old(screen)@.wanted,
{
    lemma_lookup_at(response.results@, "session_handle"@, i);
}

/// The node is the first number of the first stream that the granted request gives; without one the
/// reply is malformed. The remote is opened for the session, and then the node is handed over.
pub proof fn law_granted_node(
    screen: &mut DbusScreen,
    response: Response,
    action: PortalAction,
    i: int,
    opened: &mut DbusScreen,
    finish: PortalAction,
)
    requires
        screen@.phase == PortalPhase::Wait(PortalCall::Start),
        call_ensures(
            DbusScreen::step,
            (screen, PortalEvent::Processed { response: Some(response) }),
            action,
        ),
        response.response == 0,
        0 <= i < response.results@.len(),
        forall|j: int| 0 <= j < i ==> (#[trigger] response.results@[j]).0@ != "streams"@,
        response.results@[i].0@ == "streams"@,
        *opened == *final(screen),
        call_ensures(DbusScreen::step, (opened, PortalEvent::RemoteOpened), finish),
    ensures
        ({
            let variant = response.results@[i].1;
            let array = variant.items->0@[0];
            let stream = array.items->0@[0];
            let node = stream.items->0@[0];
            let there = {
                &&& variant.items is Some
                &&& variant.items->0@.len() > 0
                &&& array.items is Some
                &&& array.items->0@.len() > 0
                &&& stream.items is Some
                &&& stream.items->0@.len() > 0
                &&& node.number is Some
            };
            &&& there ==> {
                &&& action is OpenRemote
                &&& action->OpenRemote_handle@ == old(screen)@.handle
                &&& finish is Finish
                &&& node.number->0 <= u32::MAX ==> finish->node_id == node.number->0
                &&& finish->node_id == node.number->0 as u32
            }
            &&& !there ==> action == PortalAction::Fail(
                CaptureError::Portal(PortalError::MalformedReply { call: PortalCall::Start }),
            )
        }),
{
    lemma_lookup_at(response.results@, "streams"@, i);
}

/// What the picker offers: all that the portal has where anything will do, else what of it was asked
/// for; and nothing at all is a failure. The cursor is drawn into the frames where the portal can.
pub proof fn law_offered_sources(
    screen: &mut DbusScreen,
    available: u32,
    action: PortalAction,
    watched: &mut DbusScreen,
    reading: PortalAction,
    pointed: &mut DbusScreen,
    modes: Option<u32>,
    select: PortalAction,
)
    requires
        screen@.phase is ReadSources,
        call_ensures(DbusScreen::step, (screen, PortalEvent::SourceTypes(available)), action),
        *watched == *final(screen),
        call_ensures(DbusScreen::step, (watched, PortalEvent::MatchAdded), reading),
        *pointed == *final(watched),
        call_ensures(DbusScreen::step, (pointed, PortalEvent::CursorModes(modes)), select),
    ensures
        ({
            let wanted = old(screen)@.wanted;
            &&& wanted != 0 && available & wanted == 0 ==> action == PortalAction::Fail(
                CaptureError::Portal(PortalError::NoMatchingSource { wanted, available }),
            )
            &&& wanted == 0 || available & wanted != 0 ==> {
                &&& action is AddMatch
                &&& action->fresh
                &&& action->path@ == "/org/freedesktop/portal/desktop/request/"@
                    + old(screen)@.sender + "/"@ + "scrcap_"@ + "select"@
                &&& reading is GetCursorModes
                &&& select is SelectSources
                &&& select->SelectSources_handle@ == old(screen)@.handle
                &&& select->SelectSources_handle_token@ == "scrcap_"@ + "select"@
                &&& wanted == 0 ==> select->types == available
                &&& wanted != 0 ==> select->types == available & wanted
                &&& !select->multiple
                &&& modes is Some && modes->0 & 2 != 0 ==> select->cursor_mode == Some(2u32)
                &&& modes is None || modes->0 & 2 == 0 ==> select->cursor_mode is None
            }
        }),
{
    let path = "/org/freedesktop/portal/desktop/request/"@ + old(screen)@.sender + "/"@
        + "scrcap_"@ + "select"@;
    assert(request_path(old(screen)@.sender, PortalCall::SelectSources) =~= path);
}

/// A request is made once its response is watched for, under the token that its path ends in; where
/// the portal answers on another path that one is watched too, and then the response is waited for.
pub proof fn law_requests_are_made(
    screen: &mut DbusScreen,
    call: PortalCall,
    action: PortalAction,
    made: &mut DbusScreen,
    path: String,
    then: PortalAction,
)
    requires
        call is CreateSession || call is Start,
        screen@.phase == PortalPhase::Watch(call),
        call_ensures(DbusScreen::step, (screen, PortalEvent::MatchAdded), action),
        *made == *final(screen),
        call_ensures(DbusScreen::step, (made, PortalEvent::Returned { path }), then),
    ensures
        call is CreateSession ==> {
            &&& action is CreateSession
            &&& action->CreateSession_handle_token@ == "scrcap_"@ + "create"@
            &&& action->session_handle_token@ == "scrcap_"@ + "create"@
        },
        call is Start ==> {
            &&& action is Start
            &&& action->Start_handle@ == old(screen)@.handle
            &&& action->Start_handle_token@ == "scrcap_"@ + "start"@
        },
        ({
            let predicted = "/org/freedesktop/portal/desktop/request/"@ + old(screen)@.sender
                + "/"@ + "scrcap_"@ + if call is Start {
                "start"@
            } else {
                "create"@
            };
            &&& path@ == predicted ==> then is Process
            &&& path@ != predicted ==> then is AddMatch && then->path@ == path@ && !then->fresh
        }),
{
    let predicted = "/org/freedesktop/portal/desktop/request/"@ + old(screen)@.sender + "/"@
        + "scrcap_"@ + if call is Start {
        "start"@
    } else {
        "create"@
    };
    assert(request_path(old(screen)@.sender, call) =~= predicted);
}

/// Once its sources are selected a session is started, watched for first.
pub proof fn law_start_follows_selection(
    screen: &mut DbusScreen,
    response: Response,
    action: PortalAction,
    watched: &mut DbusScreen,
    start: PortalAction,
)
    requires
        screen@.phase == PortalPhase::Wait(PortalCall::SelectSources),
        call_ensures(
            DbusScreen::step,
            (screen, PortalEvent::Processed { response: Some(response) }),
            action,
        ),
        response.response == 0,
        *watched == *final(screen),
        call_ensures(DbusScreen::step, (watched, PortalEvent::MatchAdded), start),
    ensures
        action is AddMatch,
        action->fresh,
        action->path@ == "/org/freedesktop/portal/desktop/request/"@ + old(screen)@.sender + "/"@
            + "scrcap_"@ + "start"@,
        start is Start,
        start->Start_handle@ == old(screen)@.handle,
{
    assert(action->path@ =~= "/org/freedesktop/portal/desktop/request/"@ + old(screen)@.sender
        + "/"@ + "scrcap_"@ + "start"@);
}

/// The conversation waits for the outcome of what it has asked for, and for nothing once it is over.
pub proof fn law_conversation_waits_for_outcomes(
    screen: &mut DbusScreen,
    event: PortalEvent,
    action: PortalAction,
    outcome: PortalEvent,
    expected: bool,
)
    requires
        screen@.expects(event),
        call_ensures(DbusScreen::step, (screen, event), action),
        call_ensures(DbusScreen::expects, (&*final(screen), &outcome), expected),
    ensures
        expected <==> match action {
            PortalAction::AddMatch { .. } => outcome is MatchAdded,
            PortalAction::CreateSession { .. } => outcome is Returned,
            PortalAction::GetSourceTypes => outcome is SourceTypes,
            PortalAction::GetCursorModes => outcome is CursorModes,
            PortalAction::SelectSources { .. } => outcome is Returned,
            PortalAction::Start { .. } => outcome is Returned,
            PortalAction::Process => outcome is Processed,
            PortalAction::OpenRemote { .. } => outcome is RemoteOpened,
            PortalAction::Finish { .. } | PortalAction::Fail(_) => false,
        },
{
}

/// A conversation in which all goes well, from beginning to end: the session that was created is the
/// one whose sources are selected, that is started and whose remote is opened; the sources are those
/// that were asked for as far as the portal has them; and the node that was granted is handed over.
pub proof fn law_conversation_from_beginning_to_end(
    made: DbusScreen,
    unique_name: &str,
    s0: &mut DbusScreen,
    wanted: u32,
    watch_create: PortalAction,
    s1: &mut DbusScreen,
    create: PortalAction,
    s2: &mut DbusScreen,
    wait_create: PortalAction,
    s3: &mut DbusScreen,
    created: Response,
    ask_types: PortalAction,
    s4: &mut DbusScreen,
    available: u32,
    watch_select: PortalAction,
    s5: &mut DbusScreen,
    ask_modes: PortalAction,
    s6: &mut DbusScreen,
    modes: Option<u32>,
    select: PortalAction,
    s7: &mut DbusScreen,
    wait_select: PortalAction,
    s8: &mut DbusScreen,
    selected: Response,
    watch_start: PortalAction,
    s9: &mut DbusScreen,
    start: PortalAction,
    s10: &mut DbusScreen,
    wait_start: PortalAction,
    s11: &mut DbusScreen,
    started: Response,
    remote: PortalAction,
    s12: &mut DbusScreen,
    finish: PortalAction,
)
    requires
        call_ensures(DbusScreen::new, (unique_name,), made),
        *s0 == made,
        call_ensures(DbusScreen::start, (s0, wanted), watch_create),
        *s1 == *final(s0),
        call_ensures(DbusScreen::step, (s1, PortalEvent::MatchAdded), create),
        *s2 == *final(s1),
        call_ensures(
            DbusScreen::step,
            (s2, PortalEvent::Returned { path: watch_create->path }),
            wait_create,
        ),
        *s3 == *final(s2),
        call_ensures(
            DbusScreen::step,
            (s3, PortalEvent::Processed { response: Some(created) }),
            ask_types,
        ),
        created.response == 0,
        created.results@.len() == 1,
        created.results@[0].0@ == "session_handle"@,
        created.results@[0].1.text is Some,
        *s4 == *final(s3),
        call_ensures(DbusScreen::step, (s4, PortalEvent::SourceTypes(available)), watch_select),
        wanted == 0 || available & wanted != 0,
        *s5 == *final(s4),
        call_ensures(DbusScreen::step, (s5, PortalEvent::MatchAdded), ask_modes),
        *s6 == *final(s5),
        call_ensures(DbusScreen::step, (s6, PortalEvent::CursorModes(modes)), select),
        *s7 == *final(s6),
        call_ensures(
            DbusScreen::step,
            (s7, PortalEvent::Returned { path: watch_select->path }),
            wait_select,
        ),
        *s8 == *final(s7),
        call_ensures(
            DbusScreen::step,
            (s8, PortalEvent::Processed { response: Some(selected) }),
            watch_start,
        ),
        selected.response == 0,
        *s9 == *final(s8),
        call_ensures(DbusScreen::step, (s9, PortalEvent::MatchAdded), start),
        *s10 == *final(s9),
        call_ensures(
            DbusScreen::step,
            (s10, PortalEvent::Returned { path: watch_start->path }),
            wait_start,
        ),
        *s11 == *final(s10),
        call_ensures(
            DbusScreen::step,
            (s11, PortalEvent::Processed { response: Some(started) }),
            remote,
        ),
        started.response == 0,
        started.results@.len() == 1,
        started.results@[0].0@ == "streams"@,
        started.results@[0].1.items is Some,
        started.results@[0].1.items->0@.len() > 0,
        started.results@[0].1.items->0@[0].items is Some,
        started.results@[0].1.items->0@[0].items->0@.len() > 0,
        started.results@[0].1.items->0@[0].items->0@[0].items is Some,
        started.results@[0].1.items->0@[0].items->0@[0].items->0@.len() > 0,
        started.results@[0].1.items->0@[0].items->0@[0].items->0@[0].number is Some,
        started.results@[0].1.items->0@[0].items->0@[0].items->0@[0].number->0 <= u32::MAX,
        *s12 == *final(s11),
        call_ensures(DbusScreen::step, (s12, PortalEvent::RemoteOpened), finish),
    ensures
        watch_create is AddMatch && watch_create->fresh,
        create is CreateSession,
        wait_create is Process,
        ask_types is GetSourceTypes,
        watch_select is AddMatch && watch_select->fresh,
        ask_modes is GetCursorModes,
        select is SelectSources,
        select->SelectSources_handle@ == created.results@[0].1.text->0@,
        wanted == 0 ==> select->types == available,
        wanted != 0 ==> select->types == available & wanted,
        !select->multiple,
        select->cursor_mode == if modes is Some && modes->0 & 2 != 0 {
            Some(2u32)
        } else {
            None
        },
        wait_select is Process,
        watch_start is AddMatch && watch_start->fresh,
        start is Start,
        start->Start_handle@ == created.results@[0].1.text->0@,
        wait_start is Process,
        remote is OpenRemote,
        remote->OpenRemote_handle@ == created.results@[0].1.text->0@,
        finish is Finish,
        finish->node_id
            == started.results@[0].1.items->0@[0].items->0@[0].items->0@[0].number->0,
{
    lemma_lookup_at(created.results@, "session_handle"@, 0);
    lemma_lookup_at(started.results@, "streams"@, 0);
}

/// A granted request without streams is malformed.
pub proof fn law_no_streams(screen: &mut DbusScreen, response: Response, action: PortalAction)
    requires
        screen@.phase == PortalPhase::Wait(PortalCall::Start),
        call_ensures(
            DbusScreen::step,
            (screen, PortalEvent::Processed { response: Some(response) }),
            action,
        ),
        response.response == 0,
        forall|j: int|
            0 <= j < response.results@.len() ==> (#[trigger] response.results@[j]).0@
                != "streams"@,
    ensures
        action == PortalAction::Fail(
            CaptureError::Portal(PortalError::MalformedReply { call: PortalCall::Start }),
        ),
{
    lemma_lookup_at(response.results@, "streams"@, response.results@.len() as int);
}

/// A request whose response arrives where it was predicted is waited for; where it arrives elsewhere,
/// that path is watched first, without letting go of what was matched so far. Nothing else changes.
pub proof fn law_responses_are_waited_for(
    screen: &mut DbusScreen,
    call: PortalCall,
    path: String,
    action: PortalAction,
    watched: &mut DbusScreen,
    then: PortalAction,
)
    requires
        screen@.phase == PortalPhase::Call(call),
        call_ensures(DbusScreen::step, (screen, PortalEvent::Returned { path }), action),
        *watched == *final(screen),
        call_ensures(DbusScreen::step, (watched, PortalEvent::MatchAdded), then),
    ensures
        ({
            let name = match call {
                PortalCall::CreateSession => "create"@,
                PortalCall::SelectSources => "select"@,
                PortalCall::Start => "start"@,
            };
            let predicted = "/org/freedesktop/portal/desktop/request/"@ + old(screen)@.sender
                + "/"@ + "scrcap_"@ + name;
            let waiting = PortalState { phase: PortalPhase::Wait(call), ..old(screen)@ };
            &&& path@ == predicted ==> action is Process && final(screen)@ == waiting
            &&& path@ != predicted ==> {
                &&& action is AddMatch
                &&& action->path@ == path@
                &&& !action->fresh
                &&& then is Process
                &&& final(watched)@ == waiting
            }
        }),
{
    let name = match call {
        PortalCall::CreateSession => "create"@,
        PortalCall::SelectSources => "select"@,
        PortalCall::Start => "start"@,
    };
    assert(request_path(old(screen)@.sender, call) =~= "/org/freedesktop/portal/desktop/request/"@
        + old(screen)@.sender + "/"@ + "scrcap_"@ + name);
}

/// What a conversation knows stays: its own name and what was asked for always, the session but for
/// the request that creates one, and the sources and the node but for the replies that say them.
pub proof fn law_conversation_keeps_what_it_knows(
    screen: &mut DbusScreen,
    event: PortalEvent,
    action: PortalAction,
)
    requires
        call_ensures(DbusScreen::step, (screen, event), action),
    ensures
        final(screen)@.sender == old(screen)@.sender,
        final(screen)@.wanted == old(screen)@.wanted,
        final(screen)@.portal_gone == old(screen)@.portal_gone,
        !(action is GetSourceTypes) ==> final(screen)@.handle == old(screen)@.handle,
        !(event is SourceTypes) ==> final(screen)@.source_type == old(screen)@.source_type,
        !(action is OpenRemote) ==> final(screen)@.node_id == old(screen)@.node_id,
{
}

} // verus!
