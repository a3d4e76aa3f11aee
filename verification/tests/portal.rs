use scrcap::error::{CaptureError, PortalCall, PortalError};
use scrcap::linux::dbus::{
    check_response, DbusScreen, DbusValue, PortalAction, PortalEvent, Response,
};

fn text(text: &str) -> DbusValue {
    DbusValue { text: Some(text.to_string()), number: None, items: None }
}

fn number(number: u64) -> DbusValue {
    DbusValue { text: None, number: Some(number), items: None }
}

fn list(items: Vec<DbusValue>) -> DbusValue {
    DbusValue { text: None, number: None, items: Some(items) }
}

fn reply(response: u32, results: Vec<(&str, DbusValue)>) -> PortalEvent {
    PortalEvent::Processed {
        response: Some(Response {
            response,
            results: results.into_iter().map(|(k, v)| (k.to_string(), v)).collect(),
        }),
    }
}

fn tell(screen: &mut DbusScreen, event: PortalEvent) -> PortalAction {
    assert!(screen.expects(&event));
    screen.step(event)
}

fn path(name: &str) -> String {
    format!("/org/freedesktop/portal/desktop/request/1_42/scrcap_{name}")
}

fn expect_match(action: PortalAction, name: &str) {
    match action {
        PortalAction::AddMatch { path: p, fresh } => assert_eq!((p, fresh), (path(name), true)),
        other => panic!("{other:?}"),
    }
}

/// A conversation up to the wait for the session.
fn waiting_for_session(wanted: u32) -> DbusScreen {
    let mut screen = DbusScreen::new(":1.42");
    let action = screen.start(wanted);
    expect_match(action, "create");
    match tell(&mut screen, PortalEvent::MatchAdded) {
        PortalAction::CreateSession { handle_token, session_handle_token } => {
            assert_eq!(handle_token, "scrcap_create");
            assert_eq!(session_handle_token, "scrcap_create");
        }
        other => panic!("{other:?}"),
    }
    let action = tell(&mut screen, PortalEvent::Returned { path: path("create") });
    assert!(matches!(action, PortalAction::Process));
    screen
}

/// A conversation up to the choice of sources.
fn choosing_sources(wanted: u32) -> DbusScreen {
    let mut screen = waiting_for_session(wanted);
    let action = tell(&mut screen, reply(0, vec![("session_handle", text("/session"))]));
    assert!(matches!(action, PortalAction::GetSourceTypes));
    screen
}

/// A conversation up to the wait for the node.
fn waiting_for_node(wanted: u32) -> DbusScreen {
    let mut screen = choosing_sources(wanted);
    let action = tell(&mut screen, PortalEvent::SourceTypes(7));
    expect_match(action, "select");
    let action = tell(&mut screen, PortalEvent::MatchAdded);
    assert!(matches!(action, PortalAction::GetCursorModes));
    tell(&mut screen, PortalEvent::CursorModes(Some(7)));
    tell(&mut screen, PortalEvent::Returned { path: path("select") });
    let action = tell(&mut screen, reply(0, vec![]));
    expect_match(action, "start");
    match tell(&mut screen, PortalEvent::MatchAdded) {
        PortalAction::Start { handle, handle_token } => {
            assert_eq!(handle, "/session");
            assert_eq!(handle_token, "scrcap_start");
        }
        other => panic!("{other:?}"),
    }
    tell(&mut screen, PortalEvent::Returned { path: path("start") });
    screen
}

#[test]
fn session_is_granted() {
    let mut screen = waiting_for_node(1);
    // A response that has nothing to do with the node comes first under another name.
    let streams = list(vec![list(vec![list(vec![number(0x1_0000_002a), text("x")])])]);
    let action = tell(&mut screen, reply(0, vec![("restore_token", text("t")), ("streams", streams)]));
    match action {
        PortalAction::OpenRemote { handle } => assert_eq!(handle, "/session"),
        other => panic!("{other:?}"),
    }
    match tell(&mut screen, PortalEvent::RemoteOpened) {
        // The lower half of the number.
        PortalAction::Finish { node_id } => assert_eq!(node_id, 42),
        other => panic!("{other:?}"),
    }
    assert!(!screen.expects(&PortalEvent::RemoteOpened));
}

#[test]
fn target_narrows_the_sources() {
    for (wanted, available, types) in [(1, 7, 1), (0, 7, 7), (3, 2, 2)] {
        let mut screen = choosing_sources(wanted);
        tell(&mut screen, PortalEvent::SourceTypes(available));
        tell(&mut screen, PortalEvent::MatchAdded);
        match tell(&mut screen, PortalEvent::CursorModes(Some(2))) {
            PortalAction::SelectSources { handle, handle_token, types: t, multiple, cursor_mode } => {
                assert_eq!(handle, "/session");
                assert_eq!(handle_token, "scrcap_select");
                assert_eq!(t, types);
                assert!(!multiple);
                assert_eq!(cursor_mode, Some(2));
            }
            other => panic!("{other:?}"),
        }
    }
}

#[test]
fn no_source_of_the_wanted_kind() {
    let mut screen = choosing_sources(1);
    match tell(&mut screen, PortalEvent::SourceTypes(6)) {
        PortalAction::Fail(CaptureError::Portal(e)) => {
            assert_eq!(e, PortalError::NoMatchingSource { wanted: 1, available: 6 })
        }
        other => panic!("{other:?}"),
    }
}

#[test]
fn cursor_is_left_alone_where_it_cannot_be_embedded() {
    for modes in [None, Some(0), Some(5)] {
        let mut screen = choosing_sources(0);
        tell(&mut screen, PortalEvent::SourceTypes(1));
        tell(&mut screen, PortalEvent::MatchAdded);
        match tell(&mut screen, PortalEvent::CursorModes(modes)) {
            PortalAction::SelectSources { cursor_mode, .. } => assert_eq!(cursor_mode, None),
            other => panic!("{other:?}"),
        }
    }
}

#[test]
fn wait_goes_on_until_an_answer_comes() {
    let mut screen = waiting_for_session(0);
    for _ in 0..10 {
        let action = tell(&mut screen, PortalEvent::Processed { response: None });
        assert!(matches!(action, PortalAction::Process));
    }
    let action = tell(&mut screen, reply(1, vec![]));
    assert!(matches!(action, PortalAction::Fail(CaptureError::Cancelled)));
}

#[test]
fn refusals_are_reported() {
    let mut screen = waiting_for_session(0);
    match tell(&mut screen, reply(2, vec![])) {
        PortalAction::Fail(CaptureError::Portal(e)) => assert_eq!(
            e,
            PortalError::Refused { call: PortalCall::CreateSession, response: 2 }
        ),
        other => panic!("{other:?}"),
    }
}

#[test]
fn replies_without_what_they_owe_are_malformed() {
    for results in [vec![], vec![("session_handle", number(1))], vec![("handle", text("/s"))]] {
        let mut screen = waiting_for_session(0);
        match tell(&mut screen, reply(0, results)) {
            PortalAction::Fail(CaptureError::Portal(e)) => {
                assert_eq!(e, PortalError::MalformedReply { call: PortalCall::CreateSession })
            }
            other => panic!("{other:?}"),
        }
    }
    for streams in [
        number(3),
        list(vec![]),
        list(vec![list(vec![])]),
        list(vec![list(vec![list(vec![text("x")])])]),
    ] {
        let mut screen = waiting_for_node(0);
        match tell(&mut screen, reply(0, vec![("streams", streams)])) {
            PortalAction::Fail(CaptureError::Portal(e)) => {
                assert_eq!(e, PortalError::MalformedReply { call: PortalCall::Start })
            }
            other => panic!("{other:?}"),
        }
    }
}

#[test]
fn portal_that_leaves_takes_its_requests_along() {
    let portal = "org.freedesktop.portal.Desktop".to_string();
    let mut screen = waiting_for_session(0);
    // Being activated is not leaving, and other names do not matter.
    screen.name_owner_changed(&portal, "");
    screen.name_owner_changed(&"org.example".to_string(), ":1.7");
    let action = tell(&mut screen, PortalEvent::Processed { response: None });
    assert!(matches!(action, PortalAction::Process));
    screen.name_owner_changed(&portal, ":1.7");
    match tell(&mut screen, PortalEvent::Processed { response: None }) {
        PortalAction::Fail(CaptureError::Portal(e)) => {
            assert_eq!(e, PortalError::Vanished { call: PortalCall::CreateSession })
        }
        other => panic!("{other:?}"),
    }
}

#[test]
fn answer_counts_even_if_the_portal_has_left() {
    let mut screen = waiting_for_session(0);
    screen.name_owner_changed(&"org.freedesktop.portal.Desktop".to_string(), ":1.7");
    let action = tell(&mut screen, reply(0, vec![("session_handle", text("/session"))]));
    assert!(matches!(action, PortalAction::GetSourceTypes));
}

#[test]
fn path_that_was_not_predicted_is_watched_too() {
    let mut screen = DbusScreen::new("::1.4.2");
    match screen.start(0) {
        PortalAction::AddMatch { path, fresh } => {
            assert_eq!(path, "/org/freedesktop/portal/desktop/request/1_4_2/scrcap_create");
            assert!(fresh);
        }
        other => panic!("{other:?}"),
    }
    tell(&mut screen, PortalEvent::MatchAdded);
    match tell(&mut screen, PortalEvent::Returned { path: "/elsewhere".to_string() }) {
        PortalAction::AddMatch { path, fresh } => {
            assert_eq!((path, fresh), ("/elsewhere".to_string(), false))
        }
        other => panic!("{other:?}"),
    }
    let action = tell(&mut screen, PortalEvent::MatchAdded);
    assert!(matches!(action, PortalAction::Process));
}

#[test]
fn only_the_outcome_of_the_last_step_is_expected() {
    let screen = DbusScreen::new(":1.1");
    assert!(!screen.expects(&PortalEvent::MatchAdded));
    let screen = waiting_for_session(0);
    assert!(!screen.expects(&PortalEvent::MatchAdded));
    assert!(!screen.expects(&PortalEvent::SourceTypes(1)));
    assert!(screen.expects(&PortalEvent::Processed { response: None }));
}

#[test]
fn response_codes() {
    let response = |response| Response { response, results: vec![] };
    assert!(check_response(&response(0), PortalCall::Start).is_ok());
    assert!(matches!(
        check_response(&response(1), PortalCall::Start),
        Err(CaptureError::Cancelled)
    ));
    assert!(matches!(
        check_response(&response(3), PortalCall::Start),
        Err(CaptureError::Portal(PortalError::Refused { call: PortalCall::Start, response: 3 }))
    ));
}
