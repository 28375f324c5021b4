use niri_workspaces::ipc::{
    event_triggers_refresh, expect_handled, expect_windows, expect_workspaces, EventKind,
    FetchError, MoveError, Reply,
};
use niri_workspaces::model::{WindowInfo, WorkspaceSnapshot};

fn some_workspace() -> WorkspaceSnapshot {
    WorkspaceSnapshot {
        id: 1,
        idx: 1,
        name: None,
        output: None,
        is_focused: false,
        is_active: false,
        is_urgent: false,
        active_window_id: None,
    }
}

#[test]
fn workspaces_reply_is_accepted_whole() {
    let reply = Reply::Workspaces(vec![some_workspace()]);
    let got = expect_workspaces(reply).unwrap();
    assert_eq!(got.len(), 1);
    assert_eq!(got[0].id, 1);
}

#[test]
fn wrong_payload_for_workspaces_is_a_protocol_error() {
    match expect_workspaces(Reply::Windows(vec![])) {
        Err(FetchError::Protocol) => {},
        _ => panic!("a window list must not answer a workspace request"),
    }
    match expect_workspaces(Reply::Handled) {
        Err(FetchError::Protocol) => {},
        _ => panic!("an acknowledgement must not answer a workspace request"),
    }
}

#[test]
fn backend_failure_carries_its_message() {
    match expect_workspaces(Reply::Failure("backend says no".to_string())) {
        Err(e @ FetchError::Backend(_)) => assert_eq!(e.message(), "backend says no"),
        _ => panic!("a backend failure must surface as such"),
    }
}

#[test]
fn windows_reply_is_accepted_whole() {
    let reply = Reply::Windows(vec![WindowInfo {
        workspace_id: Some(3),
        app_id: None,
        title: None,
    }]);
    let got = expect_windows(reply).unwrap();
    assert_eq!(got.len(), 1);
    assert_eq!(got[0].workspace_id, Some(3));
    match expect_windows(Reply::OtherOk) {
        Err(FetchError::Protocol) => {},
        _ => panic!("another payload must not answer a window request"),
    }
}

#[test]
fn protocol_error_message_matches_the_log_line() {
    assert_eq!(FetchError::Protocol.message(), "Unexpected response type");
    assert_eq!(FetchError::Connection("no socket".to_string()).message(), "no socket");
}

#[test]
fn a_move_needs_an_acknowledgement() {
    assert!(expect_handled(Reply::Handled).is_ok());
    match expect_handled(Reply::OtherOk) {
        Err(MoveError::NotAcknowledged) => {},
        _ => panic!("any payload but the acknowledgement fails the move"),
    }
    match expect_handled(Reply::Failure("nope".to_string())) {
        Err(e @ MoveError::Backend(_)) => assert_eq!(e.message(), "nope"),
        _ => panic!("a rejected move must carry the backend's message"),
    }
    assert_eq!(MoveError::NotAcknowledged.message(), "Failed to move workspace");
}

#[test]
fn only_workspace_and_window_events_ask_for_a_refresh() {
    assert!(event_triggers_refresh(&EventKind::WorkspacesChanged));
    assert!(event_triggers_refresh(&EventKind::WorkspaceActivated));
    assert!(event_triggers_refresh(&EventKind::WindowOpenedOrChanged));
    assert!(event_triggers_refresh(&EventKind::WindowClosed));
    assert!(!event_triggers_refresh(&EventKind::Other));
}
