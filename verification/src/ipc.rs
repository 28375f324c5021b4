//! The decision side of the IPC boundary: classifying replies, the error
//! taxonomy, and which events ask for a refresh. The socket itself lives
//! outside this crate and hands these functions plain values.

use vstd::prelude::*;
use vstd::string::StringExecFns;
use crate::model::{WorkspaceSnapshot, WindowInfo};

verus! {

/// A backend reply, reduced to what the protocol logic reads: the payload
/// kinds this module asks for, any other successful payload, or an error
/// message from the backend.
pub enum Reply {
    Workspaces(Vec<WorkspaceSnapshot>),
    Windows(Vec<WindowInfo>),
    Handled,
    OtherOk,
    Failure(String),
}

/// Why a fetch failed: the transport could not be established (with the
/// transport's message), the response did not match the request, or the
/// backend rejected the request.
#[derive(Debug)]
pub enum FetchError {
    Connection(String),
    Protocol,
    Backend(String),
}

impl FetchError {
    /// The message the error is logged with.
    pub fn message(&self) -> (m: String)
        ensures
            m@ == match *self {
                FetchError::Connection(s) => s@,
                FetchError::Protocol => "Unexpected response type"@,
                FetchError::Backend(s) => s@,
            },
    {
        match self {
            FetchError::Connection(s) => s.clone(),
            FetchError::Protocol => String::from_str("Unexpected response type"),
            FetchError::Backend(s) => s.clone(),
        }
    }
}

/// Why a move failed: the backend answered with something other than an
/// acknowledgement, or rejected it outright.
pub enum MoveError {
    NotAcknowledged,
    Backend(String),
}

impl MoveError {
    /// The message the error is logged with.
    pub fn message(&self) -> (m: String)
        ensures
            m@ == match *self {
                MoveError::NotAcknowledged => "Failed to move workspace"@,
                MoveError::Backend(s) => s@,
            },
    {
        match self {
            MoveError::NotAcknowledged => String::from_str("Failed to move workspace"),
            MoveError::Backend(s) => s.clone(),
        }
    }
}

/// Accepts exactly a workspace-list reply; any backend error surfaces as a
/// backend failure, any other payload as a protocol mismatch. A fetch never
/// hands partial results on.
pub fn expect_workspaces(reply: Reply) -> (r: Result<Vec<WorkspaceSnapshot>, FetchError>)
    ensures
        r == match reply {
            Reply::Workspaces(ws) => Result::<Vec<WorkspaceSnapshot>, FetchError>::Ok(ws),
            Reply::Failure(m) => Result::<Vec<WorkspaceSnapshot>, FetchError>::Err(
                FetchError::Backend(m),
            ),
            _ => Result::<Vec<WorkspaceSnapshot>, FetchError>::Err(FetchError::Protocol),
        },
{
    match reply {
        Reply::Workspaces(ws) => Result::Ok(ws),
        Reply::Failure(m) => Result::Err(FetchError::Backend(m)),
        _ => Result::Err(FetchError::Protocol),
    }
}

/// Accepts exactly a window-list reply, as `expect_workspaces` does for
/// workspaces.
pub fn expect_windows(reply: Reply) -> (r: Result<Vec<WindowInfo>, FetchError>)
    ensures
        r == match reply {
            Reply::Windows(w) => Result::<Vec<WindowInfo>, FetchError>::Ok(w),
            Reply::Failure(m) => Result::<Vec<WindowInfo>, FetchError>::Err(
                FetchError::Backend(m),
            ),
            _ => Result::<Vec<WindowInfo>, FetchError>::Err(FetchError::Protocol),
        },
{
    match reply {
        Reply::Windows(w) => Result::Ok(w),
        Reply::Failure(m) => Result::Err(FetchError::Backend(m)),
        _ => Result::Err(FetchError::Protocol),
    }
}

/// Accepts exactly the acknowledgement of a move command; anything else
/// fails the move.
pub fn expect_handled(reply: Reply) -> (r: Result<(), MoveError>)
    ensures
        r == match reply {
            Reply::Handled => Result::<(), MoveError>::Ok(()),
            Reply::Failure(m) => Result::<(), MoveError>::Err(MoveError::Backend(m)),
            _ => Result::<(), MoveError>::Err(MoveError::NotAcknowledged),
        },
{
    match reply {
        Reply::Handled => Result::Ok(()),
        Reply::Failure(m) => Result::Err(MoveError::Backend(m)),
        _ => Result::Err(MoveError::NotAcknowledged),
    }
}

/// A compositor event, reduced to the kinds of interest; everything else is
/// `Other`.
pub enum EventKind {
    WorkspacesChanged,
    WorkspaceActivated,
    WindowOpenedOrChanged,
    WindowClosed,
    Other,
}

/// Whether an event asks for a refresh: exactly the workspace-set,
/// workspace-activation and window events do.
pub fn event_triggers_refresh(event: &EventKind) -> (r: bool)
    ensures
        r <==> (*event is WorkspacesChanged || *event is WorkspaceActivated
            || *event is WindowOpenedOrChanged || *event is WindowClosed),
{
    match event {
        EventKind::WorkspacesChanged => true,
        EventKind::WorkspaceActivated => true,
        EventKind::WindowOpenedOrChanged => true,
        EventKind::WindowClosed => true,
        EventKind::Other => false,
    }
}

} // verus!
