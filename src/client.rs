//! Identifiers and plain enumerations of the methods that clients handle.
use vstd::prelude::*;

use crate::methods::{client_method_name, ClientMethod};

verus! {

/// Unique identifier for a permission option.
#[derive(Clone, Debug, PartialEq, Eq, Hash)]
#[non_exhaustive]
pub struct PermissionOptionId(pub String);

impl PermissionOptionId {
    /// An identifier with the given text.
    pub fn new(id: &str) -> (r: PermissionOptionId)
        ensures
            r.0@ == id@,
    {
        PermissionOptionId(id.to_owned())
    }
}

/// Unique identifier for a terminal.
#[derive(Clone, Debug, PartialEq, Eq, Hash)]
#[non_exhaustive]
pub struct TerminalId(pub String);

impl TerminalId {
    /// An identifier with the given text.
    pub fn new(id: &str) -> (r: TerminalId)
        ensures
            r.0@ == id@,
    {
        TerminalId(id.to_owned())
    }
}

/// The kind of a permission option, which helps clients pick icons.
#[derive(Clone, Copy, Debug, PartialEq, Eq, Structural)]
#[non_exhaustive]
pub enum PermissionOptionKind {
    /// Allow this operation only this time.
    AllowOnce,
    /// Allow this operation and remember the choice.
    AllowAlways,
    /// Reject this operation only this time.
    RejectOnce,
    /// Reject this operation and remember the choice.
    RejectAlways,
}

/// Names of all methods that clients handle.
#[derive(Clone, Debug, PartialEq, Eq)]
#[non_exhaustive]
pub struct ClientMethodNames {
    pub session_request_permission: &'static str,
    pub session_update: &'static str,
    pub fs_write_text_file: &'static str,
    pub fs_read_text_file: &'static str,
    pub terminal_create: &'static str,
    pub terminal_output: &'static str,
    pub terminal_release: &'static str,
    pub terminal_wait_for_exit: &'static str,
    pub terminal_kill: &'static str,
}

/// The names of all methods that clients handle, as the registry has them.
pub fn client_method_names() -> (r: ClientMethodNames)
    ensures
        r.session_request_permission@ == client_method_name(ClientMethod::SessionRequestPermission),
        r.session_update@ == client_method_name(ClientMethod::SessionUpdate),
        r.fs_write_text_file@ == client_method_name(ClientMethod::FsWriteTextFile),
        r.fs_read_text_file@ == client_method_name(ClientMethod::FsReadTextFile),
        r.terminal_create@ == client_method_name(ClientMethod::TerminalCreate),
        r.terminal_output@ == client_method_name(ClientMethod::TerminalOutput),
        r.terminal_release@ == client_method_name(ClientMethod::TerminalRelease),
        r.terminal_wait_for_exit@ == client_method_name(ClientMethod::TerminalWaitForExit),
        r.terminal_kill@ == client_method_name(ClientMethod::TerminalKill),
{
    ClientMethodNames {
        session_request_permission: ClientMethod::SessionRequestPermission.name(),
        session_update: ClientMethod::SessionUpdate.name(),
        fs_write_text_file: ClientMethod::FsWriteTextFile.name(),
        fs_read_text_file: ClientMethod::FsReadTextFile.name(),
        terminal_create: ClientMethod::TerminalCreate.name(),
        terminal_output: ClientMethod::TerminalOutput.name(),
        terminal_release: ClientMethod::TerminalRelease.name(),
        terminal_wait_for_exit: ClientMethod::TerminalWaitForExit.name(),
        terminal_kill: ClientMethod::TerminalKill.name(),
    }
}

/// The user's decision on a permission request.
#[derive(Clone, Debug, PartialEq, Eq)]
#[non_exhaustive]
pub enum RequestPermissionOutcome {
    /// The prompt turn was cancelled before the user answered.
    Cancelled,
    /// The user picked this option.
    Selected(PermissionOptionId),
}

/// Response to a permission request.
#[derive(Clone, Debug, PartialEq, Eq)]
#[non_exhaustive]
pub struct RequestPermissionResponse {
    pub outcome: RequestPermissionOutcome,
}

impl RequestPermissionResponse {
    /// A response with the given outcome.
    pub fn new(outcome: RequestPermissionOutcome) -> (r: RequestPermissionResponse)
        ensures
            r.outcome == outcome,
    {
        RequestPermissionResponse { outcome }
    }

    /// The response that a permission request of a cancelled session gets.
    pub fn cancelled() -> (r: RequestPermissionResponse)
        ensures
            r.outcome == RequestPermissionOutcome::Cancelled,
    {
        RequestPermissionResponse { outcome: RequestPermissionOutcome::Cancelled }
    }
}

} // verus!
