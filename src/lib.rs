//! Agent Client Protocol: the JSON-RPC message envelope, the method registry of
//! both roles, the table of outstanding calls and the decisions of the dispatch
//! loop, with their contracts.
use vstd::prelude::*;

pub mod agent;
pub mod client;
pub mod connection;
pub mod content;
pub mod error;
pub mod ext;
pub mod maybe_undefined;
pub mod methods;
pub mod plan;
pub mod protocol_level;
pub mod rpc;
pub mod version;

pub use agent::{
    agent_method_names, AgentMethodNames, AuthMethodId, CancelNotification, ModelId, SessionConfigGroupId,
    SessionConfigId, SessionConfigOptionCategory, SessionConfigValueId, SessionModeId, StopReason,
};
pub use client::{
    client_method_names, ClientMethodNames, PermissionOptionId, PermissionOptionKind,
    RequestPermissionOutcome, RequestPermissionResponse, TerminalId,
};
pub use connection::{
    message_of, read_event, Connection, Envelope, FrameRead, HandlerOutcome, InboundAction,
    LoopStep, ProtocolIssue, ReadEvent,
};
pub use content::Role;
pub use error::{Error, ErrorCode};
pub use ext::{ExtNotification, ExtRequest, ExtResponse};
pub use maybe_undefined::{IntoMaybeUndefined, MaybeUndefined};
pub use methods::{route, AgentMethod, ClientMethod, KnownMethod, Route, Side};
pub use plan::{PlanEntryPriority, PlanEntryStatus};
pub use protocol_level::{
    protocol_level_method_names, CancelRequestNotification, GeneralMethodNames,
};
pub use rpc::{
    CallResult, Message, Outcome, PendingCall, PendingCalls, RequestId, Resolution, ResponseAction,
};
pub use version::{ProtocolVersion, VersionError};

verus! {

/// A unique identifier for a conversation session between a client and an
/// agent.
#[derive(Clone, Debug, PartialEq, Eq, Hash)]
#[non_exhaustive]
pub struct SessionId(pub String);

impl SessionId {
    /// A session identifier with the given text.
    pub fn new(id: &str) -> (r: SessionId)
        ensures
            r.0@ == id@,
    {
        SessionId(id.to_owned())
    }
}

/// Conversion for builder methods of optional values: a value, or an
/// `Option` as it is.
pub trait IntoOption<T> {
    fn into_option(self) -> Option<T>;
}

impl<T> IntoOption<T> for Option<T> {
    fn into_option(self) -> Option<T> {
        self
    }
}

impl<T> IntoOption<T> for T {
    fn into_option(self) -> Option<T> {
        Some(self)
    }
}

impl IntoOption<String> for &str {
    fn into_option(self) -> Option<String> {
        Some(self.to_owned())
    }
}

} // verus!
