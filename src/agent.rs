//! Identifiers and plain enumerations of the methods that agents handle.
use vstd::prelude::*;
use crate::SessionId;
use crate::methods::{known_method_is_notification, KnownMethod};

use crate::error::Error;
use crate::methods::{agent_method_name, AgentMethod};

verus! {

/// Unique identifier for an authentication method.
#[derive(Clone, Debug, PartialEq, Eq, Hash)]
#[non_exhaustive]
pub struct AuthMethodId(pub String);

impl AuthMethodId {
    /// An identifier with the given text.
    pub fn new(id: &str) -> (r: AuthMethodId)
        ensures
            r.0@ == id@,
    {
        AuthMethodId(id.to_owned())
    }
}

/// Unique identifier for a session mode.
#[derive(Clone, Debug, PartialEq, Eq, Hash)]
#[non_exhaustive]
pub struct SessionModeId(pub String);

impl SessionModeId {
    /// An identifier with the given text.
    pub fn new(id: &str) -> (r: SessionModeId)
        ensures
            r.0@ == id@,
    {
        SessionModeId(id.to_owned())
    }
}

/// Unique identifier for a session configuration option.
#[derive(Clone, Debug, PartialEq, Eq, Hash)]
#[non_exhaustive]
pub struct SessionConfigId(pub String);

impl SessionConfigId {
    /// An identifier with the given text.
    pub fn new(id: &str) -> (r: SessionConfigId)
        ensures
            r.0@ == id@,
    {
        SessionConfigId(id.to_owned())
    }
}

/// Unique identifier for a possible value of a session configuration option.
#[derive(Clone, Debug, PartialEq, Eq, Hash)]
#[non_exhaustive]
pub struct SessionConfigValueId(pub String);

impl SessionConfigValueId {
    /// An identifier with the given text.
    pub fn new(id: &str) -> (r: SessionConfigValueId)
        ensures
            r.0@ == id@,
    {
        SessionConfigValueId(id.to_owned())
    }
}

/// Unique identifier for a group of values of a session configuration option.
#[derive(Clone, Debug, PartialEq, Eq, Hash)]
#[non_exhaustive]
pub struct SessionConfigGroupId(pub String);

impl SessionConfigGroupId {
    /// An identifier with the given text.
    pub fn new(id: &str) -> (r: SessionConfigGroupId)
        ensures
            r.0@ == id@,
    {
        SessionConfigGroupId(id.to_owned())
    }
}

/// Unique identifier for a model.
#[derive(Clone, Debug, PartialEq, Eq, Hash)]
#[non_exhaustive]
pub struct ModelId(pub String);

impl ModelId {
    /// An identifier with the given text.
    pub fn new(id: &str) -> (r: ModelId)
        ensures
            r.0@ == id@,
    {
        ModelId(id.to_owned())
    }
}

/// Reasons why an agent stops processing a prompt turn.
#[derive(Clone, Copy, Debug, PartialEq, Eq, Structural)]
#[non_exhaustive]
pub enum StopReason {
    /// The turn ended successfully.
    EndTurn,
    /// The agent reached the maximum number of tokens.
    MaxTokens,
    /// The agent reached the maximum number of requests between user turns.
    MaxTurnRequests,
    /// The agent refused to continue.
    Refusal,
    /// The turn was cancelled by the client via `session/cancel`.
    Cancelled,
}

impl StopReason {
    /// How a prompt turn settles once its work came back with `outcome`:
    /// after a `session/cancel` of its session the turn ends as cancelled,
    /// whatever the cancellation made the work return, so that it never
    /// fails or hangs on a cancelled session; otherwise the outcome stands.
    pub fn settle_turn(cancelled: bool, outcome: Result<StopReason, Error>) -> (r: Result<
        StopReason,
        Error,
    >)
        ensures
            cancelled ==> r == Ok::<StopReason, Error>(StopReason::Cancelled),
            !cancelled ==> r == outcome,
    {
        if cancelled {
            Ok(StopReason::Cancelled)
        } else {
            outcome
        }
    }
}

/// Semantic category of a session configuration option, for display only.
#[derive(Clone, Copy, Debug, PartialEq, Eq, Structural)]
#[non_exhaustive]
pub enum SessionConfigOptionCategory {
    /// Session mode selector.
    Mode,
    /// Model selector.
    Model,
    /// Thought or reasoning level selector.
    ThoughtLevel,
    /// Unknown or uncategorized selector.
    Other,
}

/// Names of all methods that agents handle.
#[derive(Clone, Debug, PartialEq, Eq)]
#[non_exhaustive]
pub struct AgentMethodNames {
    pub initialize: &'static str,
    pub authenticate: &'static str,
    pub session_new: &'static str,
    pub session_load: &'static str,
    pub session_set_mode: &'static str,
    pub session_set_config_option: &'static str,
    pub session_prompt: &'static str,
    pub session_cancel: &'static str,
    pub session_set_model: &'static str,
    pub session_list: &'static str,
    pub session_fork: &'static str,
    pub session_resume: &'static str,
}

/// The names of all methods that agents handle, as the registry has them.
pub fn agent_method_names() -> (r: AgentMethodNames)
    ensures
        r.initialize@ == agent_method_name(AgentMethod::Initialize),
        r.authenticate@ == agent_method_name(AgentMethod::Authenticate),
        r.session_new@ == agent_method_name(AgentMethod::SessionNew),
        r.session_load@ == agent_method_name(AgentMethod::SessionLoad),
        r.session_set_mode@ == agent_method_name(AgentMethod::SessionSetMode),
        r.session_set_config_option@ == agent_method_name(AgentMethod::SessionSetConfigOption),
        r.session_prompt@ == agent_method_name(AgentMethod::SessionPrompt),
        r.session_cancel@ == agent_method_name(AgentMethod::SessionCancel),
        r.session_set_model@ == agent_method_name(AgentMethod::SessionSetModel),
        r.session_list@ == agent_method_name(AgentMethod::SessionList),
        r.session_fork@ == agent_method_name(AgentMethod::SessionFork),
        r.session_resume@ == agent_method_name(AgentMethod::SessionResume),
{
    AgentMethodNames {
        initialize: AgentMethod::Initialize.name(),
        authenticate: AgentMethod::Authenticate.name(),
        session_new: AgentMethod::SessionNew.name(),
        session_load: AgentMethod::SessionLoad.name(),
        session_set_mode: AgentMethod::SessionSetMode.name(),
        session_set_config_option: AgentMethod::SessionSetConfigOption.name(),
        session_prompt: AgentMethod::SessionPrompt.name(),
        session_cancel: AgentMethod::SessionCancel.name(),
        session_set_model: AgentMethod::SessionSetModel.name(),
        session_list: AgentMethod::SessionList.name(),
        session_fork: AgentMethod::SessionFork.name(),
        session_resume: AgentMethod::SessionResume.name(),
    }
}

/// Notification to cancel ongoing operations for a session; it gets no
/// response and enters no table of pending calls.
#[derive(Clone, Debug, PartialEq, Eq)]
#[non_exhaustive]
pub struct CancelNotification {
    /// The session whose operations are cancelled.
    pub session_id: SessionId,
}

impl CancelNotification {
    /// The cancellation of `session_id`.
    pub fn new(session_id: SessionId) -> (r: CancelNotification)
        ensures
            r.session_id == session_id,
    {
        CancelNotification { session_id }
    }

    /// The method that carries it: `session/cancel`, a notification.
    pub fn method() -> (r: KnownMethod)
        ensures
            r == KnownMethod::Agent(AgentMethod::SessionCancel),
            known_method_is_notification(r),
    {
        KnownMethod::Agent(AgentMethod::SessionCancel)
    }
}

} // verus!
