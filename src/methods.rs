//! The method registry: the methods that each role handles, their names on
//! the wire, and how an inbound method name is resolved.
use vstd::prelude::*;

verus! {

/// Whether two strings hold the same text.
pub fn str_eq(a: &str, b: &str) -> (r: bool)
    ensures
        r == (a@ == b@),
{
    let n = a.unicode_len();
    if n != b.unicode_len() {
        return false;
    }
    let mut i: usize = 0;
    while i < n
        invariant
            n == a@.len(),
            n == b@.len(),
            0 <= i <= n,
            forall|k: int| 0 <= k < i ==> a@[k] == b@[k],
        decreases n - i,
    {
        if a.get_char(i) != b.get_char(i) {
            return false;
        }
        i = i + 1;
    }
    assert(a@ =~= b@);
    true
}

/// The two roles of a connection.
#[derive(Clone, Copy, Debug, PartialEq, Eq, Structural)]
pub enum Side {
    /// The program that uses generative AI to modify code.
    Agent,
    /// The editor that hosts the user-facing environment.
    Client,
}

/// The role at the other end of a connection bound to `s`.
pub open spec fn peer_of(s: Side) -> Side {
    match s {
        Side::Agent => Side::Client,
        Side::Client => Side::Agent,
    }
}

impl Side {
    /// The role at the other end.
    pub fn peer(self) -> (r: Side)
        ensures
            r == peer_of(self),
    {
        match self {
            Side::Agent => Side::Client,
            Side::Client => Side::Agent,
        }
    }
}

/// The methods that an agent handles (the client calls them).
#[derive(Clone, Copy, Debug, PartialEq, Eq, Structural)]
pub enum AgentMethod {
    Initialize,
    Authenticate,
    SessionNew,
    SessionLoad,
    SessionList,
    SessionFork,
    SessionResume,
    SessionSetMode,
    SessionSetConfigOption,
    SessionPrompt,
    SessionSetModel,
    SessionCancel,
}

/// The methods that a client handles (the agent calls them).
#[derive(Clone, Copy, Debug, PartialEq, Eq, Structural)]
pub enum ClientMethod {
    SessionRequestPermission,
    SessionUpdate,
    FsWriteTextFile,
    FsReadTextFile,
    TerminalCreate,
    TerminalOutput,
    TerminalRelease,
    TerminalWaitForExit,
    TerminalKill,
}

/// The wire name of an agent method.
pub open spec fn agent_method_name(m: AgentMethod) -> Seq<char> {
    match m {
        AgentMethod::Initialize => "initialize"@,
        AgentMethod::Authenticate => "authenticate"@,
        AgentMethod::SessionNew => "session/new"@,
        AgentMethod::SessionLoad => "session/load"@,
        AgentMethod::SessionList => "session/list"@,
        AgentMethod::SessionFork => "session/fork"@,
        AgentMethod::SessionResume => "session/resume"@,
        AgentMethod::SessionSetMode => "session/set_mode"@,
        AgentMethod::SessionSetConfigOption => "session/set_config_option"@,
        AgentMethod::SessionPrompt => "session/prompt"@,
        AgentMethod::SessionSetModel => "session/set_model"@,
        AgentMethod::SessionCancel => "session/cancel"@,
    }
}

/// The wire name of a client method.
pub open spec fn client_method_name(m: ClientMethod) -> Seq<char> {
    match m {
        ClientMethod::SessionRequestPermission => "session/request_permission"@,
        ClientMethod::SessionUpdate => "session/update"@,
        ClientMethod::FsWriteTextFile => "fs/write_text_file"@,
        ClientMethod::FsReadTextFile => "fs/read_text_file"@,
        ClientMethod::TerminalCreate => "terminal/create"@,
        ClientMethod::TerminalOutput => "terminal/output"@,
        ClientMethod::TerminalRelease => "terminal/release"@,
        ClientMethod::TerminalWaitForExit => "terminal/wait_for_exit"@,
        ClientMethod::TerminalKill => "terminal/kill"@,
    }
}

/// The wire name of the protocol-level request cancellation.
pub open spec fn cancel_request_name() -> Seq<char> {
    "$/cancel_request"@
}

/// The agent methods that are notifications: they get no response.
pub open spec fn agent_method_is_notification(m: AgentMethod) -> bool {
    m == AgentMethod::SessionCancel
}

/// The client methods that are notifications: they get no response.
pub open spec fn client_method_is_notification(m: ClientMethod) -> bool {
    m == ClientMethod::SessionUpdate
}

/// The position of an agent method in the registry.
pub open spec fn agent_method_index(m: AgentMethod) -> int {
    match m {
        AgentMethod::Initialize => 0,
        AgentMethod::Authenticate => 1,
        AgentMethod::SessionNew => 2,
        AgentMethod::SessionLoad => 3,
        AgentMethod::SessionList => 4,
        AgentMethod::SessionFork => 5,
        AgentMethod::SessionResume => 6,
        AgentMethod::SessionSetMode => 7,
        AgentMethod::SessionSetConfigOption => 8,
        AgentMethod::SessionPrompt => 9,
        AgentMethod::SessionSetModel => 10,
        AgentMethod::SessionCancel => 11,
    }
}

/// The name of the payload type that a agent method carries.
pub open spec fn agent_payload_name(m: AgentMethod) -> Seq<char> {
    match m {
        AgentMethod::Initialize => "InitializeRequest"@,
        AgentMethod::Authenticate => "AuthenticateRequest"@,
        AgentMethod::SessionNew => "NewSessionRequest"@,
        AgentMethod::SessionLoad => "LoadSessionRequest"@,
        AgentMethod::SessionList => "ListSessionsRequest"@,
        AgentMethod::SessionFork => "ForkSessionRequest"@,
        AgentMethod::SessionResume => "ResumeSessionRequest"@,
        AgentMethod::SessionSetMode => "SetSessionModeRequest"@,
        AgentMethod::SessionSetConfigOption => "SetSessionConfigOptionRequest"@,
        AgentMethod::SessionPrompt => "PromptRequest"@,
        AgentMethod::SessionSetModel => "SetSessionModelRequest"@,
        AgentMethod::SessionCancel => "CancelNotification"@,
    }
}

impl AgentMethod {
    /// The name of the payload type that the method carries.
    pub fn payload_name(self) -> (r: &'static str)
        ensures
            r@ == agent_payload_name(self),
    {
        match self {
            AgentMethod::Initialize => "InitializeRequest",
            AgentMethod::Authenticate => "AuthenticateRequest",
            AgentMethod::SessionNew => "NewSessionRequest",
            AgentMethod::SessionLoad => "LoadSessionRequest",
            AgentMethod::SessionList => "ListSessionsRequest",
            AgentMethod::SessionFork => "ForkSessionRequest",
            AgentMethod::SessionResume => "ResumeSessionRequest",
            AgentMethod::SessionSetMode => "SetSessionModeRequest",
            AgentMethod::SessionSetConfigOption => "SetSessionConfigOptionRequest",
            AgentMethod::SessionPrompt => "PromptRequest",
            AgentMethod::SessionSetModel => "SetSessionModelRequest",
            AgentMethod::SessionCancel => "CancelNotification",
        }
    }

    /// The wire name of the method.
    pub fn name(self) -> (r: &'static str)
        ensures
            r@ == agent_method_name(self),
    {
        match self {
            AgentMethod::Initialize => "initialize",
            AgentMethod::Authenticate => "authenticate",
            AgentMethod::SessionNew => "session/new",
            AgentMethod::SessionLoad => "session/load",
            AgentMethod::SessionList => "session/list",
            AgentMethod::SessionFork => "session/fork",
            AgentMethod::SessionResume => "session/resume",
            AgentMethod::SessionSetMode => "session/set_mode",
            AgentMethod::SessionSetConfigOption => "session/set_config_option",
            AgentMethod::SessionPrompt => "session/prompt",
            AgentMethod::SessionSetModel => "session/set_model",
            AgentMethod::SessionCancel => "session/cancel",
        }
    }

    /// Whether the method is a notification rather than a request.
    pub fn is_notification(self) -> (r: bool)
        ensures
            r == agent_method_is_notification(self),
    {
        match self {
            AgentMethod::SessionCancel => true,
            _ => false,
        }
    }

    /// The agent method with the given wire name, among the notifications
    /// or among the requests.
    pub fn lookup(name: &str, notification: bool) -> (r: Option<AgentMethod>)
        ensures
            r matches Some(m) ==> agent_method_name(m) == name@ && agent_method_is_notification(m) == notification,
            r is None ==> forall|m: AgentMethod|
                agent_method_is_notification(m) == notification ==> #[trigger] agent_method_name(m) != name@,
    {
        let all = [
            AgentMethod::Initialize,
            AgentMethod::Authenticate,
            AgentMethod::SessionNew,
            AgentMethod::SessionLoad,
            AgentMethod::SessionList,
            AgentMethod::SessionFork,
            AgentMethod::SessionResume,
            AgentMethod::SessionSetMode,
            AgentMethod::SessionSetConfigOption,
            AgentMethod::SessionPrompt,
            AgentMethod::SessionSetModel,
            AgentMethod::SessionCancel,
        ];
        let mut i: usize = 0;
        while i < 12
            invariant
                0 <= i <= 12,
                all@.len() == 12,
                forall|m: AgentMethod| all@[#[trigger] agent_method_index(m)] == m,
                forall|k: int|
                    0 <= k < i && agent_method_is_notification(#[trigger] all@[k]) == notification ==> agent_method_name(
                        all@[k],
                    ) != name@,
            decreases 12 - i,
        {
            let m = all[i];
            if m.is_notification() == notification && str_eq(m.name(), name) {
                return Some(m);
            }
            i = i + 1;
        }
        None
    }
}

/// The position of a client method in the registry.
pub open spec fn client_method_index(m: ClientMethod) -> int {
    match m {
        ClientMethod::SessionRequestPermission => 0,
        ClientMethod::SessionUpdate => 1,
        ClientMethod::FsWriteTextFile => 2,
        ClientMethod::FsReadTextFile => 3,
        ClientMethod::TerminalCreate => 4,
        ClientMethod::TerminalOutput => 5,
        ClientMethod::TerminalRelease => 6,
        ClientMethod::TerminalWaitForExit => 7,
        ClientMethod::TerminalKill => 8,
    }
}

/// The name of the payload type that a client method carries.
pub open spec fn client_payload_name(m: ClientMethod) -> Seq<char> {
    match m {
        ClientMethod::SessionRequestPermission => "RequestPermissionRequest"@,
        ClientMethod::SessionUpdate => "SessionNotification"@,
        ClientMethod::FsWriteTextFile => "WriteTextFileRequest"@,
        ClientMethod::FsReadTextFile => "ReadTextFileRequest"@,
        ClientMethod::TerminalCreate => "CreateTerminalRequest"@,
        ClientMethod::TerminalOutput => "TerminalOutputRequest"@,
        ClientMethod::TerminalRelease => "ReleaseTerminalRequest"@,
        ClientMethod::TerminalWaitForExit => "WaitForTerminalExitRequest"@,
        ClientMethod::TerminalKill => "KillTerminalCommandRequest"@,
    }
}

impl ClientMethod {
    /// The name of the payload type that the method carries.
    pub fn payload_name(self) -> (r: &'static str)
        ensures
            r@ == client_payload_name(self),
    {
        match self {
            ClientMethod::SessionRequestPermission => "RequestPermissionRequest",
            ClientMethod::SessionUpdate => "SessionNotification",
            ClientMethod::FsWriteTextFile => "WriteTextFileRequest",
            ClientMethod::FsReadTextFile => "ReadTextFileRequest",
            ClientMethod::TerminalCreate => "CreateTerminalRequest",
            ClientMethod::TerminalOutput => "TerminalOutputRequest",
            ClientMethod::TerminalRelease => "ReleaseTerminalRequest",
            ClientMethod::TerminalWaitForExit => "WaitForTerminalExitRequest",
            ClientMethod::TerminalKill => "KillTerminalCommandRequest",
        }
    }

    /// The wire name of the method.
    pub fn name(self) -> (r: &'static str)
        ensures
            r@ == client_method_name(self),
    {
        match self {
            ClientMethod::SessionRequestPermission => "session/request_permission",
            ClientMethod::SessionUpdate => "session/update",
            ClientMethod::FsWriteTextFile => "fs/write_text_file",
            ClientMethod::FsReadTextFile => "fs/read_text_file",
            ClientMethod::TerminalCreate => "terminal/create",
            ClientMethod::TerminalOutput => "terminal/output",
            ClientMethod::TerminalRelease => "terminal/release",
            ClientMethod::TerminalWaitForExit => "terminal/wait_for_exit",
            ClientMethod::TerminalKill => "terminal/kill",
        }
    }

    /// Whether the method is a notification rather than a request.
    pub fn is_notification(self) -> (r: bool)
        ensures
            r == client_method_is_notification(self),
    {
        match self {
            ClientMethod::SessionUpdate => true,
            _ => false,
        }
    }

    /// The client method with the given wire name, among the notifications
    /// or among the requests.
    pub fn lookup(name: &str, notification: bool) -> (r: Option<ClientMethod>)
        ensures
            r matches Some(m) ==> client_method_name(m) == name@ && client_method_is_notification(m) == notification,
            r is None ==> forall|m: ClientMethod|
                client_method_is_notification(m) == notification ==> #[trigger] client_method_name(m) != name@,
    {
        let all = [
            ClientMethod::SessionRequestPermission,
            ClientMethod::SessionUpdate,
            ClientMethod::FsWriteTextFile,
            ClientMethod::FsReadTextFile,
            ClientMethod::TerminalCreate,
            ClientMethod::TerminalOutput,
            ClientMethod::TerminalRelease,
            ClientMethod::TerminalWaitForExit,
            ClientMethod::TerminalKill,
        ];
        let mut i: usize = 0;
        while i < 9
            invariant
                0 <= i <= 9,
                all@.len() == 9,
                forall|m: ClientMethod| all@[#[trigger] client_method_index(m)] == m,
                forall|k: int|
                    0 <= k < i && client_method_is_notification(#[trigger] all@[k]) == notification ==> client_method_name(
                        all@[k],
                    ) != name@,
            decreases 9 - i,
        {
            let m = all[i];
            if m.is_notification() == notification && str_eq(m.name(), name) {
                return Some(m);
            }
            i = i + 1;
        }
        None
    }
}

/// A method of the fixed registry.
#[derive(Clone, Copy, Debug, PartialEq, Eq, Structural)]
pub enum KnownMethod {
    /// A method that agents handle.
    Agent(AgentMethod),
    /// A method that clients handle.
    Client(ClientMethod),
    /// The protocol-level cancellation of a request, which both roles handle.
    CancelRequest,
}

/// The wire name of a known method.
pub open spec fn known_method_name(m: KnownMethod) -> Seq<char> {
    match m {
        KnownMethod::Agent(a) => agent_method_name(a),
        KnownMethod::Client(c) => client_method_name(c),
        KnownMethod::CancelRequest => cancel_request_name(),
    }
}

/// Whether a known method is a notification rather than a request.
pub open spec fn known_method_is_notification(m: KnownMethod) -> bool {
    match m {
        KnownMethod::Agent(a) => agent_method_is_notification(a),
        KnownMethod::Client(c) => client_method_is_notification(c),
        KnownMethod::CancelRequest => true,
    }
}

/// Whether a connection bound to role `s` handles the method when it comes in.
pub open spec fn handled_by(m: KnownMethod, s: Side) -> bool {
    match m {
        KnownMethod::Agent(_) => s == Side::Agent,
        KnownMethod::Client(_) => s == Side::Client,
        KnownMethod::CancelRequest => true,
    }
}

/// Whether a connection bound to role `s` may send the method: it is one
/// that the role at the other end handles.
pub open spec fn sendable_by(m: KnownMethod, s: Side) -> bool {
    handled_by(m, peer_of(s))
}

impl KnownMethod {
    /// The wire name of the method.
    pub fn name(self) -> (r: &'static str)
        ensures
            r@ == known_method_name(self),
    {
        match self {
            KnownMethod::Agent(a) => a.name(),
            KnownMethod::Client(c) => c.name(),
            KnownMethod::CancelRequest => "$/cancel_request",
        }
    }

    /// Whether a connection bound to `side` handles the method.
    pub fn is_handled_by(self, side: Side) -> (r: bool)
        ensures
            r == handled_by(self, side),
    {
        match self {
            KnownMethod::Agent(_) => side == Side::Agent,
            KnownMethod::Client(_) => side == Side::Client,
            KnownMethod::CancelRequest => true,
        }
    }

    /// Whether the method is a notification rather than a request.
    pub fn is_notification(self) -> (r: bool)
        ensures
            r == known_method_is_notification(self),
    {
        match self {
            KnownMethod::Agent(a) => a.is_notification(),
            KnownMethod::Client(c) => c.is_notification(),
            KnownMethod::CancelRequest => true,
        }
    }
}

/// How an inbound method name is resolved.
#[derive(Clone, Copy, Debug, PartialEq, Eq, Structural)]
pub enum Route {
    /// A method of the registry that this role handles.
    Known(KnownMethod),
    /// Any other name: the message goes, untouched, to the extension handler.
    Extension,
}

/// Resolves an inbound method name for a connection bound to `side`, among
/// the notifications or among the requests: an exact match among the
/// methods that this role handles, else the extension path.
pub fn route(side: Side, name: &str, notification: bool) -> (r: Route)
    ensures
        r matches Route::Known(m) ==> handled_by(m, side) && known_method_name(m) == name@
            && known_method_is_notification(m) == notification,
        r is Extension ==> forall|m: KnownMethod|
            handled_by(m, side) && known_method_is_notification(m) == notification
                ==> #[trigger] known_method_name(m) != name@,
        forall|m: KnownMethod|
            handled_by(m, side) && known_method_is_notification(m) == notification
                && #[trigger] known_method_name(m) == name@ ==> r == Route::Known(m),
{
    if notification && str_eq(name, "$/cancel_request") {
        proof {
            assert forall|m: KnownMethod|
                handled_by(m, side) && known_method_is_notification(m) == notification
                    && #[trigger] known_method_name(m) == name@ implies m
                == KnownMethod::CancelRequest by {
                lemma_known_names_distinct(KnownMethod::CancelRequest, m);
            }
        }
        return Route::Known(KnownMethod::CancelRequest);
    }
    let r = match side {
        Side::Agent => match AgentMethod::lookup(name, notification) {
            Some(a) => Route::Known(KnownMethod::Agent(a)),
            None => Route::Extension,
        },
        Side::Client => match ClientMethod::lookup(name, notification) {
            Some(c) => Route::Known(KnownMethod::Client(c)),
            None => Route::Extension,
        },
    };
    proof {
        assert forall|m: KnownMethod|
            handled_by(m, side) && known_method_is_notification(m) == notification
                && #[trigger] known_method_name(m) == name@ implies r == Route::Known(m) by {
            if let Route::Known(k) = r {
                lemma_known_names_distinct(k, m);
            }
        }
        if r is Extension {
            assert forall|m: KnownMethod|
                handled_by(m, side) && known_method_is_notification(m) == notification
                    implies #[trigger] known_method_name(m) != name@ by {
                match m {
                    KnownMethod::Agent(a) => {},
                    KnownMethod::Client(c) => {},
                    KnownMethod::CancelRequest => {},
                }
            }
        }
    }
    r
}

/// No two methods of the registry share a wire name, so a name resolves to
/// one method at most.
#[verifier::rlimit(50)]
pub proof fn lemma_known_names_distinct(a: KnownMethod, b: KnownMethod)
    requires
        known_method_name(a) == known_method_name(b),
    ensures
        a == b,
{
    reveal_strlit("initialize");
    reveal_strlit("authenticate");
    reveal_strlit("session/new");
    reveal_strlit("session/load");
    reveal_strlit("session/list");
    reveal_strlit("session/fork");
    reveal_strlit("session/resume");
    reveal_strlit("session/set_mode");
    reveal_strlit("session/set_config_option");
    reveal_strlit("session/prompt");
    reveal_strlit("session/set_model");
    reveal_strlit("session/cancel");
    reveal_strlit("session/request_permission");
    reveal_strlit("session/update");
    reveal_strlit("fs/write_text_file");
    reveal_strlit("fs/read_text_file");
    reveal_strlit("terminal/create");
    reveal_strlit("terminal/output");
    reveal_strlit("terminal/release");
    reveal_strlit("terminal/wait_for_exit");
    reveal_strlit("terminal/kill");
    reveal_strlit("$/cancel_request");
    let x = known_method_name(a);
    let y = known_method_name(b);
    assert(x.len() == y.len());
    assert(x[0] == y[0]);
    assert(x[1] == y[1]);
    assert(x[2] == y[2]);
    assert(x[3] == y[3]);
    assert(x[8] == y[8]);
    assert(x[9] == y[9]);
    assert(x[10] == y[10]);
}

} // verus!
