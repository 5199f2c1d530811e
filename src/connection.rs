//! A connection bound to one role: the outbound calls it may make, and the
//! decisions of the dispatch loop for each message that it reads.
//!
//! The I/O around it (reading frames, running handlers concurrently, the one
//! writer) is the caller's; each decision here is a function from the state
//! and the message read to the next state and what to do.
use vstd::prelude::*;

use crate::error::{code_description, json_string_text, Error, ErrorCode};
use crate::methods::{
    str_eq, handled_by, known_method_is_notification, known_method_name, route, sendable_by, KnownMethod,
    Route, Side,
};
use crate::rpc::{
    apply_event, outstanding, result_of, CallEvent, CallTable, Message, Outcome, PendingCalls,
    RequestId, Resolution, ResponseAction,
};

verus! {

/// What a handler of an inbound request came back with.
#[derive(Debug)]
pub enum HandlerOutcome {
    /// A result, as raw JSON text.
    Answer(String),
    /// An error that the handler reported; it is sent back as it is.
    Reject(Error),
    /// The handler failed without reporting an error; this describes it.
    Crash(String),
}

/// A protocol error that is reported and does not end the connection.
#[derive(Debug)]
pub enum ProtocolIssue {
    /// A response whose id matches no pending call.
    UnmatchedResponse(RequestId),
    /// A notification of a known method whose parameters did not decode.
    UndecodableNotification { method: String, message: String },
    /// A JSON value that is not a valid request, response or notification.
    InvalidEnvelope,
}

/// What the read side of the transport produced.
#[derive(Debug)]
pub enum ReadEvent {
    /// A message; `failure` is the parser's message when the parameters of a
    /// known method did not decode.
    Frame { msg: Message, failure: Option<String> },
    /// A JSON value that is not a valid message.
    InvalidEnvelope,
    /// Bytes that are not a JSON value: the stream cannot be trusted further.
    MalformedFrame,
    /// The stream ended.
    EndOfStream,
}

/// The members of one JSON-RPC object as read from the wire; parameters
/// and results are raw JSON text.
#[derive(Debug)]
pub struct Envelope {
    pub id: Option<RequestId>,
    pub method: Option<String>,
    pub params: Option<String>,
    pub result: Option<String>,
    pub error: Option<Error>,
}

/// What one read of the transport gave.
#[derive(Debug)]
pub enum FrameRead {
    /// The stream ended.
    Ended,
    /// Bytes that are not JSON.
    NotJson,
    /// JSON that is not an object with members of the envelope's types.
    NotEnvelope,
    /// An object with these members.
    Members(Envelope),
}

/// The message that an envelope's members make, by their shape: id and
/// method make a request, a method alone a notification, an id with exactly
/// one of result and error a response; any other shape is no message.
pub open spec fn envelope_message(e: Envelope) -> Option<Message> {
    match (e.id, e.method, e.result, e.error) {
        (Some(id), Some(method), None, None) => Some(
            Message::Request { id, method, params: e.params },
        ),
        (None, Some(method), None, None) => Some(Message::Notification { method, params: e.params }),
        (Some(id), None, Some(t), None) => Some(
            Message::Response { id, outcome: Outcome::Result(t) },
        ),
        (Some(id), None, None, Some(err)) => Some(
            Message::Response { id, outcome: Outcome::Error(err) },
        ),
        _ => None,
    }
}

/// The message that an envelope's members make, if any.
pub fn message_of(e: Envelope) -> (r: Option<Message>)
    ensures
        r == envelope_message(e),
{
    let params = e.params;
    match (e.id, e.method, e.result, e.error) {
        (Some(id), Some(method), None, None) => Some(Message::Request { id, method, params }),
        (None, Some(method), None, None) => Some(Message::Notification { method, params }),
        (Some(id), None, Some(t), None) => Some(
            Message::Response { id, outcome: Outcome::Result(t) },
        ),
        (Some(id), None, None, Some(err)) => Some(
            Message::Response { id, outcome: Outcome::Error(err) },
        ),
        _ => None,
    }
}

/// The event that a read hands to the dispatch loop: the end of the stream
/// and bytes that are not JSON are fatal; JSON that makes no message is an
/// invalid envelope, which is not; a message goes on to be decided.
pub fn read_event(f: FrameRead) -> (r: ReadEvent)
    ensures
        match f {
            FrameRead::Ended => r == ReadEvent::EndOfStream,
            FrameRead::NotJson => r == ReadEvent::MalformedFrame,
            FrameRead::NotEnvelope => r == ReadEvent::InvalidEnvelope,
            FrameRead::Members(e) => match envelope_message(e) {
                Some(msg) => r == (ReadEvent::Frame { msg, failure: None }),
                None => r == ReadEvent::InvalidEnvelope,
            },
        },
{
    match f {
        FrameRead::Ended => ReadEvent::EndOfStream,
        FrameRead::NotJson => ReadEvent::MalformedFrame,
        FrameRead::NotEnvelope => ReadEvent::InvalidEnvelope,
        FrameRead::Members(e) => match message_of(e) {
            Some(msg) => ReadEvent::Frame { msg, failure: None },
            None => ReadEvent::InvalidEnvelope,
        },
    }
}

/// What the dispatch loop does after one read.
#[derive(Debug)]
pub enum LoopStep {
    /// Carry out this action and read on.
    Act(InboundAction),
    /// Stop reading: the connection is closed, and these pending calls are
    /// settled as closed.
    Stop(Vec<Resolution>),
}

/// What the dispatch loop does with a message that it read.
#[derive(Debug)]
pub enum InboundAction {
    /// Run the handler of a known method, concurrently with further reads;
    /// for a request (`id` is `Some`) write its response when it completes.
    Handle { id: Option<RequestId>, method: KnownMethod, params: Option<String> },
    /// Hand the method name and the raw parameters, untouched, to the
    /// extension handler; for a request, write back what it returns.
    Extension { id: Option<RequestId>, method: String, params: Option<String> },
    /// Write this response now; no handler runs.
    Reply(Message),
    /// Hand this resolution to the caller that waits for it.
    Resolve(Resolution),
    /// Report this protocol error; the connection stays up.
    Report(ProtocolIssue),
}

/// Whether a role handles a known method of this name and kind.
pub open spec fn inbound_known(side: Side, name: Seq<char>, notification: bool) -> bool {
    exists|m: KnownMethod|
        handled_by(m, side) && known_method_is_notification(m) == notification
            && #[trigger] known_method_name(m) == name
}

/// `e` is the invalid-params error that carries the parser's message `f`.
pub open spec fn is_params_error(e: Error, f: Seq<char>) -> bool {
    &&& e.code == ErrorCode::InvalidParams
    &&& e.message@ == code_description(ErrorCode::InvalidParams)
    &&& e.data matches Some(d) && d@ == json_string_text(f)
}

/// `e` is the internal error that carries the failure description `d`.
pub open spec fn is_internal_error(e: Error, d: Seq<char>) -> bool {
    &&& e.code == ErrorCode::InternalError
    &&& e.message@ == code_description(ErrorCode::InternalError)
    &&& e.data matches Some(x) && x@ == json_string_text(d)
}

/// The response written for request `id` after its handler came back with
/// `out`.
pub open spec fn respond_post(id: RequestId, out: HandlerOutcome, r: Message) -> bool {
    match out {
        HandlerOutcome::Answer(t) => r == Message::Response { id, outcome: Outcome::Result(t) },
        HandlerOutcome::Reject(e) => r == Message::Response { id, outcome: Outcome::Error(e) },
        HandlerOutcome::Crash(d) => r matches Message::Response { id: i, outcome: Outcome::Error(e) }
            && i == id && is_internal_error(e, d@),
    }
}

/// What reading `msg` does, on a connection bound to `side` whose table goes
/// from `t0` to `t1`; `failure` is the parser's message when the parameters
/// of a known method did not decode.
pub open spec fn receive_post(
    side: Side,
    t0: CallTable,
    t1: CallTable,
    msg: Message,
    failure: Option<String>,
    r: InboundAction,
) -> bool {
    match msg {
        Message::Request { id, method, params } => {
            &&& t1 == t0
            &&& if inbound_known(side, method@, false) {
                match failure {
                    Some(f) => r matches InboundAction::Reply(
                        Message::Response { id: i, outcome: Outcome::Error(e) },
                    ) && i == id && is_params_error(e, f@),
                    None => r matches InboundAction::Handle { id: Some(i), method: m, params: p }
                        && i == id && p == params && handled_by(m, side)
                        && !known_method_is_notification(m) && known_method_name(m) == method@,
                }
            } else {
                r == InboundAction::Extension { id: Some(id), method, params }
            }
        },
        Message::Notification { method, params } => {
            &&& t1 == t0
            &&& if inbound_known(side, method@, true) {
                match failure {
                    Some(f) => r == InboundAction::Report(
                        ProtocolIssue::UndecodableNotification { method, message: f },
                    ),
                    None => r matches InboundAction::Handle { id: None, method: m, params: p }
                        && p == params && handled_by(m, side) && known_method_is_notification(m)
                        && known_method_name(m) == method@,
                }
            } else {
                r == InboundAction::Extension { id: None, method, params }
            }
        },
        Message::Response { id, outcome } => match id {
            RequestId::Number(n) => {
                &&& t1 == apply_event(t0, CallEvent::Reply { id: n as nat })
                &&& if outstanding(t0).contains(n as nat) {
                    r matches InboundAction::Resolve(res) && res.call.id == n
                        && t0.calls.contains(res.call@) && res.result == result_of(outcome)
                } else {
                    r == InboundAction::Report(ProtocolIssue::UnmatchedResponse(id))
                }
            },
            RequestId::Str(_) => t1 == t0 && r == InboundAction::Report(
                ProtocolIssue::UnmatchedResponse(id),
            ),
        },
    }
}

/// A connection bound to one role, with the calls that it has issued and
/// that wait for their response.
pub struct Connection {
    side: Side,
    calls: PendingCalls,
    closed: bool,
    cancelled: Vec<String>,
}

impl Connection {
    /// The role that the connection is bound to.
    pub closed spec fn bound_side(&self) -> Side {
        self.side
    }

    /// Whether the transport has closed.
    pub closed spec fn is_closed(&self) -> bool {
        self.closed
    }

    /// The sessions that were cancelled and whose next turn has not begun.
    pub closed spec fn cancelled_sessions(&self) -> Seq<Seq<char>> {
        texts(self.cancelled@)
    }

    /// Whether a session is cancelled: no call tagged with it is issued
    /// until its next turn begins.
    pub open spec fn is_cancelled(&self, session: Seq<char>) -> bool {
        self.cancelled_sessions().contains(session)
    }

    /// The table of the calls that this side issued.
    pub closed spec fn table(&self) -> CallTable {
        self.calls@
    }

    /// The connection is well formed.
    pub closed spec fn wf(&self) -> bool {
        self.calls.wf()
    }

    /// A connection bound to `side`, with no call issued yet.
    pub fn new(side: Side) -> (r: Connection)
        ensures
            r.wf(),
            r.bound_side() == side,
            !r.is_closed(),
            r.cancelled_sessions().len() == 0,
            r.table().next_id == 0,
            r.table().calls.len() == 0,
    {
        Connection { side, calls: PendingCalls::new(), closed: false, cancelled: Vec::new() }
    }

    /// The role that the connection is bound to.
    pub fn side(&self) -> (r: Side)
        ensures
            r == self.bound_side(),
    {
        self.side
    }
}

/// The texts of a sequence of strings.
pub open spec fn texts(v: Seq<String>) -> Seq<Seq<char>> {
    v.map_values(|s: String| s@)
}

/// Whether a connection issues no call tagged with `session`: it is closed,
/// or the session is cancelled.
pub open spec fn refuses_call(c: Connection, session: Option<&str>) -> bool {
    c.is_closed() || (session matches Some(s) && c.is_cancelled(s@))
}

impl Connection {
    /// Whether `session` is among the cancelled sessions.
    fn cancelled_contains(&self, session: &str) -> (r: bool)
        ensures
            r == self.is_cancelled(session@),
    {
        let mut i: usize = 0;
        while i < self.cancelled.len()
            invariant
                0 <= i <= self.cancelled.len(),
                forall|k: int| 0 <= k < i ==> self.cancelled@[k]@ != session@,
            decreases self.cancelled.len() - i,
        {
            if str_eq(self.cancelled[i].as_str(), session) {
                proof {
                    assert(self.cancelled_sessions()[i as int] == session@);
                }
                return true;
            }
            i = i + 1;
        }
        proof {
            assert forall|k: int| 0 <= k < self.cancelled_sessions().len() implies
                self.cancelled_sessions()[k] != session@ by {
                assert(self.cancelled_sessions()[k] == self.cancelled@[k]@);
            }
        }
        false
    }

    /// A new turn of `session` begins (a new prompt came in): calls tagged
    /// with it may be issued again.
    pub fn begin_turn(&mut self, session: &str)
        requires
            old(self).wf(),
        ensures
            final(self).wf(),
            final(self).bound_side() == old(self).bound_side(),
            final(self).is_closed() == old(self).is_closed(),
            final(self).table() == old(self).table(),
            forall|x: Seq<char>|
                #[trigger] final(self).is_cancelled(x) <==> old(self).is_cancelled(x) && x != session@,
    {
        let mut kept: Vec<String> = Vec::new();
        let mut rest: Vec<String> = Vec::new();
        std::mem::swap(&mut self.cancelled, &mut rest);
        let ghost all = texts(rest@);
        let mut i: usize = 0;
        while i < rest.len()
            invariant
                0 <= i <= rest.len(),
                all == texts(rest@),
                forall|x: Seq<char>|
                    #[trigger] texts(kept@).contains(x) <==> (exists|k: int|
                        0 <= k < i && all[k] == x) && x != session@,
            decreases rest.len() - i,
        {
            let ghost before = texts(kept@);
            if !str_eq(rest[i].as_str(), session) {
                kept.push(rest[i].clone());
                proof {
                    assert(texts(kept@) =~= before.push(all[i as int]));
                    assert forall|x: Seq<char>|
                        #[trigger] texts(kept@).contains(x) <==> (exists|k: int|
                            0 <= k < i + 1 && all[k] == x) && x != session@ by {
                        if x == all[i as int] {
                            assert(texts(kept@)[before.len() as int] == x);
                        }
                        if before.contains(x) {
                            let j = choose|j: int| 0 <= j < before.len() && before[j] == x;
                            assert(texts(kept@)[j] == x);
                        }
                        let after = texts(kept@);
                        if after.contains(x) && x != all[i as int] {
                            let j = choose|j: int| 0 <= j < after.len() && #[trigger] after[j] == x;
                            assert(before[j] == x);
                        }
                    }
                }
            } else {
                proof {
                    assert forall|x: Seq<char>|
                        #[trigger] texts(kept@).contains(x) <==> (exists|k: int|
                            0 <= k < i + 1 && all[k] == x) && x != session@ by {
                        if (exists|k: int| 0 <= k < i + 1 && all[k] == x) && x != session@ {
                            let k = choose|k: int| 0 <= k < i + 1 && all[k] == x;
                            assert(k < i);
                        }
                    }
                }
            }
            i = i + 1;
        }
        self.cancelled = kept;
        proof {
            assert forall|x: Seq<char>|
                #[trigger] self.is_cancelled(x) <==> old(self).is_cancelled(x) && x != session@ by {
                if old(self).is_cancelled(x) {
                    let k = choose|k: int| 0 <= k < all.len() && all[k] == x;
                }
                if exists|k: int| 0 <= k < all.len() && all[k] == x {
                    let k = choose|k: int| 0 <= k < all.len() && all[k] == x;
                    assert(old(self).cancelled_sessions()[k] == x);
                }
            }
        }
    }
}

impl Connection {
    /// Issues a request of `method`, which the role at the other end handles:
    /// the request gets a fresh id and waits in the table for its response.
    /// `session` tags it so that a cancellation of that session settles it.
    /// `None` when the ids are spent.
    pub fn call(&mut self, method: KnownMethod, params: Option<String>, session: Option<&str>) -> (r:
        Option<Message>)
        requires
            old(self).wf(),
            sendable_by(method, old(self).bound_side()),
            !known_method_is_notification(method),
        ensures
            final(self).wf(),
            final(self).bound_side() == old(self).bound_side(),
            final(self).cancelled_sessions() == old(self).cancelled_sessions(),
            final(self).is_closed() == old(self).is_closed(),
            refuses_call(*old(self), session) ==> final(self).table() == old(self).table() && r is None,
            !refuses_call(*old(self), session) ==> final(self).table() == apply_event(
                old(self).table(),
                CallEvent::Issue {
                    method: known_method_name(method),
                    session: match session {
                        Some(s) => Some(s@),
                        None => None,
                    },
                },
            ),
            r is Some <==> !refuses_call(*old(self), session) && old(self).table().next_id < u64::MAX,
            r matches Some(m) ==> m matches Message::Request { id: RequestId::Number(n), method: name, params: p }
                && n == old(self).table().next_id && name@ == known_method_name(method) && p == params,
    {
        if self.closed {
            return None;
        }
        match session {
            Some(t) => {
                if self.cancelled_contains(t) {
                    return None;
                }
            },
            None => {},
        }
        let name = method.name();
        match self.calls.issue(name, session) {
            Some(n) => Some(
                Message::Request { id: RequestId::Number(n), method: name.to_owned(), params },
            ),
            None => None,
        }
    }

    /// Issues a request of an extension method, with raw parameters that are
    /// carried untouched. `None` when the ids are spent.
    pub fn call_extension(&mut self, method: &str, params: Option<String>) -> (r: Option<Message>)
        requires
            old(self).wf(),
        ensures
            final(self).wf(),
            final(self).bound_side() == old(self).bound_side(),
            final(self).cancelled_sessions() == old(self).cancelled_sessions(),
            final(self).is_closed() == old(self).is_closed(),
            old(self).is_closed() ==> final(self).table() == old(self).table(),
            !old(self).is_closed() ==> final(self).table() == apply_event(
                old(self).table(),
                CallEvent::Issue { method: method@, session: None },
            ),
            r is Some <==> !old(self).is_closed() && old(self).table().next_id < u64::MAX,
            r matches Some(m) ==> m matches Message::Request { id: RequestId::Number(n), method: name, params: p }
                && n == old(self).table().next_id && name@ == method@ && p == params,
    {
        if self.closed {
            return None;
        }
        match self.calls.issue(method, None) {
            Some(n) => Some(
                Message::Request { id: RequestId::Number(n), method: method.to_owned(), params },
            ),
            None => None,
        }
    }

    /// A notification of `method`, which the role at the other end handles:
    /// written and forgotten, it never enters the table.
    pub fn notify(&self, method: KnownMethod, params: Option<String>) -> (r: Message)
        requires
            sendable_by(method, self.bound_side()),
            known_method_is_notification(method),
        ensures
            r matches Message::Notification { method: name, params: p } && name@ == known_method_name(
                method,
            ) && p == params,
    {
        Message::Notification { method: method.name().to_owned(), params }
    }

    /// A notification of an extension method, with raw parameters that are
    /// carried untouched.
    pub fn notify_extension(&self, method: &str, params: Option<String>) -> (r: Message)
        ensures
            r matches Message::Notification { method: name, params: p } && name@ == method@ && p
                == params,
    {
        Message::Notification { method: method.to_owned(), params }
    }

    /// Decides what to do with a message that the dispatch loop read.
    /// `failure` is the parser's message when the parameters of a known
    /// method did not decode into its payload.
    pub fn receive(&mut self, msg: Message, failure: Option<String>) -> (r: InboundAction)
        requires
            old(self).wf(),
        ensures
            final(self).wf(),
            final(self).bound_side() == old(self).bound_side(),
            final(self).cancelled_sessions() == old(self).cancelled_sessions(),
            final(self).is_closed() == old(self).is_closed(),
            receive_post(old(self).bound_side(), old(self).table(), final(self).table(), msg, failure, r),
    {
        match msg {
            Message::Request { id, method, params } => {
                match route(self.side, method.as_str(), false) {
                    Route::Known(m) => match failure {
                        Some(f) => InboundAction::Reply(
                            Message::Response {
                                id,
                                outcome: Outcome::Error(Error::from_parse_failure(f.as_str())),
                            },
                        ),
                        None => InboundAction::Handle { id: Some(id), method: m, params },
                    },
                    Route::Extension => InboundAction::Extension { id: Some(id), method, params },
                }
            },
            Message::Notification { method, params } => {
                match route(self.side, method.as_str(), true) {
                    Route::Known(m) => match failure {
                        Some(f) => InboundAction::Report(
                            ProtocolIssue::UndecodableNotification { method, message: f },
                        ),
                        None => InboundAction::Handle { id: None, method: m, params },
                    },
                    Route::Extension => InboundAction::Extension { id: None, method, params },
                }
            },
            Message::Response { id, outcome } => match self.calls.settle_response(id, outcome) {
                ResponseAction::Resolve(res) => InboundAction::Resolve(res),
                ResponseAction::Unmatched(back) => InboundAction::Report(
                    ProtocolIssue::UnmatchedResponse(back),
                ),
            },
        }
    }

    /// The response to request `id`, once its handler came back with `out`:
    /// a result or a reported error is sent as it is; a failure becomes an
    /// internal error that carries its description.
    pub fn respond(id: RequestId, out: HandlerOutcome) -> (r: Message)
        ensures
            respond_post(id, out, r),
    {
        match out {
            HandlerOutcome::Answer(t) => Message::Response { id, outcome: Outcome::Result(t) },
            HandlerOutcome::Reject(e) => Message::Response { id, outcome: Outcome::Error(e) },
            HandlerOutcome::Crash(d) => Message::Response {
                id,
                outcome: Outcome::Error(Error::into_internal_error(d.as_str())),
            },
        }
    }

    /// A `session/cancel` came in for `session`: every pending call tagged
    /// with it is settled as cancelled, and no new call tagged with it is
    /// issued until its next turn begins; other sessions are untouched.
    pub fn cancel_session(&mut self, session: &str) -> (r: Vec<Resolution>)
        requires
            old(self).wf(),
        ensures
            final(self).wf(),
            final(self).bound_side() == old(self).bound_side(),
            final(self).cancelled_sessions() == old(self).cancelled_sessions().push(session@),
            final(self).is_closed() == old(self).is_closed(),
            final(self).table() == apply_event(
                old(self).table(),
                CallEvent::CancelSession { target: session@ },
            ),
            r@.map_values(|x: Resolution| x.call@) == old(self).table().calls.filter(
                crate::rpc::in_session(session@),
            ),
            forall|k: int| 0 <= k < r.len() ==> #[trigger] r[k].result is Cancelled,
    {
        let r = self.calls.cancel_session(session);
        self.cancelled.push(session.to_owned());
        proof {
            assert(self.cancelled_sessions() =~= old(self).cancelled_sessions().push(session@));
        }
        r
    }

    /// The transport closed: every pending call is settled as closed.
    pub fn close(&mut self) -> (r: Vec<Resolution>)
        requires
            old(self).wf(),
        ensures
            final(self).wf(),
            final(self).bound_side() == old(self).bound_side(),
            final(self).cancelled_sessions() == old(self).cancelled_sessions(),
            final(self).is_closed(),
            final(self).table() == apply_event(old(self).table(), CallEvent::Close),
            r@.map_values(|x: Resolution| x.call@) == old(self).table().calls,
            forall|k: int| 0 <= k < r.len() ==> #[trigger] r[k].result is ConnectionClosed,
    {
        self.closed = true;
        self.calls.close()
    }
}

/// What one turn of the dispatch loop does, on a connection bound to `side`
/// that goes from closed-ness `c0` and table `t0` to `c1` and `t1`.
pub open spec fn step_post(
    side: Side,
    c0: bool,
    t0: CallTable,
    c1: bool,
    t1: CallTable,
    event: ReadEvent,
    r: LoopStep,
) -> bool {
    if c0 {
        &&& c1
        &&& t1 == t0
        &&& match r {
            LoopStep::Stop(v) => v.len() == 0,
            LoopStep::Act(_) => false,
        }
    } else {
        match event {
            ReadEvent::Frame { msg, failure } => {
                &&& !c1
                &&& match r {
                    LoopStep::Act(a) => receive_post(side, t0, t1, msg, failure, a),
                    LoopStep::Stop(_) => false,
                }
            },
            ReadEvent::InvalidEnvelope => {
                &&& !c1
                &&& t1 == t0
                &&& r == LoopStep::Act(InboundAction::Report(ProtocolIssue::InvalidEnvelope))
            },
            _ => {
                &&& c1
                &&& t1 == apply_event(t0, CallEvent::Close)
                &&& match r {
                    LoopStep::Stop(v) => {
                        &&& v@.map_values(|x: Resolution| x.call@) == t0.calls
                        &&& forall|k: int| 0 <= k < v.len() ==> #[trigger] v[k].result is ConnectionClosed
                    },
                    LoopStep::Act(_) => false,
                }
            },
        }
    }
}

impl Connection {
    /// One turn of the dispatch loop: a message is decided on and the loop
    /// reads on; a protocol error is reported and the loop reads on; the end
    /// of the stream or a malformed frame closes the connection and settles
    /// every pending call. A closed connection stays closed.
    pub fn step(&mut self, event: ReadEvent) -> (r: LoopStep)
        requires
            old(self).wf(),
        ensures
            final(self).wf(),
            final(self).bound_side() == old(self).bound_side(),
            final(self).cancelled_sessions() == old(self).cancelled_sessions(),
            step_post(
                old(self).bound_side(),
                old(self).is_closed(),
                old(self).table(),
                final(self).is_closed(),
                final(self).table(),
                event,
                r,
            ),
    {
        if self.closed {
            return LoopStep::Stop(Vec::new());
        }
        match event {
            ReadEvent::Frame { msg, failure } => LoopStep::Act(self.receive(msg, failure)),
            ReadEvent::InvalidEnvelope => LoopStep::Act(
                InboundAction::Report(ProtocolIssue::InvalidEnvelope),
            ),
            ReadEvent::MalformedFrame => LoopStep::Stop(self.close()),
            ReadEvent::EndOfStream => LoopStep::Stop(self.close()),
        }
    }
}

/// Extension requests pass through untouched: a request for a method that
/// the receiving role does not handle goes to the extension handler with the
/// same method name and parameter text, the raw result that the handler
/// returns is written back as it is, and the caller's pending call is
/// resolved with that very text.
pub proof fn law_extension_passthrough(
    callee: Side,
    c0: CallTable,
    c1: CallTable,
    n: u64,
    method: String,
    params: Option<String>,
    f1: Option<String>,
    r1: InboundAction,
    raw: String,
    resp: Message,
    caller: Side,
    t0: CallTable,
    t1: CallTable,
    f3: Option<String>,
    r3: InboundAction,
)
    requires
        !inbound_known(callee, method@, false),
        receive_post(
            callee,
            c0,
            c1,
            (Message::Request { id: RequestId::Number(n), method, params }),
            f1,
            r1,
        ),
        respond_post(RequestId::Number(n), HandlerOutcome::Answer(raw), resp),
        outstanding(t0).contains(n as nat),
        receive_post(caller, t0, t1, resp, f3, r3),
    ensures
        r1 == (InboundAction::Extension { id: Some(RequestId::Number(n)), method, params }),
        resp == (Message::Response { id: RequestId::Number(n), outcome: Outcome::Result(raw) }),
        r3 matches InboundAction::Resolve(res) && res.call.id == n && res.result
            == crate::rpc::CallResult::Answered(raw),
{
}

/// Parameters that do not decode never reach the handler: the request is
/// answered at once with an invalid-params error that carries the request's
/// own id and the parser's message.
pub proof fn law_undecodable_params_rejected(
    side: Side,
    t0: CallTable,
    t1: CallTable,
    id: RequestId,
    method: String,
    params: Option<String>,
    f: String,
    r: InboundAction,
)
    requires
        inbound_known(side, method@, false),
        receive_post(side, t0, t1, (Message::Request { id, method, params }), Some(f), r),
    ensures
        !(r is Handle),
        !(r is Extension),
        r matches InboundAction::Reply(Message::Response { id: i, outcome: Outcome::Error(e) })
            && i == id && e.code == ErrorCode::InvalidParams,
        t1 == t0,
{
}

/// Requests read back to back are dispatched independently, each with its
/// own id, and whatever order their handlers finish in, each response
/// carries the id of its own request and of no other.
pub proof fn law_responses_match_requests(
    side: Side,
    t: CallTable,
    id1: RequestId,
    method1: String,
    params1: Option<String>,
    a1: InboundAction,
    out1: HandlerOutcome,
    resp1: Message,
    id2: RequestId,
    method2: String,
    params2: Option<String>,
    a2: InboundAction,
    out2: HandlerOutcome,
    resp2: Message,
)
    requires
        inbound_known(side, method1@, false),
        inbound_known(side, method2@, false),
        receive_post(
            side,
            t,
            t,
            (Message::Request { id: id1, method: method1, params: params1 }),
            None,
            a1,
        ),
        receive_post(
            side,
            t,
            t,
            (Message::Request { id: id2, method: method2, params: params2 }),
            None,
            a2,
        ),
        respond_post(id1, out1, resp1),
        respond_post(id2, out2, resp2),
    ensures
        a1 matches InboundAction::Handle { id: Some(i), .. } && i == id1,
        a2 matches InboundAction::Handle { id: Some(i), .. } && i == id2,
        resp1 matches Message::Response { id: i, .. } && i == id1,
        resp2 matches Message::Response { id: i, .. } && i == id2,
        id1 != id2 ==> (resp1 matches Message::Response { id: i, .. } && i != id2) && (
        resp2 matches Message::Response { id: i, .. } && i != id1),
{
}

} // verus!
