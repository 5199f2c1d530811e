use agent_client_protocol::{
    message_of, read_event, route, AgentMethod, CallResult, CancelNotification,
    CancelRequestNotification, ClientMethod, Connection, Envelope, Error, ErrorCode, FrameRead,
    HandlerOutcome, InboundAction, KnownMethod, LoopStep, Message, Outcome, PendingCalls,
    ProtocolIssue, ReadEvent, RequestId, RequestPermissionOutcome, RequestPermissionResponse, Route,
    SessionId, Side,
};

fn request_id(m: &Message) -> u64 {
    match m {
        Message::Request { id: RequestId::Number(n), .. } => *n,
        other => panic!("not a request with an integer id: {:?}", other),
    }
}

fn answer(id: u64, raw: &str) -> Message {
    Message::Response { id: RequestId::Number(id), outcome: Outcome::Result(raw.to_string()) }
}

#[test]
fn error_codes_map_to_their_integers() {
    let pairs = [
        (ErrorCode::ParseError, -32700),
        (ErrorCode::InvalidRequest, -32600),
        (ErrorCode::MethodNotFound, -32601),
        (ErrorCode::InvalidParams, -32602),
        (ErrorCode::InternalError, -32603),
        (ErrorCode::RequestCancelled, -32800),
        (ErrorCode::AuthRequired, -32000),
        (ErrorCode::ResourceNotFound, -32002),
    ];
    for (code, value) in pairs {
        assert_eq!(i32::from(code), value);
        assert_eq!(ErrorCode::from(value), code);
        assert_eq!(code.value(), value);
        assert_eq!(ErrorCode::from_value(value), code);
    }
}

#[test]
fn unknown_error_code_round_trips_unchanged() {
    let code = ErrorCode::from(-32123);
    assert_eq!(code, ErrorCode::Other(-32123));
    assert_eq!(i32::from(code), -32123);
    assert_eq!(ErrorCode::from(i32::from(ErrorCode::Other(1))), ErrorCode::Other(1));
}

#[test]
fn error_code_descriptions() {
    assert_eq!(ErrorCode::ParseError.description(), "Parse error");
    assert_eq!(ErrorCode::AuthRequired.description(), "Authentication required");
    assert_eq!(ErrorCode::Other(7).description(), "Unknown error");
}

#[test]
fn error_constructors() {
    let e = Error::new(-32601, "nope");
    assert_eq!(e.code, ErrorCode::MethodNotFound);
    assert_eq!(e.message, "nope");
    assert_eq!(e.data, None);

    let e = Error::auth_required();
    assert_eq!(e.code, ErrorCode::AuthRequired);
    assert_eq!(e.message, "Authentication required");

    let e = Error::parse_error().data(Some("[1,2]".to_string()));
    assert_eq!(e.code, ErrorCode::ParseError);
    assert_eq!(e.data.as_deref(), Some("[1,2]"));

    assert_eq!(Error::invalid_request().code, ErrorCode::InvalidRequest);
    assert_eq!(Error::method_not_found().code, ErrorCode::MethodNotFound);
    assert_eq!(Error::internal_error().message, "Internal error");
    assert_eq!(Error::request_cancelled().code, ErrorCode::RequestCancelled);
    assert_eq!(Error::from_code(ErrorCode::Other(5)).message, "Unknown error");
}

#[test]
fn internal_error_carries_description_as_json_string() {
    let e = Error::into_internal_error("disk \"full\"");
    assert_eq!(e.code, ErrorCode::InternalError);
    assert_eq!(e.data.as_deref(), Some("\"disk \\\"full\\\"\""));
}

#[test]
fn parse_failure_carries_parser_message() {
    let e = Error::from_parse_failure("missing field `sessionId`");
    assert_eq!(e.code, ErrorCode::InvalidParams);
    assert_eq!(e.message, "Invalid params");
    assert_eq!(e.data.as_deref(), Some("\"missing field `sessionId`\""));
}

#[test]
fn resource_not_found_carries_uri() {
    let e = Error::resource_not_found(Some("file:///a.txt".to_string()));
    assert_eq!(e.code, ErrorCode::ResourceNotFound);
    assert_eq!(e.data.as_deref(), Some("{\"uri\":\"file:///a.txt\"}"));
    assert_eq!(Error::resource_not_found(None).data, None);
}

#[test]
fn issued_ids_are_fresh_and_increasing() {
    let mut calls = PendingCalls::new();
    assert_eq!(calls.issue("a", None), Some(0));
    assert_eq!(calls.issue("b", Some("s1")), Some(1));
    assert_eq!(calls.issue("c", None), Some(2));
    let first = calls.take(1).unwrap();
    assert_eq!(first.method, "b");
    assert_eq!(first.session.as_deref(), Some("s1"));
    assert!(calls.take(1).is_none());
    // an id is not reused after its call was settled
    assert_eq!(calls.issue("d", None), Some(3));
}

#[test]
fn response_settles_exactly_once() {
    let mut conn = Connection::new(Side::Client);
    let req = conn
        .call(KnownMethod::Agent(AgentMethod::SessionPrompt), Some("{}".to_string()), None)
        .unwrap();
    let id = request_id(&req);
    match conn.receive(answer(id, "{\"stopReason\":\"end_turn\"}"), None) {
        InboundAction::Resolve(res) => {
            assert_eq!(res.call.id, id);
            assert_eq!(res.call.method, "session/prompt");
            match res.result {
                CallResult::Answered(raw) => assert_eq!(raw, "{\"stopReason\":\"end_turn\"}"),
                other => panic!("unexpected {:?}", other),
            }
        }
        other => panic!("unexpected {:?}", other),
    }
    match conn.receive(answer(id, "{}"), None) {
        InboundAction::Report(ProtocolIssue::UnmatchedResponse(RequestId::Number(n))) => {
            assert_eq!(n, id)
        }
        other => panic!("unexpected {:?}", other),
    }
    assert!(conn.close().is_empty());
}

#[test]
fn error_response_resolves_with_the_error() {
    let mut conn = Connection::new(Side::Agent);
    let req = conn
        .call(KnownMethod::Client(ClientMethod::FsReadTextFile), None, None)
        .unwrap();
    let id = request_id(&req);
    let reply = Message::Response {
        id: RequestId::Number(id),
        outcome: Outcome::Error(Error::new(-32099, "custom")),
    };
    match conn.receive(reply, None) {
        InboundAction::Resolve(res) => match res.result {
            CallResult::Failed(e) => {
                assert_eq!(e.code, ErrorCode::Other(-32099));
                assert_eq!(e.message, "custom");
            }
            other => panic!("unexpected {:?}", other),
        },
        other => panic!("unexpected {:?}", other),
    }
}

#[test]
fn string_id_response_is_unmatched() {
    let mut conn = Connection::new(Side::Agent);
    let reply = Message::Response {
        id: RequestId::Str("x".to_string()),
        outcome: Outcome::Result("null".to_string()),
    };
    assert!(matches!(
        conn.receive(reply, None),
        InboundAction::Report(ProtocolIssue::UnmatchedResponse(RequestId::Str(_)))
    ));
}

#[test]
fn unknown_method_goes_to_extension_untouched() {
    let mut callee = Connection::new(Side::Agent);
    let params = "{\"b\": 1.50, \"a\": [3, 2]}".to_string();
    let msg = Message::Request {
        id: RequestId::Number(9),
        method: "_zed/custom".to_string(),
        params: Some(params.clone()),
    };
    match callee.receive(msg, None) {
        InboundAction::Extension { id: Some(RequestId::Number(9)), method, params: p } => {
            assert_eq!(method, "_zed/custom");
            assert_eq!(p, Some(params));
        }
        other => panic!("unexpected {:?}", other),
    }
}

#[test]
fn extension_result_returns_to_caller_unmodified() {
    let mut caller = Connection::new(Side::Client);
    let req = caller.call_extension("_zed/custom", Some("[1]".to_string())).unwrap();
    let id = request_id(&req);
    let raw = "{ \"x\" : 1.0000 }".to_string();
    let resp = Connection::respond(RequestId::Number(id), HandlerOutcome::Answer(raw.clone()));
    match caller.receive(resp, None) {
        InboundAction::Resolve(res) => match res.result {
            CallResult::Answered(text) => assert_eq!(text, raw),
            other => panic!("unexpected {:?}", other),
        },
        other => panic!("unexpected {:?}", other),
    }
}

#[test]
fn undecodable_params_answer_invalid_params_with_same_id() {
    let mut agent = Connection::new(Side::Agent);
    let msg = Message::Request {
        id: RequestId::Str("req-7".to_string()),
        method: "session/new".to_string(),
        params: Some("{\"cwd\": 5}".to_string()),
    };
    match agent.receive(msg, Some("invalid type: integer `5`".to_string())) {
        InboundAction::Reply(Message::Response {
            id: RequestId::Str(s),
            outcome: Outcome::Error(e),
        }) => {
            assert_eq!(s, "req-7");
            assert_eq!(e.code, ErrorCode::InvalidParams);
            assert_eq!(e.data.as_deref(), Some("\"invalid type: integer `5`\""));
        }
        other => panic!("unexpected {:?}", other),
    }
}

#[test]
fn known_request_is_handled() {
    let mut agent = Connection::new(Side::Agent);
    let msg = Message::Request {
        id: RequestId::Number(1),
        method: "initialize".to_string(),
        params: Some("{\"protocolVersion\":1}".to_string()),
    };
    match agent.receive(msg, None) {
        InboundAction::Handle { id: Some(RequestId::Number(1)), method, params } => {
            assert_eq!(method, KnownMethod::Agent(AgentMethod::Initialize));
            assert_eq!(params.as_deref(), Some("{\"protocolVersion\":1}"));
        }
        other => panic!("unexpected {:?}", other),
    }
}

#[test]
fn notifications_get_no_response() {
    let mut agent = Connection::new(Side::Agent);
    let cancel = Message::Notification {
        method: "session/cancel".to_string(),
        params: Some("{\"sessionId\":\"s\"}".to_string()),
    };
    assert!(matches!(
        agent.receive(cancel.clone(), None),
        InboundAction::Handle { id: None, method: KnownMethod::Agent(AgentMethod::SessionCancel), .. }
    ));
    assert!(matches!(
        agent.receive(cancel, Some("bad".to_string())),
        InboundAction::Report(ProtocolIssue::UndecodableNotification { .. })
    ));
    let ext = Message::Notification { method: "_x/ping".to_string(), params: None };
    assert!(matches!(
        agent.receive(ext, None),
        InboundAction::Extension { id: None, params: None, .. }
    ));
}

#[test]
fn cancel_resolves_every_permission_request_of_the_session() {
    let mut agent = Connection::new(Side::Agent);
    let permission = KnownMethod::Client(ClientMethod::SessionRequestPermission);
    let a = request_id(&agent.call(permission, None, Some("s1")).unwrap());
    let b = request_id(&agent.call(permission, None, Some("s1")).unwrap());
    let other = request_id(&agent.call(permission, None, Some("s2")).unwrap());
    let c = request_id(&agent.call(permission, None, Some("s1")).unwrap());

    let settled = agent.cancel_session("s1");
    let ids: Vec<u64> = settled.iter().map(|r| r.call.id).collect();
    assert_eq!(ids, vec![a, b, c]);
    assert!(settled.iter().all(|r| matches!(r.result, CallResult::Cancelled)));

    // a late answer for a cancelled call settles nothing
    assert!(matches!(
        agent.receive(answer(b, "{}"), None),
        InboundAction::Report(ProtocolIssue::UnmatchedResponse(_))
    ));
    // the other session is untouched
    assert!(matches!(agent.receive(answer(other, "{}"), None), InboundAction::Resolve(_)));
}

#[test]
fn close_force_resolves_all_pending_calls() {
    let mut client = Connection::new(Side::Client);
    let a = request_id(
        &client.call(KnownMethod::Agent(AgentMethod::Initialize), None, None).unwrap(),
    );
    let b = request_id(&client.call_extension("_x", None).unwrap());
    let settled = client.close();
    let ids: Vec<u64> = settled.iter().map(|r| r.call.id).collect();
    assert_eq!(ids, vec![a, b]);
    assert!(settled.iter().all(|r| matches!(r.result, CallResult::ConnectionClosed)));
    assert!(client.close().is_empty());
}

#[test]
fn back_to_back_requests_keep_their_own_ids() {
    let mut agent = Connection::new(Side::Agent);
    for n in [4u64, 5u64] {
        let msg = Message::Request {
            id: RequestId::Number(n),
            method: "session/prompt".to_string(),
            params: None,
        };
        assert!(matches!(
            agent.receive(msg, None),
            InboundAction::Handle { id: Some(RequestId::Number(k)), .. } if k == n
        ));
    }
    // the second finishes first
    let second = Connection::respond(RequestId::Number(5), HandlerOutcome::Answer("2".to_string()));
    let first = Connection::respond(
        RequestId::Number(4),
        HandlerOutcome::Reject(Error::auth_required()),
    );
    assert!(matches!(second, Message::Response { id: RequestId::Number(5), .. }));
    assert!(matches!(first, Message::Response { id: RequestId::Number(4), .. }));
}

#[test]
fn handler_crash_becomes_internal_error() {
    let resp = Connection::respond(RequestId::Number(3), HandlerOutcome::Crash("boom".to_string()));
    match resp {
        Message::Response { id: RequestId::Number(3), outcome: Outcome::Error(e) } => {
            assert_eq!(e.code, ErrorCode::InternalError);
            assert_eq!(e.data.as_deref(), Some("\"boom\""));
        }
        other => panic!("unexpected {:?}", other),
    }
}

#[test]
fn routing_follows_the_bound_role() {
    assert_eq!(
        route(Side::Agent, "session/prompt", false),
        Route::Known(KnownMethod::Agent(AgentMethod::SessionPrompt))
    );
    assert_eq!(route(Side::Client, "session/prompt", false), Route::Extension);
    assert_eq!(
        route(Side::Client, "terminal/kill", false),
        Route::Known(KnownMethod::Client(ClientMethod::TerminalKill))
    );
    assert_eq!(
        route(Side::Client, "session/update", true),
        Route::Known(KnownMethod::Client(ClientMethod::SessionUpdate))
    );
    // a notification name sent as a request is not the notification
    assert_eq!(route(Side::Agent, "session/cancel", false), Route::Extension);
    assert_eq!(route(Side::Agent, "$/cancel_request", true), Route::Known(KnownMethod::CancelRequest));
    assert_eq!(route(Side::Agent, "Initialize", false), Route::Extension);
    assert_eq!(AgentMethod::lookup("session/fork", false), Some(AgentMethod::SessionFork));
    assert_eq!(ClientMethod::lookup("fs/read_text_file", false), Some(ClientMethod::FsReadTextFile));
    assert_eq!(Side::Agent.peer(), Side::Client);
}

#[test]
fn error_text_uses_message_or_code() {
    assert_eq!(Error::new(-32603, "").to_string(), "-32603");
    assert_eq!(Error::new(12, "").to_string(), "12");
    assert_eq!(Error::new(0, "").to_string(), "0");
    assert_eq!(Error::auth_required().to_string(), "Authentication required");
    assert_eq!(
        Error::new(-1, "bad").data(Some("{\"a\":1}".to_string())).to_string(),
        "bad: {\n  \"a\": 1\n}"
    );
    assert_eq!(
        Error::resource_not_found(Some("f".to_string())).to_string(),
        "Resource not found: {\n  \"uri\": \"f\"\n}"
    );
    assert_eq!(Error::new(5, "m").data(Some("not json".to_string())).to_string(), "m: not json");
    assert_eq!(Error::new(i32::MIN, "").to_string(), "-2147483648");
}

#[test]
fn errors_compare_by_code_message_and_data() {
    assert_eq!(Error::invalid_params(), Error::new(-32602, "Invalid params"));
    assert_ne!(Error::invalid_params(), Error::invalid_params().data(Some("1".to_string())));
    assert_ne!(Error::invalid_params(), Error::internal_error());
}

#[test]
fn extension_messages_keep_raw_text() {
    let r = agent_client_protocol::ExtRequest::new("_a/b", "{ \"k\" : 1 }".to_string());
    assert_eq!(r.method, "_a/b");
    assert_eq!(r.params, "{ \"k\" : 1 }");
    let n = agent_client_protocol::ExtNotification::new("_a/c", "[]".to_string());
    assert_eq!(n.params, "[]");
    assert_eq!(agent_client_protocol::ExtResponse::new("null".to_string()).0, "null");
}

#[test]
fn dispatch_loop_closes_on_end_of_stream() {
    let mut conn = Connection::new(Side::Client);
    let id = request_id(&conn.call(KnownMethod::Agent(AgentMethod::SessionNew), None, None).unwrap());
    assert!(matches!(
        conn.step(ReadEvent::InvalidEnvelope),
        LoopStep::Act(InboundAction::Report(ProtocolIssue::InvalidEnvelope))
    ));
    match conn.step(ReadEvent::Frame { msg: answer(id + 1, "1"), failure: None }) {
        LoopStep::Act(InboundAction::Report(ProtocolIssue::UnmatchedResponse(_))) => {}
        other => panic!("unexpected {:?}", other),
    }
    match conn.step(ReadEvent::EndOfStream) {
        LoopStep::Stop(settled) => {
            assert_eq!(settled.len(), 1);
            assert_eq!(settled[0].call.id, id);
            assert!(matches!(settled[0].result, CallResult::ConnectionClosed));
        }
        other => panic!("unexpected {:?}", other),
    }
    // once closed, nothing more is issued or read
    assert!(conn.call_extension("_x", None).is_none());
    assert!(matches!(conn.step(ReadEvent::Frame { msg: answer(id, "1"), failure: None }), LoopStep::Stop(v) if v.is_empty()));
}

#[test]
fn dispatch_loop_closes_on_malformed_frame() {
    let mut conn = Connection::new(Side::Agent);
    conn.call(KnownMethod::Client(ClientMethod::TerminalCreate), None, None).unwrap();
    conn.call(KnownMethod::Client(ClientMethod::TerminalOutput), None, None).unwrap();
    match conn.step(ReadEvent::MalformedFrame) {
        LoopStep::Stop(settled) => assert_eq!(settled.len(), 2),
        other => panic!("unexpected {:?}", other),
    }
}

#[test]
fn error_object_round_trips_through_its_wire_fields() {
    let e = Error::new(-32123, "odd").data(Some("{\"k\":[1,2]}".to_string()));
    let back = Error::new(e.code.value(), &e.message).data(e.data.clone());
    assert_eq!(back, e);
    assert_eq!(back.code, ErrorCode::Other(-32123));
}

#[test]
fn json_string_escapes() {
    let e = Error::into_internal_error("a\u{1}b\tc\\d\u{7f}\u{e9}");
    assert_eq!(e.data.as_deref(), Some("\"a\\u0001b\\tc\\\\d\u{7f}\u{e9}\""));
}

#[test]
fn cancelled_session_issues_no_calls_until_next_turn() {
    let mut agent = Connection::new(Side::Agent);
    let permission = KnownMethod::Client(ClientMethod::SessionRequestPermission);
    assert!(agent.call(permission, None, Some("s1")).is_some());
    agent.cancel_session("s1");
    assert!(agent.call(permission, None, Some("s1")).is_none());
    assert!(agent.call(permission, None, Some("s2")).is_some());
    assert!(agent.call(permission, None, None).is_some());
    agent.begin_turn("s1");
    assert!(agent.call(permission, None, Some("s1")).is_some());
}

#[test]
fn envelope_shapes_make_messages() {
    let env = |id: Option<u64>, method: Option<&str>, result: Option<&str>, error: Option<Error>| Envelope {
        id: id.map(RequestId::Number),
        method: method.map(|m| m.to_string()),
        params: Some("[1]".to_string()),
        result: result.map(|r| r.to_string()),
        error,
    };
    assert!(matches!(message_of(env(Some(1), Some("m"), None, None)), Some(Message::Request { .. })));
    assert!(matches!(message_of(env(None, Some("m"), None, None)), Some(Message::Notification { .. })));
    assert!(matches!(
        message_of(env(Some(1), None, Some("2"), None)),
        Some(Message::Response { outcome: Outcome::Result(_), .. })
    ));
    assert!(matches!(
        message_of(env(Some(1), None, None, Some(Error::internal_error()))),
        Some(Message::Response { outcome: Outcome::Error(_), .. })
    ));
    assert!(message_of(env(Some(1), None, Some("2"), Some(Error::internal_error()))).is_none());
    assert!(message_of(env(None, None, None, None)).is_none());
    assert!(matches!(read_event(FrameRead::Ended), ReadEvent::EndOfStream));
    assert!(matches!(read_event(FrameRead::NotJson), ReadEvent::MalformedFrame));
    assert!(matches!(read_event(FrameRead::NotEnvelope), ReadEvent::InvalidEnvelope));
    assert!(matches!(
        read_event(FrameRead::Members(env(None, None, Some("1"), None))),
        ReadEvent::InvalidEnvelope
    ));
}

#[test]
fn cancel_request_names_one_live_call() {
    let mut conn = Connection::new(Side::Client);
    let a = request_id(&conn.call_extension("_a", None).unwrap());
    let b = request_id(&conn.call_extension("_b", None).unwrap());
    assert_ne!(a, b);
    let note = CancelRequestNotification::new(RequestId::Number(b));
    assert!(matches!(note.request_id, RequestId::Number(n) if n == b));
}

#[test]
fn cancelled_permission_requests_answer_cancelled() {
    let mut agent = Connection::new(Side::Agent);
    let permission = KnownMethod::Client(ClientMethod::SessionRequestPermission);
    agent.call(permission, None, Some("s")).unwrap();
    agent.call(permission, None, Some("s")).unwrap();
    let answers: Vec<RequestPermissionResponse> = agent
        .cancel_session("s")
        .into_iter()
        .map(|r| match r.result {
            CallResult::Cancelled => RequestPermissionResponse::cancelled(),
            other => panic!("unexpected {:?}", other),
        })
        .collect();
    assert_eq!(answers.len(), 2);
    assert!(answers
        .iter()
        .all(|r| *r == RequestPermissionResponse::new(RequestPermissionOutcome::Cancelled)));
}

#[test]
fn cancel_notification_is_a_notification() {
    let mut client = Connection::new(Side::Client);
    let note = CancelNotification::new(SessionId::new("s9"));
    assert_eq!(note.session_id.0, "s9");
    let msg = client.notify(CancelNotification::method(), Some("{\"sessionId\":\"s9\"}".to_string()));
    match msg {
        Message::Notification { method, .. } => assert_eq!(method, "session/cancel"),
        other => panic!("unexpected {:?}", other),
    }
    assert!(client.close().is_empty());
}
