use agent_client_protocol::{
    agent_method_names, client_method_names, protocol_level_method_names, AgentMethod,
    AuthMethodId, ClientMethod, Error, ProtocolVersion, SessionId, StopReason, TerminalId,
    VersionError,
};

#[test]
fn method_names_match_the_wire() {
    let agent = agent_method_names();
    assert_eq!(agent.initialize, "initialize");
    assert_eq!(agent.session_set_config_option, "session/set_config_option");
    assert_eq!(agent.session_cancel, "session/cancel");
    let client = client_method_names();
    assert_eq!(client.session_request_permission, "session/request_permission");
    assert_eq!(client.terminal_wait_for_exit, "terminal/wait_for_exit");
    assert_eq!(protocol_level_method_names().cancel_request, "$/cancel_request");
}

#[test]
fn identifiers_keep_their_text() {
    assert_eq!(SessionId::new("sess-1").0, "sess-1");
    assert_eq!(AuthMethodId::new("oauth").0, "oauth");
    assert_eq!(TerminalId::new("t").0, "t");
}

#[test]
fn version_from_number() {
    assert_eq!(ProtocolVersion::from_number(1), Ok(ProtocolVersion::new(1)));
    assert_eq!(ProtocolVersion::from_number(0), Ok(ProtocolVersion::new(0)));
    assert_eq!(ProtocolVersion::from_number(65535), Ok(ProtocolVersion::new(65535)));
    assert_eq!(ProtocolVersion::from_number(100000), Err(VersionError::TooLarge(100000)));
}

#[test]
fn legacy_string_version_is_zero() {
    assert_eq!(ProtocolVersion::from_legacy_string("1.0.0"), ProtocolVersion::v0());
}

#[test]
fn negotiation_echoes_highest_common_version() {
    assert_eq!(ProtocolVersion::negotiate(ProtocolVersion::new(7)), ProtocolVersion::latest());
    assert_eq!(ProtocolVersion::negotiate(ProtocolVersion::v1()), ProtocolVersion::v1());
    assert_eq!(ProtocolVersion::negotiate(ProtocolVersion::v0()), ProtocolVersion::v0());
    assert_eq!(ProtocolVersion::latest().number(), 1);
}

#[test]
fn payload_names_of_methods() {
    assert_eq!(AgentMethod::SessionNew.payload_name(), "NewSessionRequest");
    assert_eq!(AgentMethod::SessionCancel.payload_name(), "CancelNotification");
    assert_eq!(ClientMethod::SessionUpdate.payload_name(), "SessionNotification");
    assert_eq!(ClientMethod::TerminalKill.payload_name(), "KillTerminalCommandRequest");
}

#[test]
fn cancelled_turn_ends_as_cancelled() {
    assert_eq!(
        StopReason::settle_turn(true, Err(Error::internal_error())).unwrap(),
        StopReason::Cancelled
    );
    assert_eq!(StopReason::settle_turn(true, Ok(StopReason::EndTurn)).unwrap(), StopReason::Cancelled);
    assert_eq!(StopReason::settle_turn(false, Ok(StopReason::MaxTokens)).unwrap(), StopReason::MaxTokens);
    assert!(StopReason::settle_turn(false, Err(Error::auth_required())).is_err());
}

#[test]
fn versions_order_by_number() {
    assert!(ProtocolVersion::new(0) < ProtocolVersion::new(1));
    assert!(ProtocolVersion::new(300) > ProtocolVersion::new(2));
    assert!(ProtocolVersion::v1() <= ProtocolVersion::latest());
}
