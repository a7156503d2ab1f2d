use discord_login::exchange::{
    interpret_login_reply, interpret_mfa_reply, login_request_body, mfa_request_body,
    LoginOutcome, MfaError, MfaFactors, RejectReason,
};
use discord_login::flow::{AuthFlow, FlowError, FlowState, Pending, Step};

const MFA_REPLY: &str = r#"{"user_id":"42","mfa":true,"sms":false,"ticket":"T1","backup":false,"totp":true,"webauthn":null}"#;
const SESSION_REPLY: &str = r#"{"token":"tok_abc","user_settings":{"locale":"en-US","theme":"dark"}}"#;
const REJECTION_REPLY: &str = r#"{"code":50035,"errors":{"login":{"_errors":[{"code":"INVALID_LOGIN","message":"Login or password is invalid."}]}},"message":"Invalid Form Body"}"#;

fn sent_body(step: Step) -> serde_json::Value {
    match step {
        Step::Send(body) => serde_json::from_str(&body).expect("body is JSON"),
        other => panic!("expected a request, got {:?}", other),
    }
}

fn error_kind(flow: &AuthFlow) -> Option<FlowError> {
    match flow.state() {
        FlowState::Error { kind, .. } => Some(*kind),
        _ => None,
    }
}

fn flow_awaiting_mfa() -> AuthFlow {
    let mut flow = AuthFlow::new();
    let _ = flow.login("user@example.com", "correct-pw");
    assert_eq!(flow.finish_login(Some(MFA_REPLY)), None);
    flow
}

#[test]
fn login_with_mfa_then_code_authenticates() {
    let mut flow = AuthFlow::new();
    assert_eq!(*flow.state(), FlowState::AwaitingCredentials);
    let body = sent_body(flow.login("user@example.com", "correct-pw"));
    assert_eq!(body["login"], "user@example.com");
    assert_eq!(body["password"], "correct-pw");
    assert_eq!(body.as_object().unwrap().len(), 2);
    assert_eq!(flow.pending(), Pending::Login);

    assert_eq!(flow.finish_login(Some(MFA_REPLY)), None);
    assert_eq!(
        *flow.state(),
        FlowState::AwaitingMfa {
            factors: MfaFactors { totp: true, sms: false, backup: false, webauthn: false }
        }
    );

    let body = sent_body(flow.confirm_mfa("123456"));
    assert_eq!(body["code"], "123456");
    assert_eq!(body["ticket"], "T1");

    let session = flow.finish_mfa(Some(SESSION_REPLY)).expect("a session");
    assert_eq!(session.token, "tok_abc");
    assert_eq!(session.settings.locale, "en-US");
    assert_eq!(session.settings.theme, "dark");
    assert_eq!(*flow.state(), FlowState::Authenticated { user_id: "42".to_string() });
    assert_eq!(flow.pending(), Pending::Idle);
}

#[test]
fn wrong_password_is_rejected_without_mfa() {
    let mut flow = AuthFlow::new();
    let _ = sent_body(flow.login("user@example.com", "wrong-pw"));
    assert_eq!(flow.finish_login(Some(REJECTION_REPLY)), None);
    assert_eq!(error_kind(&flow), Some(FlowError::RejectedCredentials));
    assert_eq!(flow.confirm_mfa("123456"), Step::Ignored);
}

#[test]
fn empty_credentials_send_nothing() {
    let mut flow = AuthFlow::new();
    assert_eq!(flow.login("", "pw"), Step::Ignored);
    assert_eq!(flow.login("user@example.com", ""), Step::Ignored);
    assert_eq!(flow.login("", ""), Step::Ignored);
    assert_eq!(*flow.state(), FlowState::AwaitingCredentials);
    assert_eq!(flow.pending(), Pending::Idle);
}

#[test]
fn second_login_while_waiting_is_busy() {
    let mut flow = AuthFlow::new();
    let _ = sent_body(flow.login("user@example.com", "correct-pw"));
    assert_eq!(flow.login("user@example.com", "correct-pw"), Step::Busy);
    assert_eq!(flow.confirm_mfa("123456"), Step::Ignored);
    assert_eq!(flow.pending(), Pending::Login);
}

#[test]
fn no_reply_is_a_transport_error() {
    let mut flow = AuthFlow::new();
    let _ = sent_body(flow.login("user@example.com", "correct-pw"));
    assert_eq!(flow.finish_login(None), None);
    assert_eq!(error_kind(&flow), Some(FlowError::Transport));
    assert_eq!(flow.pending(), Pending::Idle);
}

#[test]
fn malformed_reply_is_a_protocol_error() {
    let mut flow = AuthFlow::new();
    let _ = sent_body(flow.login("user@example.com", "correct-pw"));
    assert_eq!(flow.finish_login(Some("<html>bad gateway</html>")), None);
    assert_eq!(error_kind(&flow), Some(FlowError::Protocol));
}

#[test]
fn reply_without_login_waiting_changes_nothing() {
    let mut flow = AuthFlow::new();
    assert_eq!(flow.finish_login(Some(MFA_REPLY)), None);
    assert_eq!(flow.finish_mfa(Some(SESSION_REPLY)), None);
    assert_eq!(*flow.state(), FlowState::AwaitingCredentials);
}

#[test]
fn direct_login_hands_out_session() {
    let mut flow = AuthFlow::new();
    let _ = sent_body(flow.login("user@example.com", "correct-pw"));
    let reply = r#"{"user_id":"7","mfa":false,"sms":false,"ticket":"","backup":false,"totp":false,"token":"tok_direct","user_settings":{"locale":"fr","theme":"light"}}"#;
    let session = flow.finish_login(Some(reply)).expect("a session");
    assert_eq!(session.token, "tok_direct");
    assert_eq!(*flow.state(), FlowState::Authenticated { user_id: "7".to_string() });
    assert_eq!(flow.confirm_mfa("123456"), Step::Ignored);
}

#[test]
fn ticket_is_not_used_after_success() {
    let mut flow = flow_awaiting_mfa();
    let _ = sent_body(flow.confirm_mfa("123456"));
    assert!(flow.finish_mfa(Some(SESSION_REPLY)).is_some());
    assert_eq!(flow.confirm_mfa("123456"), Step::Ignored);
}

#[test]
fn refused_code_allows_another_code() {
    let mut flow = flow_awaiting_mfa();
    let _ = sent_body(flow.confirm_mfa("000000"));
    assert_eq!(flow.finish_mfa(Some(r#"{"code":60008,"message":"Invalid two-factor code"}"#)), None);
    assert_eq!(error_kind(&flow), Some(FlowError::InvalidMfaCode));
    let body = sent_body(flow.confirm_mfa("123456"));
    assert_eq!(body["ticket"], "T1");
}

#[test]
fn refused_ticket_forces_new_login() {
    let mut flow = flow_awaiting_mfa();
    let _ = sent_body(flow.confirm_mfa("123456"));
    assert_eq!(flow.finish_mfa(Some(r#"{"code":60006,"message":"Invalid two-factor auth ticket"}"#)), None);
    assert_eq!(error_kind(&flow), Some(FlowError::ExpiredOrInvalidTicket));
    assert_eq!(flow.confirm_mfa("123456"), Step::Ignored);
    let _ = sent_body(flow.login("user@example.com", "correct-pw"));
}

#[test]
fn mfa_without_reply_closes_challenge() {
    let mut flow = flow_awaiting_mfa();
    let _ = sent_body(flow.confirm_mfa("123456"));
    assert_eq!(flow.confirm_mfa("123456"), Step::Busy);
    assert_eq!(flow.finish_mfa(None), None);
    assert_eq!(error_kind(&flow), Some(FlowError::Transport));
    assert_eq!(flow.confirm_mfa("123456"), Step::Ignored);
}

#[test]
fn empty_code_is_ignored() {
    let mut flow = flow_awaiting_mfa();
    assert_eq!(flow.confirm_mfa(""), Step::Ignored);
    assert_eq!(flow.pending(), Pending::Idle);
}

#[test]
fn login_outcomes_of_replies() {
    match interpret_login_reply(MFA_REPLY) {
        LoginOutcome::MfaRequired { user_id, ticket, factors } => {
            assert_eq!(user_id, "42");
            assert_eq!(ticket, "T1");
            assert!(factors.totp);
        },
        other => panic!("unexpected {:?}", other),
    }
    assert_eq!(
        interpret_login_reply(REJECTION_REPLY),
        LoginOutcome::Rejected { reason: RejectReason::Credentials }
    );
    assert_eq!(
        interpret_login_reply(r#"{"user_id":"9","mfa":true,"ticket":"T2","sms":true,"webauthn":"{}"}"#),
        LoginOutcome::Rejected { reason: RejectReason::Protocol }
    );
    assert_eq!(
        interpret_login_reply(r#"{"user_id":"42","mfa":true,"totp":true}"#),
        LoginOutcome::Rejected { reason: RejectReason::Protocol }
    );
    assert_eq!(
        interpret_login_reply(r#"{"user_id":"42"}"#),
        LoginOutcome::Rejected { reason: RejectReason::Protocol }
    );
    assert_eq!(interpret_login_reply("[]"), LoginOutcome::Rejected { reason: RejectReason::Protocol });
    match interpret_login_reply(
        r#"{"user_id":"9","mfa":true,"sms":true,"ticket":"T2","backup":false,"totp":false,"webauthn":"{}"}"#,
    ) {
        LoginOutcome::MfaRequired { factors, .. } => {
            assert_eq!(factors, MfaFactors { totp: false, sms: true, backup: false, webauthn: true });
        },
        other => panic!("unexpected {:?}", other),
    }
}

#[test]
fn mfa_outcomes_of_replies() {
    assert_eq!(interpret_mfa_reply(SESSION_REPLY).unwrap().token, "tok_abc");
    assert_eq!(
        interpret_mfa_reply(r#"{"token":"","user_settings":{"locale":"en-US","theme":"dark"}}"#),
        Err(MfaError::Protocol)
    );
    assert_eq!(interpret_mfa_reply(r#"{"token":"t","user_settings":{"locale":"en-US"}}"#), Err(MfaError::Protocol));
    assert_eq!(interpret_mfa_reply(r#"{"code":60008,"message":"x"}"#), Err(MfaError::InvalidCode));
    assert_eq!(interpret_mfa_reply(r#"{"message":"x"}"#), Err(MfaError::ExpiredTicket));
    assert_eq!(interpret_mfa_reply("not json"), Err(MfaError::Protocol));
}

#[test]
fn request_bodies_escape_their_strings() {
    let body = login_request_body("a\"b@example.com", "p\\w\n");
    assert_eq!(body, r#"{"login":"a\"b@example.com","password":"p\\w\n"}"#);
    let value: serde_json::Value = serde_json::from_str(&body).unwrap();
    assert_eq!(value["login"], "a\"b@example.com");
    assert_eq!(value["password"], "p\\w\n");
    assert_eq!(mfa_request_body("123456", "T1"), r#"{"code":"123456","ticket":"T1"}"#);
}

#[test]
fn success_shape_is_checked_field_by_field() {
    let full = r#"{"user_id":"42","mfa":true,"sms":false,"ticket":"T1","backup":false,"totp":true"#;
    assert!(matches!(interpret_login_reply(&format!("{full}}}")), LoginOutcome::MfaRequired { .. }));
    assert!(matches!(
        interpret_login_reply(&format!("{full},\"webauthn\":null}}")),
        LoginOutcome::MfaRequired { .. }
    ));
    assert_eq!(
        interpret_login_reply(&format!("{full},\"webauthn\":5}}")),
        LoginOutcome::Rejected { reason: RejectReason::Protocol }
    );
    for missing in ["user_id", "mfa", "sms", "ticket", "backup", "totp"] {
        let mut value: serde_json::Value = serde_json::from_str(MFA_REPLY).unwrap();
        value.as_object_mut().unwrap().remove(missing);
        assert_eq!(
            interpret_login_reply(&value.to_string()),
            LoginOutcome::Rejected { reason: RejectReason::Protocol },
            "without {missing}"
        );
    }
    assert_eq!(
        interpret_login_reply(r#"{"user_id":"42","mfa":"yes","sms":false,"ticket":"T1","backup":false,"totp":true}"#),
        LoginOutcome::Rejected { reason: RejectReason::Protocol }
    );
}

#[test]
fn unflagged_success_authenticates_without_session() {
    let reply = r#"{"user_id":"42","mfa":false,"sms":false,"ticket":"T1","backup":false,"totp":false,"webauthn":null}"#;
    assert_eq!(
        interpret_login_reply(reply),
        LoginOutcome::Authenticated { user_id: "42".to_string(), session: None }
    );
    let mut flow = AuthFlow::new();
    let _ = sent_body(flow.login("user@example.com", "correct-pw"));
    assert_eq!(flow.finish_login(Some(reply)), None);
    assert_eq!(*flow.state(), FlowState::Authenticated { user_id: "42".to_string() });
    assert_eq!(flow.confirm_mfa("123456"), Step::Ignored);
}

#[test]
fn error_states_carry_messages() {
    let mut flow = AuthFlow::new();
    let _ = sent_body(flow.login("user@example.com", "wrong-pw"));
    let _ = flow.finish_login(Some(REJECTION_REPLY));
    assert_eq!(
        *flow.state(),
        FlowState::Error {
            kind: FlowError::RejectedCredentials,
            message: "Email or password incorrect.".to_string()
        }
    );
    let _ = sent_body(flow.login("user@example.com", "correct-pw"));
    let _ = flow.finish_login(None);
    assert_eq!(
        *flow.state(),
        FlowState::Error { kind: FlowError::Transport, message: "Something went wrong, try again.".to_string() }
    );
}

#[test]
fn factors_stay_known_after_refused_code() {
    let mut flow = flow_awaiting_mfa();
    let factors = MfaFactors { totp: true, sms: false, backup: false, webauthn: false };
    assert_eq!(flow.challenge_factors(), Some(factors));
    let _ = sent_body(flow.confirm_mfa("000000"));
    let _ = flow.finish_mfa(Some(r#"{"code":60008,"message":"Invalid two-factor code"}"#));
    assert_eq!(
        *flow.state(),
        FlowState::Error { kind: FlowError::InvalidMfaCode, message: "Code incorrect, try again.".to_string() }
    );
    assert_eq!(flow.challenge_factors(), Some(factors));
    let _ = sent_body(flow.confirm_mfa("123456"));
    assert!(flow.finish_mfa(Some(SESSION_REPLY)).is_some());
    assert_eq!(flow.challenge_factors(), None);
}

#[test]
fn plain_strings_are_quoted_as_they_are() {
    assert_eq!(
        login_request_body("user@example.com", "correct-pw"),
        r#"{"login":"user@example.com","password":"correct-pw"}"#
    );
}
