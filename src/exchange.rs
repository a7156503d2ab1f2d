use vstd::prelude::*;
use crate::json::{
    bool_field, field, json_parse, json_quote, number_field, parse_json, quote_json, str_field,
    Json,
};

verus! {

/// The second factors that the account service offers for a pending challenge.
#[derive(Clone, Copy, PartialEq, Eq, Structural, Debug)]
pub struct MfaFactors {
    pub totp: bool,
    pub sms: bool,
    pub backup: bool,
    pub webauthn: bool,
}

/// Settings the account service returns with a session token.
#[derive(Clone, Debug, PartialEq, Eq)]
pub struct UserSettings {
    pub locale: String,
    pub theme: String,
}

/// Proof of an authenticated session.
#[derive(Clone, Debug, PartialEq, Eq)]
pub struct SessionToken {
    pub token: String,
    pub settings: UserSettings,
}

/// Why a credential exchange did not authenticate.
#[derive(Clone, Copy, PartialEq, Eq, Structural, Debug)]
pub enum RejectReason {
    /// The request never got a reply.
    Transport,
    /// The reply did not have the shape of any known answer.
    Protocol,
    /// The service refused the credentials.
    Credentials,
}

/// What one credential exchange produced.
#[derive(Clone, Debug, PartialEq, Eq)]
pub enum LoginOutcome {
    Authenticated { user_id: String, session: Option<SessionToken> },
    MfaRequired { user_id: String, ticket: String, factors: MfaFactors },
    Rejected { reason: RejectReason },
}

/// Why a multi-factor resolution did not produce a session.
#[derive(Clone, Copy, PartialEq, Eq, Structural, Debug)]
pub enum MfaError {
    /// The service refused the code; the ticket may be tried again.
    InvalidCode,
    /// The service refused the ticket itself.
    ExpiredTicket,
    /// The request never got a reply.
    Transport,
    /// The reply did not have the shape of any known answer.
    Protocol,
}

pub ghost struct SessionView {
    pub token: Seq<char>,
    pub locale: Seq<char>,
    pub theme: Seq<char>,
}

pub ghost enum OutcomeView {
    Authenticated { user_id: Seq<char>, session: Option<SessionView> },
    MfaRequired { user_id: Seq<char>, ticket: Seq<char>, factors: MfaFactors },
    Rejected { reason: RejectReason },
}

impl View for SessionToken {
    type V = SessionView;

    open spec fn view(&self) -> SessionView {
        SessionView {
            token: self.token@,
            locale: self.settings.locale@,
            theme: self.settings.theme@,
        }
    }
}

impl View for LoginOutcome {
    type V = OutcomeView;

    open spec fn view(&self) -> OutcomeView {
        match self {
            LoginOutcome::Authenticated { user_id, session } => OutcomeView::Authenticated {
                user_id: user_id@,
                session: match session {
                    Some(t) => Some(t@),
                    None => None,
                },
            },
            LoginOutcome::MfaRequired { user_id, ticket, factors } => OutcomeView::MfaRequired {
                user_id: user_id@,
                ticket: ticket@,
                factors: *factors,
            },
            LoginOutcome::Rejected { reason } => OutcomeView::Rejected { reason: *reason },
        }
    }
}

/// The account service's login endpoint.
pub const LOGIN_URL: &'static str = "https://discord.com/api/v9/auth/login";

/// The account service's endpoint for a time-based second-factor code.
pub const MFA_URL: &'static str = "https://discord.com/api/v9/auth/mfa/totp";

/// The service's error code for a second-factor code that it refused.
pub const INVALID_MFA_CODE: &'static str = "60008";

/// Body of a login request: `{"login": identifier, "password": secret}`.
pub open spec fn login_body(identifier: Seq<char>, secret: Seq<char>) -> Seq<char> {
    "{\"login\":"@ + json_quote(identifier) + ",\"password\":"@ + json_quote(secret) + "}"@
}

/// Body of a multi-factor request: `{"code": code, "ticket": ticket}`.
pub open spec fn mfa_body(code: Seq<char>, ticket: Seq<char>) -> Seq<char> {
    "{\"code\":"@ + json_quote(code) + ",\"ticket\":"@ + json_quote(ticket) + "}"@
}

/// The session a reply carries: a non-empty `token` string and a
/// `user_settings` object with `locale` and `theme` strings.
pub open spec fn session_of(j: Json) -> Option<SessionView> {
    match (str_field(j, "token"@), field(j, "user_settings"@)) {
        (Some(token), Some(settings)) => match (
            str_field(settings, "locale"@),
            str_field(settings, "theme"@),
        ) {
            (Some(locale), Some(theme)) => if token.len() > 0 {
                Some(SessionView { token, locale, theme })
            } else {
                None
            },
            _ => None,
        },
        _ => None,
    }
}

/// Whether a reply has the shape of the service's error answer.
pub open spec fn is_error_reply(j: Json) -> bool {
    field(j, "message"@) is Some || field(j, "code"@) is Some
}

/// Whether a login reply has the success shape: `user_id` and `ticket`
/// strings, `mfa`, `sms`, `backup` and `totp` booleans, and a `webauthn` that
/// is a string, null or absent.
pub open spec fn is_success_reply(j: Json) -> bool {
    &&& str_field(j, "user_id"@) is Some
    &&& str_field(j, "ticket"@) is Some
    &&& bool_field(j, "mfa"@) is Some
    &&& bool_field(j, "sms"@) is Some
    &&& bool_field(j, "backup"@) is Some
    &&& bool_field(j, "totp"@) is Some
    &&& match field(j, "webauthn"@) {
        None => true,
        Some(Json::Null) => true,
        Some(Json::Str(_)) => true,
        _ => false,
    }
}

/// The factors a login reply of the success shape offers.
pub open spec fn factors_of(j: Json) -> MfaFactors {
    MfaFactors {
        totp: bool_field(j, "totp"@) == Some(true),
        sms: bool_field(j, "sms"@) == Some(true),
        backup: bool_field(j, "backup"@) == Some(true),
        webauthn: str_field(j, "webauthn"@) is Some,
    }
}

/// Whether a login reply of the success shape asks for a second factor.
pub open spec fn mfa_flagged(j: Json) -> bool {
    bool_field(j, "mfa"@) == Some(true) || bool_field(j, "totp"@) == Some(true)
}

/// What a login reply means. A reply of the success shape asks for a second
/// factor under its ticket when it is flagged, else authenticates its user,
/// with the session it carries, if any. An error answer rejects the
/// credentials; anything else is a protocol error.
pub open spec fn login_outcome_of(j: Json) -> OutcomeView {
    if is_success_reply(j) {
        let user_id = str_field(j, "user_id"@).unwrap();
        if mfa_flagged(j) {
            OutcomeView::MfaRequired {
                user_id,
                ticket: str_field(j, "ticket"@).unwrap(),
                factors: factors_of(j),
            }
        } else {
            OutcomeView::Authenticated { user_id, session: session_of(j) }
        }
    } else if is_error_reply(j) {
        OutcomeView::Rejected { reason: RejectReason::Credentials }
    } else {
        OutcomeView::Rejected { reason: RejectReason::Protocol }
    }
}

/// What the body of a login reply means; a body that is not JSON is a protocol error.
pub open spec fn login_reply_outcome(body: Seq<char>) -> OutcomeView {
    match json_parse(body) {
        Some(j) => login_outcome_of(j),
        None => OutcomeView::Rejected { reason: RejectReason::Protocol },
    }
}

/// What a multi-factor reply means. A session resolves the challenge; the
/// service's refused-code answer keeps the ticket open; any other error answer
/// refuses the ticket; anything else is a protocol error.
pub open spec fn mfa_outcome_of(j: Json) -> Result<SessionView, MfaError> {
    match session_of(j) {
        Some(session) => Ok(session),
        None => if number_field(j, "code"@) == Some(INVALID_MFA_CODE@) {
            Err(MfaError::InvalidCode)
        } else if is_error_reply(j) {
            Err(MfaError::ExpiredTicket)
        } else {
            Err(MfaError::Protocol)
        },
    }
}

/// What the body of a multi-factor reply means; a body that is not JSON is a protocol error.
pub open spec fn mfa_reply_outcome(body: Seq<char>) -> Result<SessionView, MfaError> {
    match json_parse(body) {
        Some(j) => mfa_outcome_of(j),
        None => Err(MfaError::Protocol),
    }
}

/// Builds the body of a login request.
pub fn login_request_body(identifier: &str, secret: &str) -> (r: String)
    ensures
        r@ == login_body(identifier@, secret@),
{
    let mut body = String::from_str("{\"login\":");
    let quoted = quote_json(identifier);
    body.append(quoted.as_str());
    body.append(",\"password\":");
    let quoted = quote_json(secret);
    body.append(quoted.as_str());
    body.append("}");
    body
}

/// Builds the body of a multi-factor request.
pub fn mfa_request_body(code: &str, ticket: &str) -> (r: String)
    ensures
        r@ == mfa_body(code@, ticket@),
{
    let mut body = String::from_str("{\"code\":");
    let quoted = quote_json(code);
    body.append(quoted.as_str());
    body.append(",\"ticket\":");
    let quoted = quote_json(ticket);
    body.append(quoted.as_str());
    body.append("}");
    body
}

fn owned(s: &String) -> (r: String)
    ensures
        r@ == s@,
{
    s.clone()
}

/// The session carried by a reply document.
pub fn session_from(j: &Json) -> (r: Option<SessionToken>)
    ensures
        match r {
            Some(s) => session_of(*j) == Some(s@),
            None => session_of(*j) is None,
        },
{
    let token = match j.get_str("token") {
        Some(t) => t,
        None => return None,
    };
    let settings = match j.get("user_settings") {
        Some(s) => s,
        None => return None,
    };
    let locale = match settings.get_str("locale") {
        Some(l) => l,
        None => return None,
    };
    let theme = match settings.get_str("theme") {
        Some(t) => t,
        None => return None,
    };
    if token.as_str().is_empty() {
        return None;
    }
    Some(SessionToken {
        token: owned(token),
        settings: UserSettings { locale: owned(locale), theme: owned(theme) },
    })
}

/// Whether a login reply document has the success shape.
pub fn is_success_reply_doc(j: &Json) -> (r: bool)
    ensures
        r == is_success_reply(*j),
{
    let webauthn_ok = match j.get("webauthn") {
        None => true,
        Some(Json::Null) => true,
        Some(Json::Str(_)) => true,
        _ => false,
    };
    j.get_str("user_id").is_some() && j.get_str("ticket").is_some() && j.get_bool("mfa").is_some()
        && j.get_bool("sms").is_some() && j.get_bool("backup").is_some() && j.get_bool(
        "totp",
    ).is_some() && webauthn_ok
}

/// The outcome a login reply document stands for.
pub fn login_outcome_from(j: &Json) -> (r: LoginOutcome)
    ensures
        r@ == login_outcome_of(*j),
{
    if !is_success_reply_doc(j) {
        if j.get("message").is_some() || j.get("code").is_some() {
            return LoginOutcome::Rejected { reason: RejectReason::Credentials };
        }
        return LoginOutcome::Rejected { reason: RejectReason::Protocol };
    }
    let (user_id, ticket) = match (j.get_str("user_id"), j.get_str("ticket")) {
        (Some(u), Some(t)) => (u, t),
        _ => return LoginOutcome::Rejected { reason: RejectReason::Protocol },
    };
    let flagged = j.get_bool("mfa") == Some(true) || j.get_bool("totp") == Some(true);
    if flagged {
        let factors = MfaFactors {
            totp: j.get_bool("totp") == Some(true),
            sms: j.get_bool("sms") == Some(true),
            backup: j.get_bool("backup") == Some(true),
            webauthn: j.get_str("webauthn").is_some(),
        };
        LoginOutcome::MfaRequired { user_id: owned(user_id), ticket: owned(ticket), factors }
    } else {
        LoginOutcome::Authenticated { user_id: owned(user_id), session: session_from(j) }
    }
}

/// Interprets the body of a login reply.
pub fn interpret_login_reply(body: &str) -> (r: LoginOutcome)
    ensures
        r@ == login_reply_outcome(body@),
{
    match parse_json(body) {
        Some(j) => login_outcome_from(&j),
        None => LoginOutcome::Rejected { reason: RejectReason::Protocol },
    }
}

/// The session, or the refusal, that a multi-factor reply document stands for.
pub fn mfa_outcome_from(j: &Json) -> (r: Result<SessionToken, MfaError>)
    ensures
        match r {
            Ok(s) => mfa_outcome_of(*j) == Ok::<SessionView, MfaError>(s@),
            Err(e) => mfa_outcome_of(*j) == Err::<SessionView, MfaError>(e),
        },
{
    match session_from(j) {
        Some(session) => Ok(session),
        None => {
            let invalid_code = String::from_str(INVALID_MFA_CODE);
            let refused_code = match j.get_number("code") {
                Some(n) => *n == invalid_code,
                None => false,
            };
            if refused_code {
                Err(MfaError::InvalidCode)
            } else if j.get("message").is_some() || j.get("code").is_some() {
                Err(MfaError::ExpiredTicket)
            } else {
                Err(MfaError::Protocol)
            }
        },
    }
}

/// Interprets the body of a multi-factor reply.
pub fn interpret_mfa_reply(body: &str) -> (r: Result<SessionToken, MfaError>)
    ensures
        match r {
            Ok(s) => mfa_reply_outcome(body@) == Ok::<SessionView, MfaError>(s@),
            Err(e) => mfa_reply_outcome(body@) == Err::<SessionView, MfaError>(e),
        },
{
    match parse_json(body) {
        Some(j) => mfa_outcome_from(&j),
        None => Err(MfaError::Protocol),
    }
}

} // verus!
