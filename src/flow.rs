use vstd::prelude::*;
use crate::exchange::{
    interpret_login_reply, interpret_mfa_reply, login_body, login_reply_outcome,
    login_request_body, mfa_body, mfa_reply_outcome, mfa_request_body, LoginOutcome, MfaError,
    MfaFactors, OutcomeView, RejectReason, SessionToken, SessionView,
};

verus! {

/// Why the flow stands in its error state.
#[derive(Clone, Copy, PartialEq, Eq, Structural, Debug)]
pub enum FlowError {
    RejectedCredentials,
    InvalidMfaCode,
    ExpiredOrInvalidTicket,
    Transport,
    Protocol,
}

/// What the user interface renders.
#[derive(Clone, Debug, PartialEq, Eq)]
pub enum FlowState {
    AwaitingCredentials,
    AwaitingMfa { factors: MfaFactors },
    Authenticated { user_id: String },
    Error { kind: FlowError, message: String },
}

/// The exchange that is waiting for its reply, if any.
#[derive(Clone, Copy, PartialEq, Eq, Structural, Debug)]
pub enum Pending {
    Idle,
    Login,
    Mfa,
}

/// What the caller is to do after a command.
#[derive(Clone, Debug, PartialEq, Eq)]
pub enum Step {
    /// The input was not acceptable here: nothing is sent and nothing changed.
    Ignored,
    /// An exchange is already waiting for its reply: nothing is sent and nothing changed.
    Busy,
    /// Send this body to the service and report the reply back.
    Send(String),
}

/// A pending second-factor challenge: whose, under which ticket, and with
/// which factors offered.
#[derive(Debug)]
pub struct Challenge {
    pub user_id: String,
    pub ticket: String,
    pub factors: MfaFactors,
}

/// The authentication flow: credential exchange, then, where the service asks
/// for one, multi-factor resolution. It keeps the challenge ticket while it is
/// open and never keeps a session token.
#[derive(Debug)]
pub struct AuthFlow {
    state: FlowState,
    challenge: Option<Challenge>,
    pending: Pending,
}

pub ghost enum StateView {
    AwaitingCredentials,
    AwaitingMfa { factors: MfaFactors },
    Authenticated { user_id: Seq<char> },
    Error { kind: FlowError, message: Seq<char> },
}

pub ghost struct ChallengeView {
    pub user_id: Seq<char>,
    pub ticket: Seq<char>,
    pub factors: MfaFactors,
}

pub ghost struct FlowView {
    pub state: StateView,
    pub challenge: Option<ChallengeView>,
    pub pending: Pending,
}

pub ghost enum StepView {
    Ignored,
    Busy,
    Send(Seq<char>),
}

impl View for FlowState {
    type V = StateView;

    open spec fn view(&self) -> StateView {
        match self {
            FlowState::AwaitingCredentials => StateView::AwaitingCredentials,
            FlowState::AwaitingMfa { factors } => StateView::AwaitingMfa { factors: *factors },
            FlowState::Authenticated { user_id } => StateView::Authenticated { user_id: user_id@ },
            FlowState::Error { kind, message } => StateView::Error { kind: *kind, message: message@ },
        }
    }
}

impl View for Challenge {
    type V = ChallengeView;

    open spec fn view(&self) -> ChallengeView {
        ChallengeView { user_id: self.user_id@, ticket: self.ticket@, factors: self.factors }
    }
}

impl View for Step {
    type V = StepView;

    open spec fn view(&self) -> StepView {
        match self {
            Step::Ignored => StepView::Ignored,
            Step::Busy => StepView::Busy,
            Step::Send(body) => StepView::Send(body@),
        }
    }
}

impl View for AuthFlow {
    type V = FlowView;

    closed spec fn view(&self) -> FlowView {
        FlowView {
            state: self.state@,
            challenge: match self.challenge {
                Some(c) => Some(c@),
                None => None,
            },
            pending: self.pending,
        }
    }
}

/// A flow is well formed when a second-factor request is only ever waiting
/// under an open challenge, and the flow only asks for a code while one is open.
pub open spec fn flow_wf(f: FlowView) -> bool {
    &&& f.pending == Pending::Mfa ==> f.challenge is Some
    &&& f.state is AwaitingMfa ==> f.challenge is Some
}

/// What the user is told of an error: actionable where the user can act,
/// without any transport detail.
pub open spec fn error_message(kind: FlowError) -> Seq<char> {
    match kind {
        FlowError::RejectedCredentials => "Email or password incorrect."@,
        FlowError::InvalidMfaCode => "Code incorrect, try again."@,
        FlowError::ExpiredOrInvalidTicket => "The code request expired, log in again."@,
        FlowError::Transport => "Something went wrong, try again."@,
        FlowError::Protocol => "Something went wrong, try again."@,
    }
}

/// The error state for an error kind.
pub open spec fn error_state(kind: FlowError) -> StateView {
    StateView::Error { kind, message: error_message(kind) }
}

/// The error the user sees for a rejected login.
pub open spec fn login_error(reason: RejectReason) -> FlowError {
    match reason {
        RejectReason::Transport => FlowError::Transport,
        RejectReason::Protocol => FlowError::Protocol,
        RejectReason::Credentials => FlowError::RejectedCredentials,
    }
}

/// The error the user sees for a failed multi-factor resolution.
pub open spec fn mfa_error(e: MfaError) -> FlowError {
    match e {
        MfaError::InvalidCode => FlowError::InvalidMfaCode,
        MfaError::ExpiredTicket => FlowError::ExpiredOrInvalidTicket,
        MfaError::Transport => FlowError::Transport,
        MfaError::Protocol => FlowError::Protocol,
    }
}

/// `login`: empty input is ignored, a second login while an exchange waits is
/// refused, otherwise exactly one login request goes out.
pub open spec fn login_step(f: FlowView, identifier: Seq<char>, secret: Seq<char>) -> (FlowView, StepView) {
    if identifier.len() == 0 || secret.len() == 0 {
        (f, StepView::Ignored)
    } else if f.pending != Pending::Idle {
        (f, StepView::Busy)
    } else {
        (FlowView { pending: Pending::Login, ..f }, StepView::Send(login_body(identifier, secret)))
    }
}

/// The outcome of a login exchange, from its reply body or from no reply at all.
pub open spec fn login_exchange_outcome(reply: Option<Seq<char>>) -> OutcomeView {
    match reply {
        Some(body) => login_reply_outcome(body),
        None => OutcomeView::Rejected { reason: RejectReason::Transport },
    }
}

/// The reply to a waiting login: the flow moves to the state that the outcome
/// names, and a direct authentication hands out the session the reply
/// carried, if any. A reply that nobody waits for changes nothing.
pub open spec fn login_finish(f: FlowView, reply: Option<Seq<char>>) -> (FlowView, Option<SessionView>) {
    if f.pending != Pending::Login {
        (f, None)
    } else {
        match login_exchange_outcome(reply) {
            OutcomeView::Authenticated { user_id, session } => (
                FlowView {
                    state: StateView::Authenticated { user_id },
                    challenge: None,
                    pending: Pending::Idle,
                },
                session,
            ),
            OutcomeView::MfaRequired { user_id, ticket, factors } => (
                FlowView {
                    state: StateView::AwaitingMfa { factors },
                    challenge: Some(ChallengeView { user_id, ticket, factors }),
                    pending: Pending::Idle,
                },
                None,
            ),
            OutcomeView::Rejected { reason } => (
                FlowView {
                    state: error_state(login_error(reason)),
                    challenge: None,
                    pending: Pending::Idle,
                },
                None,
            ),
        }
    }
}

/// `confirm_mfa`: an empty code, or no open challenge, is ignored; a code while
/// an exchange waits is refused; otherwise exactly one request goes out with
/// the open ticket.
pub open spec fn mfa_step(f: FlowView, code: Seq<char>) -> (FlowView, StepView) {
    if code.len() == 0 || f.challenge is None {
        (f, StepView::Ignored)
    } else if f.pending != Pending::Idle {
        (f, StepView::Busy)
    } else {
        (
            FlowView { pending: Pending::Mfa, ..f },
            StepView::Send(mfa_body(code, f.challenge.unwrap().ticket)),
        )
    }
}

/// The outcome of a multi-factor exchange, from its reply body or from no reply at all.
pub open spec fn mfa_exchange_outcome(reply: Option<Seq<char>>) -> Result<SessionView, MfaError> {
    match reply {
        Some(body) => mfa_reply_outcome(body),
        None => Err(MfaError::Transport),
    }
}

/// The reply to a waiting multi-factor request: a session authenticates the
/// challenge's user and closes the challenge; a refused code keeps it open for
/// another code; every other failure closes it, so that the flow restarts
/// from the credentials. A reply that nobody waits for changes nothing.
pub open spec fn mfa_finish(f: FlowView, reply: Option<Seq<char>>) -> (FlowView, Option<SessionView>) {
    if f.pending != Pending::Mfa || f.challenge is None {
        (f, None)
    } else {
        match mfa_exchange_outcome(reply) {
            Ok(session) => (
                FlowView {
                    state: StateView::Authenticated { user_id: f.challenge.unwrap().user_id },
                    challenge: None,
                    pending: Pending::Idle,
                },
                Some(session),
            ),
            Err(e) => (
                FlowView {
                    state: error_state(mfa_error(e)),
                    challenge: if e == MfaError::InvalidCode {
                        f.challenge
                    } else {
                        None
                    },
                    pending: Pending::Idle,
                },
                None,
            ),
        }
    }
}

/// The text of a reply, or none where the request got no reply.
pub open spec fn reply_view(reply: Option<&str>) -> Option<Seq<char>> {
    match reply {
        Some(body) => Some(body@),
        None => None,
    }
}

/// The session handed out, if any.
pub open spec fn session_view(s: Option<SessionToken>) -> Option<SessionView> {
    match s {
        Some(t) => Some(t@),
        None => None,
    }
}

fn error_for_rejection(reason: RejectReason) -> (r: FlowError)
    ensures
        r == login_error(reason),
{
    match reason {
        RejectReason::Transport => FlowError::Transport,
        RejectReason::Protocol => FlowError::Protocol,
        RejectReason::Credentials => FlowError::RejectedCredentials,
    }
}

fn error_text(kind: FlowError) -> (r: String)
    ensures
        r@ == error_message(kind),
{
    match kind {
        FlowError::RejectedCredentials => String::from_str("Email or password incorrect."),
        FlowError::InvalidMfaCode => String::from_str("Code incorrect, try again."),
        FlowError::ExpiredOrInvalidTicket => String::from_str("The code request expired, log in again."),
        FlowError::Transport => String::from_str("Something went wrong, try again."),
        FlowError::Protocol => String::from_str("Something went wrong, try again."),
    }
}

fn error_state_of(kind: FlowError) -> (r: FlowState)
    ensures
        r@ == error_state(kind),
{
    FlowState::Error { kind, message: error_text(kind) }
}

fn error_for_mfa(e: MfaError) -> (r: FlowError)
    ensures
        r == mfa_error(e),
{
    match e {
        MfaError::InvalidCode => FlowError::InvalidMfaCode,
        MfaError::ExpiredTicket => FlowError::ExpiredOrInvalidTicket,
        MfaError::Transport => FlowError::Transport,
        MfaError::Protocol => FlowError::Protocol,
    }
}

impl AuthFlow {
    pub open spec fn wf(&self) -> bool {
        flow_wf(self@)
    }

    /// A flow waiting for credentials.
    pub fn new() -> (r: AuthFlow)
        ensures
            r.wf(),
            r@ == (FlowView {
                state: StateView::AwaitingCredentials,
                challenge: None,
                pending: Pending::Idle,
            }),
    {
        AuthFlow { state: FlowState::AwaitingCredentials, challenge: None, pending: Pending::Idle }
    }

    /// The state to render.
    pub fn state(&self) -> (r: &FlowState)
        ensures
            r@ == self@.state,
    {
        &self.state
    }

    /// The factors offered by the open second-factor challenge, if one is
    /// open; they stay known after a refused code.
    pub fn challenge_factors(&self) -> (r: Option<MfaFactors>)
        ensures
            r == match self@.challenge {
                Some(c) => Some(c.factors),
                None => None::<MfaFactors>,
            },
    {
        match &self.challenge {
            Some(c) => Some(c.factors),
            None => None,
        }
    }

    /// Whether an exchange is waiting for its reply.
    pub fn pending(&self) -> (r: Pending)
        ensures
            r == self@.pending,
    {
        self.pending
    }

    /// Submits credentials.
    pub fn login(&mut self, identifier: &str, secret: &str) -> (r: Step)
        requires
            old(self).wf(),
        ensures
            final(self).wf(),
            (final(self)@, r@) == login_step(old(self)@, identifier@, secret@),
    {
        if identifier.is_empty() || secret.is_empty() {
            return Step::Ignored;
        }
        if self.pending != Pending::Idle {
            return Step::Busy;
        }
        self.pending = Pending::Login;
        Step::Send(login_request_body(identifier, secret))
    }

    /// Reports the reply to the login request, or `None` where the request
    /// got no reply. Returns the session of a direct authentication, for the
    /// caller to open the gateway with.
    pub fn finish_login(&mut self, reply: Option<&str>) -> (r: Option<SessionToken>)
        requires
            old(self).wf(),
        ensures
            final(self).wf(),
            (final(self)@, session_view(r)) == login_finish(old(self)@, reply_view(reply)),
    {
        if self.pending != Pending::Login {
            return None;
        }
        let outcome = match reply {
            Some(body) => interpret_login_reply(body),
            None => LoginOutcome::Rejected { reason: RejectReason::Transport },
        };
        self.pending = Pending::Idle;
        match outcome {
            LoginOutcome::Authenticated { user_id, session } => {
                self.state = FlowState::Authenticated { user_id };
                self.challenge = None;
                session
            },
            LoginOutcome::MfaRequired { user_id, ticket, factors } => {
                self.state = FlowState::AwaitingMfa { factors };
                self.challenge = Some(Challenge { user_id, ticket, factors });
                None
            },
            LoginOutcome::Rejected { reason } => {
                self.state = error_state_of(error_for_rejection(reason));
                self.challenge = None;
                None
            },
        }
    }

    /// Submits a second-factor code for the open challenge.
    pub fn confirm_mfa(&mut self, code: &str) -> (r: Step)
        requires
            old(self).wf(),
        ensures
            final(self).wf(),
            (final(self)@, r@) == mfa_step(old(self)@, code@),
    {
        if code.is_empty() {
            return Step::Ignored;
        }
        let body = match &self.challenge {
            None => return Step::Ignored,
            Some(c) => {
                if self.pending != Pending::Idle {
                    return Step::Busy;
                }
                mfa_request_body(code, c.ticket.as_str())
            },
        };
        self.pending = Pending::Mfa;
        Step::Send(body)
    }

    /// Reports the reply to the second-factor request, or `None` where the
    /// request got no reply. Returns the session on success, for the caller to
    /// open the gateway with.
    pub fn finish_mfa(&mut self, reply: Option<&str>) -> (r: Option<SessionToken>)
        requires
            old(self).wf(),
        ensures
            final(self).wf(),
            (final(self)@, session_view(r)) == mfa_finish(old(self)@, reply_view(reply)),
    {
        if self.pending != Pending::Mfa {
            return None;
        }
        let challenge = match self.challenge.take() {
            Some(c) => c,
            None => return None,
        };
        let outcome = match reply {
            Some(body) => interpret_mfa_reply(body),
            None => Err(MfaError::Transport),
        };
        self.pending = Pending::Idle;
        match outcome {
            Ok(session) => {
                self.state = FlowState::Authenticated { user_id: challenge.user_id };
                Some(session)
            },
            Err(e) => {
                self.state = error_state_of(error_for_mfa(e));
                if e == MfaError::InvalidCode {
                    self.challenge = Some(challenge);
                }
                None
            },
        }
    }
}

} // verus!
