use vstd::prelude::*;
use crate::exchange::{login_body, mfa_body, mfa_reply_outcome};
use crate::flow::{
    flow_wf, login_exchange_outcome, login_finish, login_step, mfa_finish, mfa_step, FlowView,
    Pending, StateView, StepView,
};
use crate::gateway::{
    close_step, connected_step, heartbeat_frame, heartbeat_step, is_heartbeat_frame, gateway_wf, identify_frame, is_identify_frame, read_error_step,
    receive_step, GatewayState, GatewayView,
};
use crate::exchange::OutcomeView;

verus! {

/// Non-empty credentials send at most one login request: exactly one, with
/// those credentials, when no exchange is waiting, and none otherwise, and no
/// second one until the reply is in. The reply, or its absence, then settles
/// the flow in exactly one of authenticated, awaiting a second factor or
/// failed, as the outcome of the exchange says; only an authentication hands
/// out a session, the one the reply carried.
pub proof fn login_sends_one_request_and_settles(
    f: FlowView,
    identifier: Seq<char>,
    secret: Seq<char>,
    again_identifier: Seq<char>,
    again_secret: Seq<char>,
    reply: Option<Seq<char>>,
)
    requires
        flow_wf(f),
        identifier.len() > 0,
        secret.len() > 0,
    ensures
        f.pending == Pending::Idle ==> login_step(f, identifier, secret).1 == StepView::Send(
            login_body(identifier, secret),
        ),
        f.pending != Pending::Idle ==> login_step(f, identifier, secret) == (f, StepView::Busy),
        !(login_step(login_step(f, identifier, secret).0, again_identifier, again_secret).1 is Send),
        f.pending == Pending::Idle ==> ({
            let (h, session) = login_finish(login_step(f, identifier, secret).0, reply);
            &&& h.pending == Pending::Idle
            &&& flow_wf(h)
            &&& match login_exchange_outcome(reply) {
                OutcomeView::Authenticated { user_id, session: s } => h.state
                    == StateView::Authenticated { user_id } && session == s,
                OutcomeView::MfaRequired { factors, .. } => h.state == StateView::AwaitingMfa {
                    factors,
                } && session is None,
                OutcomeView::Rejected { .. } => h.state is Error && session is None,
            }
        }),
{
}

/// Empty credentials send nothing and leave the flow as it was.
pub proof fn empty_credentials_change_nothing(f: FlowView, identifier: Seq<char>, secret: Seq<char>)
    requires
        identifier.len() == 0 || secret.len() == 0,
    ensures
        login_step(f, identifier, secret) == (f, StepView::Ignored),
{
}

/// The open ticket, sent with a code that the service accepts, yields the
/// session of the reply and authenticates the flow; the ticket is then gone,
/// so the same code a second time sends nothing at all.
pub proof fn ticket_resolves_once(f: FlowView, code: Seq<char>, body: Seq<char>)
    requires
        flow_wf(f),
        f.challenge is Some,
        f.pending == Pending::Idle,
        code.len() > 0,
        mfa_reply_outcome(body) is Ok,
    ensures
        mfa_step(f, code).1 == StepView::Send(mfa_body(code, f.challenge.unwrap().ticket)),
        ({
            let (h, session) = mfa_finish(mfa_step(f, code).0, Some(body));
            &&& session == Some(mfa_reply_outcome(body).unwrap())
            &&& h.state == StateView::Authenticated { user_id: f.challenge.unwrap().user_id }
            &&& h.challenge is None
            &&& mfa_step(h, code) == (h, StepView::Ignored)
        }),
{
}

/// A heartbeat frame is never an identify frame: their opcodes differ.
pub proof fn heartbeat_is_not_identify(
    seq: Option<Seq<char>>,
    token: Seq<char>,
    properties: Seq<char>,
)
    ensures
        heartbeat_frame(seq) != identify_frame(token, properties),
{
    reveal_strlit("{\"op\":1,\"d\":");
    reveal_strlit("{\"op\":2,\"d\":{\"token\":");
    let h = heartbeat_frame(seq);
    let i = identify_frame(token, properties);
    assert(h[6] == '1');
    assert(i[6] == '2');
}

/// On a freshly opened socket the identify frame is the first frame sent and
/// the only one: every later frame is a heartbeat, which is no identify
/// frame. No inbound document is handed on, and no heartbeat goes out, before
/// the identify frame.
pub proof fn identify_comes_first(v: GatewayView, properties: Seq<char>, text: Seq<char>)
    requires
        gateway_wf(v),
    ensures
        v.state is Connecting ==> match connected_step(v, properties).1 {
            Some(frame) => connected_step(v, properties).0.sent == seq![frame] && frame
                == identify_frame(v.token.unwrap(), properties),
            None => connected_step(v, properties).0.sent.len() == 0,
        },
        forall|i: int| 1 <= i < v.sent.len() ==> !is_identify_frame(#[trigger] v.sent[i]),
        receive_step(v, text).1 is Some ==> v.sent.len() >= 1 && is_identify_frame(v.sent[0]),
        heartbeat_step(v).1 is Some ==> v.sent.len() >= 1 && is_identify_frame(v.sent[0])
            && heartbeat_step(v).0.sent[0] == v.sent[0],
{
    if v.state is Connecting {
        assert(v.sent.len() == 0);
        assert(seq![].push(identify_frame(v.token.unwrap(), properties)) =~= seq![
            identify_frame(v.token.unwrap(), properties),
        ]);
    }
    assert forall|i: int| 1 <= i < v.sent.len() implies !is_identify_frame(#[trigger] v.sent[i]) by {
        assert(is_heartbeat_frame(v.sent[i]));
        let seq = choose|seq: Option<Seq<char>>| v.sent[i] == heartbeat_frame(seq);
        if is_identify_frame(v.sent[i]) {
            let (token, props) = choose|token: Seq<char>, props: Seq<char>|
                v.sent[i] == identify_frame(token, props);
            heartbeat_is_not_identify(seq, token, props);
        }
    }
}

/// A read error on an active session fails it and asks for the socket to be
/// released, once: a second read error, or a close after it, changes nothing
/// and releases nothing.
pub proof fn read_error_releases_once(v: GatewayView)
    requires
        gateway_wf(v),
        v.state is Active,
    ensures
        ({
            let (w, release) = read_error_step(v);
            &&& release
            &&& w.state == GatewayState::Failed
            &&& w.token is None
            &&& read_error_step(w) == (w, false)
            &&& close_step(w) == (w, false)
        }),
{
}

/// Closing twice is closing once: the second close changes nothing and
/// releases nothing.
pub proof fn double_close_is_noop(v: GatewayView)
    ensures
        close_step(close_step(v).0) == (close_step(v).0, false),
{
}

} // verus!
