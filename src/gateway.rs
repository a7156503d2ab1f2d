use vstd::prelude::*;
use crate::exchange::SessionToken;
use crate::json::{
    decimal_u64, field, json_parse, json_quote, number_field, parse_decimal, parse_json,
    quote_json, Json,
};

verus! {

/// Where the gateway's socket is opened.
pub const GATEWAY_URL: &'static str = "wss://gateway.discord.gg/?v=9&encoding=json";

/// Where the device properties are looked up, followed by the OS name.
pub const PROPERTIES_URL_BASE: &'static str = "https://cordapi.dolfi.es/api/v2/properties/";

/// The identify frame up to the token.
pub const IDENTIFY_HEAD: &'static str = "{\"op\":2,\"d\":{\"token\":";

/// The identify frame between the token and the device properties.
pub const IDENTIFY_MIDDLE: &'static str = ",\"capabilities\":8189,\"properties\":";

/// The identify frame after the device properties: presence defaults, no
/// compression, and a client state whose version counters are all initial.
pub const IDENTIFY_TAIL: &'static str = ",\"presence\":{\"status\":\"unknown\",\"since\":0,\"activities\":[],\"afk\":false},\"compress\":\"false\",\"client_state\":{\"guild_versions\":{},\"highest_last_message_id\":\"0\",\"read_state_version\":\"0\",\"user_guild_settings_version\":\"-1\",\"user_settings_version\":\"-1\",\"private_channels_version\":\"0\",\"api_code_version\":\"0\"}}}";

/// The opcode of the gateway's hello, which advertises the heartbeat interval.
pub const HELLO_OPCODE: &'static str = "10";

/// The heartbeat frame up to the last sequence number.
pub const HEARTBEAT_HEAD: &'static str = "{\"op\":1,\"d\":";

/// The OS name that the properties service knows a platform by.
pub open spec fn properties_os(os: Seq<char>) -> Seq<char> {
    if os == "macos"@ {
        "mac"@
    } else {
        os
    }
}

/// The identify frame for a session token and a device-properties bundle,
/// which goes in as it came.
pub open spec fn identify_frame(token: Seq<char>, properties: Seq<char>) -> Seq<char> {
    IDENTIFY_HEAD@ + json_quote(token) + IDENTIFY_MIDDLE@ + properties + IDENTIFY_TAIL@
}

/// The heartbeat frame, carrying the last sequence number seen, or null.
pub open spec fn heartbeat_frame(seq: Option<Seq<char>>) -> Seq<char> {
    HEARTBEAT_HEAD@ + match seq {
        Some(n) => n,
        None => "null"@,
    } + "}"@
}

/// Whether a frame is a heartbeat frame.
pub open spec fn is_heartbeat_frame(frame: Seq<char>) -> bool {
    exists|seq: Option<Seq<char>>| frame == heartbeat_frame(seq)
}

/// The sequence number an inbound document carries, as its text.
pub open spec fn sequence_of(doc: Json) -> Option<Seq<char>> {
    number_field(doc, "s"@)
}

/// The heartbeat interval, in milliseconds, that a hello advertises.
pub open spec fn hello_interval(doc: Json) -> Option<u64> {
    if number_field(doc, "op"@) == Some(HELLO_OPCODE@) {
        match field(doc, "d"@) {
            Some(d) => match number_field(d, "heartbeat_interval"@) {
                Some(text) => decimal_u64(text),
                None => None,
            },
            None => None,
        }
    } else {
        None
    }
}

/// Whether a frame is an identify frame.
pub open spec fn is_identify_frame(frame: Seq<char>) -> bool {
    exists|token: Seq<char>, properties: Seq<char>| frame == identify_frame(token, properties)
}

/// The OS name under which to look up the device properties.
pub fn properties_os_name(os: &str) -> (r: String)
    ensures
        r@ == properties_os(os@),
{
    let given = String::from_str(os);
    let macos = String::from_str("macos");
    if given == macos {
        String::from_str("mac")
    } else {
        given
    }
}

/// Where to look up the device properties of a platform.
pub fn properties_url(os: &str) -> (r: String)
    ensures
        r@ == PROPERTIES_URL_BASE@ + properties_os(os@),
{
    let mut url = String::from_str(PROPERTIES_URL_BASE);
    let name = properties_os_name(os);
    url.append(name.as_str());
    url
}

/// Builds a heartbeat frame.
pub fn heartbeat_frame_text(seq: &Option<String>) -> (r: String)
    ensures
        r@ == heartbeat_frame(match seq {
            Some(n) => Some(n@),
            None => None,
        }),
{
    let mut frame = String::from_str(HEARTBEAT_HEAD);
    match seq {
        Some(n) => frame.append(n.as_str()),
        None => frame.append("null"),
    }
    frame.append("}");
    frame
}

/// Builds the identify frame.
pub fn identify_frame_text(token: &str, properties: &str) -> (r: String)
    ensures
        r@ == identify_frame(token@, properties@),
{
    let mut frame = String::from_str(IDENTIFY_HEAD);
    let quoted = quote_json(token);
    frame.append(quoted.as_str());
    frame.append(IDENTIFY_MIDDLE);
    frame.append(properties);
    frame.append(IDENTIFY_TAIL);
    frame
}

/// Where the gateway connection stands.
#[derive(Clone, Copy, PartialEq, Eq, Structural, Debug)]
pub enum GatewayState {
    Disconnected,
    Connecting,
    Identifying,
    Active,
    Closing,
    Closed,
    Failed,
}

/// A gateway session. It owns the session token from `open` until the
/// connection fails or closes, keeps the last sequence number and the
/// heartbeat interval that the gateway sent, and records the frames it handed
/// out to send and how many inbound documents it handed on.
pub struct GatewaySession {
    state: GatewayState,
    session: Option<SessionToken>,
    seq: Option<String>,
    heartbeat_ms: Option<u64>,
    sent: Ghost<Seq<Seq<char>>>,
    dispatched: Ghost<nat>,
}

pub ghost struct GatewayView {
    pub state: GatewayState,
    pub token: Option<Seq<char>>,
    pub seq: Option<Seq<char>>,
    pub heartbeat_ms: Option<u64>,
    pub sent: Seq<Seq<char>>,
    pub dispatched: nat,
}

impl View for GatewaySession {
    type V = GatewayView;

    closed spec fn view(&self) -> GatewayView {
        GatewayView {
            state: self.state,
            token: match self.session {
                Some(s) => Some(s.token@),
                None => None,
            },
            seq: match self.seq {
                Some(n) => Some(n@),
                None => None,
            },
            heartbeat_ms: self.heartbeat_ms,
            sent: self.sent@,
            dispatched: self.dispatched@,
        }
    }
}

/// A gateway session is well formed when nothing was sent before the socket
/// was there, the identify frame is the first frame sent on it and every
/// later one is a heartbeat, nothing was handed on before the identify frame
/// went out, and the token is held exactly while the connection is being set
/// up or live.
pub open spec fn gateway_wf(v: GatewayView) -> bool {
    &&& (v.state is Disconnected || v.state is Connecting) ==> v.sent.len() == 0 && v.dispatched == 0
    &&& v.sent.len() >= 1 ==> is_identify_frame(v.sent[0])
    &&& forall|i: int| 1 <= i < v.sent.len() ==> is_heartbeat_frame(#[trigger] v.sent[i])
    &&& (v.state is Identifying || v.state is Active || v.state is Closing) ==> v.sent.len() >= 1
    &&& v.dispatched > 0 ==> v.sent.len() >= 1
    &&& v.state is Identifying ==> v.dispatched == 0 && v.sent.len() == 1
    &&& (v.state is Connecting || v.state is Identifying || v.state is Active) <==> v.token is Some
}

/// `open`: from `Disconnected` only, the session takes the token and the
/// caller is to connect to the gateway.
pub open spec fn open_step(v: GatewayView, token: Seq<char>) -> (GatewayView, bool) {
    if v.state is Disconnected {
        (GatewayView { state: GatewayState::Connecting, token: Some(token), ..v }, true)
    } else {
        (v, false)
    }
}

/// The connection attempt failed.
pub open spec fn connect_failed_step(v: GatewayView) -> GatewayView {
    if v.state is Connecting {
        GatewayView { state: GatewayState::Failed, token: None, ..v }
    } else {
        v
    }
}

/// The socket is up: the identify frame is the frame to send, where the
/// device properties are a JSON document; else the handshake fails.
pub open spec fn connected_step(v: GatewayView, properties: Seq<char>) -> (GatewayView, Option<Seq<char>>) {
    if v.state is Connecting && v.token is Some {
        if json_parse(properties) is Some {
            let frame = identify_frame(v.token.unwrap(), properties);
            (GatewayView { state: GatewayState::Identifying, sent: v.sent.push(frame), ..v }, Some(frame))
        } else {
            (GatewayView { state: GatewayState::Failed, token: None, ..v }, None)
        }
    } else {
        (v, None)
    }
}

/// The identify frame was sent, or its send failed.
pub open spec fn identify_sent_step(v: GatewayView, ok: bool) -> GatewayView {
    if v.state is Identifying {
        if ok {
            GatewayView { state: GatewayState::Active, ..v }
        } else {
            GatewayView { state: GatewayState::Failed, token: None, ..v }
        }
    } else {
        v
    }
}

/// An inbound text frame: while active, a JSON document is handed on to the
/// event handler, and its sequence number and advertised heartbeat interval,
/// where it has them, are kept; anything else is dropped. In any other state
/// nothing is handed on.
pub open spec fn receive_step(v: GatewayView, text: Seq<char>) -> (GatewayView, Option<Json>) {
    if v.state is Active {
        match json_parse(text) {
            Some(doc) => (
                GatewayView {
                    dispatched: v.dispatched + 1,
                    seq: match sequence_of(doc) {
                        Some(n) => Some(n),
                        None => v.seq,
                    },
                    heartbeat_ms: match hello_interval(doc) {
                        Some(ms) => Some(ms),
                        None => v.heartbeat_ms,
                    },
                    ..v
                },
                Some(doc),
            ),
            None => (v, None),
        }
    } else {
        (v, None)
    }
}

/// A heartbeat is due: while active, the heartbeat frame with the last
/// sequence number is the frame to send; in any other state none is.
pub open spec fn heartbeat_step(v: GatewayView) -> (GatewayView, Option<Seq<char>>) {
    if v.state is Active {
        let frame = heartbeat_frame(v.seq);
        (GatewayView { sent: v.sent.push(frame), ..v }, Some(frame))
    } else {
        (v, None)
    }
}

/// A read error: an active session fails and the caller is to release the
/// socket; a closing one is closed, its socket being released already; in any
/// other state nothing changes.
pub open spec fn read_error_step(v: GatewayView) -> (GatewayView, bool) {
    if v.state is Active {
        (GatewayView { state: GatewayState::Failed, token: None, ..v }, true)
    } else if v.state is Closing {
        (GatewayView { state: GatewayState::Closed, ..v }, false)
    } else {
        (v, false)
    }
}

/// `close`: an active session starts closing and the caller is to release the
/// socket; in any other state nothing changes.
pub open spec fn close_step(v: GatewayView) -> (GatewayView, bool) {
    if v.state is Active {
        (GatewayView { state: GatewayState::Closing, token: None, ..v }, true)
    } else {
        (v, false)
    }
}

/// The socket has been released.
pub open spec fn released_step(v: GatewayView) -> GatewayView {
    if v.state is Closing {
        GatewayView { state: GatewayState::Closed, ..v }
    } else {
        v
    }
}

impl GatewaySession {
    pub open spec fn wf(&self) -> bool {
        gateway_wf(self@)
    }

    /// A session with no connection.
    pub fn new() -> (r: GatewaySession)
        ensures
            r.wf(),
            r@ == (GatewayView {
                state: GatewayState::Disconnected,
                token: None,
                seq: None,
                heartbeat_ms: None,
                sent: Seq::empty(),
                dispatched: 0,
            }),
    {
        GatewaySession {
            state: GatewayState::Disconnected,
            session: None,
            seq: None,
            heartbeat_ms: None,
            sent: Ghost(Seq::empty()),
            dispatched: Ghost(0),
        }
    }

    /// Where the connection stands.
    pub fn state(&self) -> (r: GatewayState)
        ensures
            r == self@.state,
    {
        self.state
    }

    /// Starts a connection with a session token. Returns whether the caller
    /// is to connect to `GATEWAY_URL`.
    pub fn open(&mut self, session: SessionToken) -> (r: bool)
        requires
            old(self).wf(),
        ensures
            final(self).wf(),
            (final(self)@, r) == open_step(old(self)@, session.token@),
    {
        if self.state != GatewayState::Disconnected {
            return false;
        }
        self.state = GatewayState::Connecting;
        self.session = Some(session);
        true
    }

    /// Reports that the connection attempt failed.
    pub fn connect_failed(&mut self)
        requires
            old(self).wf(),
        ensures
            final(self).wf(),
            final(self)@ == connect_failed_step(old(self)@),
    {
        if self.state == GatewayState::Connecting {
            self.state = GatewayState::Failed;
            self.session = None;
        }
    }

    /// Reports that the socket is up, with the device properties looked up
    /// for this platform. Returns the identify frame, the first frame to send.
    pub fn connected(&mut self, properties: &str) -> (r: Option<String>)
        requires
            old(self).wf(),
        ensures
            final(self).wf(),
            (final(self)@, match r {
                Some(f) => Some(f@),
                None => None::<Seq<char>>,
            }) == connected_step(old(self)@, properties@),
    {
        if self.state != GatewayState::Connecting {
            return None;
        }
        let frame = match &self.session {
            Some(s) => {
                if parse_json(properties).is_none() {
                    None
                } else {
                    Some(identify_frame_text(s.token.as_str(), properties))
                }
            },
            None => return None,
        };
        match frame {
            Some(f) => {
                let ghost token = self@.token.unwrap();
                assert(is_identify_frame(f@)) by {
                    assert(f@ == identify_frame(token, properties@));
                }
                self.state = GatewayState::Identifying;
                self.sent = Ghost(self.sent@.push(f@));
                Some(f)
            },
            None => {
                self.state = GatewayState::Failed;
                self.session = None;
                None
            },
        }
    }

    /// Reports whether the identify frame was sent.
    pub fn identify_sent(&mut self, ok: bool)
        requires
            old(self).wf(),
        ensures
            final(self).wf(),
            final(self)@ == identify_sent_step(old(self)@, ok),
    {
        if self.state == GatewayState::Identifying {
            if ok {
                self.state = GatewayState::Active;
            } else {
                self.state = GatewayState::Failed;
                self.session = None;
            }
        }
    }

    /// The heartbeat interval in milliseconds, once the gateway advertised it.
    pub fn heartbeat_interval(&self) -> (r: Option<u64>)
        ensures
            r == self@.heartbeat_ms,
    {
        self.heartbeat_ms
    }

    /// Reports an inbound text frame. Returns the document to hand to the
    /// event handler, if any.
    pub fn receive(&mut self, text: &str) -> (r: Option<Json>)
        requires
            old(self).wf(),
        ensures
            final(self).wf(),
            (final(self)@, r) == receive_step(old(self)@, text@),
    {
        if self.state != GatewayState::Active {
            return None;
        }
        let doc = parse_json(text);
        match &doc {
            Some(d) => {
                self.dispatched = Ghost(self.dispatched@ + 1);
                match d.get_number("s") {
                    Some(n) => self.seq = Some(n.clone()),
                    None => {},
                }
                let is_hello = match d.get_number("op") {
                    Some(op) => *op == String::from_str(HELLO_OPCODE),
                    None => false,
                };
                if is_hello {
                    match d.get("d") {
                        Some(data) => match data.get_number("heartbeat_interval") {
                            Some(text) => match parse_decimal(text.as_str()) {
                                Some(ms) => self.heartbeat_ms = Some(ms),
                                None => {},
                            },
                            None => {},
                        },
                        None => {},
                    }
                }
            },
            None => {},
        }
        doc
    }

    /// Reports that a heartbeat is due. Returns the frame to send, if any.
    pub fn heartbeat(&mut self) -> (r: Option<String>)
        requires
            old(self).wf(),
        ensures
            final(self).wf(),
            (final(self)@, match r {
                Some(f) => Some(f@),
                None => None::<Seq<char>>,
            }) == heartbeat_step(old(self)@),
    {
        if self.state != GatewayState::Active {
            return None;
        }
        let frame = heartbeat_frame_text(&self.seq);
        let ghost seq = self@.seq;
        assert(is_heartbeat_frame(frame@)) by {
            assert(frame@ == heartbeat_frame(seq));
        }
        self.sent = Ghost(self.sent@.push(frame@));
        Some(frame)
    }

    /// Reports a read error. Returns whether the caller is to release the socket.
    pub fn read_error(&mut self) -> (r: bool)
        requires
            old(self).wf(),
        ensures
            final(self).wf(),
            (final(self)@, r) == read_error_step(old(self)@),
    {
        if self.state == GatewayState::Active {
            self.state = GatewayState::Failed;
            self.session = None;
            true
        } else {
            if self.state == GatewayState::Closing {
                self.state = GatewayState::Closed;
            }
            false
        }
    }

    /// Closes the session. Returns whether the caller is to release the socket.
    pub fn close(&mut self) -> (r: bool)
        requires
            old(self).wf(),
        ensures
            final(self).wf(),
            (final(self)@, r) == close_step(old(self)@),
    {
        if self.state == GatewayState::Active {
            self.state = GatewayState::Closing;
            self.session = None;
            true
        } else {
            false
        }
    }

    /// Reports that the socket has been released.
    pub fn released(&mut self)
        requires
            old(self).wf(),
        ensures
            final(self).wf(),
            final(self)@ == released_step(old(self)@),
    {
        if self.state == GatewayState::Closing {
            self.state = GatewayState::Closed;
        }
    }
}

} // verus!
