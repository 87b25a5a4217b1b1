//! The realtime transport: the connection's state machine, the decisions of
//! its send, receive and shutdown paths, and the authorization frame.
//!
//! The socket itself lives outside this library. Each operation here decides
//! from the current state and from what the socket reported; the caller
//! performs what the result asks for and reports back.

use crate::error::WebSocketError;
use crate::service::transport_url_text;
use crate::types::{DeviceDetails, Publish, Register, RemoteTransportWebSocketServer};
use crate::utils::str_eq;
use vstd::prelude::*;
use vstd::std_specs::iter::IteratorSpec;
use vstd::string::StringExecFns;

verus! {

/// Where a transport stands in the life of its one connection.
#[derive(Debug, Clone, Copy, PartialEq, Eq, Structural)]
pub enum ConnectionState {
    /// Nothing was asked yet.
    Disconnected,
    /// The socket is being opened.
    Connecting,
    /// The socket is open and the authorization frame is due.
    Authenticating,
    /// The connection is authorized: frames can be sent and received.
    Listening,
    /// A Close frame is being exchanged.
    Closing,
    /// The socket is released. Nothing leads out of this state.
    Closed,
}

/// The socket that a URL asks for.
#[derive(Debug, Clone, Copy, PartialEq, Eq, Structural)]
pub enum Handshake {
    /// TLS, negotiated with the platform's trust store.
    Secure,
    /// A plain socket.
    Plain,
}

/// A frame that the socket received.
#[derive(Debug, Clone, PartialEq, Eq)]
pub enum InboundFrame {
    Text(String),
    Binary(Vec<u8>),
    Ping(Vec<u8>),
    Pong(Vec<u8>),
    Close,
    ControlFrame,
}

/// What one read of the socket gave.
#[derive(Debug, Clone, PartialEq, Eq)]
pub enum StreamEvent {
    /// A frame arrived.
    Frame(InboundFrame),
    /// The read failed.
    Failed,
    /// The read gave nothing.
    Idle,
}

/// What the receive loop does after one read.
#[derive(Debug, PartialEq, Eq)]
pub enum ListenStep {
    /// Hand the text to the message callback, then read on.
    Deliver(String),
    /// Read on.
    Continue,
    /// Leave the loop with this result.
    Stop(Result<(), WebSocketError>),
}

/// What `close` asks of the socket.
#[derive(Debug, Clone, Copy, PartialEq, Eq, Structural)]
pub enum CloseStep {
    /// Send a Close frame, wait a bounded time for the peer's answer, then
    /// report with `finish_close`.
    SendClose,
    /// Nothing: the transport was not listening.
    Nothing,
}

/// The transitions of the state machine, one step at a time.
pub open spec fn valid_transition(from: ConnectionState, to: ConnectionState) -> bool {
    match (from, to) {
        (ConnectionState::Disconnected, ConnectionState::Connecting) => true,
        (ConnectionState::Connecting, ConnectionState::Authenticating) => true,
        (ConnectionState::Connecting, ConnectionState::Closed) => true,
        (ConnectionState::Authenticating, ConnectionState::Listening) => true,
        (ConnectionState::Listening, ConnectionState::Closing) => true,
        (ConnectionState::Closing, ConnectionState::Closed) => true,
        _ => false,
    }
}

/// What one operation may do to the state: leave it, take one transition, or
/// enter `Connecting` and fail there at once.
pub open spec fn valid_move(from: ConnectionState, to: ConnectionState) -> bool {
    ||| from == to
    ||| valid_transition(from, to)
    ||| (from == ConnectionState::Disconnected && to == ConnectionState::Closed)
}

/// How far a state is along the life of the connection.
pub open spec fn state_rank(state: ConnectionState) -> nat {
    match state {
        ConnectionState::Disconnected => 0,
        ConnectionState::Connecting => 1,
        ConnectionState::Authenticating => 2,
        ConnectionState::Listening => 3,
        ConnectionState::Closing => 4,
        ConnectionState::Closed => 5,
    }
}

/// A connection never goes back: every move keeps the state or leads to a
/// later one, `Closed` is left by no move, and `Listening` is entered from
/// `Authenticating` alone.
pub proof fn law_connection_moves_forward(from: ConnectionState, to: ConnectionState)
    requires
        valid_move(from, to),
    ensures
        state_rank(from) <= state_rank(to),
        from == ConnectionState::Closed ==> to == ConnectionState::Closed,
        to == ConnectionState::Listening ==> from == ConnectionState::Listening || from
            == ConnectionState::Authenticating,
{
}

/// The handshake that a URL scheme selects: `wss` the secure one, `ws` the
/// plain one, anything else none.
pub open spec fn scheme_handshake(scheme: Option<Seq<char>>) -> Option<Handshake> {
    match scheme {
        Some(s) => if s == "wss"@ {
            Some(Handshake::Secure)
        } else if s == "ws"@ {
            Some(Handshake::Plain)
        } else {
            None
        },
        None => None,
    }
}

/// The result of `connect` and the state that it leaves, from the state it
/// found and the scheme of the URL.
pub open spec fn connect_outcome(state: ConnectionState, scheme: Option<Seq<char>>) -> (
    Result<Handshake, WebSocketError>,
    ConnectionState,
) {
    if state != ConnectionState::Disconnected {
        (Err(WebSocketError::ConnectFailed), state)
    } else {
        match scheme_handshake(scheme) {
            Some(h) => (Ok(h), ConnectionState::Connecting),
            None => (Err(WebSocketError::ConnectFailed), ConnectionState::Closed),
        }
    }
}

/// The result of `handshake_finished` and the state that it leaves: while
/// `Connecting`, success leads to `Authenticating` and failure to `Closed`;
/// any other state stays and the call reports that no stream is defined.
pub open spec fn handshake_outcome(state: ConnectionState, succeeded: bool) -> (
    Result<(), WebSocketError>,
    ConnectionState,
) {
    if state != ConnectionState::Connecting {
        (Err(WebSocketError::NotDefined), state)
    } else if succeeded {
        (Ok(()), ConnectionState::Authenticating)
    } else {
        (Err(WebSocketError::ConnectFailed), ConnectionState::Closed)
    }
}

/// The result of `send`: the text as the frame to write while `Listening`,
/// the report that no stream is defined in any other state.
pub open spec fn send_outcome(state: ConnectionState, text: String) -> Result<
    String,
    WebSocketError,
> {
    if state == ConnectionState::Listening {
        Ok(text)
    } else {
        Err(WebSocketError::NotDefined)
    }
}

/// The result of `close` and the state that it leaves: the closing starts
/// while `Listening`, and nothing happens in any other state.
pub open spec fn close_outcome(state: ConnectionState) -> (CloseStep, ConnectionState) {
    if state == ConnectionState::Listening {
        (CloseStep::SendClose, ConnectionState::Closing)
    } else {
        (CloseStep::Nothing, state)
    }
}

/// The state that `finish_close` leaves: `Closed` after `Closing`, any other
/// state as it was.
pub open spec fn closed_outcome(state: ConnectionState) -> ConnectionState {
    if state == ConnectionState::Closing {
        ConnectionState::Closed
    } else {
        state
    }
}

/// What the receive loop decides before it reads: outside `Listening` it
/// stops with the report that no stream is defined, with the shutdown flag
/// down it stops without error, and otherwise (`None`) it reads.
pub open spec fn stop_before_read(state: ConnectionState, running: bool) -> Option<
    Result<(), WebSocketError>,
> {
    if state != ConnectionState::Listening {
        Some(Err(WebSocketError::NotDefined))
    } else if !running {
        Some(Ok(()))
    } else {
        None
    }
}

/// The step of the receive loop and the state that it leaves, from the state
/// it found, the shutdown flag and what the read gave. Where the loop stops
/// before it reads, the read counts for nothing.
pub open spec fn listen_outcome(state: ConnectionState, running: bool, event: StreamEvent) -> (
    ListenStep,
    ConnectionState,
) {
    match stop_before_read(state, running) {
        Some(result) => (ListenStep::Stop(result), state),
        None => match event {
            StreamEvent::Frame(InboundFrame::Text(text)) => (ListenStep::Deliver(text), state),
            StreamEvent::Frame(InboundFrame::Close) => (
                ListenStep::Stop(Ok(())),
                ConnectionState::Closing,
            ),
            StreamEvent::Frame(_) => (ListenStep::Continue, state),
            StreamEvent::Failed => (
                ListenStep::Stop(Err(WebSocketError::AwayError)),
                ConnectionState::Closing,
            ),
            StreamEvent::Idle => (ListenStep::Continue, state),
        },
    }
}

/// The texts that the receive loop delivers while it works through `events`
/// from position `from`, the result that it stops with and the state that it
/// leaves. Each turn tests the state first, then the shutdown flag, and only
/// then looks for a read: the result is `None` only where the transport
/// listens, the flag is up and the events are used up, so that the loop
/// would read on.
pub open spec fn listen_trace(
    state: ConnectionState,
    running: bool,
    events: Seq<StreamEvent>,
    from: int,
) -> (Seq<String>, Option<Result<(), WebSocketError>>, ConnectionState)
    decreases events.len() - from,
{
    match stop_before_read(state, running) {
        Some(result) => (Seq::empty(), Some(result), state),
        None => if from < 0 || from >= events.len() {
            (Seq::empty(), None, state)
        } else {
            let (step, next) = listen_outcome(state, running, events[from]);
            match step {
                ListenStep::Stop(result) => (Seq::empty(), Some(result), next),
                ListenStep::Continue => listen_trace(next, running, events, from + 1),
                ListenStep::Deliver(text) => {
                    let (texts, result, last) = listen_trace(next, running, events, from + 1);
                    (seq![text] + texts, result, last)
                },
            }
        },
    }
}

/// Listening is reported as an error in every state but `Listening`: the
/// loop stops at once with `NotDefined`, whatever the shutdown flag says and
/// whether or not a read is at hand. It delivers nothing, takes no read and
/// leaves the state as it is.
pub proof fn law_listening_needs_the_listening_state(
    state: ConnectionState,
    running: bool,
    events: Seq<StreamEvent>,
    from: int,
)
    requires
        state != ConnectionState::Listening,
    ensures
        listen_trace(state, running, events, from) == (
            Seq::<String>::empty(),
            Some(Err::<(), WebSocketError>(WebSocketError::NotDefined)),
            state,
        ),
{
}

/// The shutdown flag ends the loop before the next read: where the
/// transport listens and the flag is down, the loop stops at once without
/// error, whether or not a read is at hand, also on a peer that sends
/// nothing. It delivers nothing and stays in `Listening`, ready to be closed.
pub proof fn law_shutdown_stops_before_the_next_read(events: Seq<StreamEvent>, from: int)
    ensures
        listen_trace(ConnectionState::Listening, false, events, from) == (
            Seq::<String>::empty(),
            Some(Ok::<(), WebSocketError>(())),
            ConnectionState::Listening,
        ),
{
}

/// Batches follow each other: where the loop is still reading at the end of
/// a first batch, going on with a second batch under the same flag gives
/// what one batch of both gives. A caller whose flag may change between
/// reads hands over the reads made under one poll of the flag as one batch.
pub proof fn law_batches_follow_each_other(
    state: ConnectionState,
    running: bool,
    first: Seq<StreamEvent>,
    second: Seq<StreamEvent>,
)
    requires
        listen_trace(state, running, first, 0).1 is None,
    ensures
        ({
            let (texts, _, between) = listen_trace(state, running, first, 0);
            let (more, result, last) = listen_trace(between, running, second, 0);
            listen_trace(state, running, first + second, 0) == (texts + more, result, last)
        }),
{
    lemma_trace_splits(state, running, first, second, 0);
}

proof fn lemma_trace_splits(
    state: ConnectionState,
    running: bool,
    first: Seq<StreamEvent>,
    second: Seq<StreamEvent>,
    from: int,
)
    requires
        0 <= from <= first.len(),
        listen_trace(state, running, first, from).1 is None,
    ensures
        ({
            let (texts, _, between) = listen_trace(state, running, first, from);
            let (more, result, last) = listen_trace(between, running, second, 0);
            listen_trace(state, running, first + second, from) == (texts + more, result, last)
        }),
    decreases first.len() - from,
{
    let both = first + second;
    if from < first.len() {
        assert(both[from] == first[from]);
        let (step, next) = listen_outcome(state, running, first[from]);
        lemma_trace_splits(next, running, first, second, from + 1);
        let (texts, _, between) = listen_trace(next, running, first, from + 1);
        let (more, result, last) = listen_trace(between, running, second, 0);
        match step {
            ListenStep::Deliver(text) => {
                assert(seq![text] + (texts + more) == (seq![text] + texts) + more);
            },
            _ => {},
        }
    } else {
        lemma_trace_shifts(state, running, first, second, 0);
        assert(Seq::<String>::empty() + listen_trace(state, running, second, 0).0
            == listen_trace(state, running, second, 0).0);
    }
}

proof fn lemma_trace_shifts(
    state: ConnectionState,
    running: bool,
    first: Seq<StreamEvent>,
    second: Seq<StreamEvent>,
    from: int,
)
    requires
        0 <= from <= second.len(),
    ensures
        listen_trace(state, running, first + second, first.len() + from) == listen_trace(
            state,
            running,
            second,
            from,
        ),
    decreases second.len() - from,
{
    let both = first + second;
    if from < second.len() {
        assert(both[first.len() + from] == second[from]);
        let (step, next) = listen_outcome(state, running, second[from]);
        lemma_trace_shifts(next, running, first, second, from + 1);
    }
}

/// A Close frame ends the receive loop. While the transport listens and the
/// shutdown flag is up, the loop stops at the frame without error, delivers
/// nothing from there on and starts the closing. Over a batch in which no
/// read fails before the frame, the loop stops without error in `Closing`
/// and delivers no more texts than there are reads before the frame.
pub proof fn law_close_frame_ends_listening(events: Seq<StreamEvent>, at: int)
    requires
        0 <= at < events.len(),
        events[at] == StreamEvent::Frame(InboundFrame::Close),
        forall|i: int| 0 <= i < at ==> #[trigger] events[i] != StreamEvent::Failed,
    ensures
        listen_trace(ConnectionState::Listening, true, events, at) == (
            Seq::<String>::empty(),
            Some(Ok::<(), WebSocketError>(())),
            ConnectionState::Closing,
        ),
        listen_trace(ConnectionState::Listening, true, events, 0).1 == Some(
            Ok::<(), WebSocketError>(()),
        ),
        listen_trace(ConnectionState::Listening, true, events, 0).2 == ConnectionState::Closing,
        listen_trace(ConnectionState::Listening, true, events, 0).0.len() <= at,
{
    lemma_trace_reaches_close(events, at, 0);
}

proof fn lemma_trace_reaches_close(events: Seq<StreamEvent>, at: int, from: int)
    requires
        0 <= from <= at < events.len(),
        events[at] == StreamEvent::Frame(InboundFrame::Close),
        forall|i: int| 0 <= i < at ==> #[trigger] events[i] != StreamEvent::Failed,
    ensures
        listen_trace(ConnectionState::Listening, true, events, from).1 == Some(
            Ok::<(), WebSocketError>(()),
        ),
        listen_trace(ConnectionState::Listening, true, events, from).2 == ConnectionState::Closing,
        listen_trace(ConnectionState::Listening, true, events, from).0.len() <= at - from,
    decreases at - from,
{
    if from < at {
        assert(events[from] != StreamEvent::Failed);
        let (step, next) = listen_outcome(ConnectionState::Listening, true, events[from]);
        if step is Stop {
        } else {
            lemma_trace_reaches_close(events, at, from + 1);
        }
    }
}

/// The text of a hyphenated identifier: 36 characters, lower-case hexadecimal
/// digits in groups of 8, 4, 4, 4 and 12 with a hyphen between the groups,
/// the version digit 4 and a variant digit from 8 to b.
pub open spec fn is_random_uuid_text(s: Seq<char>) -> bool {
    &&& s.len() == 36
    &&& forall|i: int|
        0 <= i < 36 ==> if i == 8 || i == 13 || i == 18 || i == 23 {
            #[trigger] s[i] == '-'
        } else {
            ('0' <= s[i] <= '9') || ('a' <= s[i] <= 'f')
        }
    &&& s[14] == '4'
    &&& (s[19] == '8' || s[19] == '9' || s[19] == 'a' || s[19] == 'b')
}

/// The scheme that the `url` crate finds in `input`: `None` where `input` does
/// not parse as an absolute URL.
pub uninterp spec fn url_scheme(input: Seq<char>) -> Option<Seq<char>>;

/// The JSON string literal that `serde_json` writes for `s`, quotes included.
pub uninterp spec fn json_string_literal(s: Seq<char>) -> Seq<char>;

/// The envelope of an authorization frame around two JSON string literals,
/// the identifier's and the token's.
pub open spec fn authorization_frame_text(id_literal: Seq<char>, token_literal: Seq<char>) -> Seq<
    char,
> {
    "{\"data\":{\"token\":"@ + token_literal + "},\"id\":"@ + id_literal
        + ",\"type\":\"authorization\"}"@
}

/// The token of an authorization frame: the credential behind `Bearer `.
pub open spec fn bearer_text(credential: Seq<char>) -> Seq<char> {
    "Bearer "@ + credential
}

/// Calls `url::Url::parse` and, on a URL, `Url::scheme`. Trusted: the result
/// is what the crate finds, `None` where it reports a parse error.
#[verifier::external_body]
fn parse_url_scheme(input: &str) -> (r: Option<String>)
    ensures
        match r {
            Some(s) => url_scheme(input@) == Some(s@),
            None => url_scheme(input@) == None::<Seq<char>>,
        },
{
    match url::Url::parse(input) {
        Ok(parsed) => Some(parsed.scheme().to_owned()),
        Err(_) => None,
    }
}

/// Calls `uuid::Uuid::new_v4` and formats the identifier with its `Display`.
/// Trusted: every outcome is a version 4 identifier in the hyphenated
/// lower-case form. Nothing is said of which one comes out: two calls may
/// differ.
#[verifier::external_body]
fn fresh_correlation_id() -> (r: String)
    ensures
        is_random_uuid_text(r@),
{
    uuid::Uuid::new_v4().to_string()
}

/// Formats `serde_json::Value::String` with its `Display`. Trusted: the
/// result is the JSON string literal that `serde_json` writes for `s`.
#[verifier::external_body]
fn json_quote(s: &str) -> (r: String)
    ensures
        r@ == json_string_literal(s@),
{
    serde_json::Value::String(s.to_owned()).to_string()
}

/// The handshake that a URL scheme selects.
pub fn handshake_for_scheme(scheme: &Option<String>) -> (r: Option<Handshake>)
    ensures
        r == scheme_handshake(
            match *scheme {
                Some(s) => Some(s@),
                None => None,
            },
        ),
{
    match scheme {
        Some(s) => {
            if str_eq(s.as_str(), "wss") {
                Some(Handshake::Secure)
            } else if str_eq(s.as_str(), "ws") {
                Some(Handshake::Plain)
            } else {
                None
            }
        },
        None => None,
    }
}

/// The token of an authorization frame for `credential`.
pub fn bearer_token(credential: &str) -> (r: String)
    ensures
        r@ == bearer_text(credential@),
{
    let mut r = "Bearer ".to_owned();
    r.append(credential);
    r
}

/// The authorization frame around two JSON string literals: an object with
/// the token under `data`, the correlation identifier under `id` and the type
/// `authorization`.
pub fn authorization_frame(id_literal: &str, token_literal: &str) -> (r: String)
    ensures
        r@ == authorization_frame_text(id_literal@, token_literal@),
{
    let mut r = "{\"data\":{\"token\":".to_owned();
    r.append(token_literal);
    r.append("},\"id\":");
    r.append(id_literal);
    r.append(",\"type\":\"authorization\"}");
    r
}

/// The authorization frame for `credential` under the correlation identifier
/// `id`.
pub fn authorization_message(id: &str, credential: &str) -> (r: String)
    ensures
        r@ == authorization_frame_text(
            json_string_literal(id@),
            json_string_literal(bearer_text(credential@)),
        ),
{
    let token = bearer_token(credential);
    let id_literal = json_quote(id);
    let token_literal = json_quote(token.as_str());
    authorization_frame(id_literal.as_str(), token_literal.as_str())
}

/// The decisions of one realtime transport. It holds at most one connection,
/// whose state it tracks from `Disconnected` to `Closed`.
#[derive(Debug, Clone, PartialEq, Eq)]
pub struct WebSocketClient {
    state: ConnectionState,
    is_secure: bool,
}

impl WebSocketClient {
    /// The state of the connection.
    pub closed spec fn spec_state(&self) -> ConnectionState {
        self.state
    }

    /// Whether the connection is to be secured.
    pub closed spec fn spec_is_secure(&self) -> bool {
        self.is_secure
    }

    /// A transport that has not connected yet. `is_secure` says which socket
    /// the caller expects; the URL given to `connect` decides.
    pub fn new(is_secure: bool) -> (r: WebSocketClient)
        ensures
            r.spec_state() == ConnectionState::Disconnected,
            r.spec_is_secure() == is_secure,
    {
        WebSocketClient { state: ConnectionState::Disconnected, is_secure }
    }

    /// The state of the connection.
    pub fn state(&self) -> (r: ConnectionState)
        ensures
            r == self.spec_state(),
    {
        self.state
    }

    /// Whether the connection is to be secured.
    pub fn is_secure(&self) -> (r: bool)
        ensures
            r == self.spec_is_secure(),
    {
        self.is_secure
    }

    /// Starts a connection, given the scheme of the endpoint's URL (`None`
    /// for a text that is no URL). From `Disconnected` a `wss` or `ws` scheme
    /// selects the handshake that the caller is to perform, and the state
    /// becomes `Connecting`; any other scheme fails the connection at once.
    /// From any other state the call fails and changes nothing.
    pub fn connect_with_scheme(&mut self, scheme: &Option<String>) -> (r: Result<
        Handshake,
        WebSocketError,
    >)
        ensures
            (r, final(self).spec_state()) == connect_outcome(
                old(self).spec_state(),
                match *scheme {
                    Some(s) => Some(s@),
                    None => None,
                },
            ),
            valid_move(old(self).spec_state(), final(self).spec_state()),
            final(self).spec_is_secure() == match r {
                Ok(h) => h == Handshake::Secure,
                Err(_) => old(self).spec_is_secure(),
            },
    {
        match self.state {
            ConnectionState::Disconnected => {
                match handshake_for_scheme(scheme) {
                    Some(h) => {
                        self.state = ConnectionState::Connecting;
                        self.is_secure = match h {
                            Handshake::Secure => true,
                            Handshake::Plain => false,
                        };
                        Ok(h)
                    },
                    None => {
                        self.state = ConnectionState::Closed;
                        Err(WebSocketError::ConnectFailed)
                    },
                }
            },
            _ => Err(WebSocketError::ConnectFailed),
        }
    }

    /// Starts a connection to `registration_url`. The URL's scheme selects
    /// the handshake: see `connect_with_scheme`.
    pub fn connect(&mut self, registration_url: String) -> (r: Result<Handshake, WebSocketError>)
        ensures
            (r, final(self).spec_state()) == connect_outcome(
                old(self).spec_state(),
                url_scheme(registration_url@),
            ),
            valid_move(old(self).spec_state(), final(self).spec_state()),
            final(self).spec_is_secure() == match r {
                Ok(h) => h == Handshake::Secure,
                Err(_) => old(self).spec_is_secure(),
            },
    {
        let scheme = parse_url_scheme(registration_url.as_str());
        self.connect_with_scheme(&scheme)
    }

    /// Starts a connection to the realtime endpoint of `device`. A device
    /// without endpoint is like a URL that names no socket: from
    /// `Disconnected` the connection fails at once.
    pub fn connect_device(&mut self, device: &DeviceDetails) -> (r: Result<
        Handshake,
        WebSocketError,
    >)
        ensures
            (r, final(self).spec_state()) == connect_outcome(
                old(self).spec_state(),
                match device.web_socket_url {
                    Some(url) => url_scheme(url@),
                    None => None,
                },
            ),
            valid_move(old(self).spec_state(), final(self).spec_state()),
            final(self).spec_is_secure() == match r {
                Ok(h) => h == Handshake::Secure,
                Err(_) => old(self).spec_is_secure(),
            },
    {
        match &device.web_socket_url {
            Some(url) => self.connect(url.clone()),
            None => self.connect_with_scheme(&None),
        }
    }

    /// Takes the outcome of the handshake. While `Connecting`, success leads
    /// to `Authenticating` and failure to `Closed` with `ConnectFailed`. In
    /// any other state the call reports `NotDefined` and changes nothing.
    pub fn handshake_finished(&mut self, succeeded: bool) -> (r: Result<(), WebSocketError>)
        ensures
            final(self).spec_is_secure() == old(self).spec_is_secure(),
            valid_move(old(self).spec_state(), final(self).spec_state()),
            (r, final(self).spec_state()) == handshake_outcome(old(self).spec_state(), succeeded),
    {
        match self.state {
            ConnectionState::Connecting => {
                if succeeded {
                    self.state = ConnectionState::Authenticating;
                    Ok(())
                } else {
                    self.state = ConnectionState::Closed;
                    Err(WebSocketError::ConnectFailed)
                }
            },
            _ => Err(WebSocketError::NotDefined),
        }
    }

    /// Builds the one authorization frame under the correlation identifier
    /// `id`. While `Authenticating` it returns the frame to send and the
    /// state becomes `Listening`, without waiting for any answer. In any
    /// other state the call reports `NotDefined` and changes nothing.
    pub fn authorize_with_id(&mut self, id: &str, credential: &str) -> (r: Result<
        String,
        WebSocketError,
    >)
        ensures
            final(self).spec_is_secure() == old(self).spec_is_secure(),
            valid_move(old(self).spec_state(), final(self).spec_state()),
            old(self).spec_state() == ConnectionState::Authenticating ==> ({
                &&& final(self).spec_state() == ConnectionState::Listening
                &&& r matches Ok(frame)
                &&& frame@ == authorization_frame_text(
                    json_string_literal(id@),
                    json_string_literal(bearer_text(credential@)),
                )
            }),
            old(self).spec_state() != ConnectionState::Authenticating ==> r == Err::<
                String,
                WebSocketError,
            >(WebSocketError::NotDefined) && final(self).spec_state() == old(self).spec_state(),
    {
        match self.state {
            ConnectionState::Authenticating => {
                self.state = ConnectionState::Listening;
                Ok(authorization_message(id, credential))
            },
            _ => Err(WebSocketError::NotDefined),
        }
    }

    /// Builds the one authorization frame under a fresh correlation
    /// identifier: see `authorize_with_id`.
    pub fn authorize(&mut self, credential: &str) -> (r: Result<String, WebSocketError>)
        ensures
            final(self).spec_is_secure() == old(self).spec_is_secure(),
            valid_move(old(self).spec_state(), final(self).spec_state()),
            old(self).spec_state() == ConnectionState::Authenticating ==> ({
                &&& final(self).spec_state() == ConnectionState::Listening
                &&& r matches Ok(frame)
                &&& exists|id: Seq<char>|
                    is_random_uuid_text(id) && frame@ == #[trigger] authorization_frame_text(
                        json_string_literal(id),
                        json_string_literal(bearer_text(credential@)),
                    )
            }),
            old(self).spec_state() != ConnectionState::Authenticating ==> r == Err::<
                String,
                WebSocketError,
            >(WebSocketError::NotDefined) && final(self).spec_state() == old(self).spec_state(),
    {
        match self.state {
            ConnectionState::Authenticating => {
                let id = fresh_correlation_id();
                self.authorize_with_id(id.as_str(), credential)
            },
            _ => Err(WebSocketError::NotDefined),
        }
    }

    /// Decides on sending `text`. While `Listening` the text is handed back
    /// as the frame to write; in any other state the call reports
    /// `NotDefined`.
    pub fn send(&self, text: String) -> (r: Result<String, WebSocketError>)
        ensures
            r == send_outcome(self.spec_state(), text),
            self.spec_state() != ConnectionState::Listening ==> r == Err::<String, WebSocketError>(
                WebSocketError::NotDefined,
            ),
    {
        match self.state {
            ConnectionState::Listening => Ok(text),
            _ => Err(WebSocketError::NotDefined),
        }
    }

    /// What the receive loop decides before it reads, from the state and the
    /// shutdown flag as polled for this turn: `Some` with the result to stop
    /// with, `None` to read. Outside `Listening` the loop stops with
    /// `NotDefined`; with the flag down it stops without error.
    pub fn before_read(&self, running: bool) -> (r: Option<Result<(), WebSocketError>>)
        ensures
            r == stop_before_read(self.spec_state(), running),
    {
        match self.state {
            ConnectionState::Listening => {
                if running {
                    None
                } else {
                    Some(Ok(()))
                }
            },
            _ => Some(Err(WebSocketError::NotDefined)),
        }
    }

    /// One turn of the receive loop: `running` is the shutdown flag as polled
    /// for this turn and `event` what the read gave. Where `before_read`
    /// stops the loop, the turn stops with that result and the read counts
    /// for nothing. Otherwise a Text frame is delivered; a Close frame stops
    /// the loop and starts the closing; a failed read stops it with
    /// `AwayError` and starts the closing; anything else is passed over.
    pub fn listen_step(&mut self, running: bool, event: StreamEvent) -> (r: ListenStep)
        ensures
            (r, final(self).spec_state()) == listen_outcome(old(self).spec_state(), running, event),
            valid_move(old(self).spec_state(), final(self).spec_state()),
            final(self).spec_is_secure() == old(self).spec_is_secure(),
    {
        match self.before_read(running) {
            Some(result) => ListenStep::Stop(result),
            None => match event {
                StreamEvent::Frame(frame) => match frame {
                    InboundFrame::Text(text) => ListenStep::Deliver(text),
                    InboundFrame::Close => {
                        self.state = ConnectionState::Closing;
                        ListenStep::Stop(Ok(()))
                    },
                    _ => ListenStep::Continue,
                },
                StreamEvent::Failed => {
                    self.state = ConnectionState::Closing;
                    ListenStep::Stop(Err(WebSocketError::AwayError))
                },
                StreamEvent::Idle => ListenStep::Continue,
            },
        }
    }

    /// The receive loop over the reads in `events`, in the order in which
    /// the socket gave them, with `running` as the shutdown flag polled for
    /// them. It returns the texts to deliver, in that order, and the result
    /// that the loop stopped with. Before every read, and before it reports
    /// that the events are used up, the loop tests the state and the flag:
    /// outside `Listening` it stops with `NotDefined` and with the flag down
    /// it stops without error, also on no events at all. `None` says that
    /// the transport listens, the flag is up and the loop would read on. A
    /// caller whose flag may change between reads polls it for every read
    /// and takes the turns one by one, with `before_read` and `listen_step`.
    pub fn listen_for_messages(&mut self, running: bool, events: Vec<StreamEvent>) -> (r: (
        Vec<String>,
        Option<Result<(), WebSocketError>>,
    ))
        ensures
            (r.0@, r.1, final(self).spec_state()) == listen_trace(
                old(self).spec_state(),
                running,
                events@,
                0,
            ),
            final(self).spec_is_secure() == old(self).spec_is_secure(),
    {
        let mut delivered: Vec<String> = Vec::new();
        match self.before_read(running) {
            Some(result) => {
                return (delivered, Some(result));
            },
            None => {},
        }
        for event in it: events
            invariant
                it.seq() == events@,
                self.spec_is_secure() == old(self).spec_is_secure(),
                stop_before_read(self.spec_state(), running) is None,
                ({
                    let (texts, result, last) = listen_trace(
                        self.spec_state(),
                        running,
                        events@,
                        it.index(),
                    );
                    (delivered@ + texts, result, last)
                }) == listen_trace(old(self).spec_state(), running, events@, 0),
        {
            let ghost before = delivered@;
            match self.listen_step(running, event) {
                ListenStep::Deliver(text) => {
                    delivered.push(text);
                    let ghost rest = listen_trace(
                        self.spec_state(),
                        running,
                        events@,
                        it.index() + 1,
                    );
                    assert(delivered@ + rest.0 == before + (seq![text] + rest.0));
                },
                ListenStep::Continue => {},
                ListenStep::Stop(result) => {
                    assert(delivered@ + Seq::<String>::empty() == delivered@);
                    return (delivered, Some(result));
                },
            }
        }
        assert(delivered@ + Seq::<String>::empty() == delivered@);
        (delivered, None)
    }

    /// Starts the closing. While `Listening` the state becomes `Closing` and
    /// the caller is to send a Close frame; in any other state nothing
    /// happens.
    pub fn close(&mut self) -> (r: CloseStep)
        ensures
            final(self).spec_is_secure() == old(self).spec_is_secure(),
            valid_move(old(self).spec_state(), final(self).spec_state()),
            (r, final(self).spec_state()) == close_outcome(old(self).spec_state()),
    {
        match self.state {
            ConnectionState::Listening => {
                self.state = ConnectionState::Closing;
                CloseStep::SendClose
            },
            _ => CloseStep::Nothing,
        }
    }

    /// Ends the closing, once the peer has answered or the wait has run out:
    /// `Closing` becomes `Closed`. In any other state nothing happens.
    pub fn finish_close(&mut self)
        ensures
            final(self).spec_is_secure() == old(self).spec_is_secure(),
            valid_move(old(self).spec_state(), final(self).spec_state()),
            final(self).spec_state() == closed_outcome(old(self).spec_state()),
    {
        match self.state {
            ConnectionState::Closing => {
                self.state = ConnectionState::Closed;
            },
            _ => {},
        }
    }
}

/// A realtime transport together with the transport server that it
/// registers with and publishes to.
#[derive(Debug, Clone, PartialEq, Eq)]
pub struct TransportWebSocketClient {
    remote_ws_server: RemoteTransportWebSocketServer,
    websocket_impl: WebSocketClient,
}

impl TransportWebSocketClient {
    /// The transport server.
    pub closed spec fn spec_server(&self) -> RemoteTransportWebSocketServer {
        self.remote_ws_server
    }

    /// The transport.
    pub closed spec fn spec_websocket(&self) -> WebSocketClient {
        self.websocket_impl
    }

    /// The state of the transport's connection.
    pub open spec fn spec_state(&self) -> ConnectionState {
        self.spec_websocket().spec_state()
    }

    /// Whether the transport's connection is to be secured.
    pub open spec fn spec_is_secure(&self) -> bool {
        self.spec_websocket().spec_is_secure()
    }

    /// A client of `remote_ws_server` that has not connected yet.
    pub fn new(remote_ws_server: RemoteTransportWebSocketServer, is_secure: bool) -> (r:
        TransportWebSocketClient)
        ensures
            r.spec_server() == remote_ws_server,
            r.spec_state() == ConnectionState::Disconnected,
            r.spec_is_secure() == is_secure,
    {
        TransportWebSocketClient {
            remote_ws_server,
            websocket_impl: WebSocketClient::new(is_secure),
        }
    }

    /// The transport server.
    pub fn server(&self) -> (r: &RemoteTransportWebSocketServer)
        ensures
            *r == self.spec_server(),
    {
        &self.remote_ws_server
    }

    /// The transport.
    pub fn websocket(&self) -> (r: &WebSocketClient)
        ensures
            *r == self.spec_websocket(),
    {
        &self.websocket_impl
    }

    /// Starts a connection to `registration_url`, as the transport does.
    pub fn connect(&mut self, registration_url: String) -> (r: Result<Handshake, WebSocketError>)
        ensures
            final(self).spec_server() == old(self).spec_server(),
            (r, final(self).spec_state()) == connect_outcome(
                old(self).spec_state(),
                url_scheme(registration_url@),
            ),
            final(self).spec_is_secure() == match r {
                Ok(h) => h == Handshake::Secure,
                Err(_) => old(self).spec_is_secure(),
            },
    {
        self.websocket_impl.connect(registration_url)
    }

    /// Takes the outcome of the handshake, as the transport does.
    pub fn handshake_finished(&mut self, succeeded: bool) -> (r: Result<(), WebSocketError>)
        ensures
            final(self).spec_server() == old(self).spec_server(),
            final(self).spec_is_secure() == old(self).spec_is_secure(),
            (r, final(self).spec_state()) == handshake_outcome(
                old(self).spec_state(),
                succeeded,
            ),
    {
        self.websocket_impl.handshake_finished(succeeded)
    }

    /// Builds the authorization frame, as the transport does.
    pub fn authorize(&mut self, credential: &str) -> (r: Result<String, WebSocketError>)
        ensures
            final(self).spec_server() == old(self).spec_server(),
            final(self).spec_is_secure() == old(self).spec_is_secure(),
            old(self).spec_state() == ConnectionState::Authenticating ==> ({
                &&& final(self).spec_state() == ConnectionState::Listening
                &&& r matches Ok(frame)
                &&& exists|id: Seq<char>|
                    is_random_uuid_text(id) && frame@ == #[trigger] authorization_frame_text(
                        json_string_literal(id),
                        json_string_literal(bearer_text(credential@)),
                    )
            }),
            old(self).spec_state() != ConnectionState::Authenticating ==> r == Err::<
                String,
                WebSocketError,
            >(WebSocketError::NotDefined) && final(self).spec_state() == old(self).spec_state(),
    {
        self.websocket_impl.authorize(credential)
    }

    /// Decides on sending `text`, as the transport does.
    pub fn send(&self, text: String) -> (r: Result<String, WebSocketError>)
        ensures
            r == send_outcome(self.spec_state(), text),
    {
        self.websocket_impl.send(text)
    }

    /// What the receive loop decides before it reads, as the transport does.
    pub fn before_read(&self, running: bool) -> (r: Option<Result<(), WebSocketError>>)
        ensures
            r == stop_before_read(self.spec_state(), running),
    {
        self.websocket_impl.before_read(running)
    }

    /// One turn of the receive loop, as the transport takes it.
    pub fn listen_step(&mut self, running: bool, event: StreamEvent) -> (r: ListenStep)
        ensures
            final(self).spec_server() == old(self).spec_server(),
            final(self).spec_is_secure() == old(self).spec_is_secure(),
            (r, final(self).spec_state()) == listen_outcome(
                old(self).spec_state(),
                running,
                event,
            ),
    {
        self.websocket_impl.listen_step(running, event)
    }

    /// Starts the closing, as the transport does.
    pub fn close(&mut self) -> (r: CloseStep)
        ensures
            final(self).spec_server() == old(self).spec_server(),
            final(self).spec_is_secure() == old(self).spec_is_secure(),
            (r, final(self).spec_state()) == close_outcome(
                old(self).spec_state(),
            ),
    {
        self.websocket_impl.close()
    }

    /// Ends the closing, as the transport does.
    pub fn finish_close(&mut self)
        ensures
            final(self).spec_server() == old(self).spec_server(),
            final(self).spec_is_secure() == old(self).spec_is_secure(),
            final(self).spec_state() == closed_outcome(
                old(self).spec_state(),
            ),
    {
        self.websocket_impl.finish_close()
    }

    /// The request that registers the server's user at `endpoint`: where it
    /// goes and what it carries.
    pub fn register(&self, endpoint: &str) -> (r: (String, Register))
        ensures
            r.0@ == transport_url_text(
                self.spec_server().host@,
                self.spec_server().port,
                endpoint@,
            ),
            r.1.user_id == self.spec_server().user_id,
            r.1.groups@ == self.spec_server().subscription_groups@,
    {
        crate::service::register(endpoint, &self.remote_ws_server)
    }

    /// The request that publishes `message` to `group` at `endpoint`: where
    /// it goes and what it carries.
    pub fn publish(&self, endpoint: &str, group: String, message: String) -> (r: (String, Publish))
        ensures
            r.0@ == transport_url_text(
                self.spec_server().host@,
                self.spec_server().port,
                endpoint@,
            ),
            r.1 == (Publish { user_id: self.spec_server().user_id, group, message }),
    {
        crate::service::publish(endpoint, group, message, &self.remote_ws_server)
    }
}

} // verus!
