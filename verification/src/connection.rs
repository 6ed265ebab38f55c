//! The connection manager: the states of one bidirectional session and what
//! the agent does on each thing that happens to it.
//!
//! The transport is driven from outside. Whoever drives it reports each
//! occurrence as a [`ConnInput`] to [`Connection::on_input`] and carries out
//! the [`Step`] that comes back.

use crate::codec::{
    decode_command, desktop_agent_type, encode_registration, frame_command, registration_message,
    registration_text, registration_type, DecodeError,
};
use crate::dispatcher::{command_event, command_keys, handle_event};
use crate::models::events::{Event, Key};
use crate::models::websocket::WsEvent;
use vstd::prelude::*;
use vstd::string::{StrSliceExecFns, StringExecFns};

verus! {

/// Where a connection stands.
#[derive(Clone, Copy, Debug, PartialEq, Eq, Structural)]
pub enum ConnState {
    /// The transport is being opened.
    Connecting,
    /// The transport is open and the registration message is on its way.
    Registering,
    /// Commands are received and dispatched.
    Active,
    /// Shutdown was requested and the stream is being closed.
    ShuttingDown,
    /// The connection is over.
    Closed,
}

/// Something that happened to a connection.
#[derive(Debug)]
pub enum ConnInput {
    /// The transport was opened.
    Connected,
    /// The transport could not be opened, for the reason given in the
    /// transport's words.
    ConnectFailed { reason: String },
    /// The registration message was sent.
    RegistrationSent,
    /// The registration message could not be sent, for the reason given in
    /// the transport's words.
    RegistrationFailed { reason: String },
    /// A message arrived.
    Frame(String),
    /// Reading from the stream failed.
    ReadFailed,
    /// The peer ended the stream.
    StreamEnded,
    /// The holder of the handle asked for shutdown.
    ShutdownRequested,
    /// The attempt to close the stream is over, whether or not it succeeded.
    CloseFinished,
}

/// Why a connection could not be started, with the reason in the
/// transport's words.
#[derive(Clone, Debug, PartialEq, Eq)]
pub enum ConnectError {
    /// The transport could not be opened.
    ConnectFailed { reason: String },
    /// The registration message could not be sent.
    RegistrationFailed { reason: String },
}

impl ConnectError {
    /// The error in words: the reason that the transport gave.
    pub open spec fn message_spec(self) -> Seq<char> {
        match self {
            ConnectError::ConnectFailed { reason } => reason@,
            ConnectError::RegistrationFailed { reason } => reason@,
        }
    }

    /// The error in words: the reason that the transport gave.
    pub fn message(&self) -> (text: String)
        ensures
            text@ == self.message_spec(),
    {
        match self {
            ConnectError::ConnectFailed { reason } => reason.clone(),
            ConnectError::RegistrationFailed { reason } => reason.clone(),
        }
    }
}

/// The means to ask for the shutdown of one live connection, once.
#[derive(Debug)]
pub struct WsHandle {
    sealed: (),
}

impl WsHandle {
    /// Gives the handle up for the request to shut down. The request is to
    /// be reported to the connection; the caller does not wait for it.
    pub fn shutdown(self) -> (request: ConnInput)
        ensures
            request is ShutdownRequested,
    {
        ConnInput::ShutdownRequested
    }
}

/// What the driver of the transport is to do after an input.
#[derive(Debug)]
pub struct Step {
    /// The state that the connection is in now.
    pub state: ConnState,
    /// A text to send on the stream.
    pub send: Option<String>,
    /// The keys to press, in order.
    pub keys: Vec<Key>,
    /// The events to enqueue for the consumer, in order.
    pub events: Vec<Event>,
    /// Whether the stream is to be closed. The attempt is made once, and a
    /// failure of it is reported to nobody.
    pub close_stream: bool,
    /// The handle of a connection that has just become active.
    pub handle: Option<WsHandle>,
    /// The failure to report to whoever asked for the connection.
    pub error: Option<ConnectError>,
    /// Why an inbound message was dropped.
    pub dropped: Option<DecodeError>,
}

/// One bidirectional session.
#[derive(Debug)]
pub struct Connection {
    state: ConnState,
    agent_name: String,
    token: String,
}

/// The state after an input.
pub open spec fn next_state(state: ConnState, input: ConnInput) -> ConnState {
    match (state, input) {
        (ConnState::Connecting, ConnInput::Connected) => ConnState::Registering,
        (ConnState::Connecting, ConnInput::ConnectFailed { .. }) => ConnState::Closed,
        (ConnState::Registering, ConnInput::RegistrationSent) => ConnState::Active,
        (ConnState::Registering, ConnInput::RegistrationFailed { .. }) => ConnState::Closed,
        (ConnState::Active, ConnInput::ReadFailed) => ConnState::Closed,
        (ConnState::Active, ConnInput::StreamEnded) => ConnState::Closed,
        (ConnState::Active, ConnInput::ShutdownRequested) => ConnState::ShuttingDown,
        (ConnState::ShuttingDown, ConnInput::CloseFinished) => ConnState::Closed,
        _ => state,
    }
}

/// What an input holds as a message: the outcome of decoding it.
pub open spec fn decoded(input: ConnInput) -> Option<Result<WsEvent, DecodeError>> {
    match input {
        ConnInput::Frame(text) => Some(frame_command(text@)),
        _ => None,
    }
}

/// The command that a decoded message delivers: one that decoded, on an
/// active connection.
pub open spec fn delivered_command(
    state: ConnState,
    message: Option<Result<WsEvent, DecodeError>>,
) -> Option<WsEvent> {
    match (state, message) {
        (ConnState::Active, Some(Ok(command))) => Some(command),
        _ => None,
    }
}

/// Why a decoded message is dropped: it did not decode, on an active
/// connection.
pub open spec fn dropped_message(
    state: ConnState,
    message: Option<Result<WsEvent, DecodeError>>,
) -> Option<DecodeError> {
    match (state, message) {
        (ConnState::Active, Some(Err(e))) => Some(e),
        _ => None,
    }
}

/// The command that an input delivers: a message that arrives on an active
/// connection and decodes.
pub open spec fn delivered(state: ConnState, input: ConnInput) -> Option<WsEvent> {
    delivered_command(state, decoded(input))
}

/// Whether an input ends an active connection.
pub open spec fn ends_active(state: ConnState, input: ConnInput) -> bool {
    state is Active && (input is ReadFailed || input is StreamEnded || input is ShutdownRequested)
}

/// The events that an input causes, in order.
pub open spec fn emitted(state: ConnState, input: ConnInput) -> Seq<Event> {
    if state is Connecting && input is Connected {
        seq![Event::ConnectionEstablished]
    } else if ends_active(state, input) {
        seq![Event::ConnectionClosed]
    } else {
        match delivered(state, input) {
            Some(command) => seq![command_event(command)],
            None => Seq::empty(),
        }
    }
}

/// The keys that an input causes to be pressed, in order.
pub open spec fn pressed(state: ConnState, input: ConnInput) -> Seq<Key> {
    match delivered(state, input) {
        Some(command) => command_keys(command),
        None => Seq::empty(),
    }
}

/// Whether the stream is to be closed after an input.
pub open spec fn closes_stream(state: ConnState, input: ConnInput) -> bool {
    ends_active(state, input) || (state is Registering && input is RegistrationFailed)
}

/// The failure that an input means for whoever asked for the connection.
pub open spec fn failure(state: ConnState, input: ConnInput) -> Option<ConnectError> {
    match (state, input) {
        (ConnState::Connecting, ConnInput::ConnectFailed { reason }) => Some(
            ConnectError::ConnectFailed { reason },
        ),
        (ConnState::Registering, ConnInput::RegistrationFailed { reason }) => Some(
            ConnectError::RegistrationFailed { reason },
        ),
        _ => None,
    }
}

/// Why an input is a message that is dropped.
pub open spec fn dropped(state: ConnState, input: ConnInput) -> Option<DecodeError> {
    dropped_message(state, decoded(input))
}

/// Whether a base address begins with the letters `http`.
pub open spec fn has_http_scheme(base: Seq<char>) -> bool {
    base.len() >= 4 && base[0] == 'h' && base[1] == 't' && base[2] == 't' && base[3] == 'p'
}

/// The base address of the stream for the base address of the service:
/// `http` at its start becomes `ws`, so that `https` becomes `wss`. An
/// address that begins otherwise is left as it is.
pub open spec fn ws_base(base: Seq<char>) -> Seq<char> {
    if has_http_scheme(base) {
        seq!['w', 's'] + base.skip(4)
    } else {
        base
    }
}

/// The address at which an agent joins a session.
pub open spec fn ws_address(base: Seq<char>, session_id: Seq<char>) -> Seq<char> {
    ws_base(base) + "/agent?sessionId="@ + session_id
}

/// Builds the address at which an agent joins a session.
pub fn ws_url(base_url: &str, session_id: &str) -> (url: String)
    ensures
        url@ == ws_address(base_url@, session_id@),
{
    let len = base_url.unicode_len();
    let mut url = if len >= 4 && base_url.get_char(0) == 'h' && base_url.get_char(1) == 't'
        && base_url.get_char(2) == 't' && base_url.get_char(3) == 'p' {
        let rest = base_url.substring_char(4, len);
        let mut s = String::from_str("ws");
        proof {
            reveal_strlit("ws");
            assert(s@ =~= seq!['w', 's']);
            assert(rest@ =~= base_url@.skip(4));
        }
        s.append(rest);
        s
    } else {
        String::from_str(base_url)
    };
    url.append("/agent?sessionId=");
    url.append(session_id);
    url
}

/// Sets up the bidirectional session of an agent: the connection, not yet
/// connected, and the address to connect it to.
pub fn run_websocket(base_url: &str, session_id: &str, token: &str, agent_name: &str) -> (start: (
    Connection,
    String,
))
    ensures
        start.0.state_spec() is Connecting,
        start.0.agent_name_spec() == agent_name@,
        start.0.token_spec() == token@,
        start.1@ == ws_address(base_url@, session_id@),
{
    (Connection::new(agent_name, token), ws_url(base_url, session_id))
}

impl Connection {
    /// The state that the connection is in.
    pub closed spec fn state_spec(&self) -> ConnState {
        self.state
    }

    /// The name that the agent registers under.
    pub closed spec fn agent_name_spec(&self) -> Seq<char> {
        self.agent_name@
    }

    /// The bearer token that the agent registers with.
    pub closed spec fn token_spec(&self) -> Seq<char> {
        self.token@
    }

    /// The registration message of this connection.
    pub open spec fn registration(&self) -> Seq<char> {
        registration_text(
            registration_type(),
            self.agent_name_spec(),
            desktop_agent_type(),
            self.token_spec(),
        )
    }

    /// A connection whose transport is about to be opened.
    pub fn new(agent_name: &str, token: &str) -> (connection: Connection)
        ensures
            connection.state_spec() is Connecting,
            connection.agent_name_spec() == agent_name@,
            connection.token_spec() == token@,
    {
        Connection {
            state: ConnState::Connecting,
            agent_name: String::from_str(agent_name),
            token: String::from_str(token),
        }
    }

    /// The state that the connection is in.
    #[verifier::when_used_as_spec(state_spec)]
    pub fn state(&self) -> (state: ConnState)
        ensures
            state == self.state_spec(),
    {
        self.state
    }

    /// Takes one message that has been decoded already and says what is to
    /// be done. An active connection dispatches a command and drops what
    /// did not decode; in any other state the message is passed over. The
    /// state stays as it is.
    pub fn on_message(&mut self, message: Result<WsEvent, DecodeError>) -> (step: Step)
        ensures
            final(self).state_spec() == old(self).state_spec(),
            final(self).agent_name_spec() == old(self).agent_name_spec(),
            final(self).token_spec() == old(self).token_spec(),
            step.state == old(self).state_spec(),
            step.events@ == match delivered_command(old(self).state_spec(), Some(message)) {
                Some(command) => seq![command_event(command)],
                None => Seq::empty(),
            },
            step.keys@ == match delivered_command(old(self).state_spec(), Some(message)) {
                Some(command) => command_keys(command),
                None => Seq::empty(),
            },
            forall|i: int| 0 <= i < step.keys@.len() ==> (#[trigger] step.keys@[i]).wf(),
            step.dropped == dropped_message(old(self).state_spec(), Some(message)),
            !step.close_stream,
            step.send is None,
            step.handle is None,
            step.error is None,
    {
        let mut step = Step {
            state: self.state,
            send: None,
            keys: Vec::new(),
            events: Vec::new(),
            close_stream: false,
            handle: None,
            error: None,
            dropped: None,
        };
        match (self.state, message) {
            (ConnState::Active, Ok(command)) => {
                let dispatch = handle_event(command);
                step.keys = dispatch.keys;
                step.events.push(dispatch.event);
            },
            (ConnState::Active, Err(e)) => {
                step.dropped = Some(e);
            },
            _ => {},
        }
        proof {
            assert(step.events@ =~= match delivered_command(old(self).state_spec(), Some(message)) {
                Some(command) => seq![command_event(command)],
                None => Seq::empty(),
            });
            assert(step.keys@ =~= match delivered_command(old(self).state_spec(), Some(message)) {
                Some(command) => command_keys(command),
                None => Seq::empty(),
            });
        }
        step
    }

    /// Takes one input and says what is to be done.
    pub fn on_input(&mut self, input: ConnInput) -> (step: Step)
        ensures
            final(self).state_spec() == next_state(old(self).state_spec(), input),
            final(self).agent_name_spec() == old(self).agent_name_spec(),
            final(self).token_spec() == old(self).token_spec(),
            step.state == final(self).state_spec(),
            step.events@ == emitted(old(self).state_spec(), input),
            step.keys@ == pressed(old(self).state_spec(), input),
            forall|i: int| 0 <= i < step.keys@.len() ==> (#[trigger] step.keys@[i]).wf(),
            step.close_stream == closes_stream(old(self).state_spec(), input),
            step.error == failure(old(self).state_spec(), input),
            step.dropped == dropped(old(self).state_spec(), input),
            step.handle is Some <==> old(self).state_spec() is Registering
                && input is RegistrationSent,
            step.send is Some <==> old(self).state_spec() is Connecting && input is Connected,
            step.send matches Some(text) ==> text@ == old(self).registration(),
    {
        let mut step = Step {
            state: self.state,
            send: None,
            keys: Vec::new(),
            events: Vec::new(),
            close_stream: false,
            handle: None,
            error: None,
            dropped: None,
        };
        match (self.state, input) {
            (ConnState::Connecting, ConnInput::Connected) => {
                let message = registration_message(self.agent_name.as_str(), self.token.as_str());
                step.send = Some(encode_registration(&message));
                step.events.push(Event::ConnectionEstablished);
                self.state = ConnState::Registering;
            },
            (ConnState::Connecting, ConnInput::ConnectFailed { reason }) => {
                step.error = Some(ConnectError::ConnectFailed { reason });
                self.state = ConnState::Closed;
            },
            (ConnState::Registering, ConnInput::RegistrationSent) => {
                step.handle = Some(WsHandle { sealed: () });
                self.state = ConnState::Active;
            },
            (ConnState::Registering, ConnInput::RegistrationFailed { reason }) => {
                step.error = Some(ConnectError::RegistrationFailed { reason });
                step.close_stream = true;
                self.state = ConnState::Closed;
            },
            (ConnState::Active, ConnInput::Frame(text)) => {
                step = self.on_message(decode_command(text.as_str()));
            },
            (ConnState::Active, ConnInput::ReadFailed) => {
                step.events.push(Event::ConnectionClosed);
                step.close_stream = true;
                self.state = ConnState::Closed;
            },
            (ConnState::Active, ConnInput::StreamEnded) => {
                step.events.push(Event::ConnectionClosed);
                step.close_stream = true;
                self.state = ConnState::Closed;
            },
            (ConnState::Active, ConnInput::ShutdownRequested) => {
                step.events.push(Event::ConnectionClosed);
                step.close_stream = true;
                self.state = ConnState::ShuttingDown;
            },
            (ConnState::ShuttingDown, ConnInput::CloseFinished) => {
                self.state = ConnState::Closed;
            },
            _ => {},
        }
        step.state = self.state;
        proof {
            assert(step.events@ =~= emitted(old(self).state_spec(), input));
            assert(step.keys@ =~= pressed(old(self).state_spec(), input));
        }
        step
    }
}

} // verus!
