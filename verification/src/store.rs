//! The session state store: the one record that the calls to the service,
//! the connection and the polling consumer all work on.
//!
//! Each method is one state transition. The store is meant to be kept behind
//! a lock that is taken for one transition at a time.

use crate::api::{
    bearer, body_record, fetch_outcome, is_success, outcome_view, session_info_request,
    session_info_url, session_state_request, session_state_url, verify_otp_request,
    verify_outcome, verify_url, AuthError, FetchError, HttpMethod, HttpReply, HttpRequest,
    Resource,
};
use crate::codec::verify_request_text;
use crate::connection::{run_websocket, ws_address, ConnInput, ConnectError, Connection, WsHandle};
use crate::decode::FromJson;
use crate::json::json_document;
use crate::dispatcher::{decimal_digits, index_digits};
use crate::models::auth::{VerifyOtpResponse, VerifyOtpResponseView};
use crate::models::events::Event;
use crate::models::session::{SessionInfo, SessionInfoPage, SessionInfoPageView, SessionInfoView};
use crate::models::state::{SessionState, SessionStateView};
use crate::responses::lemma_decoded_state_has_indices;
use vstd::prelude::*;
use vstd::string::StringExecFns;

verus! {

/// What is set going once a one-time code has been accepted: the two
/// requests for the session's description and live state, and the
/// bidirectional connection with the address to connect it to. Each goes its
/// own way; none waits for another.
#[derive(Debug)]
pub struct SessionStart {
    pub info_request: HttpRequest,
    pub state_request: HttpRequest,
    pub connection: Connection,
    pub url: String,
}

/// The store.
#[derive(Debug)]
pub struct AppState {
    pub primary_server_address: String,
    pub session_server_address: String,
    pub otp: String,
    pub agent_name: String,
    pub session_id: String,
    pub token: String,
    pub connected: bool,
    pub status_message: String,
    pub slide_name: String,
    pub current_slide_index: usize,
    pub total_slide_count: usize,
    pub current_step: usize,
    pub pages: Vec<SessionInfoPage>,
    pub logs: Vec<String>,
    /// The events that wait for the consumer, oldest first; `None` while no
    /// connection delivers any.
    pub queue: Option<Vec<Event>>,
    /// The handle of the live connection.
    pub ws_handle: Option<WsHandle>,
}

/// The mathematical value of the store.
pub ghost struct AppStateView {
    pub primary_server_address: Seq<char>,
    pub session_server_address: Seq<char>,
    pub otp: Seq<char>,
    pub agent_name: Seq<char>,
    pub session_id: Seq<char>,
    pub token: Seq<char>,
    pub connected: bool,
    pub status_message: Seq<char>,
    pub slide_name: Seq<char>,
    pub current_slide_index: usize,
    pub total_slide_count: usize,
    pub current_step: usize,
    pub pages: Seq<SessionInfoPageView>,
    pub logs: Seq<Seq<char>>,
    /// The events that wait for the consumer, oldest first.
    pub queue: Option<Seq<Event>>,
    /// Whether the store holds the handle of a live connection.
    pub has_handle: bool,
}

/// The texts of a sequence of strings.
pub open spec fn texts(lines: Seq<String>) -> Seq<Seq<char>> {
    Seq::new(lines.len(), |i: int| lines[i]@)
}

/// The character of a decimal digit.
pub open spec fn digit_char(d: nat) -> char {
    if d == 0 {
        '0'
    } else if d == 1 {
        '1'
    } else if d == 2 {
        '2'
    } else if d == 3 {
        '3'
    } else if d == 4 {
        '4'
    } else if d == 5 {
        '5'
    } else if d == 6 {
        '6'
    } else if d == 7 {
        '7'
    } else if d == 8 {
        '8'
    } else {
        '9'
    }
}

/// A number in decimal notation.
pub open spec fn decimal_text(n: nat) -> Seq<char> {
    Seq::new(decimal_digits(n).len(), |i: int| digit_char(decimal_digits(n)[i]))
}

/// The line that the log gets for a change to page `index`.
pub open spec fn slide_log(index: usize) -> Seq<char> {
    "ページを"@ + decimal_text(index as nat) + "に変更しました"@
}

/// The index that a served number gives: the number itself, or, where it
/// is negative and so no index, the index `kept` that was there before.
pub open spec fn served_index(value: i32, kept: usize) -> usize {
    if value >= 0 {
        value as usize
    } else {
        kept
    }
}

/// The store after the outcome of the verification: an accepted code fills
/// in the session's identity, a failure is shown as the status.
pub open spec fn otp_applied(
    state: AppStateView,
    outcome: Result<VerifyOtpResponseView, AuthError>,
) -> AppStateView {
    match outcome {
        Ok(response) => AppStateView {
            session_id: response.session_id,
            token: response.token,
            session_server_address: response.aggregator_url,
            status_message: "OTP verified successfully."@,
            ..state
        },
        Err(e) => AppStateView {
            status_message: "OTP Verification Failed: "@ + e.message_spec(),
            ..state
        },
    }
}

/// The store after the outcome of the request for the session's
/// description: a description gives the title, the pages and their number,
/// a failure is shown as the status.
pub open spec fn info_applied(
    state: AppStateView,
    outcome: Result<SessionInfoView, FetchError>,
) -> AppStateView {
    match outcome {
        Ok(info) => AppStateView {
            slide_name: info.title,
            total_slide_count: info.pages.len() as usize,
            pages: info.pages,
            ..state
        },
        Err(e) => AppStateView {
            status_message: "Failed to fetch session info: "@ + e.message_spec(),
            ..state
        },
    }
}

/// The store after the outcome of the request for the session's live state:
/// a state gives the current page and step, a failure is shown as the
/// status. A page or step that is negative is no index and leaves the
/// store's as it was.
pub open spec fn state_applied(
    state: AppStateView,
    outcome: Result<SessionStateView, FetchError>,
) -> AppStateView {
    match outcome {
        Ok(live) => AppStateView {
            current_slide_index: served_index(live.current_page, state.current_slide_index),
            current_step: served_index(live.current_step, state.current_step),
            ..state
        },
        Err(e) => AppStateView {
            status_message: "Failed to fetch session state: "@ + e.message_spec(),
            ..state
        },
    }
}

/// The store with an empty queue, ready for a connection's events.
pub open spec fn queue_opened(state: AppStateView) -> AppStateView {
    AppStateView { queue: Some(Seq::empty()), ..state }
}

/// The store after the outcome of the verification has been taken: an
/// accepted code also opens the queue for the connection that is started.
pub open spec fn session_begun(
    state: AppStateView,
    outcome: Result<VerifyOtpResponseView, AuthError>,
) -> AppStateView {
    if outcome is Ok {
        queue_opened(otp_applied(state, outcome))
    } else {
        otp_applied(state, outcome)
    }
}

/// The store after the consumer has ended the session: the credentials are
/// cleared, what was retrieved of the session is discarded, and the log, the
/// queue and the handle are gone. What the consumer configured stays.
pub open spec fn disconnected(state: AppStateView) -> AppStateView {
    AppStateView {
        session_id: Seq::empty(),
        token: Seq::empty(),
        session_server_address: Seq::empty(),
        connected: false,
        status_message: "Disconnected"@,
        slide_name: Seq::empty(),
        current_slide_index: 0,
        total_slide_count: 0,
        current_step: 0,
        pages: Seq::empty(),
        logs: Seq::empty(),
        queue: None,
        has_handle: false,
        ..state
    }
}

/// The store after one event has been applied to it.
pub open spec fn applied(state: AppStateView, event: Event) -> AppStateView {
    match event {
        Event::ConnectionEstablished => AppStateView {
            connected: true,
            status_message: "WebSocket connected"@,
            ..state
        },
        Event::ConnectionClosed => AppStateView {
            connected: false,
            status_message: "WebSocket disconnected"@,
            has_handle: false,
            ..state
        },
        Event::SlideChanged { new_page_index } => AppStateView {
            current_slide_index: new_page_index,
            logs: state.logs.push(slide_log(new_page_index)),
            ..state
        },
        Event::StepChanged { new_page_index, new_step_index } => AppStateView {
            current_slide_index: new_page_index,
            current_step: new_step_index,
            ..state
        },
        Event::KeyPressed { key } => state,
    }
}

/// The store after a sequence of events has been applied to it, in order.
pub open spec fn applied_all(state: AppStateView, events: Seq<Event>) -> AppStateView
    decreases events.len(),
{
    if events.len() == 0 {
        state
    } else {
        applied(applied_all(state, events.drop_last()), events.last())
    }
}

/// The events that a drain hands out.
pub open spec fn drained(state: AppStateView) -> Seq<Event> {
    match state.queue {
        Some(events) => events,
        None => Seq::empty(),
    }
}

/// The store after a drain: the queue, where there is one, is empty.
pub open spec fn after_drain(state: AppStateView) -> AppStateView {
    AppStateView {
        queue: match state.queue {
            Some(_) => Some(Seq::empty()),
            None => None,
        },
        ..state
    }
}

/// The store after an event has been enqueued. Without a queue the event is
/// lost.
pub open spec fn after_enqueue(state: AppStateView, event: Event) -> AppStateView {
    AppStateView {
        queue: match state.queue {
            Some(events) => Some(events.push(event)),
            None => None,
        },
        ..state
    }
}

/// The store after a sequence of events has been enqueued, in order.
pub open spec fn after_enqueue_all(state: AppStateView, events: Seq<Event>) -> AppStateView
    decreases events.len(),
{
    if events.len() == 0 {
        state
    } else {
        after_enqueue(after_enqueue_all(state, events.drop_last()), events.last())
    }
}

fn digit_text(d: u8) -> (text: &'static str)
    requires
        d < 10,
    ensures
        text@ == seq![digit_char(d as nat)],
{
    proof {
        reveal_strlit("0");
        reveal_strlit("1");
        reveal_strlit("2");
        reveal_strlit("3");
        reveal_strlit("4");
        reveal_strlit("5");
        reveal_strlit("6");
        reveal_strlit("7");
        reveal_strlit("8");
        reveal_strlit("9");
    }
    let text = match d {
        0 => "0",
        1 => "1",
        2 => "2",
        3 => "3",
        4 => "4",
        5 => "5",
        6 => "6",
        7 => "7",
        8 => "8",
        _ => "9",
    };
    assert(text@ =~= seq![digit_char(d as nat)]);
    text
}

/// Writes a number in decimal notation.
pub fn decimal_string(n: usize) -> (text: String)
    ensures
        text@ == decimal_text(n as nat),
{
    let digits = index_digits(n);
    let mut text = String::new();
    let mut i: usize = 0;
    while i < digits.len()
        invariant
            i <= digits@.len(),
            digits@.len() == decimal_digits(n as nat).len(),
            forall|k: int|
                0 <= k < digits@.len() ==> #[trigger] digits@[k] == decimal_digits(n as nat)[k],
            forall|k: int| 0 <= k < digits@.len() ==> #[trigger] digits@[k] < 10,
            text@ == Seq::new(i as nat, |k: int| digit_char(decimal_digits(n as nat)[k])),
        decreases digits@.len() - i,
    {
        text.append(digit_text(digits[i]));
        i = i + 1;
        assert(text@ =~= Seq::new(i as nat, |k: int| digit_char(decimal_digits(n as nat)[k])));
    }
    assert(text@ =~= decimal_text(n as nat));
    text
}

/// Takes a served number as an index, or keeps the index that was there
/// where the number is negative.
pub fn index_or(value: i32, kept: usize) -> (index: usize)
    ensures
        index == served_index(value, kept),
{
    if value >= 0 {
        value as usize
    } else {
        kept
    }
}

impl View for AppState {
    type V = AppStateView;

    open spec fn view(&self) -> AppStateView {
        AppStateView {
            primary_server_address: self.primary_server_address@,
            session_server_address: self.session_server_address@,
            otp: self.otp@,
            agent_name: self.agent_name@,
            session_id: self.session_id@,
            token: self.token@,
            connected: self.connected,
            status_message: self.status_message@,
            slide_name: self.slide_name@,
            current_slide_index: self.current_slide_index,
            total_slide_count: self.total_slide_count,
            current_step: self.current_step,
            pages: self.pages.deep_view(),
            logs: texts(self.logs@),
            queue: self.queue_spec(),
            has_handle: self.has_handle(),
        }
    }
}

impl AppState {
    /// The events that wait for the consumer, oldest first.
    pub open spec fn queue_spec(&self) -> Option<Seq<Event>> {
        match self.queue {
            Some(events) => Some(events@),
            None => None,
        }
    }

    /// Whether the store holds the handle of a live connection.
    pub open spec fn has_handle(&self) -> bool {
        self.ws_handle is Some
    }

    /// The store of an agent that has not been configured yet: every text is
    /// empty, every number zero, and there is no connection.
    pub open spec fn initial() -> AppStateView {
        AppStateView {
            primary_server_address: Seq::empty(),
            session_server_address: Seq::empty(),
            otp: Seq::empty(),
            agent_name: Seq::empty(),
            session_id: Seq::empty(),
            token: Seq::empty(),
            connected: false,
            status_message: Seq::empty(),
            slide_name: Seq::empty(),
            current_slide_index: 0,
            total_slide_count: 0,
            current_step: 0,
            pages: Seq::empty(),
            logs: Seq::empty(),
            queue: None,
            has_handle: false,
        }
    }

    /// An empty store.
    pub fn new() -> (state: AppState)
        ensures
            state@ == AppState::initial(),
    {
        let state = AppState {
            primary_server_address: String::new(),
            session_server_address: String::new(),
            otp: String::new(),
            agent_name: String::new(),
            session_id: String::new(),
            token: String::new(),
            connected: false,
            status_message: String::new(),
            slide_name: String::new(),
            current_slide_index: 0,
            total_slide_count: 0,
            current_step: 0,
            pages: Vec::new(),
            logs: Vec::new(),
            queue: None,
            ws_handle: None,
        };
        assert(texts(state.logs@) =~= Seq::<Seq<char>>::empty());
        assert(state.pages.deep_view() =~= Seq::<SessionInfoPageView>::empty());
        state
    }

    /// The request that starts a session: the one-time code goes to the
    /// primary server.
    pub fn connect_to_session(&self) -> (request: HttpRequest)
        ensures
            request.method == HttpMethod::Post,
            request.url@ == verify_url(self@.primary_server_address),
            request.authorization is None,
            request.body matches Some(body) && body@ == verify_request_text(self@.otp),
    {
        verify_otp_request(self.primary_server_address.as_str(), self.otp.as_str())
    }

    /// Takes the outcome of the verification. An accepted code fills in the
    /// session's identity and sets the session going: the result holds the
    /// requests for the session's description and live state and the
    /// connection to open, all made from what the service returned. A
    /// failure is shown as the status, changes nothing else and sets nothing
    /// going.
    pub fn otp_verified(&mut self, outcome: Result<VerifyOtpResponse, AuthError>) -> (start:
        Option<SessionStart>)
        ensures
            start is Some <==> outcome is Ok,
            final(self)@ == session_begun(old(self)@, outcome_view(outcome)),
            start matches Some(s) ==> {
                &&& s.info_request.method == HttpMethod::Get
                &&& s.info_request.url@ == session_info_url(
                    final(self)@.session_server_address,
                    final(self)@.session_id,
                )
                &&& s.info_request.authorization matches Some(header) && header@ == bearer(
                    final(self)@.token,
                )
                &&& s.info_request.body is None
                &&& s.state_request.method == HttpMethod::Get
                &&& s.state_request.url@ == session_state_url(
                    final(self)@.session_server_address,
                    final(self)@.session_id,
                )
                &&& s.state_request.authorization matches Some(header) && header@ == bearer(
                    final(self)@.token,
                )
                &&& s.state_request.body is None
                &&& s.connection.state_spec() is Connecting
                &&& s.connection.agent_name_spec() == final(self)@.agent_name
                &&& s.connection.token_spec() == final(self)@.token
                &&& s.url@ == ws_address(
                    final(self)@.session_server_address,
                    final(self)@.session_id,
                )
            },
    {
        match outcome {
            Ok(response) => {
                self.session_id = response.session_id;
                self.token = response.token;
                self.session_server_address = response.aggregator_url;
                self.status_message = String::from_str("OTP verified successfully.");
                let info_request = self.fetch_session_info();
                let state_request = self.fetch_session_state();
                let (connection, url) = self.establish_ws_connection();
                Some(SessionStart { info_request, state_request, connection, url })
            },
            Err(e) => {
                let mut status = String::from_str("OTP Verification Failed: ");
                status.append(e.message().as_str());
                self.status_message = status;
                None
            },
        }
    }

    /// The request for the session's description.
    pub fn fetch_session_info(&self) -> (request: HttpRequest)
        ensures
            request.method == HttpMethod::Get,
            request.url@ == session_info_url(self@.session_server_address, self@.session_id),
            request.authorization matches Some(header) && header@ == bearer(self@.token),
            request.body is None,
    {
        session_info_request(
            self.session_server_address.as_str(),
            self.session_id.as_str(),
            self.token.as_str(),
        )
    }

    /// Takes the outcome of the request for the session's description. A
    /// description gives the store its title, its pages and their number; a
    /// failure is shown as the status and changes nothing else.
    pub fn session_info_fetched(&mut self, outcome: Result<SessionInfo, FetchError>)
        ensures
            final(self)@ == info_applied(old(self)@, outcome_view(outcome)),
    {
        match outcome {
            Ok(info) => {
                assert(info.pages.deep_view().len() == info.pages@.len());
                self.slide_name = info.title;
                self.total_slide_count = info.pages.len();
                self.pages = info.pages;
            },
            Err(e) => {
                let mut status = String::from_str("Failed to fetch session info: ");
                status.append(e.message().as_str());
                self.status_message = status;
            },
        }
    }

    /// The request for the session's live state.
    pub fn fetch_session_state(&self) -> (request: HttpRequest)
        ensures
            request.method == HttpMethod::Get,
            request.url@ == session_state_url(self@.session_server_address, self@.session_id),
            request.authorization matches Some(header) && header@ == bearer(self@.token),
            request.body is None,
    {
        session_state_request(
            self.session_server_address.as_str(),
            self.session_id.as_str(),
            self.token.as_str(),
        )
    }

    /// Takes the outcome of the request for the session's live state. A
    /// state gives the store its current page and step; a failure is shown
    /// as the status and changes nothing else.
    pub fn session_state_fetched(&mut self, outcome: Result<SessionState, FetchError>)
        ensures
            final(self)@ == state_applied(old(self)@, outcome_view(outcome)),
    {
        match outcome {
            Ok(state) => {
                self.current_slide_index = index_or(state.current_page, self.current_slide_index);
                self.current_step = index_or(state.current_step, self.current_step);
            },
            Err(e) => {
                let mut status = String::from_str("Failed to fetch session state: ");
                status.append(e.message().as_str());
                self.status_message = status;
            },
        }
    }

    /// Prepares the bidirectional connection of the session: opens an empty
    /// event queue, and returns the connection, not yet connected, with the
    /// address to connect to.
    pub fn establish_ws_connection(&mut self) -> (start: (Connection, String))
        ensures
            final(self)@ == queue_opened(old(self)@),
            start.0.state_spec() is Connecting,
            start.0.agent_name_spec() == old(self)@.agent_name,
            start.0.token_spec() == old(self)@.token,
            start.1@ == ws_address(old(self)@.session_server_address, old(self)@.session_id),
    {
        self.queue = Some(Vec::new());
        run_websocket(
            self.session_server_address.as_str(),
            self.session_id.as_str(),
            self.token.as_str(),
            self.agent_name.as_str(),
        )
    }

    /// Takes the outcome of the handshake. The handle of a connection that
    /// came about is kept and the store is connected; a failure is shown as
    /// the status. The handle of an earlier connection, if the store still
    /// held one, is used up: the result is the request that shuts that
    /// connection down.
    pub fn ws_connection_started(&mut self, outcome: Result<WsHandle, ConnectError>) -> (earlier:
        Option<ConnInput>)
        ensures
            outcome is Ok ==> final(self)@ == (AppStateView {
                connected: true,
                has_handle: true,
                status_message: "WebSocket connection established."@,
                ..old(self)@
            }),
            outcome matches Err(e) ==> final(self)@ == (AppStateView {
                connected: false,
                status_message: "WebSocket error: "@ + e.message_spec(),
                ..old(self)@
            }),
            earlier is Some <==> outcome is Ok && old(self)@.has_handle,
            earlier matches Some(request) ==> request is ShutdownRequested,
    {
        match outcome {
            Ok(handle) => {
                let previous = self.ws_handle.take();
                self.ws_handle = Some(handle);
                self.connected = true;
                self.status_message = String::from_str("WebSocket connection established.");
                match previous {
                    Some(old_handle) => Some(old_handle.shutdown()),
                    None => None,
                }
            },
            Err(e) => {
                let mut status = String::from_str("WebSocket error: ");
                status.append(e.message().as_str());
                self.connected = false;
                self.status_message = status;
                None
            },
        }
    }

    /// Ends the session on the consumer's side: the credentials are cleared,
    /// what was retrieved of the session is discarded, the log is cleared
    /// and the queue is gone. The handle, if the store holds one, is used
    /// up: the result is the request that shuts the connection down.
    pub fn disconnect(&mut self) -> (request: Option<ConnInput>)
        ensures
            final(self)@ == disconnected(old(self)@),
            request is Some <==> old(self)@.has_handle,
            request matches Some(r) ==> r is ShutdownRequested,
    {
        let handle = self.ws_handle.take();
        self.session_id = String::new();
        self.token = String::new();
        self.session_server_address = String::new();
        self.connected = false;
        self.status_message = String::from_str("Disconnected");
        self.slide_name = String::new();
        self.current_slide_index = 0;
        self.total_slide_count = 0;
        self.current_step = 0;
        self.pages = Vec::new();
        self.logs.clear();
        self.queue = None;
        assert(texts(self.logs@) =~= Seq::<Seq<char>>::empty());
        assert(self.pages.deep_view() =~= Seq::<SessionInfoPageView>::empty());
        match handle {
            Some(h) => Some(h.shutdown()),
            None => None,
        }
    }

    /// Appends an event to the queue. Without a queue the event is lost; the
    /// result says whether it was taken.
    pub fn enqueue(&mut self, event: Event) -> (taken: bool)
        ensures
            final(self)@ == after_enqueue(old(self)@, event),
            taken == (old(self)@.queue is Some),
    {
        match &mut self.queue {
            Some(events) => {
                events.push(event);
                true
            },
            None => false,
        }
    }

    /// Takes every waiting event out of the queue, oldest first, without
    /// waiting for more.
    pub fn drain_events(&mut self) -> (events: Vec<Event>)
        ensures
            events@ == drained(old(self)@),
            final(self)@ == after_drain(old(self)@),
    {
        match self.queue.take() {
            Some(events) => {
                self.queue = Some(Vec::new());
                events
            },
            None => Vec::new(),
        }
    }

    /// Applies one event to what the store shows.
    pub fn apply_event(&mut self, event: Event)
        ensures
            final(self)@ == applied(old(self)@, event),
    {
        match event {
            Event::ConnectionEstablished => {
                self.connected = true;
                self.status_message = String::from_str("WebSocket connected");
            },
            Event::ConnectionClosed => {
                self.connected = false;
                self.status_message = String::from_str("WebSocket disconnected");
                self.ws_handle = None;
            },
            Event::SlideChanged { new_page_index } => {
                self.current_slide_index = new_page_index;
                let mut line = String::from_str("ページを");
                line.append(decimal_string(new_page_index).as_str());
                line.append("に変更しました");
                let ghost before = self.logs@;
                self.logs.push(line);
                assert(texts(self.logs@) =~= texts(before).push(slide_log(new_page_index)));
            },
            Event::StepChanged { new_page_index, new_step_index } => {
                self.current_slide_index = new_page_index;
                self.current_step = new_step_index;
            },
            Event::KeyPressed { key } => {},
        }
    }

    /// One tick of the consumer: drains the queue and applies each event, in
    /// order. The result is the number of events applied.
    pub fn poll(&mut self) -> (count: usize)
        ensures
            final(self)@ == applied_all(after_drain(old(self)@), drained(old(self)@)),
            final(self)@.queue == after_drain(old(self)@).queue,
            count == drained(old(self)@).len(),
    {
        proof {
            lemma_applying_keeps_queue(after_drain(old(self)@), drained(old(self)@));
        }
        let events = self.drain_events();
        let ghost start = self@;
        let mut i: usize = 0;
        while i < events.len()
            invariant
                i <= events@.len(),
                self@ == applied_all(start, events@.take(i as int)),
            decreases events@.len() - i,
        {
            proof {
                assert(events@.take(i + 1).drop_last() =~= events@.take(i as int));
                assert(events@.take(i + 1).last() == events@[i as int]);
            }
            self.apply_event(events[i]);
            i = i + 1;
        }
        proof {
            assert(events@.take(i as int) =~= events@);
        }
        i
    }
}

impl Default for AppState {
    fn default() -> (state: AppState)
        ensures
            state@ == AppState::initial(),
    {
        AppState::new()
    }
}

/// After a verification that succeeded and a description and a live state
/// that were retrieved, in either order, the store holds exactly what the
/// service returned: the session's identity, the title, the pages and their
/// number, the current page and the current step. Its queue is open and
/// empty, and what the consumer configured is as it was.
pub proof fn lemma_store_holds_what_was_served(
    start: AppStateView,
    response: VerifyOtpResponseView,
    info: SessionInfoView,
    live: SessionStateView,
)
    requires
        live.current_page >= 0,
        live.current_step >= 0,
    ensures
        state_applied(info_applied(session_begun(start, Ok(response)), Ok(info)), Ok(live))
            == info_applied(state_applied(session_begun(start, Ok(response)), Ok(live)), Ok(info)),
        state_applied(info_applied(session_begun(start, Ok(response)), Ok(info)), Ok(live)) == (
        AppStateView {
            session_id: response.session_id,
            token: response.token,
            session_server_address: response.aggregator_url,
            status_message: "OTP verified successfully."@,
            slide_name: info.title,
            total_slide_count: info.pages.len() as usize,
            pages: info.pages,
            current_slide_index: live.current_page as usize,
            current_step: live.current_step as usize,
            queue: Some(Seq::empty()),
            ..start
        }),
{
}

/// Whether an answer is a response with a success status whose body denotes
/// a record of the kind asked for.
pub open spec fn serves<T: FromJson>(reply: HttpReply) -> bool {
    reply matches HttpReply::Response { status, body } && is_success(status) && body_record::<T>(
        body@,
    ) is Some
}

/// The record that an answer serves.
pub open spec fn served<T: FromJson>(reply: HttpReply) -> <T as DeepView>::V
    recommends
        serves::<T>(reply),
{
    body_record::<T>(reply->Response_body@).unwrap()
}

/// Whenever the service answers the verification, the request for the
/// description and the request for the live state each with a success status
/// and a body of the right shape, the store ends up holding exactly the
/// fields that those bodies denote.
pub proof fn lemma_served_session_is_stored(
    start: AppStateView,
    verification: HttpReply,
    description: HttpReply,
    progress: HttpReply,
)
    requires
        serves::<VerifyOtpResponse>(verification),
        serves::<SessionInfo>(description),
        serves::<SessionState>(progress),
    ensures
        state_applied(
            info_applied(
                session_begun(start, verify_outcome(verification)),
                fetch_outcome::<SessionInfo>(description, Resource::SessionInfo),
            ),
            fetch_outcome::<SessionState>(progress, Resource::SessionState),
        ) == (AppStateView {
            session_id: served::<VerifyOtpResponse>(verification).session_id,
            token: served::<VerifyOtpResponse>(verification).token,
            session_server_address: served::<VerifyOtpResponse>(verification).aggregator_url,
            status_message: "OTP verified successfully."@,
            slide_name: served::<SessionInfo>(description).title,
            total_slide_count: served::<SessionInfo>(description).pages.len() as usize,
            pages: served::<SessionInfo>(description).pages,
            current_slide_index: served::<SessionState>(progress).current_page as usize,
            current_step: served::<SessionState>(progress).current_step as usize,
            queue: Some(Seq::empty()),
            ..start
        }),
{
    lemma_decoded_state_has_indices(json_document(progress->Response_body@).unwrap());
    lemma_store_holds_what_was_served(
        start,
        served::<VerifyOtpResponse>(verification),
        served::<SessionInfo>(description),
        served::<SessionState>(progress),
    );
}

/// A live state whose page is negative leaves the store's page as it was,
/// and one whose step is negative leaves the step as it was: no index of
/// the store ever comes from a negative number.
pub proof fn lemma_negative_number_changes_no_index(state: AppStateView, live: SessionStateView)
    ensures
        live.current_page < 0 ==> state_applied(state, Ok(live)).current_slide_index
            == state.current_slide_index,
        live.current_step < 0 ==> state_applied(state, Ok(live)).current_step
            == state.current_step,
        live.current_page >= 0 ==> state_applied(state, Ok(live)).current_slide_index
            == live.current_page,
        live.current_step >= 0 ==> state_applied(state, Ok(live)).current_step
            == live.current_step,
{
}

/// After the consumer has ended the session, the store holds no
/// credentials and nothing of the session: the three texts of its identity,
/// the title and the pages are empty, and the three numbers are zero. What
/// the consumer configured is as it was.
pub proof fn lemma_disconnect_clears_the_session(state: AppStateView)
    ensures
        disconnected(state).session_id.len() == 0,
        disconnected(state).token.len() == 0,
        disconnected(state).session_server_address.len() == 0,
        disconnected(state).slide_name.len() == 0,
        disconnected(state).pages.len() == 0,
        disconnected(state).total_slide_count == 0,
        disconnected(state).current_slide_index == 0,
        disconnected(state).current_step == 0,
        disconnected(state).queue is None,
        !disconnected(state).has_handle,
        !disconnected(state).connected,
        disconnected(state).primary_server_address == state.primary_server_address,
        disconnected(state).otp == state.otp,
        disconnected(state).agent_name == state.agent_name,
{
}

/// A call that failed changes the status of the store and nothing else: it
/// does not touch a live connection or what was retrieved before.
pub proof fn lemma_failed_call_changes_status_only(
    start: AppStateView,
    auth: AuthError,
    fetch: FetchError,
)
    ensures
        session_begun(start, Err(auth)) == (AppStateView {
            status_message: "OTP Verification Failed: "@ + auth.message_spec(),
            ..start
        }),
        info_applied(start, Err(fetch)) == (AppStateView {
            status_message: "Failed to fetch session info: "@ + fetch.message_spec(),
            ..start
        }),
        state_applied(start, Err(fetch)) == (AppStateView {
            status_message: "Failed to fetch session state: "@ + fetch.message_spec(),
            ..start
        }),
{
}

/// Applying events to what the store shows leaves its queue as it is.
pub proof fn lemma_applying_keeps_queue(state: AppStateView, events: Seq<Event>)
    ensures
        applied_all(state, events).queue == state.queue,
    decreases events.len(),
{
    if events.len() > 0 {
        lemma_applying_keeps_queue(state, events.drop_last());
    }
}

/// A second drain, with nothing enqueued since the first, hands out
/// nothing, and leaves the store as the first drain left it.
pub proof fn lemma_second_drain_is_empty(state: AppStateView)
    ensures
        drained(after_drain(state)) == Seq::<Event>::empty(),
        after_drain(after_drain(state)) == after_drain(state),
{
}

/// Events that are enqueued come out of the next drain in the order in
/// which they went in, behind those that were waiting already.
pub proof fn lemma_drain_keeps_order(state: AppStateView, events: Seq<Event>)
    requires
        state.queue is Some,
    ensures
        after_enqueue_all(state, events).queue is Some,
        drained(after_enqueue_all(state, events)) == drained(state) + events,
    decreases events.len(),
{
    if events.len() == 0 {
        assert(drained(state) + events =~= drained(state));
    } else {
        lemma_drain_keeps_order(state, events.drop_last());
        assert(drained(state) + events =~= (drained(state) + events.drop_last()).push(
            events.last(),
        ));
    }
}

/// Without a queue every event is lost.
pub proof fn lemma_events_are_lost_without_queue(state: AppStateView, events: Seq<Event>)
    requires
        state.queue is None,
    ensures
        after_enqueue_all(state, events) == state,
    decreases events.len(),
{
    if events.len() > 0 {
        lemma_events_are_lost_without_queue(state, events.drop_last());
    }
}

} // verus!
