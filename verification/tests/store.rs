use presen_agent::api::{
    get_session_info, get_session_state, verify_otp, AuthError, FetchError,
    HttpMethod, HttpReply, Resource,
};
use presen_agent::connection::{ConnInput, ConnState, ConnectError, Connection};
use presen_agent::models::events::{Event, Key};
use presen_agent::models::session::{SessionInfo, SessionInfoPage, SessionInfoState};
use presen_agent::models::state::SessionState;
use presen_agent::store::{decimal_string, index_or, AppState};

fn pages(count: usize) -> Vec<SessionInfoPage> {
    (0..count)
        .map(|i| SessionInfoPage {
            page_id: format!("page-{}", i),
            title: format!("Page {}", i),
            scripts: Vec::new(),
        })
        .collect()
}

fn info(title: &str, count: usize) -> SessionInfo {
    SessionInfo {
        session_id: "S1".to_string(),
        slide_id: "deck".to_string(),
        title: title.to_string(),
        pages: pages(count),
        available_votes: Vec::new(),
        state: SessionInfoState { current_page: 0, available_vote_id: None, votes: Vec::new() },
    }
}

fn live(page: i32, step: i32) -> SessionState {
    SessionState {
        current_page: page,
        current_step: step,
        active_vote_ids: Vec::new(),
        votes: Vec::new(),
        vote_summaries: Vec::new(),
    }
}

fn handle() -> presen_agent::connection::WsHandle {
    let mut connection = Connection::new("Desk 1", "T1");
    connection.on_input(ConnInput::Connected);
    connection.on_input(ConnInput::RegistrationSent).handle.unwrap()
}

fn ok(body: &str) -> HttpReply {
    HttpReply::Response { status: 200, body: body.to_string() }
}

fn get_verified(
    body: &str,
) -> Result<presen_agent::models::auth::VerifyOtpResponse, AuthError> {
    verify_otp(ok(body))
}

#[test]
fn a_new_store_is_empty() {
    for state in [AppState::new(), AppState::default()] {
        assert_eq!(state.primary_server_address, "");
        assert_eq!(state.session_server_address, "");
        assert_eq!(state.otp, "");
        assert_eq!(state.agent_name, "");
        assert_eq!(state.session_id, "");
        assert_eq!(state.token, "");
        assert!(!state.connected);
        assert_eq!(state.status_message, "");
        assert_eq!(state.slide_name, "");
        assert_eq!(state.current_slide_index, 0);
        assert_eq!(state.total_slide_count, 0);
        assert_eq!(state.current_step, 0);
        assert!(state.pages.is_empty());
        assert!(state.logs.is_empty());
        assert!(state.queue.is_none());
        assert!(state.ws_handle.is_none());
    }
}

#[test]
fn connecting_asks_the_primary_server() {
    let mut state = AppState::new();
    state.primary_server_address = "https://primary".to_string();
    state.otp = "123456".to_string();
    let request = state.connect_to_session();
    assert_eq!(request.method, HttpMethod::Post);
    assert_eq!(request.url, "https://primary/session/agent/verify");
    assert_eq!(request.body.as_deref(), Some(r#"{"otp":"123456"}"#));
    assert_eq!(request.authorization, None);
}

#[test]
fn a_verified_code_fills_in_the_session() {
    let mut state = AppState::new();
    state.primary_server_address = "https://primary".to_string();
    let outcome = verify_otp(ok(
        r#"{"sessionId":"S1","token":"T1","aggregatorUrl":"https://agg"}"#,
    ));
    state.agent_name = "Desk 1".to_string();
    let start = state.otp_verified(outcome).unwrap();
    assert_eq!(state.session_id, "S1");
    assert_eq!(state.token, "T1");
    assert_eq!(state.session_server_address, "https://agg");
    assert_eq!(state.status_message, "OTP verified successfully.");
    assert_eq!(state.primary_server_address, "https://primary");
    assert!(!state.connected);
    assert_eq!(state.queue, Some(Vec::new()));

    assert_eq!(start.info_request.method, HttpMethod::Get);
    assert_eq!(start.info_request.url, "https://agg/api/session/S1/agent/info");
    assert_eq!(start.info_request.authorization.as_deref(), Some("Bearer T1"));
    assert_eq!(start.state_request.method, HttpMethod::Get);
    assert_eq!(start.state_request.url, "https://agg/api/session/S1/agent/state");
    assert_eq!(start.state_request.authorization.as_deref(), Some("Bearer T1"));
    assert_eq!(start.url, "wss://agg/agent?sessionId=S1");
    let mut connection = start.connection;
    assert_eq!(connection.state(), ConnState::Connecting);
    assert_eq!(
        connection.on_input(ConnInput::Connected).send.as_deref(),
        Some(
            r#"{"requestType":"REGIST_AGENT","data":{"agentName":"Desk 1","agentType":"SHOW_SLIDE_DESKTOP","token":"T1"}}"#
        )
    );
}

#[test]
fn a_failed_verification_is_shown_and_changes_nothing_else() {
    let mut state = AppState::new();
    state.session_id = "old".to_string();
    state.connected = true;
    assert!(state.otp_verified(Err(AuthError::Rejected)).is_none());
    assert!(state.queue.is_none());
    assert_eq!(state.status_message, "OTP Verification Failed: OTP verification failed");
    assert_eq!(state.session_id, "old");
    assert!(state.connected);
    assert!(state
        .otp_verified(Err(AuthError::Transport { reason: "no route".to_string() }))
        .is_none());
    assert_eq!(state.status_message, "OTP Verification Failed: no route");
    assert!(state.otp_verified(Err(AuthError::Undecodable)).is_none());
    assert_eq!(state.status_message, "OTP Verification Failed: error decoding response body");
}

#[test]
fn the_fetches_ask_the_session_server() {
    let mut state = AppState::new();
    state.session_server_address = "https://agg".to_string();
    state.session_id = "S1".to_string();
    state.token = "T1".to_string();
    let request = state.fetch_session_info();
    assert_eq!(request.method, HttpMethod::Get);
    assert_eq!(request.url, "https://agg/api/session/S1/agent/info");
    assert_eq!(request.authorization.as_deref(), Some("Bearer T1"));
    let request = state.fetch_session_state();
    assert_eq!(request.method, HttpMethod::Get);
    assert_eq!(request.url, "https://agg/api/session/S1/agent/state");
    assert_eq!(request.authorization.as_deref(), Some("Bearer T1"));
}

#[test]
fn a_description_gives_title_and_pages() {
    let mut state = AppState::new();
    state.session_info_fetched(Ok(info("Quarterly review", 3)));
    assert_eq!(state.slide_name, "Quarterly review");
    assert_eq!(state.total_slide_count, 3);
    assert_eq!(state.pages.len(), 3);
    assert_eq!(state.pages[2].page_id, "page-2");
    assert_eq!(state.status_message, "");
}

#[test]
fn a_failed_fetch_is_shown_and_changes_nothing_else() {
    let mut state = AppState::new();
    state.session_info_fetched(Ok(info("Kept", 2)));
    state.session_state_fetched(Ok(live(1, 4)));
    state.session_info_fetched(Err(FetchError::Refused { resource: Resource::SessionInfo }));
    assert_eq!(
        state.status_message,
        "Failed to fetch session info: Failed to get session info"
    );
    state.session_state_fetched(Err(FetchError::Refused { resource: Resource::SessionState }));
    assert_eq!(
        state.status_message,
        "Failed to fetch session state: Failed to get session state"
    );
    state.session_state_fetched(Err(FetchError::Transport { reason: "reset".to_string() }));
    assert_eq!(state.status_message, "Failed to fetch session state: reset");
    assert_eq!(state.slide_name, "Kept");
    assert_eq!(state.total_slide_count, 2);
    assert_eq!(state.current_slide_index, 1);
    assert_eq!(state.current_step, 4);
}

#[test]
fn a_live_state_gives_page_and_step() {
    let mut state = AppState::new();
    state.session_state_fetched(Ok(live(7, 3)));
    assert_eq!(state.current_slide_index, 7);
    assert_eq!(state.current_step, 3);
}

#[test]
fn a_negative_number_is_no_index() {
    assert_eq!(index_or(0, 9), 0);
    assert_eq!(index_or(5, 9), 5);
    assert_eq!(index_or(i32::MAX, 9), 2147483647);
    assert_eq!(index_or(-1, 9), 9);
    assert_eq!(index_or(i32::MIN, 0), 0);
}

#[test]
fn a_negative_page_leaves_the_page_as_it_was() {
    let mut state = AppState::new();
    state.session_state_fetched(Ok(live(7, 3)));
    state.session_state_fetched(Ok(live(-1, 4)));
    assert_eq!(state.current_slide_index, 7);
    assert_eq!(state.current_step, 4);
    state.session_state_fetched(Ok(live(2, -5)));
    assert_eq!(state.current_slide_index, 2);
    assert_eq!(state.current_step, 4);
    state.session_state_fetched(Ok(live(i32::MIN, i32::MIN)));
    assert_eq!(state.current_slide_index, 2);
    assert_eq!(state.current_step, 4);
    assert_eq!(state.status_message, "");
}

#[test]
fn a_served_negative_page_is_a_failed_fetch() {
    let mut state = AppState::new();
    state.session_state_fetched(Ok(live(7, 3)));
    let outcome = get_session_state(ok(
        r#"{"currentPage":-1,"currentStep":2,"activeVoteIds":[],"votes":[],"vote_summaries":[]}"#,
    ));
    assert!(matches!(outcome, Err(FetchError::Undecodable)));
    state.session_state_fetched(outcome);
    assert_eq!(state.current_slide_index, 7);
    assert_eq!(state.current_step, 3);
    assert_eq!(
        state.status_message,
        "Failed to fetch session state: error decoding response body"
    );
}

#[test]
fn the_store_holds_what_the_service_returned() {
    let mut state = AppState::new();
    state.primary_server_address = "https://primary".to_string();
    state.otp = "123456".to_string();
    state.agent_name = "Desk 1".to_string();
    assert!(state
        .otp_verified(verify_otp(ok(
            r#"{"sessionId":"S9","token":"tok","aggregatorUrl":"https://agg9"}"#
        )))
        .is_some());
    state.session_state_fetched(get_session_state(ok(
        r#"{"currentPage":4,"currentStep":2,"activeVoteIds":[],"votes":[],"vote_summaries":[]}"#,
    )));
    state.session_info_fetched(get_session_info(ok(
        r#"{"sessionId":"S9","slideId":"d","title":"Deck","pages":[{"pageId":"a","title":"A","scripts":[]},{"pageId":"b","title":"B","scripts":[{"content":"x"}]}],"availableVotes":[],"state":{"currentPage":0,"votes":[]}}"#,
    )));
    assert_eq!(state.session_id, "S9");
    assert_eq!(state.token, "tok");
    assert_eq!(state.session_server_address, "https://agg9");
    assert_eq!(state.slide_name, "Deck");
    assert_eq!(state.total_slide_count, 2);
    assert_eq!(state.pages[1].scripts[0].content, "x");
    assert_eq!(state.current_slide_index, 4);
    assert_eq!(state.current_step, 2);
    assert_eq!(state.primary_server_address, "https://primary");
    assert_eq!(state.otp, "123456");
    assert_eq!(state.agent_name, "Desk 1");
}

#[test]
fn establishing_opens_the_queue_and_names_the_address() {
    let mut state = AppState::new();
    state.session_server_address = "https://agg".to_string();
    state.session_id = "S1".to_string();
    state.token = "T1".to_string();
    state.agent_name = "Desk 1".to_string();
    let (mut connection, url) = state.establish_ws_connection();
    assert_eq!(url, "wss://agg/agent?sessionId=S1");
    assert_eq!(connection.state(), ConnState::Connecting);
    assert_eq!(state.queue, Some(Vec::new()));
    let step = connection.on_input(ConnInput::Connected);
    assert_eq!(
        step.send.as_deref(),
        Some(
            r#"{"requestType":"REGIST_AGENT","data":{"agentName":"Desk 1","agentType":"SHOW_SLIDE_DESKTOP","token":"T1"}}"#
        )
    );
}

#[test]
fn a_started_connection_is_kept() {
    let mut state = AppState::new();
    let earlier = state.ws_connection_started(Ok(handle()));
    assert!(earlier.is_none());
    assert!(state.connected);
    assert!(state.ws_handle.is_some());
    assert_eq!(state.status_message, "WebSocket connection established.");
}

#[test]
fn a_second_connection_shuts_the_first_down() {
    let mut state = AppState::new();
    state.ws_connection_started(Ok(handle()));
    let earlier = state.ws_connection_started(Ok(handle()));
    assert!(matches!(earlier, Some(ConnInput::ShutdownRequested)));
    assert!(state.ws_handle.is_some());
    assert!(state.connected);
}

#[test]
fn a_failed_handshake_is_shown() {
    let mut state = AppState::new();
    state.connected = true;
    let refused = ConnectError::ConnectFailed { reason: "connection refused".to_string() };
    assert_eq!(refused.message(), "connection refused");
    let earlier = state.ws_connection_started(Err(refused));
    assert!(earlier.is_none());
    assert!(!state.connected);
    assert_eq!(state.status_message, "WebSocket error: connection refused");
    let unsent = ConnectError::RegistrationFailed { reason: "broken pipe".to_string() };
    assert_eq!(unsent.message(), "broken pipe");
    state.ws_connection_started(Err(unsent));
    assert_eq!(state.status_message, "WebSocket error: broken pipe");
}

#[test]
fn disconnecting_uses_the_handle_up() {
    let mut state = AppState::new();
    state.establish_ws_connection();
    state.ws_connection_started(Ok(handle()));
    state.enqueue(Event::SlideChanged { new_page_index: 1 });
    state.poll();
    assert_eq!(state.logs.len(), 1);
    state.enqueue(Event::SlideChanged { new_page_index: 2 });

    let request = state.disconnect();
    assert!(matches!(request, Some(ConnInput::ShutdownRequested)));
    assert!(!state.connected);
    assert_eq!(state.status_message, "Disconnected");
    assert!(state.logs.is_empty());
    assert!(state.queue.is_none());
    assert!(state.ws_handle.is_none());

    // There is no handle left to use a second time.
    assert!(state.disconnect().is_none());
}

#[test]
fn disconnecting_clears_the_session() {
    let mut state = AppState::new();
    state.primary_server_address = "https://primary".to_string();
    state.otp = "123456".to_string();
    state.agent_name = "Desk 1".to_string();
    state
        .otp_verified(get_verified(r#"{"sessionId":"S1","token":"T1","aggregatorUrl":"https://agg"}"#))
        .unwrap();
    state.session_info_fetched(Ok(info("Deck", 3)));
    state.session_state_fetched(Ok(live(2, 1)));
    assert_eq!(state.session_id, "S1");
    assert_eq!(state.token, "T1");
    assert_eq!(state.pages.len(), 3);
    assert_eq!(state.total_slide_count, 3);

    state.disconnect();
    assert_eq!(state.session_id, "");
    assert_eq!(state.token, "");
    assert_eq!(state.session_server_address, "");
    assert_eq!(state.slide_name, "");
    assert!(state.pages.is_empty());
    assert_eq!(state.total_slide_count, 0);
    assert_eq!(state.current_slide_index, 0);
    assert_eq!(state.current_step, 0);
    assert!(!state.connected);
    assert!(state.queue.is_none());
    assert_eq!(state.status_message, "Disconnected");
    // What the consumer configured stays.
    assert_eq!(state.primary_server_address, "https://primary");
    assert_eq!(state.otp, "123456");
    assert_eq!(state.agent_name, "Desk 1");
}

#[test]
fn events_are_drained_in_the_order_in_which_they_came() {
    let mut state = AppState::new();
    state.establish_ws_connection();
    let events = vec![
        Event::ConnectionEstablished,
        Event::SlideChanged { new_page_index: 3 },
        Event::StepChanged { new_page_index: 3, new_step_index: 1 },
        Event::KeyPressed { key: Key::RightArrow },
        Event::SlideChanged { new_page_index: 4 },
        Event::ConnectionClosed,
    ];
    for event in &events {
        assert!(state.enqueue(*event));
    }
    assert_eq!(state.drain_events(), events);
}

#[test]
fn a_second_drain_is_empty() {
    let mut state = AppState::new();
    state.establish_ws_connection();
    state.enqueue(Event::SlideChanged { new_page_index: 3 });
    state.enqueue(Event::SlideChanged { new_page_index: 4 });
    assert_eq!(state.drain_events().len(), 2);
    assert_eq!(state.drain_events(), Vec::new());
    assert_eq!(state.drain_events(), Vec::new());
    assert_eq!(state.queue, Some(Vec::new()));
    state.enqueue(Event::ConnectionClosed);
    assert_eq!(state.drain_events(), vec![Event::ConnectionClosed]);
    assert_eq!(state.drain_events(), Vec::new());
}

#[test]
fn without_a_queue_events_are_lost() {
    let mut state = AppState::new();
    assert!(!state.enqueue(Event::SlideChanged { new_page_index: 3 }));
    assert!(state.queue.is_none());
    assert_eq!(state.drain_events(), Vec::new());
    assert!(state.queue.is_none());
    assert_eq!(state.poll(), 0);
}

#[test]
fn events_are_applied_as_they_are_polled() {
    let mut state = AppState::new();
    state.establish_ws_connection();
    state.enqueue(Event::ConnectionEstablished);
    assert_eq!(state.poll(), 1);
    assert!(state.connected);
    assert_eq!(state.status_message, "WebSocket connected");

    state.enqueue(Event::SlideChanged { new_page_index: 12 });
    state.enqueue(Event::StepChanged { new_page_index: 13, new_step_index: 2 });
    state.enqueue(Event::KeyPressed { key: Key::Return });
    assert_eq!(state.poll(), 3);
    assert_eq!(state.current_slide_index, 13);
    assert_eq!(state.current_step, 2);
    assert_eq!(state.logs, vec!["ページを12に変更しました".to_string()]);
    assert_eq!(state.poll(), 0);

    state.ws_connection_started(Ok(handle()));
    state.enqueue(Event::ConnectionClosed);
    assert_eq!(state.poll(), 1);
    assert!(!state.connected);
    assert!(state.ws_handle.is_none());
    assert_eq!(state.status_message, "WebSocket disconnected");
    assert_eq!(state.queue, Some(Vec::new()));
}

#[test]
fn numbers_are_written_in_decimal() {
    for n in [0usize, 1, 9, 10, 11, 99, 100, 101, 909, 1000, 65535, 4_294_967_295] {
        assert_eq!(decimal_string(n), n.to_string());
    }
    assert_eq!(decimal_string(usize::MAX), usize::MAX.to_string());
}

#[test]
fn scenario_verify_fetch_then_page_change() {
    let mut state = AppState::new();
    state.primary_server_address = "https://primary".to_string();
    state.otp = "123456".to_string();
    state.agent_name = "Desk 1".to_string();

    let request = state.connect_to_session();
    assert_eq!(request.body.as_deref(), Some(r#"{"otp":"123456"}"#));
    let verified = verify_otp(ok(
        r#"{"sessionId":"S1","token":"T1","aggregatorUrl":"https://agg"}"#,
    ));
    let start = state.otp_verified(verified).unwrap();
    assert_eq!(state.session_id, "S1");
    assert_eq!(state.token, "T1");
    assert_eq!(state.session_server_address, "https://agg");

    assert_eq!(start.info_request.url, "https://agg/api/session/S1/agent/info");
    state.session_info_fetched(Ok(info("Deck", 3)));
    assert_eq!(state.total_slide_count, 3);

    let mut connection = start.connection;
    assert_eq!(start.url, "wss://agg/agent?sessionId=S1");
    for event in connection.on_input(ConnInput::Connected).events {
        state.enqueue(event);
    }
    let registered = connection.on_input(ConnInput::RegistrationSent);
    state.ws_connection_started(Ok(registered.handle.unwrap()));
    state.poll();

    let step = connection.on_input(ConnInput::Frame(
        r#"{"requestType":"CHANGE_CURRENT_PAGE","data":{"newPageIndex":2}}"#.to_string(),
    ));
    assert_eq!(step.keys, vec![Key::Digit(2), Key::Return]);
    for event in step.events {
        state.enqueue(event);
    }
    assert_eq!(state.queue, Some(vec![Event::SlideChanged { new_page_index: 2 }]));
    assert_eq!(state.poll(), 1);
    assert_eq!(state.current_slide_index, 2);
    assert_eq!(state.total_slide_count, 3);
    assert!(state.connected);
}
