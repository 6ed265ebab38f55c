use presen_agent::api::{
    decode_body, fetch_response, session_info_request, get_session_info,
    session_state_request, get_session_state, status_is_success, verify_otp_request,
    verify_otp, AuthError, FetchError, HttpMethod, HttpReply, Resource,
};
use presen_agent::json::Json;
use presen_agent::models::auth::VerifyOtpResponse;
use presen_agent::responses::{counts_from_json, names_are_distinct};
use presen_agent::models::session::SessionInfo;
use presen_agent::models::state::SessionState;

const INFO_BODY: &str = r#"{
  "sessionId": "S1",
  "slideId": "deck-9",
  "title": "Quarterly review",
  "pages": [
    {"pageId": "welcome", "title": "Welcome", "scripts": [{"content": "Hello"}, {"content": "Agenda"}]},
    {"pageId": "numbers", "title": "Numbers", "scripts": []},
    {"pageId": "questions", "title": "Questions", "scripts": [{"content": "Thanks"}]}
  ],
  "availableVotes": [
    {"voteId": "v1", "title": "Lunch", "description": null,
     "choices": [
       {"choiceId": "c1", "title": "Pizza", "description": "hot", "color": "red"},
       {"choiceId": "c2", "title": "Salad"}
     ]}
  ],
  "state": {"currentPage": 1, "currentVoteId": "v1",
            "votes": [{"voteId": "v1", "choiceId": "c1", "voterId": "u7"}]}
}"#;

const STATE_BODY: &str = r#"{
  "currentPage": 2,
  "currentStep": 5,
  "activeVoteIds": ["v1", "v2"],
  "votes": [{"voteId": "v1", "choiceId": "c2", "voterId": "u1"}],
  "vote_summaries": [{"voteId": "v1", "choice_votes": {"c2": 1, "c1": 0}}]
}"#;

fn ok(body: &str) -> HttpReply {
    HttpReply::Response { status: 200, body: body.to_string() }
}

#[test]
fn success_is_the_two_hundreds() {
    for status in [200u16, 201, 204, 299] {
        assert!(status_is_success(status), "{}", status);
    }
    for status in [0u16, 100, 199, 300, 301, 401, 404, 500, u16::MAX] {
        assert!(!status_is_success(status), "{}", status);
    }
}

#[test]
fn the_verification_request_posts_the_code() {
    let request = verify_otp_request("https://primary", "123456");
    assert_eq!(request.method, HttpMethod::Post);
    assert_eq!(request.url, "https://primary/session/agent/verify");
    assert_eq!(request.authorization, None);
    assert_eq!(request.body.as_deref(), Some(r#"{"otp":"123456"}"#));
}

#[test]
fn the_info_request_is_bearer_authenticated() {
    let request = session_info_request("https://agg", "S1", "T1");
    assert_eq!(request.method, HttpMethod::Get);
    assert_eq!(request.url, "https://agg/api/session/S1/agent/info");
    assert_eq!(request.authorization.as_deref(), Some("Bearer T1"));
    assert_eq!(request.body, None);
}

#[test]
fn the_state_request_is_bearer_authenticated() {
    let request = session_state_request("https://agg", "S1", "T1");
    assert_eq!(request.method, HttpMethod::Get);
    assert_eq!(request.url, "https://agg/api/session/S1/agent/state");
    assert_eq!(request.authorization.as_deref(), Some("Bearer T1"));
    assert_eq!(request.body, None);
}

#[test]
fn an_accepted_code_gives_the_session() {
    let reply = ok(r#"{"sessionId":"S1","token":"T1","aggregatorUrl":"https://agg"}"#);
    let response = verify_otp(reply).unwrap();
    assert_eq!(response.session_id, "S1");
    assert_eq!(response.token, "T1");
    assert_eq!(response.aggregator_url, "https://agg");
}

#[test]
fn a_rejected_code_is_an_auth_error() {
    let reply = HttpReply::Response {
        status: 401,
        body: r#"{"sessionId":"S1","token":"T1","aggregatorUrl":"https://agg"}"#.to_string(),
    };
    let error = verify_otp(reply).unwrap_err();
    assert!(matches!(error, AuthError::Rejected));
    assert_eq!(error.message(), "OTP verification failed");
}

#[test]
fn a_failed_transport_is_an_auth_error() {
    let reply = HttpReply::Failed { reason: "connection refused".to_string() };
    let error = verify_otp(reply).unwrap_err();
    assert!(matches!(&error, AuthError::Transport { reason } if reason == "connection refused"));
    assert_eq!(error.message(), "connection refused");
}

#[test]
fn an_undecodable_verification_is_an_auth_error() {
    for body in [
        "",
        "<html>",
        "[]",
        r#"{"sessionId":"S1","token":"T1"}"#,
        r#"{"sessionId":"S1","token":7,"aggregatorUrl":"https://agg"}"#,
        r#"{"sessionId":null,"token":"T1","aggregatorUrl":"https://agg"}"#,
    ] {
        let error = verify_otp(ok(body)).unwrap_err();
        assert!(matches!(error, AuthError::Undecodable), "{}", body);
        assert_eq!(error.message(), "error decoding response body");
    }
}

#[test]
fn a_description_is_decoded_in_full() {
    let info = get_session_info(ok(INFO_BODY)).unwrap();
    assert_eq!(info.session_id, "S1");
    assert_eq!(info.slide_id, "deck-9");
    assert_eq!(info.title, "Quarterly review");
    assert_eq!(info.pages.len(), 3);
    assert_eq!(info.pages[0].page_id, "welcome");
    assert_eq!(info.pages[0].title, "Welcome");
    assert_eq!(info.pages[0].scripts.len(), 2);
    assert_eq!(info.pages[0].scripts[0].content, "Hello");
    assert_eq!(info.pages[0].scripts[1].content, "Agenda");
    assert_eq!(info.pages[1].page_id, "numbers");
    assert!(info.pages[1].scripts.is_empty());
    assert_eq!(info.pages[2].title, "Questions");
    assert_eq!(info.available_votes.len(), 1);
    let vote = &info.available_votes[0];
    assert_eq!(vote.vote_id, "v1");
    assert_eq!(vote.title, "Lunch");
    assert_eq!(vote.description, None);
    assert_eq!(vote.choices.len(), 2);
    assert_eq!(vote.choices[0].choice_id, "c1");
    assert_eq!(vote.choices[0].title, "Pizza");
    assert_eq!(vote.choices[0].description.as_deref(), Some("hot"));
    assert_eq!(vote.choices[0].color.as_deref(), Some("red"));
    assert_eq!(vote.choices[1].choice_id, "c2");
    assert_eq!(vote.choices[1].description, None);
    assert_eq!(vote.choices[1].color, None);
    assert_eq!(info.state.current_page, 1);
    assert_eq!(info.state.available_vote_id.as_deref(), Some("v1"));
    assert_eq!(info.state.votes.len(), 1);
    assert_eq!(info.state.votes[0].vote_id, "v1");
    assert_eq!(info.state.votes[0].choice_id, "c1");
    assert_eq!(info.state.votes[0].voter_id, "u7");
}

#[test]
fn a_live_state_is_decoded_in_full() {
    let state = get_session_state(ok(STATE_BODY)).unwrap();
    assert_eq!(state.current_page, 2);
    assert_eq!(state.current_step, 5);
    assert_eq!(state.active_vote_ids, vec!["v1".to_string(), "v2".to_string()]);
    assert_eq!(state.votes.len(), 1);
    assert_eq!(state.votes[0].vote_id, "v1");
    assert_eq!(state.votes[0].choice_id, "c2");
    assert_eq!(state.votes[0].voter_id, "u1");
    assert_eq!(state.vote_summaries.len(), 1);
    let summary = &state.vote_summaries[0];
    assert_eq!(summary.vote_id, "v1");
    // One count for each choice, in the order of the choices' identifiers.
    assert_eq!(summary.choice_votes.len(), 2);
    assert_eq!(summary.choice_votes[0].choice_id, "c1");
    assert_eq!(summary.choice_votes[0].votes, 0);
    assert_eq!(summary.choice_votes[1].choice_id, "c2");
    assert_eq!(summary.choice_votes[1].votes, 1);
}

#[test]
fn a_refused_fetch_names_its_resource() {
    let refused = |status: u16| HttpReply::Response { status, body: INFO_BODY.to_string() };
    let error = get_session_info(refused(403)).unwrap_err();
    assert!(matches!(error, FetchError::Refused { resource: Resource::SessionInfo }));
    assert_eq!(error.message(), "Failed to get session info");
    let error = get_session_state(refused(500)).unwrap_err();
    assert!(matches!(error, FetchError::Refused { resource: Resource::SessionState }));
    assert_eq!(error.message(), "Failed to get session state");
}

#[test]
fn a_failed_fetch_keeps_the_reason() {
    let error = get_session_info(HttpReply::Failed { reason: "timed out".to_string() })
        .unwrap_err();
    assert!(matches!(&error, FetchError::Transport { reason } if reason == "timed out"));
    assert_eq!(error.message(), "timed out");
}

#[test]
fn an_undecodable_fetch_is_a_fetch_error() {
    let error = get_session_info(ok(STATE_BODY)).unwrap_err();
    assert!(matches!(error, FetchError::Undecodable));
    assert_eq!(error.message(), "error decoding response body");
    let error = get_session_state(ok("{")).unwrap_err();
    assert!(matches!(error, FetchError::Undecodable));
    let error = fetch_response::<SessionState>(ok(INFO_BODY), Resource::SessionState).unwrap_err();
    assert!(matches!(error, FetchError::Undecodable));
}

#[test]
fn numbers_out_of_range_do_not_decode() {
    let page = |n: &str| {
        format!(
            r#"{{"currentPage":{},"currentStep":0,"activeVoteIds":[],"votes":[],"vote_summaries":[]}}"#,
            n
        )
    };
    assert_eq!(decode_body::<SessionState>(&page("0")).unwrap().current_page, 0);
    assert_eq!(decode_body::<SessionState>(&page("2147483647")).unwrap().current_page, i32::MAX);
    assert!(decode_body::<SessionState>(&page("2147483648")).is_none());
    assert!(decode_body::<SessionState>(&page("-1")).is_none());
    assert!(decode_body::<SessionState>(&page("-2147483648")).is_none());
    assert!(decode_body::<SessionState>(&page("1.0")).is_none());
    assert!(decode_body::<SessionState>(&page("\"1\"")).is_none());
    assert!(decode_body::<SessionState>(&page("18446744073709551615")).is_none());
}

#[test]
fn a_negative_step_does_not_decode() {
    let body = r#"{"currentPage":0,"currentStep":-1,"activeVoteIds":[],"votes":[],"vote_summaries":[]}"#;
    assert!(decode_body::<SessionState>(body).is_none());
    let error = get_session_state(HttpReply::Response { status: 200, body: body.to_string() })
        .unwrap_err();
    assert!(matches!(error, FetchError::Undecodable));
}

#[test]
fn no_choice_is_counted_twice() {
    let count = |n: u64| Json::Number { unsigned: Some(n), signed: Some(n as i64) };
    let once = vec![("c1".to_string(), count(1)), ("c2".to_string(), count(2))];
    let counts = counts_from_json(&once).unwrap();
    assert_eq!(counts.len(), 2);
    assert_eq!(counts[0].choice_id, "c1");
    assert_eq!(counts[0].votes, 1);
    assert_eq!(counts[1].choice_id, "c2");
    assert_eq!(counts[1].votes, 2);
    assert!(names_are_distinct(&once));

    let twice = vec![
        ("c1".to_string(), count(1)),
        ("c2".to_string(), count(2)),
        ("c1".to_string(), count(3)),
    ];
    assert!(!names_are_distinct(&twice));
    assert!(counts_from_json(&twice).is_none());
    assert!(names_are_distinct(&Vec::new()));
    assert_eq!(counts_from_json(&Vec::new()).unwrap().len(), 0);

    // A text that names a choice twice parses to the later of the two.
    let body = r#"{"currentPage":0,"currentStep":0,"activeVoteIds":[],"votes":[],"vote_summaries":[{"voteId":"v","choice_votes":{"c":1,"c":4}}]}"#;
    let state = decode_body::<SessionState>(body).unwrap();
    assert_eq!(state.vote_summaries[0].choice_votes.len(), 1);
    assert_eq!(state.vote_summaries[0].choice_votes[0].votes, 4);
}

#[test]
fn an_item_of_the_wrong_shape_spoils_the_array() {
    let body = r#"{"currentPage":0,"currentStep":0,"activeVoteIds":["v1",2],"votes":[],"vote_summaries":[]}"#;
    assert!(decode_body::<SessionState>(body).is_none());
    let body = r#"{"currentPage":0,"currentStep":0,"activeVoteIds":[],"votes":[],"vote_summaries":[{"voteId":"v","choice_votes":{"c":"many"}}]}"#;
    assert!(decode_body::<SessionState>(body).is_none());
    let body = r#"{"currentPage":0,"currentStep":0,"activeVoteIds":[],"votes":{},"vote_summaries":[]}"#;
    assert!(decode_body::<SessionState>(body).is_none());
}

#[test]
fn the_page_of_a_description_is_a_small_index() {
    let body = |n: &str| INFO_BODY.replace("\"currentPage\": 1", &format!("\"currentPage\": {}", n));
    assert_eq!(decode_body::<SessionInfo>(&body("0")).unwrap().state.current_page, 0);
    assert_eq!(decode_body::<SessionInfo>(&body("127")).unwrap().state.current_page, 127);
    assert!(decode_body::<SessionInfo>(&body("128")).is_none());
    assert!(decode_body::<SessionInfo>(&body("-1")).is_none());
    assert!(decode_body::<SessionInfo>(&body("-128")).is_none());
}

#[test]
fn members_that_no_record_names_are_ignored() {
    let body = r#"{"sessionId":"S1","token":"T1","aggregatorUrl":"https://agg","ttl":60,"more":{}}"#;
    let response = decode_body::<VerifyOtpResponse>(body).unwrap();
    assert_eq!(response.session_id, "S1");
}
