//! The three calls to the session service: what to ask, and what an answer
//! means. The round trip itself is made elsewhere.

use crate::codec::{encode_verify_request, verify_request_text};
use crate::decode::FromJson;
use crate::json::{json_document, parse_json};
use crate::models::auth::{VerifyOtpRequest, VerifyOtpResponse, VerifyOtpResponseView};
use crate::models::session::SessionInfo;
use crate::models::state::SessionState;
use vstd::prelude::*;
use vstd::string::StringExecFns;

verus! {

#[derive(Clone, Copy, Debug, PartialEq, Eq, Structural)]
pub enum HttpMethod {
    Get,
    Post,
}

/// A request to the session service.
#[derive(Debug)]
pub struct HttpRequest {
    pub method: HttpMethod,
    pub url: String,
    /// The value of the `Authorization` header, where the request has one.
    pub authorization: Option<String>,
    /// The JSON body, where the request has one.
    pub body: Option<String>,
}

/// What came of a request.
#[derive(Debug)]
pub enum HttpReply {
    /// No response arrived.
    Failed { reason: String },
    /// A response arrived, with its status code and its body.
    Response { status: u16, body: String },
}

/// Which of the two session resources a request was for.
#[derive(Clone, Copy, Debug, PartialEq, Eq, Structural)]
pub enum Resource {
    SessionInfo,
    SessionState,
}

/// Why a one-time code was not exchanged for a session.
#[derive(Debug)]
pub enum AuthError {
    /// No response arrived.
    Transport { reason: String },
    /// The service answered with a status that is no success.
    Rejected,
    /// The body of the answer is no verification response.
    Undecodable,
}

/// Why a session resource was not retrieved.
#[derive(Debug)]
pub enum FetchError {
    /// No response arrived.
    Transport { reason: String },
    /// The service answered with a status that is no success.
    Refused { resource: Resource },
    /// The body of the answer is not of the resource's shape.
    Undecodable,
}

/// Whether a status code reports success.
pub open spec fn is_success(status: u16) -> bool {
    200 <= status < 300
}

/// Whether a status code reports success.
pub fn status_is_success(status: u16) -> (success: bool)
    ensures
        success == is_success(status),
{
    200 <= status && status < 300
}

/// The address of the verification call.
pub open spec fn verify_url(base: Seq<char>) -> Seq<char> {
    base + "/session/agent/verify"@
}

/// The address of a session's description.
pub open spec fn session_info_url(base: Seq<char>, session_id: Seq<char>) -> Seq<char> {
    base + "/api/session/"@ + session_id + "/agent/info"@
}

/// The address of a session's live state.
pub open spec fn session_state_url(base: Seq<char>, session_id: Seq<char>) -> Seq<char> {
    base + "/api/session/"@ + session_id + "/agent/state"@
}

/// The `Authorization` header for a bearer token.
pub open spec fn bearer(token: Seq<char>) -> Seq<char> {
    "Bearer "@ + token
}

impl AuthError {
    /// The error in words.
    pub open spec fn message_spec(self) -> Seq<char> {
        match self {
            AuthError::Transport { reason } => reason@,
            AuthError::Rejected => "OTP verification failed"@,
            AuthError::Undecodable => "error decoding response body"@,
        }
    }

    /// The error in words.
    pub fn message(&self) -> (text: String)
        ensures
            text@ == self.message_spec(),
    {
        match self {
            AuthError::Transport { reason } => reason.clone(),
            AuthError::Rejected => String::from_str("OTP verification failed"),
            AuthError::Undecodable => String::from_str("error decoding response body"),
        }
    }
}

impl FetchError {
    /// The error in words.
    pub open spec fn message_spec(self) -> Seq<char> {
        match self {
            FetchError::Transport { reason } => reason@,
            FetchError::Refused { resource: Resource::SessionInfo } => "Failed to get session info"@,
            FetchError::Refused { resource: Resource::SessionState } => "Failed to get session state"@,
            FetchError::Undecodable => "error decoding response body"@,
        }
    }

    /// The error in words.
    pub fn message(&self) -> (text: String)
        ensures
            text@ == self.message_spec(),
    {
        match self {
            FetchError::Transport { reason } => reason.clone(),
            FetchError::Refused { resource: Resource::SessionInfo } => String::from_str(
                "Failed to get session info",
            ),
            FetchError::Refused { resource: Resource::SessionState } => String::from_str(
                "Failed to get session state",
            ),
            FetchError::Undecodable => String::from_str("error decoding response body"),
        }
    }
}

/// The request that exchanges a one-time code for a session: a `POST` of
/// the code to the verification address.
pub fn verify_otp_request(base_url: &str, otp: &str) -> (request: HttpRequest)
    ensures
        request.method == HttpMethod::Post,
        request.url@ == verify_url(base_url@),
        request.authorization is None,
        request.body matches Some(body) && body@ == verify_request_text(otp@),
{
    let mut url = String::from_str(base_url);
    url.append("/session/agent/verify");
    let body = encode_verify_request(&VerifyOtpRequest { otp: String::from_str(otp) });
    HttpRequest { method: HttpMethod::Post, url, authorization: None, body: Some(body) }
}

fn bearer_header(token: &str) -> (header: String)
    ensures
        header@ == bearer(token@),
{
    let mut header = String::from_str("Bearer ");
    header.append(token);
    header
}

/// The request for a session's description: a `GET` with the bearer token.
pub fn session_info_request(base_url: &str, session_id: &str, token: &str) -> (request: HttpRequest)
    ensures
        request.method == HttpMethod::Get,
        request.url@ == session_info_url(base_url@, session_id@),
        request.authorization matches Some(header) && header@ == bearer(token@),
        request.body is None,
{
    let mut url = String::from_str(base_url);
    url.append("/api/session/");
    url.append(session_id);
    url.append("/agent/info");
    HttpRequest {
        method: HttpMethod::Get,
        url,
        authorization: Some(bearer_header(token)),
        body: None,
    }
}

/// The request for a session's live state: a `GET` with the bearer token.
pub fn session_state_request(base_url: &str, session_id: &str, token: &str) -> (request:
    HttpRequest)
    ensures
        request.method == HttpMethod::Get,
        request.url@ == session_state_url(base_url@, session_id@),
        request.authorization matches Some(header) && header@ == bearer(token@),
        request.body is None,
{
    let mut url = String::from_str(base_url);
    url.append("/api/session/");
    url.append(session_id);
    url.append("/agent/state");
    HttpRequest {
        method: HttpMethod::Get,
        url,
        authorization: Some(bearer_header(token)),
        body: None,
    }
}

/// An outcome with the record, where there is one, as its mathematical
/// value.
pub open spec fn outcome_view<T: DeepView, E>(outcome: Result<T, E>) -> Result<
    <T as DeepView>::V,
    E,
> {
    match outcome {
        Ok(record) => Ok(record.deep_view()),
        Err(e) => Err(e),
    }
}

/// The record that the body of a response denotes.
pub open spec fn body_record<T: FromJson>(body: Seq<char>) -> Option<<T as DeepView>::V> {
    match json_document(body) {
        Some(doc) => T::of_json(doc),
        None => None,
    }
}

/// What the answer to a verification request means: the session's identity
/// where a response arrived with a success status and a body that denotes
/// one, and else the reason why not.
pub open spec fn verify_outcome(reply: HttpReply) -> Result<VerifyOtpResponseView, AuthError> {
    match reply {
        HttpReply::Failed { reason } => Err(AuthError::Transport { reason }),
        HttpReply::Response { status, body } => if !is_success(status) {
            Err(AuthError::Rejected)
        } else {
            match body_record::<VerifyOtpResponse>(body@) {
                Some(record) => Ok(record),
                None => Err(AuthError::Undecodable),
            }
        },
    }
}

/// What the answer to a request for a session resource means: the record
/// where a response arrived with a success status and a body that denotes
/// one, and else the reason why not.
pub open spec fn fetch_outcome<T: FromJson>(reply: HttpReply, resource: Resource) -> Result<
    <T as DeepView>::V,
    FetchError,
> {
    match reply {
        HttpReply::Failed { reason } => Err(FetchError::Transport { reason }),
        HttpReply::Response { status, body } => if !is_success(status) {
            Err(FetchError::Refused { resource })
        } else {
            match body_record::<T>(body@) {
                Some(record) => Ok(record),
                None => Err(FetchError::Undecodable),
            }
        },
    }
}

/// Reads a record out of the body of a response.
pub fn decode_body<T: FromJson>(body: &str) -> (record: Option<T>)
    ensures
        record matches Some(x) ==> body_record::<T>(body@) == Some(x.deep_view()),
        record is None ==> body_record::<T>(body@) is None,
{
    match parse_json(body) {
        Some(doc) => T::from_json(&doc),
        None => None,
    }
}

/// Decides a verification from the answer to its request: the session's
/// identity, or why the code was not exchanged for one.
pub fn verify_otp(reply: HttpReply) -> (outcome: Result<VerifyOtpResponse, AuthError>)
    ensures
        outcome_view(outcome) == verify_outcome(reply),
{
    match reply {
        HttpReply::Failed { reason } => Err(AuthError::Transport { reason }),
        HttpReply::Response { status, body } => {
            if !status_is_success(status) {
                Err(AuthError::Rejected)
            } else {
                match decode_body::<VerifyOtpResponse>(body.as_str()) {
                    Some(record) => Ok(record),
                    None => Err(AuthError::Undecodable),
                }
            }
        },
    }
}

/// Takes a session resource from the answer to the request for it.
pub fn fetch_response<T: FromJson>(reply: HttpReply, resource: Resource) -> (outcome: Result<
    T,
    FetchError,
>)
    ensures
        outcome_view(outcome) == fetch_outcome::<T>(reply, resource),
{
    match reply {
        HttpReply::Failed { reason } => Err(FetchError::Transport { reason }),
        HttpReply::Response { status, body } => {
            if !status_is_success(status) {
                Err(FetchError::Refused { resource })
            } else {
                match decode_body::<T>(body.as_str()) {
                    Some(record) => Ok(record),
                    None => Err(FetchError::Undecodable),
                }
            }
        },
    }
}

/// Takes a session's description from the answer to the request for it.
pub fn get_session_info(reply: HttpReply) -> (outcome: Result<SessionInfo, FetchError>)
    ensures
        outcome_view(outcome) == fetch_outcome::<SessionInfo>(reply, Resource::SessionInfo),
{
    fetch_response::<SessionInfo>(reply, Resource::SessionInfo)
}

/// Takes a session's live state from the answer to the request for it.
pub fn get_session_state(reply: HttpReply) -> (outcome: Result<SessionState, FetchError>)
    ensures
        outcome_view(outcome) == fetch_outcome::<SessionState>(reply, Resource::SessionState),
{
    fetch_response::<SessionState>(reply, Resource::SessionState)
}

} // verus!
