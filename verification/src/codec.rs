//! The text form of the messages on the bidirectional stream.

use crate::json::{json_document, json_string_literal, parse_json, quote, Json, JsonValue};
use crate::models::auth::VerifyOtpRequest;
use crate::models::websocket::{
    ChangeCurrentPageData, RegisterAgentMessage, RegisterAgentMessageData, TriggerNextStepData,
    TriggerPrevStepData, WsEvent,
};
use vstd::prelude::*;
use vstd::string::StringExecFns;

verus! {

/// Why an inbound message is no command.
#[derive(Clone, Copy, Debug, PartialEq, Eq, Structural)]
pub enum DecodeError {
    /// The text is no JSON document.
    NotJson,
    /// The document is no object.
    NotAnObject,
    /// The object has no member `requestType`.
    MissingRequestType,
    /// The request type is no string, or names no command.
    UnknownRequestType,
    /// The member `data` is missing or has not the shape of the command.
    InvalidPayload,
}

/// The member `name` of `data` as an index: a non-negative integer that fits
/// a machine word.
pub open spec fn index_member(data: JsonValue, name: Seq<char>) -> Option<usize> {
    match data.get(name) {
        Some(value) => match value.as_u64() {
            Some(n) => if n <= usize::MAX {
                Some(n as usize)
            } else {
                None
            },
            None => None,
        },
        None => None,
    }
}

/// The member `name` of `data` as a truth value.
pub open spec fn flag_member(data: JsonValue, name: Seq<char>) -> Option<bool> {
    match data.get(name) {
        Some(value) => value.as_bool(),
        None => None,
    }
}

/// The payload of a page change.
pub open spec fn page_change_of(data: JsonValue) -> Option<ChangeCurrentPageData> {
    match index_member(data, "newPageIndex"@) {
        Some(new_page_index) => Some(ChangeCurrentPageData { new_page_index }),
        None => None,
    }
}

/// The three members of the payload of a step forward or back.
pub open spec fn step_of(data: JsonValue) -> Option<(bool, usize, usize)> {
    match (
        flag_member(data, "isPageChanged"@),
        index_member(data, "newPageIndex"@),
        index_member(data, "newStepIndex"@),
    ) {
        (Some(changed), Some(page), Some(step)) => Some((changed, page, step)),
        _ => None,
    }
}

/// The command with request type `tag` and payload `data`.
pub open spec fn tagged_command(tag: Seq<char>, data: Option<JsonValue>) -> Result<
    WsEvent,
    DecodeError,
> {
    if tag == "CHANGE_CURRENT_PAGE"@ {
        match data {
            Some(d) => match page_change_of(d) {
                Some(data) => Ok(WsEvent::ChangeCurrentPage { data }),
                None => Err(DecodeError::InvalidPayload),
            },
            None => Err(DecodeError::InvalidPayload),
        }
    } else if tag == "TRIGGER_NEXT_STEP"@ {
        match data {
            Some(d) => match step_of(d) {
                Some(s) => Ok(
                    WsEvent::TriggerNextStep {
                        data: TriggerNextStepData {
                            is_page_changed: s.0,
                            new_page_index: s.1,
                            new_step_index: s.2,
                        },
                    },
                ),
                None => Err(DecodeError::InvalidPayload),
            },
            None => Err(DecodeError::InvalidPayload),
        }
    } else if tag == "TRIGGER_PREV_STEP"@ {
        match data {
            Some(d) => match step_of(d) {
                Some(s) => Ok(
                    WsEvent::TriggerPrevStep {
                        data: TriggerPrevStepData {
                            is_page_changed: s.0,
                            new_page_index: s.1,
                            new_step_index: s.2,
                        },
                    },
                ),
                None => Err(DecodeError::InvalidPayload),
            },
            None => Err(DecodeError::InvalidPayload),
        }
    } else {
        Err(DecodeError::UnknownRequestType)
    }
}

/// The command that a document denotes: an object whose member
/// `requestType` selects the command and whose member `data` is its payload.
/// Members that the command does not name are ignored.
pub open spec fn command_of(doc: JsonValue) -> Result<WsEvent, DecodeError> {
    if !(doc is Object) {
        Err(DecodeError::NotAnObject)
    } else {
        match doc.get("requestType"@) {
            None => Err(DecodeError::MissingRequestType),
            Some(tag) => match tag.as_str() {
                None => Err(DecodeError::UnknownRequestType),
                Some(t) => tagged_command(t, doc.get("data"@)),
            },
        }
    }
}

/// The command that an inbound text denotes.
pub open spec fn frame_command(text: Seq<char>) -> Result<WsEvent, DecodeError> {
    match json_document(text) {
        None => Err(DecodeError::NotJson),
        Some(doc) => command_of(doc),
    }
}

/// Whether two texts are the same.
pub fn same_text(a: &str, b: &str) -> (same: bool)
    ensures
        same == (a@ == b@),
{
    String::from_str(a) == String::from_str(b)
}

fn index_field(data: &Json, name: &str) -> (index: Option<usize>)
    ensures
        index == index_member(data@, name@),
{
    match data.get(name) {
        Some(value) => match value.as_u64() {
            Some(n) => if n <= usize::MAX as u64 {
                Some(n as usize)
            } else {
                None
            },
            None => None,
        },
        None => None,
    }
}

fn flag_field(data: &Json, name: &str) -> (flag: Option<bool>)
    ensures
        flag == flag_member(data@, name@),
{
    match data.get(name) {
        Some(value) => value.as_bool(),
        None => None,
    }
}

fn step_fields(data: &Json) -> (fields: Option<(bool, usize, usize)>)
    ensures
        fields == step_of(data@),
{
    let changed = flag_field(data, "isPageChanged");
    let page = index_field(data, "newPageIndex");
    let step = index_field(data, "newStepIndex");
    match (changed, page, step) {
        (Some(c), Some(p), Some(s)) => Some((c, p, s)),
        _ => None,
    }
}

/// Reads a command from a parsed document.
pub fn command_from_json(doc: &Json) -> (command: Result<WsEvent, DecodeError>)
    ensures
        command == command_of(doc@),
{
    match doc {
        Json::Object(_) => {},
        _ => {
            return Err(DecodeError::NotAnObject);
        },
    }
    let tag = match doc.get("requestType") {
        None => {
            return Err(DecodeError::MissingRequestType);
        },
        Some(value) => match value.as_str() {
            None => {
                return Err(DecodeError::UnknownRequestType);
            },
            Some(t) => t,
        },
    };
    let data = doc.get("data");
    if same_text(tag, "CHANGE_CURRENT_PAGE") {
        match data {
            Some(d) => match index_field(d, "newPageIndex") {
                Some(new_page_index) => Ok(
                    WsEvent::ChangeCurrentPage { data: ChangeCurrentPageData { new_page_index } },
                ),
                None => Err(DecodeError::InvalidPayload),
            },
            None => Err(DecodeError::InvalidPayload),
        }
    } else if same_text(tag, "TRIGGER_NEXT_STEP") {
        match data {
            Some(d) => match step_fields(d) {
                Some(s) => Ok(
                    WsEvent::TriggerNextStep {
                        data: TriggerNextStepData {
                            is_page_changed: s.0,
                            new_page_index: s.1,
                            new_step_index: s.2,
                        },
                    },
                ),
                None => Err(DecodeError::InvalidPayload),
            },
            None => Err(DecodeError::InvalidPayload),
        }
    } else if same_text(tag, "TRIGGER_PREV_STEP") {
        match data {
            Some(d) => match step_fields(d) {
                Some(s) => Ok(
                    WsEvent::TriggerPrevStep {
                        data: TriggerPrevStepData {
                            is_page_changed: s.0,
                            new_page_index: s.1,
                            new_step_index: s.2,
                        },
                    },
                ),
                None => Err(DecodeError::InvalidPayload),
            },
            None => Err(DecodeError::InvalidPayload),
        }
    } else {
        Err(DecodeError::UnknownRequestType)
    }
}

/// Decodes one inbound message.
pub fn decode_command(text: &str) -> (command: Result<WsEvent, DecodeError>)
    ensures
        command == frame_command(text@),
{
    match parse_json(text) {
        None => Err(DecodeError::NotJson),
        Some(doc) => command_from_json(&doc),
    }
}

/// The request type of the registration message.
pub open spec fn registration_type() -> Seq<char> {
    "REGIST_AGENT"@
}

/// The agent type that this agent registers as.
pub open spec fn desktop_agent_type() -> Seq<char> {
    "SHOW_SLIDE_DESKTOP"@
}

/// The envelope of a registration message around four string literals: an
/// object with the request type and, under `data`, the agent's name, its
/// type and the bearer token.
pub open spec fn registration_frame(
    msg_type: Seq<char>,
    agent_name: Seq<char>,
    agent_type: Seq<char>,
    token: Seq<char>,
) -> Seq<char> {
    "{\"requestType\":"@ + msg_type + ",\"data\":{\"agentName\":"@ + agent_name
        + ",\"agentType\":"@ + agent_type + ",\"token\":"@ + token + "}}"@
}

/// The text of a registration message: the envelope around the four texts,
/// each as a JSON string literal.
pub open spec fn registration_text(
    msg_type: Seq<char>,
    agent_name: Seq<char>,
    agent_type: Seq<char>,
    token: Seq<char>,
) -> Seq<char> {
    registration_frame(
        json_string_literal(msg_type),
        json_string_literal(agent_name),
        json_string_literal(agent_type),
        json_string_literal(token),
    )
}

/// Puts four string literals into the envelope of a registration message.
pub fn registration_envelope(msg_type: &str, agent_name: &str, agent_type: &str, token: &str) -> (text:
    String)
    ensures
        text@ == registration_frame(msg_type@, agent_name@, agent_type@, token@),
{
    let mut text = String::from_str("{\"requestType\":");
    text.append(msg_type);
    text.append(",\"data\":{\"agentName\":");
    text.append(agent_name);
    text.append(",\"agentType\":");
    text.append(agent_type);
    text.append(",\"token\":");
    text.append(token);
    text.append("}}");
    text
}

/// The registration message of a desktop agent.
pub fn registration_message<'a>(agent_name: &'a str, token: &'a str) -> (message:
    RegisterAgentMessage<'a>)
    ensures
        message.msg_type@ == registration_type(),
        message.data.agent_name@ == agent_name@,
        message.data.agent_type@ == desktop_agent_type(),
        message.data.token@ == token@,
{
    RegisterAgentMessage {
        msg_type: "REGIST_AGENT",
        data: RegisterAgentMessageData { agent_name, agent_type: "SHOW_SLIDE_DESKTOP", token },
    }
}

/// Encodes a registration message.
pub fn encode_registration(message: &RegisterAgentMessage) -> (text: String)
    ensures
        text@ == registration_text(
            message.msg_type@,
            message.data.agent_name@,
            message.data.agent_type@,
            message.data.token@,
        ),
{
    let msg_type = quote(message.msg_type);
    let agent_name = quote(message.data.agent_name);
    let agent_type = quote(message.data.agent_type);
    let token = quote(message.data.token);
    registration_envelope(
        msg_type.as_str(),
        agent_name.as_str(),
        agent_type.as_str(),
        token.as_str(),
    )
}

/// The envelope of a verification request around a string literal: an
/// object with the one-time code.
pub open spec fn verify_request_frame(otp: Seq<char>) -> Seq<char> {
    "{\"otp\":"@ + otp + "}"@
}

/// The text of a verification request: the envelope around the one-time
/// code as a JSON string literal.
pub open spec fn verify_request_text(otp: Seq<char>) -> Seq<char> {
    verify_request_frame(json_string_literal(otp))
}

/// Puts a string literal into the envelope of a verification request.
pub fn verify_request_envelope(otp: &str) -> (text: String)
    ensures
        text@ == verify_request_frame(otp@),
{
    let mut text = String::from_str("{\"otp\":");
    text.append(otp);
    text.append("}");
    text
}

/// Encodes a verification request.
pub fn encode_verify_request(request: &VerifyOtpRequest) -> (text: String)
    ensures
        text@ == verify_request_text(request.otp@),
{
    let otp = quote(request.otp.as_str());
    verify_request_envelope(otp.as_str())
}

} // verus!
