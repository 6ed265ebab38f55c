//! Messages of the bidirectional stream.

use vstd::prelude::*;

verus! {

/// The payload of the registration message.
#[derive(Clone, Copy, Debug)]
pub struct RegisterAgentMessageData<'a> {
    pub agent_name: &'a str,
    pub agent_type: &'a str,
    pub token: &'a str,
}

/// The first message an agent sends on a new stream.
#[derive(Clone, Copy, Debug)]
pub struct RegisterAgentMessage<'a> {
    pub msg_type: &'a str,
    pub data: RegisterAgentMessageData<'a>,
}

#[derive(Clone, Copy, Debug, PartialEq, Eq, Structural)]
pub struct ChangeCurrentPageData {
    pub new_page_index: usize,
}

#[derive(Clone, Copy, Debug, PartialEq, Eq, Structural)]
pub struct TriggerNextStepData {
    pub is_page_changed: bool,
    pub new_page_index: usize,
    pub new_step_index: usize,
}

#[derive(Clone, Copy, Debug, PartialEq, Eq, Structural)]
pub struct TriggerPrevStepData {
    pub is_page_changed: bool,
    pub new_page_index: usize,
    pub new_step_index: usize,
}

/// A command from the session service, selected by its request type.
#[allow(inconsistent_fields)]
#[derive(Clone, Copy, Debug, PartialEq, Eq, Structural)]
pub enum WsEvent {
    ChangeCurrentPage { data: ChangeCurrentPageData },
    TriggerNextStep { data: TriggerNextStepData },
    TriggerPrevStep { data: TriggerPrevStepData },
}

} // verus!
