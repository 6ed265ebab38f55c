//! The shapes of the session service's responses: which members of a
//! document make up each record.

use crate::decode::{
    array_field, array_member, decoded_items, index32_field, index8_field, integer_member,
    optional_text_field, optional_text_member, record_field, record_member, text_field,
    text_member, FromJson,
};
use crate::json::{distinct_names, fields_view, lemma_fields_view, Json, JsonValue};
use crate::models::auth::{VerifyOtpResponse, VerifyOtpResponseView};
use crate::models::session::{
    SessionInfo, SessionInfoAvailableVote, SessionInfoAvailableVoteChoice,
    SessionInfoAvailableVoteChoiceView, SessionInfoAvailableVoteView, SessionInfoPage,
    SessionInfoPageScript, SessionInfoPageScriptView, SessionInfoPageView, SessionInfoState,
    SessionInfoStateView, SessionInfoView, SessionInfoVote, SessionInfoVoteView,
};
use crate::models::state::{
    distinct_choices, ChoiceCount, ChoiceCountView, SessionState, SessionStateView, Vote,
    VoteSummary, VoteSummaryView, VoteView,
};
use vstd::prelude::*;

verus! {

impl FromJson for VerifyOtpResponse {
    open spec fn of_json(json: JsonValue) -> Option<VerifyOtpResponseView> {
        match (
            text_member(json, "sessionId"@),
            text_member(json, "aggregatorUrl"@),
            text_member(json, "token"@),
        ) {
            (Some(session_id), Some(aggregator_url), Some(token)) => Some(
                VerifyOtpResponseView { session_id, aggregator_url, token },
            ),
            _ => None,
        }
    }

    fn from_json(json: &Json) -> (decoded: Option<VerifyOtpResponse>) {
        let session_id = text_field(json, "sessionId");
        let aggregator_url = text_field(json, "aggregatorUrl");
        let token = text_field(json, "token");
        match (session_id, aggregator_url, token) {
            (Some(session_id), Some(aggregator_url), Some(token)) => Some(
                VerifyOtpResponse { session_id, aggregator_url, token },
            ),
            _ => None,
        }
    }
}

impl FromJson for SessionInfoPageScript {
    open spec fn of_json(json: JsonValue) -> Option<SessionInfoPageScriptView> {
        match text_member(json, "content"@) {
            Some(content) => Some(SessionInfoPageScriptView { content }),
            None => None,
        }
    }

    fn from_json(json: &Json) -> (decoded: Option<SessionInfoPageScript>) {
        match text_field(json, "content") {
            Some(content) => Some(SessionInfoPageScript { content }),
            None => None,
        }
    }
}

impl FromJson for SessionInfoPage {
    open spec fn of_json(json: JsonValue) -> Option<SessionInfoPageView> {
        match (
            text_member(json, "pageId"@),
            text_member(json, "title"@),
            array_member::<SessionInfoPageScript>(json, "scripts"@),
        ) {
            (Some(page_id), Some(title), Some(scripts)) => Some(
                SessionInfoPageView { page_id, title, scripts },
            ),
            _ => None,
        }
    }

    fn from_json(json: &Json) -> (decoded: Option<SessionInfoPage>) {
        let page_id = text_field(json, "pageId");
        let title = text_field(json, "title");
        let scripts = array_field::<SessionInfoPageScript>(json, "scripts");
        match (page_id, title, scripts) {
            (Some(page_id), Some(title), Some(scripts)) => Some(
                SessionInfoPage { page_id, title, scripts },
            ),
            _ => None,
        }
    }
}

impl FromJson for SessionInfoAvailableVoteChoice {
    open spec fn of_json(json: JsonValue) -> Option<SessionInfoAvailableVoteChoiceView> {
        match (
            text_member(json, "choiceId"@),
            text_member(json, "title"@),
            optional_text_member(json, "description"@),
            optional_text_member(json, "color"@),
        ) {
            (Some(choice_id), Some(title), Some(description), Some(color)) => Some(
                SessionInfoAvailableVoteChoiceView { choice_id, title, description, color },
            ),
            _ => None,
        }
    }

    fn from_json(json: &Json) -> (decoded: Option<SessionInfoAvailableVoteChoice>) {
        let choice_id = text_field(json, "choiceId");
        let title = text_field(json, "title");
        let description = optional_text_field(json, "description");
        let color = optional_text_field(json, "color");
        match (choice_id, title, description, color) {
            (Some(choice_id), Some(title), Some(description), Some(color)) => Some(
                SessionInfoAvailableVoteChoice { choice_id, title, description, color },
            ),
            _ => None,
        }
    }
}

impl FromJson for SessionInfoAvailableVote {
    open spec fn of_json(json: JsonValue) -> Option<SessionInfoAvailableVoteView> {
        match (
            text_member(json, "voteId"@),
            text_member(json, "title"@),
            optional_text_member(json, "description"@),
            array_member::<SessionInfoAvailableVoteChoice>(json, "choices"@),
        ) {
            (Some(vote_id), Some(title), Some(description), Some(choices)) => Some(
                SessionInfoAvailableVoteView { vote_id, title, description, choices },
            ),
            _ => None,
        }
    }

    fn from_json(json: &Json) -> (decoded: Option<SessionInfoAvailableVote>) {
        let vote_id = text_field(json, "voteId");
        let title = text_field(json, "title");
        let description = optional_text_field(json, "description");
        let choices = array_field::<SessionInfoAvailableVoteChoice>(json, "choices");
        match (vote_id, title, description, choices) {
            (Some(vote_id), Some(title), Some(description), Some(choices)) => Some(
                SessionInfoAvailableVote { vote_id, title, description, choices },
            ),
            _ => None,
        }
    }
}

impl FromJson for SessionInfoVote {
    open spec fn of_json(json: JsonValue) -> Option<SessionInfoVoteView> {
        match (
            text_member(json, "voteId"@),
            text_member(json, "choiceId"@),
            text_member(json, "voterId"@),
        ) {
            (Some(vote_id), Some(choice_id), Some(voter_id)) => Some(
                SessionInfoVoteView { vote_id, choice_id, voter_id },
            ),
            _ => None,
        }
    }

    fn from_json(json: &Json) -> (decoded: Option<SessionInfoVote>) {
        let vote_id = text_field(json, "voteId");
        let choice_id = text_field(json, "choiceId");
        let voter_id = text_field(json, "voterId");
        match (vote_id, choice_id, voter_id) {
            (Some(vote_id), Some(choice_id), Some(voter_id)) => Some(
                SessionInfoVote { vote_id, choice_id, voter_id },
            ),
            _ => None,
        }
    }
}

impl FromJson for SessionInfoState {
    open spec fn of_json(json: JsonValue) -> Option<SessionInfoStateView> {
        match (
            integer_member(json, "currentPage"@, 0, i8::MAX as int),
            optional_text_member(json, "currentVoteId"@),
            array_member::<SessionInfoVote>(json, "votes"@),
        ) {
            (Some(page), Some(available_vote_id), Some(votes)) => Some(
                SessionInfoStateView { current_page: page as i8, available_vote_id, votes },
            ),
            _ => None,
        }
    }

    fn from_json(json: &Json) -> (decoded: Option<SessionInfoState>) {
        let current_page = index8_field(json, "currentPage");
        let available_vote_id = optional_text_field(json, "currentVoteId");
        let votes = array_field::<SessionInfoVote>(json, "votes");
        match (current_page, available_vote_id, votes) {
            (Some(current_page), Some(available_vote_id), Some(votes)) => Some(
                SessionInfoState { current_page, available_vote_id, votes },
            ),
            _ => None,
        }
    }
}

impl FromJson for SessionInfo {
    open spec fn of_json(json: JsonValue) -> Option<SessionInfoView> {
        match (
            text_member(json, "sessionId"@),
            text_member(json, "slideId"@),
            text_member(json, "title"@),
            array_member::<SessionInfoPage>(json, "pages"@),
            array_member::<SessionInfoAvailableVote>(json, "availableVotes"@),
            record_member::<SessionInfoState>(json, "state"@),
        ) {
            (
                Some(session_id),
                Some(slide_id),
                Some(title),
                Some(pages),
                Some(available_votes),
                Some(state),
            ) => Some(
                SessionInfoView { session_id, slide_id, title, pages, available_votes, state },
            ),
            _ => None,
        }
    }

    fn from_json(json: &Json) -> (decoded: Option<SessionInfo>) {
        let session_id = text_field(json, "sessionId");
        let slide_id = text_field(json, "slideId");
        let title = text_field(json, "title");
        let pages = array_field::<SessionInfoPage>(json, "pages");
        let available_votes = array_field::<SessionInfoAvailableVote>(json, "availableVotes");
        let state = record_field::<SessionInfoState>(json, "state");
        match (session_id, slide_id, title, pages, available_votes, state) {
            (
                Some(session_id),
                Some(slide_id),
                Some(title),
                Some(pages),
                Some(available_votes),
                Some(state),
            ) => Some(SessionInfo { session_id, slide_id, title, pages, available_votes, state }),
            _ => None,
        }
    }
}

impl FromJson for Vote {
    open spec fn of_json(json: JsonValue) -> Option<VoteView> {
        match (
            text_member(json, "voteId"@),
            text_member(json, "choiceId"@),
            text_member(json, "voterId"@),
        ) {
            (Some(vote_id), Some(choice_id), Some(voter_id)) => Some(
                VoteView { vote_id, choice_id, voter_id },
            ),
            _ => None,
        }
    }

    fn from_json(json: &Json) -> (decoded: Option<Vote>) {
        let vote_id = text_field(json, "voteId");
        let choice_id = text_field(json, "choiceId");
        let voter_id = text_field(json, "voterId");
        match (vote_id, choice_id, voter_id) {
            (Some(vote_id), Some(choice_id), Some(voter_id)) => Some(
                Vote { vote_id, choice_id, voter_id },
            ),
            _ => None,
        }
    }
}

/// A count of votes: an integer of 32 bits.
pub open spec fn count_of(value: JsonValue) -> Option<i32> {
    match value.as_i64() {
        Some(n) => if i32::MIN <= n <= i32::MAX {
            Some(n as i32)
        } else {
            None
        },
        None => None,
    }
}

/// The counts that the members of an object denote, one for each member and
/// in their order: a member's name is the choice and its value the count.
/// An object that names a choice twice denotes none.
pub open spec fn counts_of(fields: Seq<(Seq<char>, JsonValue)>) -> Option<Seq<ChoiceCountView>> {
    if distinct_names(fields) && forall|i: int|
        0 <= i < fields.len() ==> count_of(#[trigger] fields[i].1) is Some {
        Some(
            Seq::new(
                fields.len(),
                |i: int|
                    ChoiceCountView { choice_id: fields[i].0, votes: count_of(fields[i].1).unwrap() },
            ),
        )
    } else {
        None
    }
}

/// The member `name` as the counts of an object's members.
pub open spec fn counts_member(obj: JsonValue, name: Seq<char>) -> Option<Seq<ChoiceCountView>> {
    match obj.get(name) {
        Some(value) => match value.as_object() {
            Some(fields) => counts_of(fields),
            None => None,
        },
        None => None,
    }
}

fn count_from_json(value: &Json) -> (count: Option<i32>)
    ensures
        count == count_of(value@),
{
    match value.as_i64() {
        Some(n) => if -2147483648 <= n && n <= 2147483647 {
            Some(n as i32)
        } else {
            None
        },
        None => None,
    }
}

/// Whether the name of member `i` is the name of a member before it.
fn name_repeats(fields: &Vec<(String, Json)>, i: usize) -> (repeats: bool)
    requires
        i < fields@.len(),
    ensures
        repeats == exists|j: int| 0 <= j < i && fields@[j].0@ == fields@[i as int].0@,
{
    let mut j: usize = 0;
    while j < i
        invariant
            j <= i,
            i < fields@.len(),
            forall|k: int| 0 <= k < j ==> fields@[k].0@ != fields@[i as int].0@,
        decreases i - j,
    {
        if fields[j].0 == fields[i].0 {
            return true;
        }
        j = j + 1;
    }
    false
}

/// Whether no name occurs twice among the members of an object.
pub fn names_are_distinct(fields: &Vec<(String, Json)>) -> (distinct: bool)
    ensures
        distinct == distinct_names(fields_view(fields@)),
{
    let ghost members = fields_view(fields@);
    proof {
        lemma_fields_view(fields@);
    }
    let mut i: usize = 0;
    while i < fields.len()
        invariant
            i <= fields@.len(),
            members == fields_view(fields@),
            members.len() == fields@.len(),
            forall|k: int|
                0 <= k < fields@.len() ==> #[trigger] members[k] == (fields@[k].0@, fields@[k].1@),
            forall|a: int, b: int|
                0 <= a < b < i ==> (#[trigger] members[a]).0 != (#[trigger] members[b]).0,
        decreases fields@.len() - i,
    {
        if name_repeats(fields, i) {
            proof {
                let j = choose|j: int| 0 <= j < i && fields@[j].0@ == fields@[i as int].0@;
                assert(members[j].0 == members[i as int].0);
            }
            return false;
        }
        proof {
            assert forall|a: int, b: int| 0 <= a < b < i + 1 implies (#[trigger] members[a]).0 != (
            #[trigger] members[b]).0 by {
                if b == i {
                    assert(fields@[a].0@ != fields@[i as int].0@);
                }
            }
        }
        i = i + 1;
    }
    true
}

/// Reads one count out of each member of an object. An object that names a
/// choice twice gives none, so no choice is counted twice.
pub fn counts_from_json(fields: &Vec<(String, Json)>) -> (counts: Option<Vec<ChoiceCount>>)
    ensures
        counts matches Some(v) ==> counts_of(fields_view(fields@)) == Some(v.deep_view()),
        counts matches Some(v) ==> distinct_choices(v.deep_view()),
        counts is None ==> counts_of(fields_view(fields@)) is None,
{
    let ghost members = fields_view(fields@);
    proof {
        lemma_fields_view(fields@);
    }
    if !names_are_distinct(fields) {
        return None;
    }
    let mut out: Vec<ChoiceCount> = Vec::new();
    let mut i: usize = 0;
    while i < fields.len()
        invariant
            i <= fields@.len(),
            members == fields_view(fields@),
            members.len() == fields@.len(),
            forall|k: int|
                0 <= k < fields@.len() ==> #[trigger] members[k] == (fields@[k].0@, fields@[k].1@),
            out@.len() == i,
            forall|k: int|
                0 <= k < i ==> count_of(members[k].1) == Some((#[trigger] out@[k]).votes),
            forall|k: int| 0 <= k < i ==> (#[trigger] out@[k]).choice_id@ == members[k].0,
            distinct_names(members),
        decreases fields@.len() - i,
    {
        match count_from_json(&fields[i].1) {
            Some(votes) => {
                let choice_id = fields[i].0.clone();
                assert(members[i as int] == (fields@[i as int].0@, fields@[i as int].1@));
                out.push(ChoiceCount { choice_id, votes });
            },
            None => {
                assert(count_of(members[i as int].1) is None);
                return None;
            },
        }
        i = i + 1;
    }
    proof {
        assert forall|k: int| 0 <= k < members.len() implies count_of(
            #[trigger] members[k].1,
        ) is Some by {
            assert(count_of(members[k].1) == Some(out@[k].votes));
        }
        assert(out.deep_view() =~= Seq::new(
            members.len(),
            |k: int|
                ChoiceCountView { choice_id: members[k].0, votes: count_of(members[k].1).unwrap() },
        ));
        lemma_counts_are_distinct(members);
    }
    Some(out)
}

/// The counts that an object denotes count no choice twice.
pub proof fn lemma_counts_are_distinct(fields: Seq<(Seq<char>, JsonValue)>)
    requires
        counts_of(fields) is Some,
    ensures
        distinct_choices(counts_of(fields).unwrap()),
{
    let counts = counts_of(fields).unwrap();
    assert forall|a: int, b: int| 0 <= a < b < counts.len() implies (#[trigger] counts[a]).choice_id
        != (#[trigger] counts[b]).choice_id by {
        assert(fields[a].0 != fields[b].0);
    }
}

/// A summary that is read out of a document counts each choice once.
pub proof fn lemma_decoded_summary_is_wf(json: JsonValue)
    requires
        VoteSummary::of_json(json) is Some,
    ensures
        VoteSummary::of_json(json).unwrap().wf(),
{
    lemma_counts_are_distinct(json.get("choice_votes"@).unwrap().as_object().unwrap());
}

/// A live state that is read out of a document has a page and a step that
/// are indices: neither is negative.
pub proof fn lemma_decoded_state_has_indices(json: JsonValue)
    requires
        SessionState::of_json(json) is Some,
    ensures
        SessionState::of_json(json).unwrap().current_page >= 0,
        SessionState::of_json(json).unwrap().current_step >= 0,
{
}

/// Every summary of a live state that is read out of a document counts each
/// choice once.
pub proof fn lemma_decoded_state_is_wf(json: JsonValue)
    requires
        SessionState::of_json(json) is Some,
    ensures
        SessionState::of_json(json).unwrap().wf(),
{
    let live = SessionState::of_json(json).unwrap();
    let items = json.get("vote_summaries"@).unwrap().as_array().unwrap();
    assert(decoded_items::<VoteSummary>(items) == Some(live.vote_summaries));
    assert forall|i: int| 0 <= i < live.vote_summaries.len() implies (
    #[trigger] live.vote_summaries[i]).wf() by {
        assert(VoteSummary::of_json(items[i]) is Some);
        lemma_decoded_summary_is_wf(items[i]);
    }
}

fn counts_field(obj: &Json, name: &str) -> (counts: Option<Vec<ChoiceCount>>)
    ensures
        counts matches Some(v) ==> counts_member(obj@, name@) == Some(v.deep_view()),
        counts is None ==> counts_member(obj@, name@) is None,
{
    match obj.get(name) {
        Some(value) => match value.as_object() {
            Some(fields) => counts_from_json(fields),
            None => None,
        },
        None => None,
    }
}

impl FromJson for VoteSummary {
    open spec fn of_json(json: JsonValue) -> Option<VoteSummaryView> {
        match (text_member(json, "voteId"@), counts_member(json, "choice_votes"@)) {
            (Some(vote_id), Some(choice_votes)) => Some(VoteSummaryView { vote_id, choice_votes }),
            _ => None,
        }
    }

    fn from_json(json: &Json) -> (decoded: Option<VoteSummary>) {
        let vote_id = text_field(json, "voteId");
        let choice_votes = counts_field(json, "choice_votes");
        match (vote_id, choice_votes) {
            (Some(vote_id), Some(choice_votes)) => Some(VoteSummary { vote_id, choice_votes }),
            _ => None,
        }
    }
}

impl FromJson for SessionState {
    open spec fn of_json(json: JsonValue) -> Option<SessionStateView> {
        match (
            integer_member(json, "currentPage"@, 0, i32::MAX as int),
            integer_member(json, "currentStep"@, 0, i32::MAX as int),
            array_member::<String>(json, "activeVoteIds"@),
            array_member::<Vote>(json, "votes"@),
            array_member::<VoteSummary>(json, "vote_summaries"@),
        ) {
            (Some(page), Some(step), Some(active_vote_ids), Some(votes), Some(vote_summaries)) => {
                Some(
                    SessionStateView {
                        current_page: page as i32,
                        current_step: step as i32,
                        active_vote_ids,
                        votes,
                        vote_summaries,
                    },
                )
            },
            _ => None,
        }
    }

    fn from_json(json: &Json) -> (decoded: Option<SessionState>) {
        let current_page = index32_field(json, "currentPage");
        let current_step = index32_field(json, "currentStep");
        let active_vote_ids = array_field::<String>(json, "activeVoteIds");
        let votes = array_field::<Vote>(json, "votes");
        let vote_summaries = array_field::<VoteSummary>(json, "vote_summaries");
        match (current_page, current_step, active_vote_ids, votes, vote_summaries) {
            (
                Some(current_page),
                Some(current_step),
                Some(active_vote_ids),
                Some(votes),
                Some(vote_summaries),
            ) => Some(
                SessionState { current_page, current_step, active_vote_ids, votes, vote_summaries },
            ),
            _ => None,
        }
    }
}

} // verus!
