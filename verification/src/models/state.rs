//! The live progress of a session.

use vstd::prelude::*;

verus! {

/// The votes counted for one choice.
#[derive(Debug)]
pub struct ChoiceCount {
    pub choice_id: String,
    pub votes: i32,
}

/// The votes counted per choice of one vote. No choice has two counts; see
/// [`VoteSummaryView::wf`].
#[derive(Debug)]
pub struct VoteSummary {
    pub vote_id: String,
    pub choice_votes: Vec<ChoiceCount>,
}

#[derive(Debug)]
pub struct SessionState {
    pub current_page: i32,
    pub current_step: i32,
    pub active_vote_ids: Vec<String>,
    pub votes: Vec<Vote>,
    pub vote_summaries: Vec<VoteSummary>,
}

#[derive(Debug)]
pub struct Vote {
    pub vote_id: String,
    pub choice_id: String,
    pub voter_id: String,
}

pub ghost struct ChoiceCountView {
    pub choice_id: Seq<char>,
    pub votes: i32,
}

pub ghost struct VoteSummaryView {
    pub vote_id: Seq<char>,
    pub choice_votes: Seq<ChoiceCountView>,
}

pub ghost struct VoteView {
    pub vote_id: Seq<char>,
    pub choice_id: Seq<char>,
    pub voter_id: Seq<char>,
}

/// The mathematical value of a [`SessionState`].
pub ghost struct SessionStateView {
    pub current_page: i32,
    pub current_step: i32,
    pub active_vote_ids: Seq<Seq<char>>,
    pub votes: Seq<VoteView>,
    pub vote_summaries: Seq<VoteSummaryView>,
}

/// No choice occurs twice among the counts.
pub open spec fn distinct_choices(counts: Seq<ChoiceCountView>) -> bool {
    forall|a: int, b: int|
        0 <= a < b < counts.len() ==> (#[trigger] counts[a]).choice_id != (
        #[trigger] counts[b]).choice_id
}

impl VoteSummaryView {
    /// A summary counts each choice once.
    pub open spec fn wf(self) -> bool {
        distinct_choices(self.choice_votes)
    }
}

impl SessionStateView {
    /// Every summary of a live state counts each choice once.
    pub open spec fn wf(self) -> bool {
        forall|i: int|
            0 <= i < self.vote_summaries.len() ==> (#[trigger] self.vote_summaries[i]).wf()
    }
}

impl DeepView for ChoiceCount {
    type V = ChoiceCountView;

    open spec fn deep_view(&self) -> ChoiceCountView {
        ChoiceCountView { choice_id: self.choice_id@, votes: self.votes }
    }
}

impl DeepView for VoteSummary {
    type V = VoteSummaryView;

    open spec fn deep_view(&self) -> VoteSummaryView {
        VoteSummaryView { vote_id: self.vote_id@, choice_votes: self.choice_votes.deep_view() }
    }
}

impl DeepView for Vote {
    type V = VoteView;

    open spec fn deep_view(&self) -> VoteView {
        VoteView { vote_id: self.vote_id@, choice_id: self.choice_id@, voter_id: self.voter_id@ }
    }
}

impl DeepView for SessionState {
    type V = SessionStateView;

    open spec fn deep_view(&self) -> SessionStateView {
        SessionStateView {
            current_page: self.current_page,
            current_step: self.current_step,
            active_vote_ids: self.active_vote_ids.deep_view(),
            votes: self.votes.deep_view(),
            vote_summaries: self.vote_summaries.deep_view(),
        }
    }
}

} // verus!
