//! The read-only description of a session.

use vstd::prelude::*;

verus! {

#[derive(Debug)]
pub struct SessionInfoPageScript {
    pub content: String,
}

#[derive(Debug)]
pub struct SessionInfoPage {
    pub page_id: String,
    pub title: String,
    pub scripts: Vec<SessionInfoPageScript>,
}

#[derive(Debug)]
pub struct SessionInfoAvailableVoteChoice {
    pub choice_id: String,
    pub title: String,
    pub description: Option<String>,
    pub color: Option<String>,
}

#[derive(Debug)]
pub struct SessionInfoAvailableVote {
    pub vote_id: String,
    pub title: String,
    pub description: Option<String>,
    pub choices: Vec<SessionInfoAvailableVoteChoice>,
}

#[derive(Debug)]
pub struct SessionInfoVote {
    pub vote_id: String,
    pub choice_id: String,
    pub voter_id: String,
}

#[derive(Debug)]
pub struct SessionInfoState {
    pub current_page: i8,
    pub available_vote_id: Option<String>,
    pub votes: Vec<SessionInfoVote>,
}

#[derive(Debug)]
pub struct SessionInfo {
    pub session_id: String,
    pub slide_id: String,
    pub title: String,
    pub pages: Vec<SessionInfoPage>,
    pub available_votes: Vec<SessionInfoAvailableVote>,
    pub state: SessionInfoState,
}

pub ghost struct SessionInfoPageScriptView {
    pub content: Seq<char>,
}

pub ghost struct SessionInfoPageView {
    pub page_id: Seq<char>,
    pub title: Seq<char>,
    pub scripts: Seq<SessionInfoPageScriptView>,
}

pub ghost struct SessionInfoAvailableVoteChoiceView {
    pub choice_id: Seq<char>,
    pub title: Seq<char>,
    pub description: Option<Seq<char>>,
    pub color: Option<Seq<char>>,
}

pub ghost struct SessionInfoAvailableVoteView {
    pub vote_id: Seq<char>,
    pub title: Seq<char>,
    pub description: Option<Seq<char>>,
    pub choices: Seq<SessionInfoAvailableVoteChoiceView>,
}

pub ghost struct SessionInfoVoteView {
    pub vote_id: Seq<char>,
    pub choice_id: Seq<char>,
    pub voter_id: Seq<char>,
}

pub ghost struct SessionInfoStateView {
    pub current_page: i8,
    pub available_vote_id: Option<Seq<char>>,
    pub votes: Seq<SessionInfoVoteView>,
}

/// The mathematical value of a [`SessionInfo`].
pub ghost struct SessionInfoView {
    pub session_id: Seq<char>,
    pub slide_id: Seq<char>,
    pub title: Seq<char>,
    pub pages: Seq<SessionInfoPageView>,
    pub available_votes: Seq<SessionInfoAvailableVoteView>,
    pub state: SessionInfoStateView,
}

impl DeepView for SessionInfoPageScript {
    type V = SessionInfoPageScriptView;

    open spec fn deep_view(&self) -> SessionInfoPageScriptView {
        SessionInfoPageScriptView { content: self.content@ }
    }
}

impl DeepView for SessionInfoPage {
    type V = SessionInfoPageView;

    open spec fn deep_view(&self) -> SessionInfoPageView {
        SessionInfoPageView {
            page_id: self.page_id@,
            title: self.title@,
            scripts: self.scripts.deep_view(),
        }
    }
}

impl DeepView for SessionInfoAvailableVoteChoice {
    type V = SessionInfoAvailableVoteChoiceView;

    open spec fn deep_view(&self) -> SessionInfoAvailableVoteChoiceView {
        SessionInfoAvailableVoteChoiceView {
            choice_id: self.choice_id@,
            title: self.title@,
            description: self.description.deep_view(),
            color: self.color.deep_view(),
        }
    }
}

impl DeepView for SessionInfoAvailableVote {
    type V = SessionInfoAvailableVoteView;

    open spec fn deep_view(&self) -> SessionInfoAvailableVoteView {
        SessionInfoAvailableVoteView {
            vote_id: self.vote_id@,
            title: self.title@,
            description: self.description.deep_view(),
            choices: self.choices.deep_view(),
        }
    }
}

impl DeepView for SessionInfoVote {
    type V = SessionInfoVoteView;

    open spec fn deep_view(&self) -> SessionInfoVoteView {
        SessionInfoVoteView {
            vote_id: self.vote_id@,
            choice_id: self.choice_id@,
            voter_id: self.voter_id@,
        }
    }
}

impl DeepView for SessionInfoState {
    type V = SessionInfoStateView;

    open spec fn deep_view(&self) -> SessionInfoStateView {
        SessionInfoStateView {
            current_page: self.current_page,
            available_vote_id: self.available_vote_id.deep_view(),
            votes: self.votes.deep_view(),
        }
    }
}

impl DeepView for SessionInfo {
    type V = SessionInfoView;

    open spec fn deep_view(&self) -> SessionInfoView {
        SessionInfoView {
            session_id: self.session_id@,
            slide_id: self.slide_id@,
            title: self.title@,
            pages: self.pages.deep_view(),
            available_votes: self.available_votes.deep_view(),
            state: self.state.deep_view(),
        }
    }
}

} // verus!
