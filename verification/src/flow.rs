//! The vocabulary of a handler's run: what comes in, what a handler asks the
//! outside to do, what the outside answers, and what a handler keeps in mind
//! while it waits.

use vstd::prelude::*;
use crate::json::{JsonBody, JsonBodyView};
use crate::message::{
    email_views, BackendRequest, BackendRequestView, BackendResponse, BackendResponseView, Email,
    EmailView, GithubError, GithubErrorView, Session, SessionView,
};
use crate::net::{NetError, NetErrorView};
use crate::params::param_entries;
use crate::response::{Response, ResponseView};

verus! {

/// An inbound request, as far as the handlers read it.
pub struct Request {
    /// The named parameters of the path.
    pub params: router::Params,
    /// The parsed body; none where there was no body or it did not parse.
    pub body: Option<JsonBody>,
    /// The identity that upstream middleware attached.
    pub session: Option<Session>,
}

/// What a `Request` stands for.
pub struct RequestView {
    pub params: Map<Seq<char>, Seq<char>>,
    pub body: Option<JsonBodyView>,
    pub session: Option<SessionView>,
}

impl View for Request {
    type V = RequestView;

    open spec fn view(&self) -> RequestView {
        RequestView {
            params: param_entries(self.params),
            body: match self.body {
                Some(b) => Some(b@),
                None => None,
            },
            session: match self.session {
                Some(s) => Some(s@),
                None => None,
            },
        }
    }
}

/// What a project creation has gathered so far.
#[derive(Clone, Debug, PartialEq, Eq)]
pub struct Draft {
    pub owner_id: u64,
    pub token: String,
    pub plan_path: String,
    pub organization: String,
    pub repo: String,
    /// The origin's name as the backend gave it; empty until then.
    pub origin: String,
    /// The repository's clone URL; empty until it was fetched.
    pub git_url: String,
}

/// What a `Draft` stands for.
pub struct DraftView {
    pub owner_id: u64,
    pub token: Seq<char>,
    pub plan_path: Seq<char>,
    pub organization: Seq<char>,
    pub repo: Seq<char>,
    pub origin: Seq<char>,
    pub git_url: Seq<char>,
}

impl View for Draft {
    type V = DraftView;

    open spec fn view(&self) -> DraftView {
        DraftView {
            owner_id: self.owner_id,
            token: self.token@,
            plan_path: self.plan_path@,
            organization: self.organization@,
            repo: self.repo@,
            origin: self.origin@,
            git_url: self.git_url@,
        }
    }
}

/// Work that a handler asks the outside to do on its behalf.
#[derive(Clone, Debug, PartialEq, Eq)]
#[allow(inconsistent_fields)]
pub enum Outbound {
    /// One round trip to the backend through the broker.
    Route(BackendRequest),
    /// Exchange an authorization code for an access token.
    Authenticate { code: String },
    /// Fetch the profile of the token's user.
    FetchUser { token: String },
    /// Fetch the addresses of the token's user.
    FetchEmails { token: String },
    /// Fetch a repository's metadata.
    FetchRepo { token: String, organization: String, repo: String },
    /// Fetch a file of a repository.
    FetchContents { token: String, organization: String, repo: String, path: String },
    /// Read a plan and give its name.
    ParsePlan { bytes: Vec<u8> },
}

/// What an `Outbound` stands for.
#[allow(inconsistent_fields)]
pub enum OutboundView {
    Route(BackendRequestView),
    Authenticate { code: Seq<char> },
    FetchUser { token: Seq<char> },
    FetchEmails { token: Seq<char> },
    FetchRepo { token: Seq<char>, organization: Seq<char>, repo: Seq<char> },
    FetchContents { token: Seq<char>, organization: Seq<char>, repo: Seq<char>, path: Seq<char> },
    ParsePlan { bytes: Seq<u8> },
}

impl View for Outbound {
    type V = OutboundView;

    open spec fn view(&self) -> OutboundView {
        match self {
            Outbound::Route(r) => OutboundView::Route(r@),
            Outbound::Authenticate { code } => OutboundView::Authenticate { code: code@ },
            Outbound::FetchUser { token } => OutboundView::FetchUser { token: token@ },
            Outbound::FetchEmails { token } => OutboundView::FetchEmails { token: token@ },
            Outbound::FetchRepo { token, organization, repo } => OutboundView::FetchRepo {
                token: token@,
                organization: organization@,
                repo: repo@,
            },
            Outbound::FetchContents { token, organization, repo, path } => {
                OutboundView::FetchContents {
                    token: token@,
                    organization: organization@,
                    repo: repo@,
                    path: path@,
                }
            },
            Outbound::ParsePlan { bytes } => OutboundView::ParsePlan { bytes: bytes@ },
        }
    }
}

/// What the outside answers to an `Outbound`.
#[derive(Clone, Debug, PartialEq, Eq)]
pub enum Event {
    /// The backend answered.
    Reply(BackendResponse),
    /// The backend reported a failure.
    Failure(NetError),
    /// No connection to the broker could be had.
    Unavailable,
    /// The access token that a code was exchanged for.
    Token(String),
    /// The profile of a user.
    User { id: u64, login: String },
    /// The addresses of a user.
    Emails(Vec<Email>),
    /// The metadata of a repository.
    Repo { clone_url: String },
    /// A file of a repository, in base64.
    Contents { content: String },
    /// The source-control service failed.
    GithubFailure(GithubError),
    /// The name that a plan declares.
    Plan { name: String },
    /// The plan could not be read.
    PlanMalformed,
}

/// What an `Event` stands for.
pub enum EventView {
    Reply(BackendResponseView),
    Failure(NetErrorView),
    Unavailable,
    Token(Seq<char>),
    User { id: u64, login: Seq<char> },
    Emails(Seq<EmailView>),
    Repo { clone_url: Seq<char> },
    Contents { content: Seq<char> },
    GithubFailure(GithubErrorView),
    Plan { name: Seq<char> },
    PlanMalformed,
}

impl View for Event {
    type V = EventView;

    open spec fn view(&self) -> EventView {
        match self {
            Event::Reply(r) => EventView::Reply(r@),
            Event::Failure(e) => EventView::Failure(e@),
            Event::Unavailable => EventView::Unavailable,
            Event::Token(t) => EventView::Token(t@),
            Event::User { id, login } => EventView::User { id: *id, login: login@ },
            Event::Emails(list) => EventView::Emails(email_views(list@)),
            Event::Repo { clone_url } => EventView::Repo { clone_url: clone_url@ },
            Event::Contents { content } => EventView::Contents { content: content@ },
            Event::GithubFailure(e) => EventView::GithubFailure(e@),
            Event::Plan { name } => EventView::Plan { name: name@ },
            Event::PlanMalformed => EventView::PlanMalformed,
        }
    }
}

/// What a handler keeps in mind while the outside works: where in its
/// pipeline it stands and what it has gathered.
#[derive(Clone, Debug, PartialEq, Eq)]
#[allow(inconsistent_fields)]
pub enum Pending {
    SessionToken,
    SessionUser { token: String },
    SessionEmails { token: String, extern_id: u64, name: String },
    SessionSave,
    JobProject { owner_id: u64 },
    JobSave,
    JobShow,
    Invitations,
    Origins,
    InvitationAccept,
    ProjectOrigin(Draft),
    ProjectRepo(Draft),
    ProjectContents(Draft),
    ProjectPlan(Draft),
    ProjectSave,
    ProjectDelete,
    ProjectUpdate,
    ProjectShow,
}

/// What a `Pending` stands for.
#[allow(inconsistent_fields)]
pub enum PendingView {
    SessionToken,
    SessionUser { token: Seq<char> },
    SessionEmails { token: Seq<char>, extern_id: u64, name: Seq<char> },
    SessionSave,
    JobProject { owner_id: u64 },
    JobSave,
    JobShow,
    Invitations,
    Origins,
    InvitationAccept,
    ProjectOrigin(DraftView),
    ProjectRepo(DraftView),
    ProjectContents(DraftView),
    ProjectPlan(DraftView),
    ProjectSave,
    ProjectDelete,
    ProjectUpdate,
    ProjectShow,
}

impl View for Pending {
    type V = PendingView;

    open spec fn view(&self) -> PendingView {
        match self {
            Pending::SessionToken => PendingView::SessionToken,
            Pending::SessionUser { token } => PendingView::SessionUser { token: token@ },
            Pending::SessionEmails { token, extern_id, name } => PendingView::SessionEmails {
                token: token@,
                extern_id: *extern_id,
                name: name@,
            },
            Pending::SessionSave => PendingView::SessionSave,
            Pending::JobProject { owner_id } => PendingView::JobProject { owner_id: *owner_id },
            Pending::JobSave => PendingView::JobSave,
            Pending::JobShow => PendingView::JobShow,
            Pending::Invitations => PendingView::Invitations,
            Pending::Origins => PendingView::Origins,
            Pending::InvitationAccept => PendingView::InvitationAccept,
            Pending::ProjectOrigin(d) => PendingView::ProjectOrigin(d@),
            Pending::ProjectRepo(d) => PendingView::ProjectRepo(d@),
            Pending::ProjectContents(d) => PendingView::ProjectContents(d@),
            Pending::ProjectPlan(d) => PendingView::ProjectPlan(d@),
            Pending::ProjectSave => PendingView::ProjectSave,
            Pending::ProjectDelete => PendingView::ProjectDelete,
            Pending::ProjectUpdate => PendingView::ProjectUpdate,
            Pending::ProjectShow => PendingView::ProjectShow,
        }
    }
}

/// A defect of the deployment, as opposed to a failure of a request.
#[derive(Clone, Copy, Debug, PartialEq, Eq, Structural)]
pub enum Fault {
    /// A handler that needs an identity was run without one.
    MissingSession,
    /// The outside answered with something that the handler did not ask for.
    UnexpectedEvent,
}

/// What a handler decides: to answer, to give up loudly, or to have the
/// outside do one thing and to go on from its answer.
#[derive(Clone, Debug, PartialEq, Eq)]
pub enum Step {
    Done(Response),
    Abort(Fault),
    Call { request: Outbound, then: Pending },
}

/// What a `Step` stands for.
pub enum StepView {
    Done(ResponseView),
    Abort(Fault),
    Call { request: OutboundView, then: PendingView },
}

impl View for Step {
    type V = StepView;

    open spec fn view(&self) -> StepView {
        match self {
            Step::Done(r) => StepView::Done(r@),
            Step::Abort(f) => StepView::Abort(*f),
            Step::Call { request, then } => StepView::Call { request: request@, then: then@ },
        }
    }
}

impl StepView {
    /// Whether the step has the backend do anything.
    pub open spec fn routes(self) -> bool {
        self matches StepView::Call { request: OutboundView::Route(_), .. }
    }

    /// Whether the step has the source-control service or the plan reader do
    /// anything.
    pub open spec fn fetches(self) -> bool {
        self is Call && !self.routes()
    }
}

} // verus!
