//! The typed messages that travel to the backend and back, and the identity
//! that upstream middleware attaches to a request.

use vstd::prelude::*;

verus! {

/// Who vouched for an identity.
#[derive(Clone, Copy, Debug, PartialEq, Eq, Structural)]
pub enum OAuthProvider {
    GitHub,
}

/// The authenticated identity of a request.
#[derive(Clone, Debug, PartialEq, Eq)]
pub struct Session {
    pub id: u64,
    pub token: String,
    pub provider: OAuthProvider,
}

/// What a `Session` stands for.
pub struct SessionView {
    pub id: u64,
    pub token: Seq<char>,
    pub provider: OAuthProvider,
}

impl View for Session {
    type V = SessionView;

    open spec fn view(&self) -> SessionView {
        SessionView { id: self.id, token: self.token@, provider: self.provider }
    }
}

/// A project: a plan in a repository, owned by an account.
#[derive(Clone, Debug, PartialEq, Eq)]
pub struct Project {
    pub id: String,
    pub owner_id: u64,
    pub plan_path: String,
    pub git_url: String,
}

/// What a `Project` stands for.
pub struct ProjectView {
    pub id: Seq<char>,
    pub owner_id: u64,
    pub plan_path: Seq<char>,
    pub git_url: Seq<char>,
}

impl View for Project {
    type V = ProjectView;

    open spec fn view(&self) -> ProjectView {
        ProjectView {
            id: self.id@,
            owner_id: self.owner_id,
            plan_path: self.plan_path@,
            git_url: self.git_url@,
        }
    }
}

/// A project of which only the identifier is set.
pub open spec fn project_named(id: Seq<char>) -> ProjectView {
    ProjectView { id, owner_id: 0, plan_path: Seq::empty(), git_url: Seq::empty() }
}

/// A request to the backend. Every field of a variant is set before dispatch.
#[derive(Clone, Debug, PartialEq, Eq)]
#[allow(inconsistent_fields)]
pub enum BackendRequest {
    SessionCreate {
        token: String,
        extern_id: u64,
        email: String,
        name: String,
        provider: OAuthProvider,
    },
    JobGet { id: u64 },
    JobSpec { owner_id: u64, project: Project },
    ProjectGet { id: String },
    ProjectCreate { project: Project },
    ProjectDelete { id: String, requestor_id: u64 },
    ProjectUpdate { requestor_id: u64, project: Project },
    OriginGet { name: String },
    AccountInvitationList { account_id: u64 },
    AccountOriginList { account_id: u64 },
    OriginInvitationAccept { account_accepting_request: u64, invite_id: u64, ignore: bool },
}

/// What a `BackendRequest` stands for.
#[allow(inconsistent_fields)]
pub enum BackendRequestView {
    SessionCreate {
        token: Seq<char>,
        extern_id: u64,
        email: Seq<char>,
        name: Seq<char>,
        provider: OAuthProvider,
    },
    JobGet { id: u64 },
    JobSpec { owner_id: u64, project: ProjectView },
    ProjectGet { id: Seq<char> },
    ProjectCreate { project: ProjectView },
    ProjectDelete { id: Seq<char>, requestor_id: u64 },
    ProjectUpdate { requestor_id: u64, project: ProjectView },
    OriginGet { name: Seq<char> },
    AccountInvitationList { account_id: u64 },
    AccountOriginList { account_id: u64 },
    OriginInvitationAccept { account_accepting_request: u64, invite_id: u64, ignore: bool },
}

impl View for BackendRequest {
    type V = BackendRequestView;

    open spec fn view(&self) -> BackendRequestView {
        match self {
            BackendRequest::SessionCreate { token, extern_id, email, name, provider } => {
                BackendRequestView::SessionCreate {
                    token: token@,
                    extern_id: *extern_id,
                    email: email@,
                    name: name@,
                    provider: *provider,
                }
            },
            BackendRequest::JobGet { id } => BackendRequestView::JobGet { id: *id },
            BackendRequest::JobSpec { owner_id, project } => BackendRequestView::JobSpec {
                owner_id: *owner_id,
                project: project@,
            },
            BackendRequest::ProjectGet { id } => BackendRequestView::ProjectGet { id: id@ },
            BackendRequest::ProjectCreate { project } => BackendRequestView::ProjectCreate {
                project: project@,
            },
            BackendRequest::ProjectDelete { id, requestor_id } => {
                BackendRequestView::ProjectDelete { id: id@, requestor_id: *requestor_id }
            },
            BackendRequest::ProjectUpdate { requestor_id, project } => {
                BackendRequestView::ProjectUpdate {
                    requestor_id: *requestor_id,
                    project: project@,
                }
            },
            BackendRequest::OriginGet { name } => BackendRequestView::OriginGet { name: name@ },
            BackendRequest::AccountInvitationList { account_id } => {
                BackendRequestView::AccountInvitationList { account_id: *account_id }
            },
            BackendRequest::AccountOriginList { account_id } => {
                BackendRequestView::AccountOriginList { account_id: *account_id }
            },
            BackendRequest::OriginInvitationAccept {
                account_accepting_request,
                invite_id,
                ignore,
            } => BackendRequestView::OriginInvitationAccept {
                account_accepting_request: *account_accepting_request,
                invite_id: *invite_id,
                ignore: *ignore,
            },
        }
    }
}

/// A successful answer of the backend. `json` is the answer as a JSON
/// document; the handlers hand it on as it came.
#[derive(Clone, Debug, PartialEq, Eq)]
pub enum BackendResponse {
    Session { json: String },
    Job { json: String },
    Project { project: Project, json: String },
    Origin { name: String, json: String },
    AccountInvitationList { json: String },
    AccountOriginList { json: String },
    OriginInvitationAccept,
    NetOk,
}

/// What a `BackendResponse` stands for.
pub enum BackendResponseView {
    Session { json: Seq<char> },
    Job { json: Seq<char> },
    Project { project: ProjectView, json: Seq<char> },
    Origin { name: Seq<char>, json: Seq<char> },
    AccountInvitationList { json: Seq<char> },
    AccountOriginList { json: Seq<char> },
    OriginInvitationAccept,
    NetOk,
}

impl View for BackendResponse {
    type V = BackendResponseView;

    open spec fn view(&self) -> BackendResponseView {
        match self {
            BackendResponse::Session { json } => BackendResponseView::Session { json: json@ },
            BackendResponse::Job { json } => BackendResponseView::Job { json: json@ },
            BackendResponse::Project { project, json } => BackendResponseView::Project {
                project: project@,
                json: json@,
            },
            BackendResponse::Origin { name, json } => BackendResponseView::Origin {
                name: name@,
                json: json@,
            },
            BackendResponse::AccountInvitationList { json } => {
                BackendResponseView::AccountInvitationList { json: json@ }
            },
            BackendResponse::AccountOriginList { json } => {
                BackendResponseView::AccountOriginList { json: json@ }
            },
            BackendResponse::OriginInvitationAccept => BackendResponseView::OriginInvitationAccept,
            BackendResponse::NetOk => BackendResponseView::NetOk,
        }
    }
}

/// An address of a source-control account.
#[derive(Clone, Debug, PartialEq, Eq)]
pub struct Email {
    pub email: String,
    pub primary: bool,
}

/// What an `Email` stands for.
pub struct EmailView {
    pub email: Seq<char>,
    pub primary: bool,
}

impl View for Email {
    type V = EmailView;

    open spec fn view(&self) -> EmailView {
        EmailView { email: self.email@, primary: self.primary }
    }
}

/// The addresses of an account, each by what it stands for.
pub open spec fn email_views(emails: Seq<Email>) -> Seq<EmailView> {
    Seq::new(emails.len(), |i: int| emails[i]@)
}

/// The position of the first primary address at or after `from`, or the
/// number of addresses where there is none.
pub open spec fn first_primary(emails: Seq<EmailView>, from: int) -> int
    decreases emails.len() - from,
{
    if from < 0 || from >= emails.len() {
        emails.len() as int
    } else if emails[from].primary {
        from
    } else {
        first_primary(emails, from + 1)
    }
}

/// The address to file an account under: its first primary address, else its
/// first address, else none.
pub open spec fn chosen_email(emails: Seq<EmailView>) -> Option<Seq<char>> {
    if emails.len() == 0 {
        None
    } else if first_primary(emails, 0) < emails.len() {
        Some(emails[first_primary(emails, 0)].email)
    } else {
        Some(emails[0].email)
    }
}

/// Picks the address to file an account under.
pub fn choose_email(emails: &Vec<Email>) -> (chosen: Option<String>)
    ensures
        chosen matches Some(e) ==> chosen_email(email_views(emails@)) == Some(e@),
        chosen is None ==> chosen_email(email_views(emails@)) is None,
{
    if emails.len() == 0 {
        return None;
    }
    let ghost views = email_views(emails@);
    let mut i: usize = 0;
    while i < emails.len()
        invariant
            0 <= i <= emails.len(),
            views == email_views(emails@),
            first_primary(views, 0) == first_primary(views, i as int),
        decreases emails.len() - i,
    {
        if emails[i].primary {
            return Some(emails[i].email.clone());
        }
        i = i + 1;
    }
    Some(emails[0].email.clone())
}

/// Why a call of the source-control service failed.
#[derive(Clone, Debug, PartialEq, Eq)]
pub enum GithubError {
    /// The service refused the credentials, and said why.
    Auth { error: String },
    /// The service answered with something that could not be decoded.
    JsonDecode,
    /// Any other failure.
    Other,
}

/// What a `GithubError` stands for.
pub enum GithubErrorView {
    Auth { error: Seq<char> },
    JsonDecode,
    Other,
}

impl View for GithubError {
    type V = GithubErrorView;

    open spec fn view(&self) -> GithubErrorView {
        match self {
            GithubError::Auth { error } => GithubErrorView::Auth { error: error@ },
            GithubError::JsonDecode => GithubErrorView::JsonDecode,
            GithubError::Other => GithubErrorView::Other,
        }
    }
}

} // verus!
