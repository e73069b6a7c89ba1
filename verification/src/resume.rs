//! How a handler goes on once the outside has answered: from what the handler
//! kept in mind and the answer to its next step. The first failure ends the
//! pipeline; nothing is asked again.

use vstd::prelude::*;
use vstd::string::StringExecFns;
use crate::flow::{
    Draft, DraftView, Event, EventView, Fault, Outbound, OutboundView, Pending, PendingView, Step,
    StepView,
};
use crate::handlers::{refuse, route};
use crate::message::{
    choose_email, chosen_email, BackendRequest, BackendRequestView, BackendResponse,
    BackendResponseView, GithubError, GithubErrorView, OAuthProvider, Project, ProjectView,
};
use crate::net::{err, ErrCode, NetErrorView};
use crate::response::{
    document, error_response, plain, render_json, render_net_error, respond, respond_text,
};
use crate::status::Status;
use rustc_serialize::base64::{FromBase64, FromBase64Error};

verus! {

#[verifier::external_type_specification]
#[verifier::external_body]
pub struct ExFromBase64Error(FromBase64Error);

/// The bytes that `from_base64` of `rustc_serialize` reads from a text; none
/// where it refuses the text.
pub uninterp spec fn base64_decoded(text: Seq<char>) -> Option<Seq<u8>>;

/// Calls `FromBase64::from_base64` on a text. The call reads the text's bytes
/// against a fixed table and gives the decoded bytes or the reason why the
/// text is no base64, so what it gives depends on the text alone.
#[verifier::external_body]
fn from_base64(text: &str) -> (decoded: Result<Vec<u8>, FromBase64Error>)
    ensures
        decoded matches Ok(bytes) ==> base64_decoded(text@) == Some(bytes@),
        decoded is Err ==> base64_decoded(text@) is None,
{
    text.from_base64()
}

/// A step that answers with a JSON document.
pub open spec fn answer(status: Status, json: Seq<char>) -> StepView {
    StepView::Done(document(status, json))
}

/// A step that answers with a plain text.
pub open spec fn reject(status: Status, text: Seq<char>) -> StepView {
    StepView::Done(plain(status, text))
}

/// A step that answers with a rendered failure.
pub open spec fn fail(code: ErrCode, msg: Seq<char>) -> StepView {
    StepView::Done(error_response(NetErrorView { code, msg }))
}

/// The step after an answer that the handler did not ask for.
pub open spec fn unexpected() -> StepView {
    StepView::Abort(Fault::UnexpectedEvent)
}

/// What every handler does when the backend does not answer with a message:
/// a reported failure is rendered as it is, and a missing connection degrades
/// to an internal error. Any other event is none of the backend's.
pub open spec fn unrouted(event: EventView) -> StepView {
    match event {
        EventView::Failure(e) => StepView::Done(error_response(e)),
        EventView::Unavailable => refuse(Status::InternalServerError),
        _ => unexpected(),
    }
}

/// The identifier of a project: its origin's name, a slash, the plan's name.
pub open spec fn project_id(origin: Seq<char>, name: Seq<char>) -> Seq<char> {
    origin + "/"@ + name
}

/// After the exchange of the authorization code.
pub open spec fn session_token_step(event: EventView) -> StepView {
    match event {
        EventView::Token(token) => StepView::Call {
            request: OutboundView::FetchUser { token },
            then: PendingView::SessionUser { token },
        },
        EventView::GithubFailure(GithubErrorView::Auth { error }) => fail(
            ErrCode::RemoteRejected,
            error,
        ),
        EventView::GithubFailure(GithubErrorView::JsonDecode) => fail(
            ErrCode::BadRemoteReply,
            "rg:auth:1"@,
        ),
        EventView::GithubFailure(GithubErrorView::Other) => fail(ErrCode::Bug, "rg:auth:0"@),
        _ => unexpected(),
    }
}

/// After the fetch of the user's profile.
pub open spec fn session_user_step(token: Seq<char>, event: EventView) -> StepView {
    match event {
        EventView::User { id, login } => StepView::Call {
            request: OutboundView::FetchEmails { token },
            then: PendingView::SessionEmails { token, extern_id: id, name: login },
        },
        EventView::GithubFailure(GithubErrorView::JsonDecode) => fail(
            ErrCode::BadRemoteReply,
            "rg:auth:1"@,
        ),
        EventView::GithubFailure(_) => fail(ErrCode::Bug, "rg:auth:2"@),
        _ => unexpected(),
    }
}

/// After the fetch of the user's addresses. An account without any address is
/// denied, as one whose addresses cannot be had.
pub open spec fn session_emails_step(
    token: Seq<char>,
    extern_id: u64,
    name: Seq<char>,
    event: EventView,
) -> StepView {
    match event {
        EventView::Emails(emails) => match chosen_email(emails) {
            Some(email) => route(
                BackendRequestView::SessionCreate {
                    token,
                    extern_id,
                    email,
                    name,
                    provider: OAuthProvider::GitHub,
                },
                PendingView::SessionSave,
            ),
            None => fail(ErrCode::AccessDenied, "rg:auth:0"@),
        },
        EventView::GithubFailure(_) => fail(ErrCode::AccessDenied, "rg:auth:0"@),
        _ => unexpected(),
    }
}

/// After the lookup of the project that a job is for.
pub open spec fn job_project_step(owner_id: u64, event: EventView) -> StepView {
    match event {
        EventView::Reply(BackendResponseView::Project { project, json }) => route(
            BackendRequestView::JobSpec { owner_id, project },
            PendingView::JobSave,
        ),
        EventView::Reply(_) => unexpected(),
        _ => unrouted(event),
    }
}

/// After the lookup of the origin that a project goes to.
pub open spec fn project_origin_step(draft: DraftView, event: EventView) -> StepView {
    match event {
        EventView::Reply(BackendResponseView::Origin { name, json }) => StepView::Call {
            request: OutboundView::FetchRepo {
                token: draft.token,
                organization: draft.organization,
                repo: draft.repo,
            },
            then: PendingView::ProjectRepo(
                DraftView {
                    owner_id: draft.owner_id,
                    token: draft.token,
                    plan_path: draft.plan_path,
                    organization: draft.organization,
                    repo: draft.repo,
                    origin: name,
                    git_url: draft.git_url,
                },
            ),
        },
        EventView::Reply(_) => unexpected(),
        _ => unrouted(event),
    }
}

/// After the fetch of the repository's metadata.
pub open spec fn project_repo_step(draft: DraftView, event: EventView) -> StepView {
    match event {
        EventView::Repo { clone_url } => StepView::Call {
            request: OutboundView::FetchContents {
                token: draft.token,
                organization: draft.organization,
                repo: draft.repo,
                path: draft.plan_path,
            },
            then: PendingView::ProjectContents(
                DraftView {
                    owner_id: draft.owner_id,
                    token: draft.token,
                    plan_path: draft.plan_path,
                    organization: draft.organization,
                    repo: draft.repo,
                    origin: draft.origin,
                    git_url: clone_url,
                },
            ),
        },
        EventView::GithubFailure(_) => reject(Status::BadRequest, "rg:pc:1"@),
        _ => unexpected(),
    }
}

/// After the decoding of the plan file: decoded bytes go to the plan reader,
/// and a file that is no base64 ends the pipeline.
pub open spec fn plan_step(draft: DraftView, decoded: Option<Seq<u8>>) -> StepView {
    match decoded {
        Some(bytes) => StepView::Call {
            request: OutboundView::ParsePlan { bytes },
            then: PendingView::ProjectPlan(draft),
        },
        None => reject(Status::BadRequest, "rg:pc:4"@),
    }
}

/// After the fetch of the plan file.
pub open spec fn project_contents_step(draft: DraftView, event: EventView) -> StepView {
    match event {
        EventView::Contents { content } => plan_step(draft, base64_decoded(content)),
        EventView::GithubFailure(_) => reject(Status::BadRequest, "rg:pc:2"@),
        _ => unexpected(),
    }
}

/// After the reading of the plan: the one request that creates the project.
pub open spec fn project_plan_step(draft: DraftView, event: EventView) -> StepView {
    match event {
        EventView::Plan { name } => route(
            BackendRequestView::ProjectCreate {
                project: ProjectView {
                    id: project_id(draft.origin, name),
                    owner_id: draft.owner_id,
                    plan_path: draft.plan_path,
                    git_url: draft.git_url,
                },
            },
            PendingView::ProjectSave,
        ),
        EventView::PlanMalformed => reject(Status::BadRequest, "rg:pc:3"@),
        _ => unexpected(),
    }
}

/// After the last request of a pipeline: the backend's message is rendered
/// with the status that the endpoint answers success with.
pub open spec fn last_step(pending: PendingView, event: EventView) -> StepView {
    match event {
        EventView::Reply(reply) => match (pending, reply) {
            (PendingView::SessionSave, BackendResponseView::Session { json }) => answer(
                Status::Okay,
                json,
            ),
            (PendingView::JobSave, BackendResponseView::Job { json }) => answer(
                Status::Created,
                json,
            ),
            (PendingView::JobShow, BackendResponseView::Job { json }) => answer(
                Status::Okay,
                json,
            ),
            (
                PendingView::Invitations,
                BackendResponseView::AccountInvitationList { json },
            ) => answer(Status::Okay, json),
            (PendingView::Origins, BackendResponseView::AccountOriginList { json }) => answer(
                Status::Okay,
                json,
            ),
            (
                PendingView::InvitationAccept,
                BackendResponseView::OriginInvitationAccept,
            ) => refuse(Status::NoContent),
            (PendingView::ProjectSave, BackendResponseView::Project { project, json }) => answer(
                Status::Created,
                json,
            ),
            (PendingView::ProjectShow, BackendResponseView::Project { project, json }) => answer(
                Status::Okay,
                json,
            ),
            (PendingView::ProjectDelete, BackendResponseView::NetOk) => refuse(Status::NoContent),
            (PendingView::ProjectUpdate, BackendResponseView::NetOk) => refuse(Status::NoContent),
            _ => unexpected(),
        },
        _ => unrouted(event),
    }
}

/// The step that follows an answer of the outside.
pub open spec fn next_step(pending: PendingView, event: EventView) -> StepView {
    match pending {
        PendingView::SessionToken => session_token_step(event),
        PendingView::SessionUser { token } => session_user_step(token, event),
        PendingView::SessionEmails { token, extern_id, name } => session_emails_step(
            token,
            extern_id,
            name,
            event,
        ),
        PendingView::JobProject { owner_id } => job_project_step(owner_id, event),
        PendingView::ProjectOrigin(draft) => project_origin_step(draft, event),
        PendingView::ProjectRepo(draft) => project_repo_step(draft, event),
        PendingView::ProjectContents(draft) => project_contents_step(draft, event),
        PendingView::ProjectPlan(draft) => project_plan_step(draft, event),
        _ => last_step(pending, event),
    }
}

/// Ends a pipeline with a failure that the handler raises itself.
fn raise(code: ErrCode, msg: &str) -> (step: Step)
    ensures
        step@ == fail(code, msg@),
{
    let e = err(code, msg);
    Step::Done(render_net_error(&e))
}

/// Answers an event that is no message of the backend.
fn on_unrouted(event: Event) -> (step: Step)
    ensures
        step@ == unrouted(event@),
{
    match event {
        Event::Failure(e) => Step::Done(render_net_error(&e)),
        Event::Unavailable => Step::Done(respond(Status::InternalServerError)),
        _ => Step::Abort(Fault::UnexpectedEvent),
    }
}

fn on_session_token(event: Event) -> (step: Step)
    ensures
        step@ == session_token_step(event@),
{
    match event {
        Event::Token(token) => {
            let kept = token.clone();
            Step::Call {
                request: Outbound::FetchUser { token },
                then: Pending::SessionUser { token: kept },
            }
        },
        Event::GithubFailure(GithubError::Auth { error }) => raise(
            ErrCode::RemoteRejected,
            error.as_str(),
        ),
        Event::GithubFailure(GithubError::JsonDecode) => raise(
            ErrCode::BadRemoteReply,
            "rg:auth:1",
        ),
        Event::GithubFailure(GithubError::Other) => raise(ErrCode::Bug, "rg:auth:0"),
        _ => Step::Abort(Fault::UnexpectedEvent),
    }
}

fn on_session_user(token: String, event: Event) -> (step: Step)
    ensures
        step@ == session_user_step(token@, event@),
{
    match event {
        Event::User { id, login } => {
            let kept = token.clone();
            Step::Call {
                request: Outbound::FetchEmails { token },
                then: Pending::SessionEmails { token: kept, extern_id: id, name: login },
            }
        },
        Event::GithubFailure(GithubError::JsonDecode) => raise(
            ErrCode::BadRemoteReply,
            "rg:auth:1",
        ),
        Event::GithubFailure(_) => raise(ErrCode::Bug, "rg:auth:2"),
        _ => Step::Abort(Fault::UnexpectedEvent),
    }
}

fn on_session_emails(token: String, extern_id: u64, name: String, event: Event) -> (step: Step)
    ensures
        step@ == session_emails_step(token@, extern_id, name@, event@),
{
    match event {
        Event::Emails(emails) => match choose_email(&emails) {
            Some(email) => Step::Call {
                request: Outbound::Route(
                    BackendRequest::SessionCreate {
                        token,
                        extern_id,
                        email,
                        name,
                        provider: OAuthProvider::GitHub,
                    },
                ),
                then: Pending::SessionSave,
            },
            None => raise(ErrCode::AccessDenied, "rg:auth:0"),
        },
        Event::GithubFailure(_) => raise(ErrCode::AccessDenied, "rg:auth:0"),
        _ => Step::Abort(Fault::UnexpectedEvent),
    }
}

fn on_job_project(owner_id: u64, event: Event) -> (step: Step)
    ensures
        step@ == job_project_step(owner_id, event@),
{
    match event {
        Event::Reply(BackendResponse::Project { project, json }) => Step::Call {
            request: Outbound::Route(BackendRequest::JobSpec { owner_id, project }),
            then: Pending::JobSave,
        },
        Event::Reply(_) => Step::Abort(Fault::UnexpectedEvent),
        other => on_unrouted(other),
    }
}

fn on_project_origin(draft: Draft, event: Event) -> (step: Step)
    ensures
        step@ == project_origin_step(draft@, event@),
{
    match event {
        Event::Reply(BackendResponse::Origin { name, json }) => {
            let request = Outbound::FetchRepo {
                token: draft.token.clone(),
                organization: draft.organization.clone(),
                repo: draft.repo.clone(),
            };
            let next = Draft {
                owner_id: draft.owner_id,
                token: draft.token,
                plan_path: draft.plan_path,
                organization: draft.organization,
                repo: draft.repo,
                origin: name,
                git_url: draft.git_url,
            };
            Step::Call { request, then: Pending::ProjectRepo(next) }
        },
        Event::Reply(_) => Step::Abort(Fault::UnexpectedEvent),
        other => on_unrouted(other),
    }
}

fn on_project_repo(draft: Draft, event: Event) -> (step: Step)
    ensures
        step@ == project_repo_step(draft@, event@),
{
    match event {
        Event::Repo { clone_url } => {
            let request = Outbound::FetchContents {
                token: draft.token.clone(),
                organization: draft.organization.clone(),
                repo: draft.repo.clone(),
                path: draft.plan_path.clone(),
            };
            let next = Draft {
                owner_id: draft.owner_id,
                token: draft.token,
                plan_path: draft.plan_path,
                organization: draft.organization,
                repo: draft.repo,
                origin: draft.origin,
                git_url: clone_url,
            };
            Step::Call { request, then: Pending::ProjectContents(next) }
        },
        Event::GithubFailure(_) => Step::Done(respond_text(Status::BadRequest, "rg:pc:1")),
        _ => Step::Abort(Fault::UnexpectedEvent),
    }
}

/// Goes on from a decoded plan file: the bytes are handed to the plan reader,
/// and a file that could not be decoded ends the pipeline with a 400 of its
/// own tag. No request to the backend is made here.
pub fn read_plan(draft: Draft, decoded: Option<Vec<u8>>) -> (step: Step)
    ensures
        step@ == plan_step(
            draft@,
            match decoded {
                Some(bytes) => Some(bytes@),
                None => None,
            },
        ),
{
    match decoded {
        Some(bytes) => Step::Call {
            request: Outbound::ParsePlan { bytes },
            then: Pending::ProjectPlan(draft),
        },
        None => Step::Done(respond_text(Status::BadRequest, "rg:pc:4")),
    }
}

fn on_project_contents(draft: Draft, event: Event) -> (step: Step)
    ensures
        step@ == project_contents_step(draft@, event@),
{
    match event {
        Event::Contents { content } => match from_base64(content.as_str()) {
            Ok(bytes) => read_plan(draft, Some(bytes)),
            Err(_) => read_plan(draft, None),
        },
        Event::GithubFailure(_) => Step::Done(respond_text(Status::BadRequest, "rg:pc:2")),
        _ => Step::Abort(Fault::UnexpectedEvent),
    }
}

fn on_project_plan(draft: Draft, event: Event) -> (step: Step)
    ensures
        step@ == project_plan_step(draft@, event@),
{
    match event {
        Event::Plan { name } => {
            let mut id = draft.origin;
            id.append("/");
            id.append(name.as_str());
            let project = Project {
                id,
                owner_id: draft.owner_id,
                plan_path: draft.plan_path,
                git_url: draft.git_url,
            };
            Step::Call {
                request: Outbound::Route(BackendRequest::ProjectCreate { project }),
                then: Pending::ProjectSave,
            }
        },
        Event::PlanMalformed => Step::Done(respond_text(Status::BadRequest, "rg:pc:3")),
        _ => Step::Abort(Fault::UnexpectedEvent),
    }
}

fn on_last(pending: Pending, event: Event) -> (step: Step)
    requires
        !(pending is SessionToken || pending is SessionUser || pending is SessionEmails
            || pending is JobProject || pending is ProjectOrigin || pending is ProjectRepo
            || pending is ProjectContents || pending is ProjectPlan),
    ensures
        step@ == last_step(pending@, event@),
{
    match event {
        Event::Reply(reply) => match (pending, reply) {
            (Pending::SessionSave, BackendResponse::Session { json }) => Step::Done(
                render_json(Status::Okay, json),
            ),
            (Pending::JobSave, BackendResponse::Job { json }) => Step::Done(
                render_json(Status::Created, json),
            ),
            (Pending::JobShow, BackendResponse::Job { json }) => Step::Done(
                render_json(Status::Okay, json),
            ),
            (Pending::Invitations, BackendResponse::AccountInvitationList { json }) => Step::Done(
                render_json(Status::Okay, json),
            ),
            (Pending::Origins, BackendResponse::AccountOriginList { json }) => Step::Done(
                render_json(Status::Okay, json),
            ),
            (Pending::InvitationAccept, BackendResponse::OriginInvitationAccept) => Step::Done(
                respond(Status::NoContent),
            ),
            (Pending::ProjectSave, BackendResponse::Project { project, json }) => Step::Done(
                render_json(Status::Created, json),
            ),
            (Pending::ProjectShow, BackendResponse::Project { project, json }) => Step::Done(
                render_json(Status::Okay, json),
            ),
            (Pending::ProjectDelete, BackendResponse::NetOk) => Step::Done(
                respond(Status::NoContent),
            ),
            (Pending::ProjectUpdate, BackendResponse::NetOk) => Step::Done(
                respond(Status::NoContent),
            ),
            _ => Step::Abort(Fault::UnexpectedEvent),
        },
        other => on_unrouted(other),
    }
}

/// Decides the step that follows an answer of the outside.
pub fn resume(pending: Pending, event: Event) -> (step: Step)
    ensures
        step@ == next_step(pending@, event@),
{
    match pending {
        Pending::SessionToken => on_session_token(event),
        Pending::SessionUser { token } => on_session_user(token, event),
        Pending::SessionEmails { token, extern_id, name } => on_session_emails(
            token,
            extern_id,
            name,
            event,
        ),
        Pending::JobProject { owner_id } => on_job_project(owner_id, event),
        Pending::ProjectOrigin(draft) => on_project_origin(draft, event),
        Pending::ProjectRepo(draft) => on_project_repo(draft, event),
        Pending::ProjectContents(draft) => on_project_contents(draft, event),
        Pending::ProjectPlan(draft) => on_project_plan(draft, event),
        other => on_last(other, event),
    }
}

} // verus!
