//! One handler per endpoint. A handler reads what it needs from the request
//! and decides the first step of its pipeline; `crate::resume::resume` decides
//! each step after it.

use vstd::prelude::*;
use crate::flow::{
    Draft, DraftView, Fault, Outbound, OutboundView, Pending, PendingView, Request, RequestView,
    Step, StepView,
};
use crate::json::{
    body_object, body_text, field_text, object_member, text_field, text_member, JsonBody,
    JsonBodyView,
};
use crate::message::{project_named, BackendRequest, BackendRequestView, Project};
use crate::params::{numeric_entry, numeric_param, text_entry, text_param};
use crate::response::{bare, plain, respond, respond_text};
use crate::status::Status;

verus! {

/// What a project creation reads from the body.
#[derive(Clone, Debug, PartialEq, Eq)]
pub struct ProjectForm {
    pub origin: String,
    pub plan_path: String,
    pub organization: String,
    pub repo: String,
}

/// What a `ProjectForm` stands for.
pub struct ProjectFormView {
    pub origin: Seq<char>,
    pub plan_path: Seq<char>,
    pub organization: Seq<char>,
    pub repo: Seq<char>,
}

impl View for ProjectForm {
    type V = ProjectFormView;

    open spec fn view(&self) -> ProjectFormView {
        ProjectFormView {
            origin: self.origin@,
            plan_path: self.plan_path@,
            organization: self.organization@,
            repo: self.repo@,
        }
    }
}

/// The first required field that a body lacks, as the message that names it;
/// none where the body holds them all.
pub open spec fn missing_field(body: JsonBodyView) -> Option<Seq<char>> {
    if body_text(body, "origin"@) is None {
        Some("Missing required field: `origin`"@)
    } else if body_text(body, "plan_path"@) is None {
        Some("Missing required field: `plan_path`"@)
    } else if body_object(body, "github"@) is None {
        Some("Missing required field: `github`"@)
    } else if field_text(body_object(body, "github"@)->0, "organization"@) is None {
        Some("Missing required field: `github.organization`"@)
    } else if field_text(body_object(body, "github"@)->0, "repo"@) is None {
        Some("Missing required field: `github.repo`"@)
    } else {
        None
    }
}

/// The form that a body holds, where it lacks no required field.
pub open spec fn form_of(body: JsonBodyView) -> ProjectFormView {
    ProjectFormView {
        origin: body_text(body, "origin"@)->0,
        plan_path: body_text(body, "plan_path"@)->0,
        organization: field_text(body_object(body, "github"@)->0, "organization"@)->0,
        repo: field_text(body_object(body, "github"@)->0, "repo"@)->0,
    }
}

/// Reads the form of a project creation from a body: `origin` and `plan_path`
/// as strings, and under `github` the strings `organization` and `repo`.
pub fn decode_project_form(body: &JsonBody) -> (decoded: Result<ProjectForm, String>)
    ensures
        decoded matches Ok(form) ==> missing_field(body@) is None && form@ == form_of(body@),
        decoded matches Err(text) ==> missing_field(body@) == Some(text@),
{
    let origin = match text_member(body, "origin") {
        Some(t) => t.clone(),
        None => {
            return Err("Missing required field: `origin`".to_owned());
        },
    };
    let plan_path = match text_member(body, "plan_path") {
        Some(t) => t.clone(),
        None => {
            return Err("Missing required field: `plan_path`".to_owned());
        },
    };
    let github = match object_member(body, "github") {
        Some(fields) => fields,
        None => {
            return Err("Missing required field: `github`".to_owned());
        },
    };
    let organization = match text_field(github, "organization") {
        Some(t) => t.clone(),
        None => {
            return Err("Missing required field: `github.organization`".to_owned());
        },
    };
    let repo = match text_field(github, "repo") {
        Some(t) => t.clone(),
        None => {
            return Err("Missing required field: `github.repo`".to_owned());
        },
    };
    Ok(ProjectForm { origin, plan_path, organization, repo })
}

/// A step that answers with a status and nothing else.
pub open spec fn refuse(status: Status) -> StepView {
    StepView::Done(bare(status))
}

/// A step that sends one request to the backend.
pub open spec fn route(request: BackendRequestView, then: PendingView) -> StepView {
    StepView::Call { request: OutboundView::Route(request), then }
}

/// The first step of a project creation.
pub open spec fn project_create_step(req: RequestView) -> StepView {
    match req.session {
        None => StepView::Abort(Fault::MissingSession),
        Some(session) => match req.body {
            None => refuse(Status::BadRequest),
            Some(body) => match missing_field(body) {
                Some(text) => StepView::Done(plain(Status::BadRequest, text)),
                None => route(
                    BackendRequestView::OriginGet { name: form_of(body).origin },
                    PendingView::ProjectOrigin(
                        DraftView {
                            owner_id: session.id,
                            token: session.token,
                            plan_path: form_of(body).plan_path,
                            organization: form_of(body).organization,
                            repo: form_of(body).repo,
                            origin: Seq::empty(),
                            git_url: Seq::empty(),
                        },
                    ),
                ),
            },
        },
    }
}

/// Creates a project as the authenticated user, in the origin that the body
/// names. The first step checks the body and looks the origin up; nothing is
/// asked of the outside while a required field is missing.
pub fn project_create(req: &Request) -> (step: Step)
    ensures
        step@ == project_create_step(req@),
{
    let session = match &req.session {
        Some(s) => s,
        None => {
            return Step::Abort(Fault::MissingSession);
        },
    };
    let body = match &req.body {
        Some(b) => b,
        None => {
            return Step::Done(respond(Status::BadRequest));
        },
    };
    match decode_project_form(body) {
        Err(text) => Step::Done(respond_text(Status::BadRequest, text.as_str())),
        Ok(form) => {
            let draft = Draft {
                owner_id: session.id,
                token: session.token.clone(),
                plan_path: form.plan_path,
                organization: form.organization,
                repo: form.repo,
                origin: String::new(),
                git_url: String::new(),
            };
            Step::Call {
                request: Outbound::Route(BackendRequest::OriginGet { name: form.origin }),
                then: Pending::ProjectOrigin(draft),
            }
        },
    }
}

/// The first step of a session creation.
pub open spec fn session_create_step(req: RequestView) -> StepView {
    match text_entry(req.params, "code"@) {
        None => refuse(Status::BadRequest),
        Some(code) => StepView::Call {
            request: OutboundView::Authenticate { code },
            then: PendingView::SessionToken,
        },
    }
}

/// Creates a session from the authorization code in the path. The first step
/// has the code exchanged for an access token.
pub fn session_create(req: &Request) -> (step: Step)
    ensures
        step@ == session_create_step(req@),
{
    match text_param(&req.params, "code") {
        None => Step::Done(respond(Status::BadRequest)),
        Some(code) => Step::Call {
            request: Outbound::Authenticate { code },
            then: Pending::SessionToken,
        },
    }
}

/// The first step of a job creation.
pub open spec fn job_create_step(req: RequestView) -> StepView {
    match req.body {
        None => refuse(Status::BadRequest),
        Some(body) => match body_text(body, "project_id"@) {
            None => refuse(Status::BadRequest),
            Some(id) => match req.session {
                None => StepView::Abort(Fault::MissingSession),
                Some(session) => route(
                    BackendRequestView::ProjectGet { id },
                    PendingView::JobProject { owner_id: session.id },
                ),
            },
        },
    }
}

/// Creates a job for the project that the body names. The first step looks
/// the project up; the job is asked for only once the backend has found it.
pub fn job_create(req: &Request) -> (step: Step)
    ensures
        step@ == job_create_step(req@),
{
    let body = match &req.body {
        Some(b) => b,
        None => {
            return Step::Done(respond(Status::BadRequest));
        },
    };
    let id = match text_member(body, "project_id") {
        Some(t) => t.clone(),
        None => {
            return Step::Done(respond(Status::BadRequest));
        },
    };
    match &req.session {
        None => Step::Abort(Fault::MissingSession),
        Some(session) => Step::Call {
            request: Outbound::Route(BackendRequest::ProjectGet { id }),
            then: Pending::JobProject { owner_id: session.id },
        },
    }
}

/// The first step of showing a job.
pub open spec fn job_show_step(req: RequestView) -> StepView {
    match numeric_entry(req.params, "id"@) {
        None => refuse(Status::BadRequest),
        Some(id) => route(BackendRequestView::JobGet { id }, PendingView::JobShow),
    }
}

/// Shows the job whose identifier stands in the path.
pub fn job_show(req: &Request) -> (step: Step)
    ensures
        step@ == job_show_step(req@),
{
    match numeric_param(&req.params, "id") {
        None => Step::Done(respond(Status::BadRequest)),
        Some(id) => Step::Call {
            request: Outbound::Route(BackendRequest::JobGet { id }),
            then: Pending::JobShow,
        },
    }
}

/// Tells whether the service is up: always 200 with no body.
pub fn status(req: &Request) -> (step: Step)
    ensures
        step@ == refuse(Status::Okay),
{
    Step::Done(respond(Status::Okay))
}

/// The first step of listing the invitations of an account.
pub open spec fn list_account_invitations_step(req: RequestView) -> StepView {
    match req.session {
        None => StepView::Abort(Fault::MissingSession),
        Some(session) => route(
            BackendRequestView::AccountInvitationList { account_id: session.id },
            PendingView::Invitations,
        ),
    }
}

/// Lists the invitations of the authenticated account.
pub fn list_account_invitations(req: &Request) -> (step: Step)
    ensures
        step@ == list_account_invitations_step(req@),
{
    match &req.session {
        None => Step::Abort(Fault::MissingSession),
        Some(session) => Step::Call {
            request: Outbound::Route(
                BackendRequest::AccountInvitationList { account_id: session.id },
            ),
            then: Pending::Invitations,
        },
    }
}

/// The first step of listing the origins of an account.
pub open spec fn list_user_origins_step(req: RequestView) -> StepView {
    match req.session {
        None => StepView::Abort(Fault::MissingSession),
        Some(session) => route(
            BackendRequestView::AccountOriginList { account_id: session.id },
            PendingView::Origins,
        ),
    }
}

/// Lists the origins of the authenticated account.
pub fn list_user_origins(req: &Request) -> (step: Step)
    ensures
        step@ == list_user_origins_step(req@),
{
    match &req.session {
        None => Step::Abort(Fault::MissingSession),
        Some(session) => Step::Call {
            request: Outbound::Route(BackendRequest::AccountOriginList { account_id: session.id }),
            then: Pending::Origins,
        },
    }
}

/// The first step of accepting an invitation. The accepting account is the
/// session's own; the path gives the invitation and nothing else. Whether the
/// invitation is to be ignored is not read yet and stays off.
pub open spec fn accept_invitation_step(req: RequestView) -> StepView {
    match req.session {
        None => StepView::Abort(Fault::MissingSession),
        Some(session) => match numeric_entry(req.params, "invitation_id"@) {
            None => refuse(Status::BadRequest),
            Some(invite_id) => route(
                BackendRequestView::OriginInvitationAccept {
                    account_accepting_request: session.id,
                    invite_id,
                    ignore: false,
                },
                PendingView::InvitationAccept,
            ),
        },
    }
}

/// Accepts the invitation whose identifier stands in the path, on behalf of
/// the authenticated account.
pub fn accept_invitation(req: &Request) -> (step: Step)
    ensures
        step@ == accept_invitation_step(req@),
{
    let session = match &req.session {
        Some(s) => s,
        None => {
            return Step::Abort(Fault::MissingSession);
        },
    };
    match numeric_param(&req.params, "invitation_id") {
        None => Step::Done(respond(Status::BadRequest)),
        Some(invite_id) => Step::Call {
            request: Outbound::Route(
                BackendRequest::OriginInvitationAccept {
                    account_accepting_request: session.id,
                    invite_id,
                    ignore: false,
                },
            ),
            then: Pending::InvitationAccept,
        },
    }
}

/// The first step of deleting a project.
pub open spec fn project_delete_step(req: RequestView) -> StepView {
    match text_entry(req.params, "id"@) {
        None => refuse(Status::BadRequest),
        Some(id) => match req.session {
            None => StepView::Abort(Fault::MissingSession),
            Some(session) => route(
                BackendRequestView::ProjectDelete { id, requestor_id: session.id },
                PendingView::ProjectDelete,
            ),
        },
    }
}

/// Deletes the project that the path names, in the name of the authenticated
/// account.
pub fn project_delete(req: &Request) -> (step: Step)
    ensures
        step@ == project_delete_step(req@),
{
    let id = match text_param(&req.params, "id") {
        Some(id) => id,
        None => {
            return Step::Done(respond(Status::BadRequest));
        },
    };
    match &req.session {
        None => Step::Abort(Fault::MissingSession),
        Some(session) => Step::Call {
            request: Outbound::Route(
                BackendRequest::ProjectDelete { id, requestor_id: session.id },
            ),
            then: Pending::ProjectDelete,
        },
    }
}

/// The first step of updating a project.
pub open spec fn project_update_step(req: RequestView) -> StepView {
    match text_entry(req.params, "id"@) {
        None => refuse(Status::BadRequest),
        Some(id) => match req.session {
            None => StepView::Abort(Fault::MissingSession),
            Some(session) => route(
                BackendRequestView::ProjectUpdate {
                    requestor_id: session.id,
                    project: project_named(id),
                },
                PendingView::ProjectUpdate,
            ),
        },
    }
}

/// Updates the project that the path names, in the name of the authenticated
/// account. The body is not read yet: the update carries the identifier alone.
pub fn project_update(req: &Request) -> (step: Step)
    ensures
        step@ == project_update_step(req@),
{
    let id = match text_param(&req.params, "id") {
        Some(id) => id,
        None => {
            return Step::Done(respond(Status::BadRequest));
        },
    };
    match &req.session {
        None => Step::Abort(Fault::MissingSession),
        Some(session) => {
            let project = Project {
                id,
                owner_id: 0,
                plan_path: String::new(),
                git_url: String::new(),
            };
            Step::Call {
                request: Outbound::Route(
                    BackendRequest::ProjectUpdate { requestor_id: session.id, project },
                ),
                then: Pending::ProjectUpdate,
            }
        },
    }
}

/// The first step of showing a project.
pub open spec fn project_show_step(req: RequestView) -> StepView {
    match text_entry(req.params, "id"@) {
        None => refuse(Status::BadRequest),
        Some(id) => route(BackendRequestView::ProjectGet { id }, PendingView::ProjectShow),
    }
}

/// Shows the project that the path names.
pub fn project_show(req: &Request) -> (step: Step)
    ensures
        step@ == project_show_step(req@),
{
    match text_param(&req.params, "id") {
        None => Step::Done(respond(Status::BadRequest)),
        Some(id) => Step::Call {
            request: Outbound::Route(BackendRequest::ProjectGet { id }),
            then: Pending::ProjectShow,
        },
    }
}

} // verus!
