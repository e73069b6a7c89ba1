//! What holds of the handlers whatever the request and whatever the outside
//! answers.

use vstd::prelude::*;
use crate::flow::{DraftView, EventView, Fault, OutboundView, PendingView, RequestView, StepView};
use crate::handlers::{
    accept_invitation_step, job_create_step, job_show_step, list_account_invitations_step,
    list_user_origins_step, missing_field, project_create_step, project_delete_step,
    project_update_step, refuse, route,
};
use crate::json::body_text;
use crate::message::BackendRequestView;
use crate::net::{ErrCode, NetErrorView};
use crate::params::{is_digit, numeric_entry, parsed_u64, text_entry, unsigned_part};
use crate::response::{error_response, status_of};
use crate::resume::{base64_decoded, next_step, reject};
use crate::status::Status;

verus! {

/// The six classified failures answer with 404, 409, 503, 408, 502 and 401;
/// every other failure answers with 500.
pub proof fn lemma_error_status_table(e: NetErrorView)
    ensures
        error_response(e).status == status_of(e.code),
        e.code == ErrCode::EntityNotFound ==> error_response(e).status.number() == 404,
        e.code == ErrCode::EntityConflict ==> error_response(e).status.number() == 409,
        e.code == ErrCode::NoShard ==> error_response(e).status.number() == 503,
        e.code == ErrCode::Timeout ==> error_response(e).status.number() == 408,
        e.code == ErrCode::BadRemoteReply ==> error_response(e).status.number() == 502,
        e.code == ErrCode::SessionExpired ==> error_response(e).status.number() == 401,
        e.code == ErrCode::Bug || e.code == ErrCode::RemoteRejected || e.code
            == ErrCode::AccessDenied ==> error_response(e).status.number() == 500,
{
}

/// A text with a character that is no digit, other than a plus sign in front,
/// writes no identifier.
pub proof fn lemma_non_digit_unparsed(text: Seq<char>, at: int)
    requires
        0 <= at < text.len(),
        !is_digit(text[at]),
        !(at == 0 && text[0] == '+'),
    ensures
        parsed_u64(text) is None,
{
    let digits = unsigned_part(text);
    if text[0] == '+' {
        assert(digits[at - 1] == text[at]);
    } else {
        assert(digits[at] == text[at]);
    }
}

/// Where the path holds no identifier that reads as a number, showing a job
/// answers 400 with no body, and so does accepting an invitation; neither
/// asks anything of the backend.
pub proof fn lemma_malformed_id_refused(req: RequestView)
    ensures
        numeric_entry(req.params, "id"@) is None ==> job_show_step(req) == refuse(
            Status::BadRequest,
        ),
        numeric_entry(req.params, "invitation_id"@) is None && req.session is Some
            ==> accept_invitation_step(req) == refuse(Status::BadRequest),
        numeric_entry(req.params, "invitation_id"@) is None ==> !(accept_invitation_step(
            req,
        ) is Call),
{
}

/// Where a path parameter is missing, every handler that reads it answers
/// without asking anything of the outside.
pub proof fn lemma_missing_id_refused(req: RequestView)
    ensures
        text_entry(req.params, "id"@) is None ==> !(job_show_step(req) is Call) && !(
        project_delete_step(req) is Call) && !(project_update_step(req) is Call),
        text_entry(req.params, "invitation_id"@) is None ==> !(accept_invitation_step(
            req,
        ) is Call),
{
}

/// Without an attached session, no handler that needs one asks anything of
/// the outside.
pub proof fn lemma_session_required(req: RequestView)
    requires
        req.session is None,
    ensures
        !(project_create_step(req) is Call),
        !(job_create_step(req) is Call),
        !(list_account_invitations_step(req) is Call),
        !(list_user_origins_step(req) is Call),
        !(accept_invitation_step(req) is Call),
        !(project_delete_step(req) is Call),
        !(project_update_step(req) is Call),
        project_create_step(req) == StepView::Abort(Fault::MissingSession),
        list_account_invitations_step(req) == StepView::Abort(Fault::MissingSession),
        list_user_origins_step(req) == StepView::Abort(Fault::MissingSession),
        accept_invitation_step(req) == StepView::Abort(Fault::MissingSession),
{
}

/// A project creation whose body lacks a required field answers 400 with the
/// message that names the field, and asks nothing of the outside. For a body
/// that has `origin` and lacks `plan_path` the message names `plan_path`.
pub proof fn lemma_missing_field_refused(req: RequestView)
    requires
        req.session is Some,
        req.body is Some,
        missing_field(req.body->0) is Some,
    ensures
        project_create_step(req) == reject(Status::BadRequest, missing_field(req.body->0)->0),
        !(project_create_step(req) is Call),
        body_text(req.body->0, "origin"@) is Some && body_text(req.body->0, "plan_path"@) is None
            ==> project_create_step(req) == reject(
            Status::BadRequest,
            "Missing required field: `plan_path`"@,
        ),
{
}

/// Where the lookup of the origin fails, a project creation answers with the
/// rendered failure and stops: the source-control service is never asked.
pub proof fn lemma_origin_failure_stops(draft: DraftView, e: NetErrorView)
    ensures
        next_step(PendingView::ProjectOrigin(draft), EventView::Failure(e)) == StepView::Done(
            error_response(e),
        ),
        !next_step(PendingView::ProjectOrigin(draft), EventView::Failure(e)).fetches(),
        !next_step(PendingView::ProjectOrigin(draft), EventView::Failure(e)).routes(),
{
}

/// A plan file that is no base64 ends a project creation with a 400 of its
/// own tag: no request goes to the backend, and the answer differs from the
/// one for an origin that was not found.
pub proof fn lemma_undecodable_plan_stops(draft: DraftView, content: Seq<char>, msg: Seq<char>)
    requires
        base64_decoded(content) is None,
    ensures
        next_step(PendingView::ProjectContents(draft), EventView::Contents { content }) == reject(
            Status::BadRequest,
            "rg:pc:4"@,
        ),
        !next_step(PendingView::ProjectContents(draft), EventView::Contents { content }).routes(),
        next_step(PendingView::ProjectContents(draft), EventView::Contents { content })
            != next_step(
            PendingView::ProjectOrigin(draft),
            EventView::Failure(NetErrorView { code: ErrCode::EntityNotFound, msg }),
        ),
{
}

/// The request that creates a project is made at one place only: after the
/// plan was read, which is after every lookup and fetch before it succeeded.
pub proof fn lemma_create_follows_plan(pending: PendingView, event: EventView)
    requires
        next_step(pending, event) matches StepView::Call {
            request: OutboundView::Route(BackendRequestView::ProjectCreate { .. }),
            ..
        },
    ensures
        pending is ProjectPlan,
        event is Plan,
{
}

/// How many answers of the outside a handler may still wait for.
pub open spec fn steps_left(pending: PendingView) -> nat {
    match pending {
        PendingView::SessionToken => 4,
        PendingView::SessionUser { .. } => 3,
        PendingView::SessionEmails { .. } => 2,
        PendingView::JobProject { .. } => 2,
        PendingView::ProjectOrigin(_) => 6,
        PendingView::ProjectRepo(_) => 5,
        PendingView::ProjectContents(_) => 4,
        PendingView::ProjectPlan(_) => 3,
        _ => 1,
    }
}

/// Every answer of the outside brings a handler nearer to its response: a
/// step that asks again leaves fewer answers to wait for, so each pipeline
/// ends, and after its last request a handler can only respond or give up.
pub proof fn lemma_pipeline_advances(pending: PendingView, event: EventView)
    ensures
        next_step(pending, event) matches StepView::Call { then, .. } ==> steps_left(then)
            < steps_left(pending),
        steps_left(pending) == 1 ==> !(next_step(pending, event) is Call),
{
}

/// Whether a request changes what the backend holds.
pub open spec fn mutates(request: BackendRequestView) -> bool {
    request is SessionCreate || request is JobSpec || request is ProjectCreate
        || request is ProjectDelete || request is ProjectUpdate
        || request is OriginInvitationAccept
}

/// A request that changes what the backend holds is the last thing that a
/// handler asks for: whatever the backend answers to it, the handler responds
/// or gives up. So no pipeline makes more than one such request.
pub proof fn lemma_mutation_comes_last(pending: PendingView, event: EventView, answer: EventView)
    requires
        next_step(pending, event) matches StepView::Call {
            request: OutboundView::Route(request),
            ..
        } && mutates(request),
    ensures
        !(next_step(next_step(pending, event)->then, answer) is Call),
{
}

/// The same holds where the first step of a handler already makes such a
/// request.
pub proof fn lemma_first_mutation_comes_last(req: RequestView, answer: EventView)
    ensures
        project_delete_step(req) matches StepView::Call { then, .. } ==> !(next_step(
            then,
            answer,
        ) is Call),
        project_update_step(req) matches StepView::Call { then, .. } ==> !(next_step(
            then,
            answer,
        ) is Call),
        accept_invitation_step(req) matches StepView::Call { then, .. } ==> !(next_step(
            then,
            answer,
        ) is Call),
        !(project_create_step(req) matches StepView::Call {
            request: OutboundView::Route(request),
            ..
        } && mutates(request)),
        !(job_create_step(req) matches StepView::Call {
            request: OutboundView::Route(request),
            ..
        } && mutates(request)),
{
}

/// A failure that the backend reports is rendered as it is wherever a handler
/// waits for the backend, and nothing more is asked.
pub proof fn lemma_backend_failure_surfaces(pending: PendingView, e: NetErrorView)
    requires
        !(pending is SessionToken || pending is SessionUser || pending is SessionEmails
            || pending is ProjectRepo || pending is ProjectContents || pending is ProjectPlan),
    ensures
        next_step(pending, EventView::Failure(e)) == StepView::Done(error_response(e)),
{
}

/// Accepting an invitation stamps the session's own account as the accepting
/// one: whatever the path and the body hold, a request to the backend carries
/// the identifier of the attached session.
pub proof fn lemma_accept_stamps_session(req: RequestView)
    requires
        accept_invitation_step(req) is Call,
    ensures
        req.session is Some,
        accept_invitation_step(req) == route(
            BackendRequestView::OriginInvitationAccept {
                account_accepting_request: req.session->0.id,
                invite_id: numeric_entry(req.params, "invitation_id"@)->0,
                ignore: false,
            },
            PendingView::InvitationAccept,
        ),
{
}

/// Showing a job keeps nothing from one request to the next: two requests
/// with the same path ask the backend the same question, each on its own, and
/// the same answer of the backend gives the same response.
pub proof fn lemma_job_show_repeats(first: RequestView, second: RequestView, event: EventView)
    requires
        first.params == second.params,
        numeric_entry(first.params, "id"@) is Some,
    ensures
        job_show_step(first) == job_show_step(second),
        job_show_step(first) == route(
            BackendRequestView::JobGet { id: numeric_entry(first.params, "id"@)->0 },
            PendingView::JobShow,
        ),
        !(next_step(PendingView::JobShow, event) is Call),
{
}

} // verus!
