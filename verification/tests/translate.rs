use builder_api::net::{err, ErrCode, NetError};
use builder_api::response::{
    render_json, render_net_error, respond, respond_text, status_for, Body, Response,
};
use builder_api::status::Status;

#[test]
fn classified_codes_map_to_their_status() {
    assert_eq!(status_for(ErrCode::EntityNotFound), Status::NotFound);
    assert_eq!(status_for(ErrCode::EntityConflict), Status::Conflict);
    assert_eq!(status_for(ErrCode::NoShard), Status::ServiceUnavailable);
    assert_eq!(status_for(ErrCode::Timeout), Status::RequestTimeout);
    assert_eq!(status_for(ErrCode::BadRemoteReply), Status::BadGateway);
    assert_eq!(status_for(ErrCode::SessionExpired), Status::Unauthorized);
}

#[test]
fn unclassified_codes_map_to_internal_error() {
    assert_eq!(status_for(ErrCode::Bug), Status::InternalServerError);
    assert_eq!(status_for(ErrCode::RemoteRejected), Status::InternalServerError);
    assert_eq!(status_for(ErrCode::AccessDenied), Status::InternalServerError);
}

#[test]
fn status_numbers_are_the_wire_codes() {
    assert_eq!(Status::Okay.code(), 200);
    assert_eq!(Status::Created.code(), 201);
    assert_eq!(Status::NoContent.code(), 204);
    assert_eq!(Status::BadRequest.code(), 400);
    assert_eq!(Status::Unauthorized.code(), 401);
    assert_eq!(Status::NotFound.code(), 404);
    assert_eq!(Status::RequestTimeout.code(), 408);
    assert_eq!(Status::Conflict.code(), 409);
    assert_eq!(Status::InternalServerError.code(), 500);
    assert_eq!(Status::BadGateway.code(), 502);
    assert_eq!(Status::ServiceUnavailable.code(), 503);
}

#[test]
fn translated_status_numbers() {
    assert_eq!(status_for(ErrCode::EntityNotFound).code(), 404);
    assert_eq!(status_for(ErrCode::EntityConflict).code(), 409);
    assert_eq!(status_for(ErrCode::NoShard).code(), 503);
    assert_eq!(status_for(ErrCode::Timeout).code(), 408);
    assert_eq!(status_for(ErrCode::BadRemoteReply).code(), 502);
    assert_eq!(status_for(ErrCode::SessionExpired).code(), 401);
    assert_eq!(status_for(ErrCode::Bug).code(), 500);
}

#[test]
fn err_builds_a_failure() {
    let e = err(ErrCode::Timeout, "late");
    assert_eq!(e, NetError { code: ErrCode::Timeout, msg: String::from("late") });
    assert_eq!(e.code.value(), 1);
}

#[test]
fn code_numbers() {
    assert_eq!(ErrCode::Bug.value(), 0);
    assert_eq!(ErrCode::Timeout.value(), 1);
    assert_eq!(ErrCode::RemoteRejected.value(), 2);
    assert_eq!(ErrCode::BadRemoteReply.value(), 3);
    assert_eq!(ErrCode::EntityNotFound.value(), 4);
    assert_eq!(ErrCode::NoShard.value(), 6);
    assert_eq!(ErrCode::AccessDenied.value(), 7);
    assert_eq!(ErrCode::SessionExpired.value(), 8);
    assert_eq!(ErrCode::EntityConflict.value(), 9);
}

#[test]
fn a_failure_renders_as_an_object_of_code_and_message() {
    let r = render_net_error(&err(ErrCode::EntityNotFound, "no such job"));
    assert_eq!(
        r,
        Response {
            status: Status::NotFound,
            body: Body::Json(String::from("{\"code\":4,\"msg\":\"no such job\"}")),
        }
    );
}

#[test]
fn a_rendered_message_is_escaped() {
    let r = render_net_error(&err(ErrCode::Bug, "say \"hi\"\n"));
    assert_eq!(r.status, Status::InternalServerError);
    assert_eq!(r.body, Body::Json(String::from("{\"code\":0,\"msg\":\"say \\\"hi\\\"\\n\"}")));
}

#[test]
fn an_empty_message_renders() {
    let r = render_net_error(&err(ErrCode::SessionExpired, ""));
    assert_eq!(r.status, Status::Unauthorized);
    assert_eq!(r.body, Body::Json(String::from("{\"code\":8,\"msg\":\"\"}")));
}

#[test]
fn render_json_pairs_status_and_document() {
    let r = render_json(Status::Created, String::from("{\"id\":7}"));
    assert_eq!(r, Response { status: Status::Created, body: Body::Json(String::from("{\"id\":7}")) });
}

#[test]
fn respond_has_no_body() {
    assert_eq!(respond(Status::NoContent), Response { status: Status::NoContent, body: Body::Empty });
}

#[test]
fn respond_text_carries_plain_text() {
    assert_eq!(
        respond_text(Status::BadRequest, "rg:pc:1"),
        Response { status: Status::BadRequest, body: Body::Text(String::from("rg:pc:1")) }
    );
}
