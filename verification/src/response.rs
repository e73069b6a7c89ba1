//! The outcome of a handler: a status and a body, and the two renderers that
//! build it from a success payload or from a failure.

use vstd::prelude::*;
use crate::net::{ErrCode, NetError, NetErrorView};
use crate::status::Status;
use rustc_serialize::json::{self, Json};
use std::collections::BTreeMap;

verus! {

/// The body of a response.
#[derive(Clone, Debug, PartialEq, Eq)]
pub enum Body {
    /// No body at all.
    Empty,
    /// Plain text, sent without a content type.
    Text(String),
    /// A JSON document, sent as `application/json`.
    Json(String),
}

/// What a `Body` stands for.
pub enum BodyView {
    Empty,
    Text(Seq<char>),
    Json(Seq<char>),
}

impl View for Body {
    type V = BodyView;

    open spec fn view(&self) -> BodyView {
        match self {
            Body::Empty => BodyView::Empty,
            Body::Text(t) => BodyView::Text(t@),
            Body::Json(t) => BodyView::Json(t@),
        }
    }
}

/// The terminal artifact of a handler.
#[derive(Clone, Debug, PartialEq, Eq)]
pub struct Response {
    pub status: Status,
    pub body: Body,
}

/// What a `Response` stands for.
pub struct ResponseView {
    pub status: Status,
    pub body: BodyView,
}

impl View for Response {
    type V = ResponseView;

    open spec fn view(&self) -> ResponseView {
        ResponseView { status: self.status, body: self.body@ }
    }
}

/// A response that carries a status and nothing else.
pub open spec fn bare(status: Status) -> ResponseView {
    ResponseView { status, body: BodyView::Empty }
}

/// A response that carries a status and a plain text.
pub open spec fn plain(status: Status, text: Seq<char>) -> ResponseView {
    ResponseView { status, body: BodyView::Text(text) }
}

/// A response that carries a status and a JSON document.
pub open spec fn document(status: Status, encoded: Seq<char>) -> ResponseView {
    ResponseView { status, body: BodyView::Json(encoded) }
}

/// The status that answers a failure of the given code.
pub open spec fn status_of(code: ErrCode) -> Status {
    match code {
        ErrCode::EntityNotFound => Status::NotFound,
        ErrCode::EntityConflict => Status::Conflict,
        ErrCode::NoShard => Status::ServiceUnavailable,
        ErrCode::Timeout => Status::RequestTimeout,
        ErrCode::BadRemoteReply => Status::BadGateway,
        ErrCode::SessionExpired => Status::Unauthorized,
        ErrCode::Bug => Status::InternalServerError,
        ErrCode::RemoteRejected => Status::InternalServerError,
        ErrCode::AccessDenied => Status::InternalServerError,
    }
}

/// The text that `rustc_serialize::json::encode` gives for an object of two
/// members, a number under the first key and a string under the second.
pub uninterp spec fn encoded_pair(
    number_key: Seq<char>,
    number: u64,
    text_key: Seq<char>,
    text: Seq<char>,
) -> Seq<char>;

/// The rendered form of a failure: an object with its code and its message.
pub open spec fn encoded_error(e: NetErrorView) -> Seq<char> {
    encoded_pair("code"@, e.code.number(), "msg"@, e.msg)
}

/// What `render_net_error` answers for a failure.
pub open spec fn error_response(e: NetErrorView) -> ResponseView {
    document(status_of(e.code), encoded_error(e))
}

/// Calls `rustc_serialize::json::encode` on a `Json::Object` of two members:
/// `number` as `Json::U64` under `number_key`, `text` as `Json::String` under
/// `text_key`. The encoder writes into a `String` and the keys are strings, so
/// the call has no way to fail; the result is the text it wrote, which depends
/// on the four arguments alone.
#[verifier::external_body]
fn encode_pair(number_key: &str, number: u64, text_key: &str, text: &str) -> (out: String)
    ensures
        out@ == encoded_pair(number_key@, number, text_key@, text@),
{
    let mut members: BTreeMap<String, Json> = BTreeMap::new();
    members.insert(number_key.to_string(), Json::U64(number));
    members.insert(text_key.to_string(), Json::String(text.to_string()));
    json::encode(&Json::Object(members)).unwrap_or_default()
}

/// The status that answers a failure of the given code.
pub fn status_for(code: ErrCode) -> (s: Status)
    ensures
        s == status_of(code),
        code == ErrCode::EntityNotFound ==> s.number() == 404,
        code == ErrCode::EntityConflict ==> s.number() == 409,
        code == ErrCode::NoShard ==> s.number() == 503,
        code == ErrCode::Timeout ==> s.number() == 408,
        code == ErrCode::BadRemoteReply ==> s.number() == 502,
        code == ErrCode::SessionExpired ==> s.number() == 401,
        code != ErrCode::EntityNotFound && code != ErrCode::EntityConflict && code
            != ErrCode::NoShard && code != ErrCode::Timeout && code != ErrCode::BadRemoteReply
            && code != ErrCode::SessionExpired ==> s.number() == 500,
{
    match code {
        ErrCode::EntityNotFound => Status::NotFound,
        ErrCode::EntityConflict => Status::Conflict,
        ErrCode::NoShard => Status::ServiceUnavailable,
        ErrCode::Timeout => Status::RequestTimeout,
        ErrCode::BadRemoteReply => Status::BadGateway,
        ErrCode::SessionExpired => Status::Unauthorized,
        _ => Status::InternalServerError,
    }
}

/// Pairs an encoded JSON document with the status the caller chose.
pub fn render_json(status: Status, encoded: String) -> (r: Response)
    ensures
        r@ == document(status, encoded@),
{
    Response { status, body: Body::Json(encoded) }
}

/// A response with a status and no body.
pub fn respond(status: Status) -> (r: Response)
    ensures
        r@ == bare(status),
{
    Response { status, body: Body::Empty }
}

/// A response with a status and a plain text.
pub fn respond_text(status: Status, text: &str) -> (r: Response)
    ensures
        r@ == plain(status, text@),
{
    Response { status, body: Body::Text(text.to_owned()) }
}

/// Renders a failure: the status that its code maps to, and the failure itself
/// as a JSON document.
pub fn render_net_error(err: &NetError) -> (r: Response)
    ensures
        r@ == error_response(err@),
        r@.status == status_of(err.code),
        r@.body == BodyView::Json(encoded_error(err@)),
{
    let encoded = encode_pair("code", err.code.value(), "msg", err.msg.as_str());
    render_json(status_for(err.code), encoded)
}

} // verus!
