use builder_api::flow::{Draft, Event, Fault, Outbound, Pending, Request, Step};
use builder_api::handlers::{job_show, project_create};
use builder_api::json::{JsonBody, JsonField, JsonValue, Member};
use builder_api::message::{
    choose_email, BackendRequest, BackendResponse, Email, GithubError, OAuthProvider, Project, Session,
};
use builder_api::net::{err, ErrCode};
use builder_api::response::{Body, Response};
use builder_api::resume::{read_plan, resume};
use builder_api::status::Status;
use router::Params;

fn draft() -> Draft {
    Draft {
        owner_id: 8,
        token: String::from("tok"),
        plan_path: String::from("redis/plan.sh"),
        organization: String::from("acme"),
        repo: String::from("plans"),
        origin: String::new(),
        git_url: String::new(),
    }
}

fn ready_draft() -> Draft {
    Draft { origin: String::from("core"), git_url: String::from("https://git.example/acme/plans.git"), ..draft() }
}

fn json(status: Status, text: &str) -> Step {
    Step::Done(Response { status, body: Body::Json(text.to_string()) })
}

fn plain(text: &str) -> Step {
    Step::Done(Response { status: Status::BadRequest, body: Body::Text(text.to_string()) })
}

fn bare(status: Status) -> Step {
    Step::Done(Response { status, body: Body::Empty })
}

fn failure(status: Status, code: u64, msg: &str) -> Step {
    json(status, &format!("{{\"code\":{},\"msg\":\"{}\"}}", code, msg))
}

fn some_project() -> Project {
    Project {
        id: String::from("core/redis"),
        owner_id: 2,
        plan_path: String::from("redis/plan.sh"),
        git_url: String::from("https://git.example/acme/plans.git"),
    }
}

fn waiting_states() -> Vec<Pending> {
    vec![
        Pending::SessionToken,
        Pending::SessionUser { token: String::from("t") },
        Pending::SessionEmails { token: String::from("t"), extern_id: 1, name: String::from("n") },
        Pending::SessionSave,
        Pending::JobProject { owner_id: 1 },
        Pending::JobSave,
        Pending::JobShow,
        Pending::Invitations,
        Pending::Origins,
        Pending::InvitationAccept,
        Pending::ProjectOrigin(draft()),
        Pending::ProjectRepo(draft()),
        Pending::ProjectContents(draft()),
        Pending::ProjectPlan(ready_draft()),
        Pending::ProjectSave,
        Pending::ProjectDelete,
        Pending::ProjectUpdate,
        Pending::ProjectShow,
    ]
}

fn all_events() -> Vec<Event> {
    vec![
        Event::Reply(BackendResponse::Session { json: String::from("{}") }),
        Event::Reply(BackendResponse::Job { json: String::from("{}") }),
        Event::Reply(BackendResponse::Project { project: some_project(), json: String::from("{}") }),
        Event::Reply(BackendResponse::Origin { name: String::from("core"), json: String::from("{}") }),
        Event::Reply(BackendResponse::AccountInvitationList { json: String::from("{}") }),
        Event::Reply(BackendResponse::AccountOriginList { json: String::from("{}") }),
        Event::Reply(BackendResponse::OriginInvitationAccept),
        Event::Reply(BackendResponse::NetOk),
        Event::Failure(err(ErrCode::EntityNotFound, "nope")),
        Event::Unavailable,
        Event::Token(String::from("t")),
        Event::User { id: 1, login: String::from("n") },
        Event::Emails(vec![]),
        Event::Emails(vec![Email { email: String::from("a@b"), primary: false }]),
        Event::Repo { clone_url: String::from("u") },
        Event::Contents { content: String::from("aGk=") },
        Event::Contents { content: String::from("!") },
        Event::GithubFailure(GithubError::Other),
        Event::Plan { name: String::from("redis") },
        Event::PlanMalformed,
    ]
}

fn steps_left(pending: &Pending) -> u32 {
    match pending {
        Pending::SessionToken => 4,
        Pending::SessionUser { .. } => 3,
        Pending::SessionEmails { .. } => 2,
        Pending::JobProject { .. } => 2,
        Pending::ProjectOrigin(_) => 6,
        Pending::ProjectRepo(_) => 5,
        Pending::ProjectContents(_) => 4,
        Pending::ProjectPlan(_) => 3,
        _ => 1,
    }
}

#[test]
fn job_show_end_to_end() {
    let mut params = Params::new();
    params.insert(String::from("id"), String::from("42"));
    let step = job_show(&Request { params, body: None, session: None });
    let then = match step {
        Step::Call { request: Outbound::Route(BackendRequest::JobGet { id: 42 }), then } => then,
        other => panic!("unexpected step {:?}", other),
    };
    let done = resume(then, Event::Reply(BackendResponse::Job { json: String::from("{\"id\":42,\"state\":0}") }));
    assert_eq!(done, json(Status::Okay, "{\"id\":42,\"state\":0}"));
}

#[test]
fn job_show_not_found_end_to_end() {
    let mut params = Params::new();
    params.insert(String::from("id"), String::from("99"));
    let step = job_show(&Request { params, body: None, session: None });
    let then = match step {
        Step::Call { request: Outbound::Route(BackendRequest::JobGet { id: 99 }), then } => then,
        other => panic!("unexpected step {:?}", other),
    };
    let done = resume(then, Event::Failure(err(ErrCode::EntityNotFound, "job 99")));
    assert_eq!(done, failure(Status::NotFound, 4, "job 99"));
    match done {
        Step::Done(r) => assert_eq!(r.status.code(), 404),
        other => panic!("unexpected step {:?}", other),
    }
}

#[test]
fn job_show_malformed_end_to_end() {
    let mut params = Params::new();
    params.insert(String::from("id"), String::from("abc"));
    let step = job_show(&Request { params, body: None, session: None });
    assert_eq!(step, bare(Status::BadRequest));
}

#[test]
fn job_show_same_answer_same_response() {
    let reply = || Event::Reply(BackendResponse::Job { json: String::from("{\"id\":42}") });
    assert_eq!(resume(Pending::JobShow, reply()), resume(Pending::JobShow, reply()));
}

#[test]
fn last_steps_render_with_their_status() {
    let doc = || String::from("{\"k\":1}");
    assert_eq!(resume(Pending::SessionSave, Event::Reply(BackendResponse::Session { json: doc() })), json(Status::Okay, "{\"k\":1}"));
    assert_eq!(resume(Pending::JobSave, Event::Reply(BackendResponse::Job { json: doc() })), json(Status::Created, "{\"k\":1}"));
    assert_eq!(resume(Pending::JobShow, Event::Reply(BackendResponse::Job { json: doc() })), json(Status::Okay, "{\"k\":1}"));
    assert_eq!(resume(Pending::Invitations, Event::Reply(BackendResponse::AccountInvitationList { json: doc() })), json(Status::Okay, "{\"k\":1}"));
    assert_eq!(resume(Pending::Origins, Event::Reply(BackendResponse::AccountOriginList { json: doc() })), json(Status::Okay, "{\"k\":1}"));
    assert_eq!(resume(Pending::InvitationAccept, Event::Reply(BackendResponse::OriginInvitationAccept)), bare(Status::NoContent));
    assert_eq!(resume(Pending::ProjectSave, Event::Reply(BackendResponse::Project { project: some_project(), json: doc() })), json(Status::Created, "{\"k\":1}"));
    assert_eq!(resume(Pending::ProjectShow, Event::Reply(BackendResponse::Project { project: some_project(), json: doc() })), json(Status::Okay, "{\"k\":1}"));
    assert_eq!(resume(Pending::ProjectDelete, Event::Reply(BackendResponse::NetOk)), bare(Status::NoContent));
    assert_eq!(resume(Pending::ProjectUpdate, Event::Reply(BackendResponse::NetOk)), bare(Status::NoContent));
}

#[test]
fn a_reply_of_the_wrong_kind_is_a_fault() {
    assert_eq!(resume(Pending::JobShow, Event::Reply(BackendResponse::NetOk)), Step::Abort(Fault::UnexpectedEvent));
    assert_eq!(resume(Pending::ProjectDelete, Event::Reply(BackendResponse::Job { json: String::new() })), Step::Abort(Fault::UnexpectedEvent));
    assert_eq!(resume(Pending::JobShow, Event::Token(String::from("t"))), Step::Abort(Fault::UnexpectedEvent));
    assert_eq!(resume(Pending::SessionToken, Event::Unavailable), Step::Abort(Fault::UnexpectedEvent));
    assert_eq!(resume(Pending::JobProject { owner_id: 1 }, Event::Reply(BackendResponse::NetOk)), Step::Abort(Fault::UnexpectedEvent));
    assert_eq!(resume(Pending::ProjectOrigin(draft()), Event::Reply(BackendResponse::NetOk)), Step::Abort(Fault::UnexpectedEvent));
    assert_eq!(resume(Pending::ProjectPlan(ready_draft()), Event::Unavailable), Step::Abort(Fault::UnexpectedEvent));
}

#[test]
fn backend_failures_are_translated_everywhere() {
    let waiting = vec![
        Pending::SessionSave,
        Pending::JobProject { owner_id: 1 },
        Pending::JobSave,
        Pending::JobShow,
        Pending::Invitations,
        Pending::Origins,
        Pending::InvitationAccept,
        Pending::ProjectOrigin(draft()),
        Pending::ProjectSave,
        Pending::ProjectDelete,
        Pending::ProjectUpdate,
        Pending::ProjectShow,
    ];
    for pending in waiting {
        assert_eq!(resume(pending.clone(), Event::Failure(err(ErrCode::EntityConflict, "dup"))), failure(Status::Conflict, 9, "dup"));
        assert_eq!(resume(pending.clone(), Event::Failure(err(ErrCode::NoShard, "s"))), failure(Status::ServiceUnavailable, 6, "s"));
        assert_eq!(resume(pending.clone(), Event::Failure(err(ErrCode::Timeout, "t"))), failure(Status::RequestTimeout, 1, "t"));
        assert_eq!(resume(pending.clone(), Event::Failure(err(ErrCode::BadRemoteReply, "b"))), failure(Status::BadGateway, 3, "b"));
        assert_eq!(resume(pending.clone(), Event::Failure(err(ErrCode::SessionExpired, "x"))), failure(Status::Unauthorized, 8, "x"));
        assert_eq!(resume(pending.clone(), Event::Failure(err(ErrCode::Bug, "y"))), failure(Status::InternalServerError, 0, "y"));
        assert_eq!(resume(pending, Event::Unavailable), bare(Status::InternalServerError));
    }
}

#[test]
fn session_pipeline_runs_to_the_backend() {
    let step = resume(Pending::SessionToken, Event::Token(String::from("t0k")));
    assert_eq!(
        step,
        Step::Call {
            request: Outbound::FetchUser { token: String::from("t0k") },
            then: Pending::SessionUser { token: String::from("t0k") },
        }
    );
    let step = resume(Pending::SessionUser { token: String::from("t0k") }, Event::User { id: 64, login: String::from("ada") });
    assert_eq!(
        step,
        Step::Call {
            request: Outbound::FetchEmails { token: String::from("t0k") },
            then: Pending::SessionEmails { token: String::from("t0k"), extern_id: 64, name: String::from("ada") },
        }
    );
    let emails = vec![
        Email { email: String::from("old@example.com"), primary: false },
        Email { email: String::from("ada@example.com"), primary: true },
    ];
    let step = resume(
        Pending::SessionEmails { token: String::from("t0k"), extern_id: 64, name: String::from("ada") },
        Event::Emails(emails),
    );
    assert_eq!(
        step,
        Step::Call {
            request: Outbound::Route(BackendRequest::SessionCreate {
                token: String::from("t0k"),
                extern_id: 64,
                email: String::from("ada@example.com"),
                name: String::from("ada"),
                provider: OAuthProvider::GitHub,
            }),
            then: Pending::SessionSave,
        }
    );
}

#[test]
fn session_pipeline_failures() {
    assert_eq!(
        resume(Pending::SessionToken, Event::GithubFailure(GithubError::Auth { error: String::from("bad_verification_code") })),
        failure(Status::InternalServerError, 2, "bad_verification_code")
    );
    assert_eq!(resume(Pending::SessionToken, Event::GithubFailure(GithubError::JsonDecode)), failure(Status::BadGateway, 3, "rg:auth:1"));
    assert_eq!(resume(Pending::SessionToken, Event::GithubFailure(GithubError::Other)), failure(Status::InternalServerError, 0, "rg:auth:0"));
    let user = || Pending::SessionUser { token: String::from("t") };
    assert_eq!(resume(user(), Event::GithubFailure(GithubError::JsonDecode)), failure(Status::BadGateway, 3, "rg:auth:1"));
    assert_eq!(resume(user(), Event::GithubFailure(GithubError::Other)), failure(Status::InternalServerError, 0, "rg:auth:2"));
    assert_eq!(resume(user(), Event::GithubFailure(GithubError::Auth { error: String::from("e") })), failure(Status::InternalServerError, 0, "rg:auth:2"));
    let emails = || Pending::SessionEmails { token: String::from("t"), extern_id: 1, name: String::from("n") };
    assert_eq!(resume(emails(), Event::GithubFailure(GithubError::Other)), failure(Status::InternalServerError, 7, "rg:auth:0"));
    assert_eq!(resume(emails(), Event::Emails(vec![])), failure(Status::InternalServerError, 7, "rg:auth:0"));
}

#[test]
fn choose_email_prefers_the_first_primary() {
    let e = |email: &str, primary: bool| Email { email: email.to_string(), primary };
    assert_eq!(choose_email(&vec![]), None);
    assert_eq!(choose_email(&vec![e("a", false)]), Some(String::from("a")));
    assert_eq!(choose_email(&vec![e("a", false), e("b", false)]), Some(String::from("a")));
    assert_eq!(choose_email(&vec![e("a", false), e("b", true), e("c", true)]), Some(String::from("b")));
    assert_eq!(choose_email(&vec![e("a", true), e("b", true)]), Some(String::from("a")));
}

#[test]
fn job_pipeline_forwards_the_project() {
    let step = resume(
        Pending::JobProject { owner_id: 5 },
        Event::Reply(BackendResponse::Project { project: some_project(), json: String::from("{}") }),
    );
    assert_eq!(
        step,
        Step::Call {
            request: Outbound::Route(BackendRequest::JobSpec { owner_id: 5, project: some_project() }),
            then: Pending::JobSave,
        }
    );
}

#[test]
fn job_pipeline_stops_when_the_project_is_unknown() {
    let step = resume(Pending::JobProject { owner_id: 5 }, Event::Failure(err(ErrCode::EntityNotFound, "p")));
    assert_eq!(step, failure(Status::NotFound, 4, "p"));
}

#[test]
fn project_pipeline_runs_in_order() {
    let step = resume(
        Pending::ProjectOrigin(draft()),
        Event::Reply(BackendResponse::Origin { name: String::from("core"), json: String::from("{}") }),
    );
    let with_origin = Draft { origin: String::from("core"), ..draft() };
    assert_eq!(
        step,
        Step::Call {
            request: Outbound::FetchRepo {
                token: String::from("tok"),
                organization: String::from("acme"),
                repo: String::from("plans"),
            },
            then: Pending::ProjectRepo(with_origin.clone()),
        }
    );
    let step = resume(
        Pending::ProjectRepo(with_origin),
        Event::Repo { clone_url: String::from("https://git.example/acme/plans.git") },
    );
    assert_eq!(
        step,
        Step::Call {
            request: Outbound::FetchContents {
                token: String::from("tok"),
                organization: String::from("acme"),
                repo: String::from("plans"),
                path: String::from("redis/plan.sh"),
            },
            then: Pending::ProjectContents(ready_draft()),
        }
    );
    let step = resume(
        Pending::ProjectContents(ready_draft()),
        Event::Contents { content: String::from("cGtnX25hbWU9cmVkaXMK") },
    );
    assert_eq!(
        step,
        Step::Call {
            request: Outbound::ParsePlan { bytes: b"pkg_name=redis\n".to_vec() },
            then: Pending::ProjectPlan(ready_draft()),
        }
    );
    let step = resume(Pending::ProjectPlan(ready_draft()), Event::Plan { name: String::from("redis") });
    assert_eq!(
        step,
        Step::Call {
            request: Outbound::Route(BackendRequest::ProjectCreate {
                project: Project {
                    id: String::from("core/redis"),
                    owner_id: 8,
                    plan_path: String::from("redis/plan.sh"),
                    git_url: String::from("https://git.example/acme/plans.git"),
                },
            }),
            then: Pending::ProjectSave,
        }
    );
}

#[test]
fn project_pipeline_stops_on_a_failing_origin_lookup() {
    let step = resume(Pending::ProjectOrigin(draft()), Event::Failure(err(ErrCode::EntityNotFound, "origin")));
    assert_eq!(step, failure(Status::NotFound, 4, "origin"));
}

#[test]
fn project_pipeline_tags_each_external_failure() {
    assert_eq!(resume(Pending::ProjectRepo(draft()), Event::GithubFailure(GithubError::Other)), plain("rg:pc:1"));
    assert_eq!(resume(Pending::ProjectContents(draft()), Event::GithubFailure(GithubError::JsonDecode)), plain("rg:pc:2"));
    assert_eq!(resume(Pending::ProjectPlan(ready_draft()), Event::PlanMalformed), plain("rg:pc:3"));
    assert_eq!(resume(Pending::ProjectContents(draft()), Event::Contents { content: String::from("not base64!") }), plain("rg:pc:4"));
}

#[test]
fn project_pipeline_refuses_what_is_no_base64() {
    let step = resume(Pending::ProjectContents(ready_draft()), Event::Contents { content: String::from("@@@@") });
    assert_eq!(step, plain("rg:pc:4"));
    let not_found = resume(Pending::ProjectOrigin(draft()), Event::Failure(err(ErrCode::EntityNotFound, "origin")));
    assert_ne!(step, not_found);
    let short = resume(Pending::ProjectContents(ready_draft()), Event::Contents { content: String::from("a") });
    assert_eq!(short, plain("rg:pc:4"));
}

#[test]
fn project_pipeline_decodes_padded_and_wrapped_base64() {
    let step = resume(Pending::ProjectContents(ready_draft()), Event::Contents { content: String::from("aG\nk=\n") });
    assert_eq!(
        step,
        Step::Call { request: Outbound::ParsePlan { bytes: b"hi".to_vec() }, then: Pending::ProjectPlan(ready_draft()) }
    );
    let empty = resume(Pending::ProjectContents(ready_draft()), Event::Contents { content: String::new() });
    assert_eq!(
        empty,
        Step::Call { request: Outbound::ParsePlan { bytes: vec![] }, then: Pending::ProjectPlan(ready_draft()) }
    );
}

#[test]
fn read_plan_hands_bytes_on_or_stops() {
    assert_eq!(
        read_plan(ready_draft(), Some(vec![1, 2, 3])),
        Step::Call { request: Outbound::ParsePlan { bytes: vec![1, 2, 3] }, then: Pending::ProjectPlan(ready_draft()) }
    );
    assert_eq!(read_plan(ready_draft(), None), plain("rg:pc:4"));
}

#[test]
fn the_creating_request_comes_only_after_the_plan() {
    for pending in waiting_states() {
        for event in all_events() {
            let step = resume(pending.clone(), event.clone());
            if let Step::Call { request: Outbound::Route(BackendRequest::ProjectCreate { .. }), .. } = step {
                assert!(matches!(pending, Pending::ProjectPlan(_)));
                assert!(matches!(event, Event::Plan { .. }));
            }
        }
    }
}

#[test]
fn every_answer_brings_the_response_nearer() {
    for pending in waiting_states() {
        for event in all_events() {
            if let Step::Call { then, .. } = resume(pending.clone(), event.clone()) {
                assert!(steps_left(&then) < steps_left(&pending));
            }
        }
    }
}

#[test]
fn project_create_runs_to_created() {
    let text = |n: &str, v: &str| Member { name: n.to_string(), value: JsonValue::Text(v.to_string()) };
    let leaf = |n: &str, v: &str| Member { name: n.to_string(), value: JsonField::Text(v.to_string()) };
    let body = JsonBody::Object(vec![
        text("origin", "core"),
        text("plan_path", "redis/plan.sh"),
        Member { name: String::from("github"), value: JsonValue::Object(vec![leaf("organization", "acme"), leaf("repo", "plans")]) },
    ]);
    let session = Session { id: 8, token: String::from("tok"), provider: OAuthProvider::GitHub };
    let mut step = project_create(&Request { params: Params::new(), body: Some(body), session: Some(session) });
    let mut asked = Vec::new();
    loop {
        let (request, then) = match step {
            Step::Call { request, then } => (request, then),
            other => {
                assert_eq!(other, json(Status::Created, "{\"id\":\"core/redis\"}"));
                break;
            }
        };
        let event = match &request {
            Outbound::Route(BackendRequest::OriginGet { .. }) => Event::Reply(BackendResponse::Origin { name: String::from("core"), json: String::from("{}") }),
            Outbound::FetchRepo { .. } => Event::Repo { clone_url: String::from("https://git.example/acme/plans.git") },
            Outbound::FetchContents { .. } => Event::Contents { content: String::from("cGtnX25hbWU9cmVkaXMK") },
            Outbound::ParsePlan { .. } => Event::Plan { name: String::from("redis") },
            Outbound::Route(BackendRequest::ProjectCreate { project }) => Event::Reply(BackendResponse::Project { project: project.clone(), json: String::from("{\"id\":\"core/redis\"}") }),
            other => panic!("unexpected request {:?}", other),
        };
        asked.push(request);
        step = resume(then, event);
    }
    assert_eq!(asked.len(), 5);
    let creating = asked.iter().filter(|r| matches!(r, Outbound::Route(BackendRequest::ProjectCreate { .. }))).count();
    assert_eq!(creating, 1);
    assert!(matches!(asked[4], Outbound::Route(BackendRequest::ProjectCreate { .. })));
}
