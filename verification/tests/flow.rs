use oidc_account::driver::{AuthTask, Stage, TaskAction, TaskEvent};
use oidc_account::endpoint::OidcAuthUrl;
use oidc_account::model::Phase;
use oidc_account::reply::HbbHttpResponse;
use oidc_account::session::{AuthResult, OidcSession};
use oidc_account::user::{AuthBody, UserInfo, UserPayload, UserStatus};

const API: &str = "https://admin.example.net";
const SEC: u64 = 1_000_000_000;
const ASK: &str = "https://admin.example.net/api/oidc/auth-query?code=abc&id=my-id&uuid=my-uuid";

fn user(name: &str) -> UserPayload {
    UserPayload {
        name: name.to_owned(),
        email: Some(format!("{}@example.net", name)),
        note: None,
        status: UserStatus::Normal,
        info: UserInfo::default(),
        is_admin: false,
        third_auth_type: Some("oidc".to_owned()),
        ser_store_local: false,
    }
}

fn body(token: &str, name: &str) -> AuthBody {
    AuthBody { access_token: token.to_owned(), token_type: "bearer".to_owned(), user: user(name) }
}

fn handle(code: &str, url: &str) -> OidcAuthUrl {
    match OidcAuthUrl::new(code.to_owned(), url) {
        Ok(h) => h,
        Err(_) => panic!("{} is a URL", url),
    }
}

fn granted(s: &mut OidcSession, remember_me: bool) -> AuthTask {
    match s.account_auth("login", "my-id", "my-uuid", remember_me) {
        Some(task) => task,
        None => panic!("no driver is at work"),
    }
}

fn data(b: AuthBody) -> TaskEvent {
    TaskEvent::QueryReply(Ok(HbbHttpResponse::Data(b)))
}

fn error(message: &str) -> TaskEvent {
    TaskEvent::QueryReply(Ok(HbbHttpResponse::Error(message.to_owned())))
}

fn is_get(action: &TaskAction, expected: &str) -> bool {
    matches!(action, TaskAction::Get { url } if url == expected)
}

fn is_sleep(action: &TaskAction) -> bool {
    matches!(action, TaskAction::Sleep { millis: 1000 })
}

fn is_done(action: &TaskAction) -> bool {
    matches!(action, TaskAction::Done)
}

fn same(a: &AuthResult, b: &AuthResult) -> bool {
    a.state_msg == b.state_msg
        && a.failed_msg == b.failed_msg
        && a.url == b.url
        && a.auth_body.is_some() == b.auth_body.is_some()
}

/// A session that awaits the user, with the task of its driver, which began
/// to ask at `begin` and whose first question is under way.
fn asking(remember_me: bool, begin: u64) -> (OidcSession, AuthTask) {
    let mut s = OidcSession::new();
    let task = granted(&mut s, remember_me);
    let (task, action) = s.auth_task(task, API, TaskEvent::Begin, 0);
    assert!(matches!(action, TaskAction::Post { .. }));
    let reply = TaskEvent::AuthReply(Ok(HbbHttpResponse::Data(handle("abc", "https://idp/x"))));
    let (task, action) = s.auth_task(task, API, reply, begin);
    assert!(is_get(&action, ASK));
    assert_eq!(task.stage(), Stage::Asking);
    (s, task)
}

/// As `asking`, after an answer that says to wait: the driver sleeps.
fn resting(remember_me: bool, begin: u64) -> (OidcSession, AuthTask) {
    let (mut s, task) = asking(remember_me, begin);
    let (task, action) = s.auth_task(task, API, error("No authed oidc is found"), begin);
    assert!(is_sleep(&action));
    assert_eq!(task.stage(), Stage::Resting);
    (s, task)
}

#[test]
fn new_session_is_blank_and_idle() {
    let s = OidcSession::new();
    let r = s.get_result();
    assert_eq!(r.state_msg, "Requesting account auth");
    assert_eq!(r.failed_msg, "");
    assert_eq!(r.url, None);
    assert!(r.auth_body.is_none());
    assert!(!s.is_running());
}

#[test]
fn granted_task_holds_what_it_was_started_for() {
    let mut s = OidcSession::new();
    let task = match s.account_auth("bind", "an id", "a uuid", true) {
        Some(task) => task,
        None => panic!("no driver is at work"),
    };
    assert_eq!(task.op(), "bind");
    assert_eq!(task.id(), "an id");
    assert_eq!(task.uuid(), "a uuid");
    assert!(task.remember_me());
    assert_eq!(task.stage(), Stage::Start);
    assert!(s.is_running());
}

#[test]
fn login_end_to_end() {
    let mut s = OidcSession::new();
    let task = granted(&mut s, false);
    assert!(s.is_running());

    let (task, action) = s.auth_task(task, API, TaskEvent::Begin, 0);
    match action {
        TaskAction::Post { url, form } => {
            assert_eq!(url, "https://admin.example.net/api/oidc/auth");
            assert_eq!(
                form,
                vec![
                    ("op".to_owned(), "login".to_owned()),
                    ("id".to_owned(), "my-id".to_owned()),
                    ("uuid".to_owned(), "my-uuid".to_owned()),
                ]
            );
        }
        _ => panic!("the driver begins with the request"),
    }
    assert_eq!(task.stage(), Stage::Requesting);
    assert_eq!(s.get_result().state_msg, "Requesting account auth");
    assert_eq!(s.phase(), Phase::Requesting);

    let reply = TaskEvent::AuthReply(Ok(HbbHttpResponse::Data(handle("abc", "https://idp/x"))));
    let (task, action) = s.auth_task(task, API, reply, SEC);
    assert!(is_get(&action, ASK));
    assert_eq!(task.stage(), Stage::Asking);
    let r = s.get_result();
    assert_eq!(r.url, Some("https://idp/x".to_owned()));
    assert_eq!(r.state_msg, "Waiting...");
    assert_eq!(s.phase(), Phase::Waiting);
    assert_eq!(r.failed_msg, "");
    assert!(r.auth_body.is_none());

    let (task, action) = s.auth_task(task, API, data(body("tok", "alice")), 2 * SEC);
    assert!(is_done(&action));
    assert_eq!(task.stage(), Stage::Done);
    let r = s.get_result();
    assert_eq!(r.state_msg, "LoggedIn");
    assert_eq!(s.phase(), Phase::LoggedIn);
    assert_eq!(r.failed_msg, "");
    assert_eq!(r.url, Some("https://idp/x".to_owned()));
    let got = match r.auth_body {
        Some(b) => b,
        None => panic!("a login has a result"),
    };
    assert_eq!(got.access_token, "tok");
    assert_eq!(got.token_type, "bearer");
    assert_eq!(got.user.name, "alice");
    assert_eq!(got.user.status, UserStatus::Normal);
    assert_eq!(got.user.email, Some("alice@example.net".to_owned()));
    assert!(!got.user.ser_store_local);
    assert!(!s.is_running());
}

#[test]
fn initiate_error_is_the_failure() {
    let mut s = OidcSession::new();
    let task = granted(&mut s, false);
    let (task, _) = s.auth_task(task, API, TaskEvent::Begin, 0);
    let reply = TaskEvent::AuthReply(Ok(HbbHttpResponse::Error("rate limited".to_owned())));
    let (task, action) = s.auth_task(task, API, reply, SEC);
    assert!(is_done(&action));
    assert_eq!(task.stage(), Stage::Done);
    let r = s.get_result();
    assert_eq!(r.failed_msg, "rate limited");
    assert_eq!(r.url, None);
    assert_eq!(r.state_msg, "Requesting account auth");
    assert!(r.auth_body.is_none());
    assert!(!s.is_running());
}

#[test]
fn initiate_transport_error_is_the_failure() {
    let mut s = OidcSession::new();
    let task = granted(&mut s, false);
    let (task, _) = s.auth_task(task, API, TaskEvent::Begin, 0);
    let reply = TaskEvent::AuthReply(Err("connection refused".to_owned()));
    let (_, action) = s.auth_task(task, API, reply, SEC);
    assert!(is_done(&action));
    let r = s.get_result();
    assert_eq!(r.failed_msg, "connection refused");
    assert_eq!(r.state_msg, "Requesting account auth");
    assert_eq!(r.url, None);
    assert!(!s.is_running());
}

#[test]
fn initiate_unrecognized_answer_is_invalid() {
    for shape in [HbbHttpResponse::DataTypeFormat, HbbHttpResponse::ErrorFormat] {
        let mut s = OidcSession::new();
        let task = granted(&mut s, false);
        let (task, _) = s.auth_task(task, API, TaskEvent::Begin, 0);
        let (_, action) = s.auth_task(task, API, TaskEvent::AuthReply(Ok(shape)), SEC);
        assert!(is_done(&action));
        let r = s.get_result();
        assert_eq!(r.failed_msg, "Invalid auth response");
        assert_eq!(r.state_msg, "Requesting account auth");
        assert_eq!(r.url, None);
        assert!(!s.is_running());
    }
}

#[test]
fn not_yet_authorized_keeps_waiting() {
    let (mut s, task) = asking(true, 0);
    let before = s.get_result();
    let (task, action) = s.auth_task(task, API, error("No authed oidc is found"), SEC);
    assert!(is_sleep(&action));
    assert_eq!(task.stage(), Stage::Resting);
    assert!(same(&before, &s.get_result()));
    let (task, action) = s.auth_task(task, API, TaskEvent::Slept, 2 * SEC);
    assert!(is_get(&action, ASK));
    let (task, action) =
        s.auth_task(task, API, error("error: No authed oidc is found, try later"), 3 * SEC);
    assert!(is_sleep(&action));
    assert_eq!(task.stage(), Stage::Resting);
    let r = s.get_result();
    assert_eq!(r.failed_msg, "");
    assert_eq!(r.state_msg, "Waiting...");
    assert!(r.auth_body.is_none());
    assert!(s.is_running());
}

#[test]
fn not_yet_authorized_is_matched_by_case() {
    let (mut s, task) = asking(false, 0);
    let (_, action) = s.auth_task(task, API, error("no authed oidc is found"), SEC);
    assert!(is_done(&action));
    assert_eq!(s.get_result().failed_msg, "no authed oidc is found");
}

#[test]
fn other_provider_error_ends_the_flow() {
    let (mut s, task) = asking(true, 0);
    let (task, action) = s.auth_task(task, API, error("access denied"), SEC);
    assert!(is_done(&action));
    assert_eq!(task.stage(), Stage::Done);
    let r = s.get_result();
    assert_eq!(r.failed_msg, "access denied");
    assert_eq!(r.state_msg, "Waiting...");
    assert_eq!(r.url, Some("https://idp/x".to_owned()));
    assert!(r.auth_body.is_none());
    assert!(!s.is_running());
}

#[test]
fn transport_and_shape_errors_are_ignored_while_polling() {
    let replies = [
        Err("timed out".to_owned()),
        Ok(HbbHttpResponse::DataTypeFormat),
        Ok(HbbHttpResponse::ErrorFormat),
    ];
    for reply in replies {
        let (mut s, task) = asking(true, 0);
        let (task, action) = s.auth_task(task, API, TaskEvent::QueryReply(reply), SEC);
        assert!(is_sleep(&action));
        assert_eq!(task.stage(), Stage::Resting);
        let r = s.get_result();
        assert_eq!(r.failed_msg, "");
        assert_eq!(r.state_msg, "Waiting...");
        assert!(r.auth_body.is_none());
        assert!(s.is_running());
    }
}

#[test]
fn timeout_is_the_failure() {
    let begin = 7 * SEC + 5;
    let (mut s, mut task) = resting(false, begin);
    let mut now = begin;
    for _ in 0..5 {
        now += 30 * SEC;
        let (t, action) = s.auth_task(task, API, TaskEvent::Slept, now);
        assert!(is_get(&action, ASK));
        let (t, action) = s.auth_task(t, API, error("No authed oidc is found"), now + SEC);
        assert!(is_sleep(&action));
        task = t;
    }
    let (task, action) = s.auth_task(task, API, TaskEvent::Slept, begin + 180 * SEC);
    assert!(is_done(&action));
    assert_eq!(task.stage(), Stage::Done);
    let r = s.get_result();
    assert_eq!(r.failed_msg, "timeout");
    assert!(r.auth_body.is_none());
    assert_eq!(r.state_msg, "Waiting...");
    assert!(!s.is_running());
}

#[test]
fn time_is_up_at_180_seconds_and_not_before() {
    let begin = 3 * SEC;
    let (mut s, task) = resting(false, begin);
    let (task, action) = s.auth_task(task, API, TaskEvent::Slept, begin + 180 * SEC - 1);
    assert!(is_get(&action, ASK));
    assert_eq!(s.get_result().failed_msg, "");
    let (task, _) = s.auth_task(task, API, error("No authed oidc is found"), begin + 180 * SEC - 1);
    let (_, action) = s.auth_task(task, API, TaskEvent::Slept, begin + 180 * SEC);
    assert!(is_done(&action));
    assert_eq!(s.get_result().failed_msg, "timeout");

    let (mut s, task) = resting(false, begin);
    let (_, action) = s.auth_task(task, API, TaskEvent::Slept, u64::MAX);
    assert!(is_done(&action));
    assert_eq!(s.get_result().failed_msg, "timeout");
}

#[test]
fn the_deadline_is_looked_at_before_each_sleep() {
    let begin = 3 * SEC;
    let (mut s, task) = asking(false, begin);
    let (task, action) =
        s.auth_task(task, API, error("No authed oidc is found"), begin + 180 * SEC - 1);
    assert!(is_sleep(&action));
    assert_eq!(task.stage(), Stage::Resting);
    assert_eq!(s.get_result().failed_msg, "");

    let (mut s, task) = asking(false, begin);
    let late = begin + 180 * SEC;
    let (task, action) = s.auth_task(task, API, error("No authed oidc is found"), late);
    assert!(is_done(&action));
    assert_eq!(task.stage(), Stage::Done);
    let r = s.get_result();
    assert_eq!(r.failed_msg, "timeout");
    assert!(r.auth_body.is_none());
    assert!(!s.is_running());

    let (mut s, task) = asking(false, begin);
    let (_, action) =
        s.auth_task(task, API, TaskEvent::QueryReply(Err("reset".to_owned())), begin + 500 * SEC);
    assert!(is_done(&action));
    assert_eq!(s.get_result().failed_msg, "timeout");
}

#[test]
fn a_clock_that_went_back_counts_as_no_time() {
    let (mut s, task) = resting(false, 500 * SEC);
    let (_, action) = s.auth_task(task, API, TaskEvent::Slept, 10 * SEC);
    assert!(is_get(&action, ASK));
    assert_eq!(s.get_result().failed_msg, "");
}

#[test]
fn cancel_while_waiting_ends_in_silence() {
    let (mut s, task) = resting(false, 0);
    let before = s.get_result();
    s.auth_cancel();
    let (task, action) = s.auth_task(task, API, TaskEvent::Slept, 10 * SEC);
    assert!(is_done(&action));
    assert_eq!(task.stage(), Stage::Done);
    let r = s.get_result();
    assert_eq!(r.failed_msg, "");
    assert!(r.auth_body.is_none());
    assert_eq!(r.state_msg, "Waiting...");
    assert!(same(&before, &r));
    assert!(!s.is_running());
}

#[test]
fn cancel_while_a_question_is_under_way() {
    let (mut s, task) = asking(false, 0);
    s.auth_cancel();
    let (task, action) = s.auth_task(task, API, error("No authed oidc is found"), SEC);
    assert!(is_done(&action));
    assert_eq!(task.stage(), Stage::Done);
    let r = s.get_result();
    assert_eq!(r.failed_msg, "");
    assert_eq!(r.state_msg, "Waiting...");
    assert!(r.auth_body.is_none());
    assert!(!s.is_running());

    let (mut s, task) = asking(false, 0);
    s.auth_cancel();
    let (_, action) = s.auth_task(task, API, data(body("tok", "alice")), SEC);
    assert!(is_done(&action));
    assert_eq!(s.get_result().state_msg, "LoggedIn");
    assert!(s.get_result().auth_body.is_some());
}

#[test]
fn cancel_before_the_handle_comes() {
    let mut s = OidcSession::new();
    let task = granted(&mut s, false);
    let (task, _) = s.auth_task(task, API, TaskEvent::Begin, 0);
    s.auth_cancel();
    let reply = TaskEvent::AuthReply(Ok(HbbHttpResponse::Data(handle("abc", "https://idp/x"))));
    let (task, action) = s.auth_task(task, API, reply, SEC);
    assert!(is_done(&action));
    assert_eq!(task.stage(), Stage::Done);
    let r = s.get_result();
    assert_eq!(r.state_msg, "Waiting...");
    assert_eq!(r.url, Some("https://idp/x".to_owned()));
    assert_eq!(r.failed_msg, "");
    assert!(!s.is_running());
}

#[test]
fn cancel_twice_is_cancel_once() {
    let (mut s, task) = resting(false, 0);
    s.auth_cancel();
    let once = s.get_result();
    s.auth_cancel();
    assert!(same(&once, &s.get_result()));
    assert!(s.is_running());
    let (_, action) = s.auth_task(task, API, TaskEvent::Slept, SEC);
    assert!(is_done(&action));
    assert_eq!(s.get_result().failed_msg, "");
}

#[test]
fn cancel_at_the_deadline_reports_timeout() {
    let (mut s, task) = resting(false, 0);
    s.auth_cancel();
    let (_, action) = s.auth_task(task, API, TaskEvent::Slept, 180 * SEC);
    assert!(is_done(&action));
    assert_eq!(s.get_result().failed_msg, "timeout");
}

#[test]
fn remember_me_stores_before_the_login_shows() {
    let (mut s, task) = asking(true, 0);
    let (task, action) = s.auth_task(task, API, data(body("tok", "alice")), SEC);
    let record = match action {
        TaskAction::Store(record) => record,
        _ => panic!("a login that is remembered is stored first"),
    };
    assert_eq!(record.access_token, "tok");
    assert_eq!(record.user.name, "alice");
    assert_eq!(record.user.status, UserStatus::Normal);
    assert!(record.user.ser_store_local);
    assert_eq!(task.stage(), Stage::Storing);
    let r = s.get_result();
    assert_eq!(r.state_msg, "Waiting...");
    assert!(r.auth_body.is_none());
    assert!(s.is_running());

    let (task, action) = s.auth_task(task, API, TaskEvent::Stored, 2 * SEC);
    assert!(is_done(&action));
    assert_eq!(task.stage(), Stage::Done);
    let r = s.get_result();
    assert_eq!(r.state_msg, "LoggedIn");
    let kept = match r.auth_body {
        Some(b) => b,
        None => panic!("a login has a result"),
    };
    assert_eq!(kept.access_token, "tok");
    assert_eq!(kept.token_type, "bearer");
    assert!(!kept.user.ser_store_local);
    assert_eq!(kept.user.email, Some("alice@example.net".to_owned()));
    assert!(!s.is_running());
}

#[test]
fn the_mark_of_the_kept_record() {
    let (mut s, task) = asking(true, 0);
    let mut b = body("tok", "alice");
    b.user.ser_store_local = true;
    let (task, _) = s.auth_task(task, API, data(b), SEC);
    let _ = s.auth_task(task, API, TaskEvent::Stored, SEC);
    assert_eq!(s.get_result().auth_body.map(|b| b.user.ser_store_local), Some(false));

    let (mut s, task) = asking(false, 0);
    let mut b = body("tok", "alice");
    b.user.ser_store_local = true;
    let (_, action) = s.auth_task(task, API, data(b), SEC);
    assert!(is_done(&action));
    assert_eq!(s.get_result().auth_body.map(|b| b.user.ser_store_local), Some(true));
}

#[test]
fn an_event_that_was_not_asked_for_ends_the_driver() {
    let mut s = OidcSession::new();
    let task = granted(&mut s, false);
    let (task, action) = s.auth_task(task, API, TaskEvent::Slept, 0);
    assert!(is_done(&action));
    assert_eq!(task.stage(), Stage::Done);
    assert!(!s.is_running());
    assert_eq!(s.get_result().failed_msg, "");

    let (mut s, task) = asking(true, 0);
    let (_, action) = s.auth_task(task, API, TaskEvent::Stored, SEC);
    assert!(is_done(&action));
    let r = s.get_result();
    assert_eq!(r.state_msg, "Waiting...");
    assert_eq!(r.failed_msg, "");
    assert!(r.auth_body.is_none());
    assert!(!s.is_running());

    let (mut s, task) = resting(true, 0);
    let (_, action) = s.auth_task(task, API, data(body("tok", "alice")), SEC);
    assert!(is_done(&action));
    assert!(s.get_result().auth_body.is_none());
    assert!(!s.is_running());
}

#[test]
fn a_driver_that_has_left_changes_nothing() {
    let (mut s, old) = resting(false, 0);
    s.auth_cancel();
    let (old, action) = s.auth_task(old, API, TaskEvent::Slept, SEC);
    assert!(is_done(&action));

    let new = granted(&mut s, false);
    let (new, _) = s.auth_task(new, API, TaskEvent::Begin, 2 * SEC);
    let before = s.get_result();
    let (old, action) = s.auth_task(old, API, data(body("tok", "mallory")), 3 * SEC);
    assert!(is_done(&action));
    let (old, action) = s.auth_task(old, API, TaskEvent::Slept, 400 * SEC);
    assert!(is_done(&action));
    let reply = TaskEvent::AuthReply(Ok(HbbHttpResponse::Error("late".to_owned())));
    let (old, action) = s.auth_task(old, API, reply, 4 * SEC);
    assert!(is_done(&action));
    assert_eq!(old.stage(), Stage::Done);
    assert!(same(&before, &s.get_result()));
    assert!(s.is_running());
    assert_eq!(new.stage(), Stage::Requesting);
}

#[test]
fn second_start_waits_for_the_first_driver() {
    let mut s = OidcSession::new();
    let first = match s.account_auth("login", "a", "u", false) {
        Some(task) => task,
        None => panic!("no driver is at work"),
    };
    let (first, _) = s.auth_task(first, API, TaskEvent::Begin, 0);
    let reply =
        TaskEvent::AuthReply(Ok(HbbHttpResponse::Data(handle("first", "https://idp/first"))));
    let (first, _) = s.auth_task(first, API, reply, 0);
    let (first, action) = s.auth_task(first, API, error("No authed oidc is found"), SEC);
    assert!(is_sleep(&action));

    assert!(s.account_auth("login", "b", "u", true).is_none());
    assert!(s.is_running());
    let r = s.get_result();
    assert_eq!(r.url, Some("https://idp/first".to_owned()));
    assert_eq!(r.state_msg, "Waiting...");
    assert!(s.account_auth("login", "b", "u", true).is_none());

    let (first, action) = s.auth_task(first, API, TaskEvent::Slept, 2 * SEC);
    assert!(is_done(&action));
    assert!(!s.is_running());

    let second = match s.account_auth("login", "b", "u", true) {
        Some(task) => task,
        None => panic!("the first driver has left"),
    };
    assert_eq!(second.id(), "b");
    assert!(second.remember_me());
    assert!(s.is_running());
    let r = s.get_result();
    assert_eq!(r.state_msg, "Requesting account auth");
    assert_eq!(r.failed_msg, "");
    assert_eq!(r.url, None);
    assert!(r.auth_body.is_none());

    let (second, _) = s.auth_task(second, API, TaskEvent::Begin, 3 * SEC);
    let reply =
        TaskEvent::AuthReply(Ok(HbbHttpResponse::Data(handle("second", "https://idp/second"))));
    let (second, action) = s.auth_task(second, API, reply, 3 * SEC);
    assert!(is_get(
        &action,
        "https://admin.example.net/api/oidc/auth-query?code=second&id=b&uuid=u"
    ));
    let _ = s.auth_task(first, API, data(body("tok", "first")), 4 * SEC);
    let r = s.get_result();
    assert_eq!(r.url, Some("https://idp/second".to_owned()));
    assert_eq!(r.state_msg, "Waiting...");
    assert!(r.auth_body.is_none());
    assert_eq!(second.stage(), Stage::Asking);
}

#[test]
fn a_new_flow_forgets_the_last_one() {
    let (mut s, task) = asking(false, 0);
    let _ = s.auth_task(task, API, data(body("tok", "alice")), SEC);
    assert!(s.get_result().auth_body.is_some());
    let _ = granted(&mut s, false);
    let r = s.get_result();
    assert_eq!(r.state_msg, "Requesting account auth");
    assert_eq!(r.failed_msg, "");
    assert_eq!(r.url, None);
    assert!(r.auth_body.is_none());

    let (mut s, task) = asking(false, 0);
    let _ = s.auth_task(task, API, error("denied"), SEC);
    assert_eq!(s.get_result().failed_msg, "denied");
    let _ = granted(&mut s, false);
    assert_eq!(s.get_result().failed_msg, "");
    assert_eq!(s.get_result().url, None);
}

#[test]
fn at_most_one_driver_over_many_starts() {
    let mut s = OidcSession::new();
    let mut at_work: Option<AuthTask> = None;
    let mut granted_count = 0;
    for round in 0..30u64 {
        match s.account_auth("login", "id", "uuid", false) {
            Some(task) => {
                assert!(at_work.is_none());
                at_work = Some(task);
                granted_count += 1;
            }
            None => assert!(at_work.is_some()),
        }
        assert_eq!(s.is_running(), at_work.is_some());
        if round % 3 == 2 {
            if let Some(task) = at_work.take() {
                let (task, action) = s.auth_task(task, API, TaskEvent::Slept, round);
                assert!(is_done(&action));
                assert_eq!(task.stage(), Stage::Done);
                assert!(!s.is_running());
            }
        }
    }
    assert_eq!(granted_count, 10);
}

#[test]
fn an_address_that_is_no_url_is_tried_until_the_time_is_up() {
    let mut s = OidcSession::new();
    let task = granted(&mut s, false);
    let (task, action) = s.auth_task(task, "nowhere", TaskEvent::Begin, 0);
    assert!(matches!(&action, TaskAction::Post { url, .. } if url == "nowhere/api/oidc/auth"));
    let reply = TaskEvent::AuthReply(Ok(HbbHttpResponse::Data(handle("abc", "https://idp/x"))));
    let (task, action) = s.auth_task(task, "nowhere", reply, 0);
    assert!(is_sleep(&action));
    assert_eq!(task.stage(), Stage::Resting);
    let (task, action) = s.auth_task(task, "nowhere", TaskEvent::Slept, SEC);
    assert!(is_sleep(&action));
    assert_eq!(s.get_result().failed_msg, "");
    let (_, action) = s.auth_task(task, "nowhere", TaskEvent::Slept, 180 * SEC);
    assert!(is_done(&action));
    assert_eq!(s.get_result().failed_msg, "timeout");
}

#[test]
fn snapshot_is_a_copy() {
    let (mut s, task) = asking(false, 0);
    let before = s.get_result();
    let _ = s.auth_task(task, API, error("denied"), SEC);
    assert_eq!(before.failed_msg, "");
    assert_eq!(s.get_result().failed_msg, "denied");
}
