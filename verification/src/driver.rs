//! The driver of a login flow as a machine: it is told what happened, changes
//! the session, and says what is to be done next. Whoever runs it does what
//! it says and tells it the outcome; it decides nothing.

use crate::endpoint::{
    auth_endpoint, auth_endpoint_text, auth_form, auth_form_view, query_url, query_url_text,
    OidcAuthUrl,
};
use crate::model::{
    AuthReplyView, LocalRecordView, PollStepView, QueryReplyView, SessionState,
    QUERY_INTERVAL_MILLIS,
};
use crate::reply::{reply_view, HbbHttpResponse, HbbHttpResponseView};
use crate::session::{LocalRecord, OidcSession, PollStep};
use crate::user::{AuthBody, AuthBodyView};
use vstd::prelude::*;
use vstd::string::StringExecFns;

verus! {

/// Nanoseconds in a second.
pub const NANOS_PER_SEC: u64 = 1_000_000_000;

/// Whole seconds from `begin` to `now`, both in nanoseconds on a clock that
/// does not go back; none where it did.
pub open spec fn secs_since(begin: u64, now: u64) -> u64 {
    if now >= begin {
        ((now - begin) / (NANOS_PER_SEC as int)) as u64
    } else {
        0
    }
}

/// Where a driver stands in its work.
#[derive(Debug, Clone, Copy, PartialEq, Eq, Structural)]
pub enum Stage {
    /// Nothing was done yet.
    Start,
    /// The request that starts an authorization is under way.
    Requesting,
    /// A question whether the user has authorized is under way.
    Asking,
    /// What the device keeps of the login is being stored.
    Storing,
    /// The driver sleeps between two questions.
    Resting,
    /// The driver has left.
    Done,
}

/// What a driver is told.
#[derive(Debug)]
pub enum TaskEvent {
    /// Begin.
    Begin,
    /// The answer to the request that starts an authorization, or the
    /// message of the failure to get one.
    AuthReply(Result<HbbHttpResponse<OidcAuthUrl>, String>),
    /// The answer to the question whether the user has authorized, or the
    /// message of the failure to get one.
    QueryReply(Result<HbbHttpResponse<AuthBody>, String>),
    /// The record was handed to the device's store.
    Stored,
    /// The sleep is over.
    Slept,
}

pub enum TaskEventView {
    Begin,
    AuthReply(AuthReplyView),
    QueryReply(QueryReplyView),
    Stored,
    Slept,
}

impl View for TaskEvent {
    type V = TaskEventView;

    open spec fn view(&self) -> TaskEventView {
        match self {
            TaskEvent::Begin => TaskEventView::Begin,
            TaskEvent::AuthReply(reply) => TaskEventView::AuthReply(reply_view(*reply)),
            TaskEvent::QueryReply(reply) => TaskEventView::QueryReply(reply_view(*reply)),
            TaskEvent::Stored => TaskEventView::Stored,
            TaskEvent::Slept => TaskEventView::Slept,
        }
    }
}

/// What a driver asks for. But for `Done`, it is told the outcome next.
#[derive(Debug)]
pub enum TaskAction {
    /// Post `form` to `url`; the outcome is an `AuthReply`.
    Post { url: String, form: Vec<(String, String)> },
    /// Fetch `url`; the outcome is a `QueryReply`.
    Get { url: String },
    /// Hand the record to the device's store, then say `Stored`.
    Store(LocalRecord),
    /// Sleep for so many milliseconds, then say `Slept`.
    Sleep { millis: u64 },
    /// Nothing: the driver has left.
    Done,
}

pub enum TaskActionView {
    Post { url: Seq<char>, form: Seq<(Seq<char>, Seq<char>)> },
    Get { url: Seq<char> },
    Store(LocalRecordView),
    Sleep { millis: u64 },
    Done,
}

impl View for TaskAction {
    type V = TaskActionView;

    open spec fn view(&self) -> TaskActionView {
        match self {
            TaskAction::Post { url, form } => TaskActionView::Post {
                url: url@,
                form: form.deep_view(),
            },
            TaskAction::Get { url } => TaskActionView::Get { url: url@ },
            TaskAction::Store(record) => TaskActionView::Store(record@),
            TaskAction::Sleep { millis } => TaskActionView::Sleep { millis: *millis },
            TaskAction::Done => TaskActionView::Done,
        }
    }
}

/// The task of one driver: what it was started for, and how far it has come.
#[derive(Debug)]
pub struct AuthTask {
    op: String,
    id: String,
    uuid: String,
    remember_me: bool,
    stage: Stage,
    code: String,
    begin: u64,
    pending: Option<AuthBody>,
}

pub struct TaskState {
    /// The operation: to log in, or to link an account.
    pub op: Seq<char>,
    pub id: Seq<char>,
    pub uuid: Seq<char>,
    /// Whether the device keeps the login.
    pub remember_me: bool,
    pub stage: Stage,
    /// The code with which the provider is asked, once it is known.
    pub code: Seq<char>,
    /// The time at which the driver began to ask.
    pub begin: u64,
    /// The result whose record is being stored.
    pub pending: Option<AuthBodyView>,
}

impl View for AuthTask {
    type V = TaskState;

    closed spec fn view(&self) -> TaskState {
        TaskState {
            op: self.op@,
            id: self.id@,
            uuid: self.uuid@,
            remember_me: self.remember_me,
            stage: self.stage,
            code: self.code@,
            begin: self.begin,
            pending: match self.pending {
                Some(body) => Some(body@),
                None => None,
            },
        }
    }
}

impl TaskState {
    /// A task on which nothing was done yet.
    pub open spec fn new(op: Seq<char>, id: Seq<char>, uuid: Seq<char>, remember_me: bool)
        -> TaskState {
        TaskState {
            op,
            id,
            uuid,
            remember_me,
            stage: Stage::Start,
            code: Seq::empty(),
            begin: 0,
            pending: None,
        }
    }

    /// The driver is at work.
    pub open spec fn live(self) -> bool {
        self.stage != Stage::Done
    }

    /// The same work, at the stage given.
    pub open spec fn at(self, stage: Stage) -> TaskState {
        TaskState { stage, ..self }
    }

    /// The task of a driver that has left.
    pub open spec fn done(self) -> TaskState {
        TaskState { stage: Stage::Done, pending: None, ..self }
    }
}

/// The outcome of one step: the session and the task after it, and what the
/// driver asks for.
pub struct Step {
    pub session: SessionState,
    pub task: TaskState,
    pub action: TaskActionView,
}

/// The driver leaves: the session is free for the next flow.
pub open spec fn leave(session: SessionState, task: TaskState) -> Step {
    Step { session: session.after_task(), task: task.done(), action: TaskActionView::Done }
}

/// The driver sleeps before it asks again.
pub open spec fn rest(session: SessionState, task: TaskState) -> Step {
    Step {
        session,
        task: task.at(Stage::Resting),
        action: TaskActionView::Sleep { millis: QUERY_INTERVAL_MILLIS },
    }
}

/// Before each question the driver looks at the session and the clock. While
/// it was not told to stop and the time is not up it asks, or sleeps where
/// the question cannot be put. Else it leaves, with the failure `timeout`
/// where the time is up.
pub open spec fn ask_or_leave(
    session: SessionState,
    task: TaskState,
    api_server: Seq<char>,
    now: u64,
) -> Step {
    let elapsed = secs_since(task.begin, now);
    if session.keep_polling(elapsed) {
        match query_url_text(api_server, task.code, task.id, task.uuid) {
            Ok(url) => Step {
                session,
                task: task.at(Stage::Asking),
                action: TaskActionView::Get { url },
            },
            Err(_) => rest(session, task),
        }
    } else {
        leave(session.after_query_end(elapsed), task)
    }
}

/// Before each sleep the driver looks at the session and the clock. While it
/// was not told to stop and the time is not up it sleeps. Else it leaves,
/// with the failure `timeout` where the time is up.
pub open spec fn rest_or_leave(session: SessionState, task: TaskState, now: u64) -> Step {
    let elapsed = secs_since(task.begin, now);
    if session.keep_polling(elapsed) {
        rest(session, task)
    } else {
        leave(session.after_query_end(elapsed), task)
    }
}

/// The result that an answer holds, if any.
pub open spec fn result_of(reply: QueryReplyView) -> Option<AuthBodyView> {
    match reply {
        Ok(HbbHttpResponseView::Data(body)) => Some(body),
        _ => None,
    }
}

/// One step of a driver. An event that the driver did not ask for makes it
/// leave; a driver that has left does nothing, whatever it is told.
pub open spec fn step(
    session: SessionState,
    task: TaskState,
    api_server: Seq<char>,
    event: TaskEventView,
    now: u64,
) -> Step {
    match (task.stage, event) {
        (Stage::Done, _) => Step { session, task, action: TaskActionView::Done },
        (Stage::Start, TaskEventView::Begin) => Step {
            session,
            task: task.at(Stage::Requesting),
            action: TaskActionView::Post {
                url: auth_endpoint_text(api_server),
                form: auth_form_view(task.op, task.id, task.uuid),
            },
        },
        (Stage::Requesting, TaskEventView::AuthReply(reply)) => match session.poll_code(reply) {
            Some(code) => ask_or_leave(
                session.after_auth_reply(reply),
                TaskState { code, begin: now, ..task },
                api_server,
                now,
            ),
            None => leave(session.after_auth_reply(reply), task),
        },
        (Stage::Asking, TaskEventView::QueryReply(reply)) => match session.query_step(
            reply,
            task.remember_me,
        ) {
            PollStepView::Wait => rest_or_leave(session, task, now),
            PollStepView::Stop => leave(session.after_query_reply(reply, task.remember_me), task),
            PollStepView::LoggedIn { store: None } => leave(
                session.after_query_reply(reply, task.remember_me),
                task,
            ),
            PollStepView::LoggedIn { store: Some(record) } => Step {
                session,
                task: TaskState { stage: Stage::Storing, pending: result_of(reply), ..task },
                action: TaskActionView::Store(record),
            },
        },
        (Stage::Storing, TaskEventView::Stored) => match task.pending {
            Some(body) => leave(
                session.after_query_reply(Ok(HbbHttpResponseView::Data(body)), true),
                task,
            ),
            None => leave(session, task),
        },
        (Stage::Resting, TaskEventView::Slept) => ask_or_leave(session, task, api_server, now),
        _ => leave(session, task),
    }
}

impl AuthTask {
    pub(crate) fn new(op: &str, id: &str, uuid: &str, remember_me: bool) -> (r: AuthTask)
        ensures
            r@ == TaskState::new(op@, id@, uuid@, remember_me),
    {
        AuthTask {
            op: String::from_str(op),
            id: String::from_str(id),
            uuid: String::from_str(uuid),
            remember_me,
            stage: Stage::Start,
            code: String::new(),
            begin: 0,
            pending: None,
        }
    }

    /// The operation: to log in, or to link an account.
    pub fn op(&self) -> (r: &String)
        ensures
            r@ == self@.op,
    {
        &self.op
    }

    pub fn id(&self) -> (r: &String)
        ensures
            r@ == self@.id,
    {
        &self.id
    }

    pub fn uuid(&self) -> (r: &String)
        ensures
            r@ == self@.uuid,
    {
        &self.uuid
    }

    /// Whether the device keeps the login.
    pub fn remember_me(&self) -> (r: bool)
        ensures
            r == self@.remember_me,
    {
        self.remember_me
    }

    /// Where the driver stands in its work.
    pub fn stage(&self) -> (r: Stage)
        ensures
            r == self@.stage,
    {
        self.stage
    }

    fn at(self, stage: Stage) -> (r: AuthTask)
        ensures
            r@ == self@.at(stage),
    {
        AuthTask { stage, ..self }
    }

    fn done(self) -> (r: AuthTask)
        ensures
            r@ == self@.done(),
    {
        AuthTask { stage: Stage::Done, pending: None, ..self }
    }
}

/// Whole seconds from `begin` to `now`.
fn elapsed_secs(begin: u64, now: u64) -> (r: u64)
    ensures
        r == secs_since(begin, now),
{
    if now >= begin {
        (now - begin) / NANOS_PER_SEC
    } else {
        0
    }
}

impl OidcSession {
    fn leave(&mut self, task: AuthTask) -> (r: (AuthTask, TaskAction))
        ensures
            (Step { session: final(self)@, task: r.0@, action: r.1@ }) == leave(
                old(self)@,
                task@,
            ),
            old(self)@.wf() ==> final(self)@.wf(),
    {
        self.after_task();
        (task.done(), TaskAction::Done)
    }

    fn ask_or_leave(&mut self, task: AuthTask, api_server: &str, now: u64) -> (r: (
        AuthTask,
        TaskAction,
    ))
        ensures
            (Step { session: final(self)@, task: r.0@, action: r.1@ }) == ask_or_leave(
                old(self)@,
                task@,
                api_server@,
                now,
            ),
            old(self)@.wf() ==> final(self)@.wf(),
    {
        let elapsed = elapsed_secs(task.begin, now);
        if self.keep_polling(elapsed) {
            match query_url(api_server, task.code.as_str(), task.id.as_str(), task.uuid.as_str()) {
                Ok(url) => (task.at(Stage::Asking), TaskAction::Get { url }),
                Err(_) => (
                    task.at(Stage::Resting),
                    TaskAction::Sleep { millis: QUERY_INTERVAL_MILLIS },
                ),
            }
        } else {
            self.on_query_end(elapsed);
            self.leave(task)
        }
    }

    fn rest_or_leave(&mut self, task: AuthTask, now: u64) -> (r: (AuthTask, TaskAction))
        ensures
            (Step { session: final(self)@, task: r.0@, action: r.1@ }) == rest_or_leave(
                old(self)@,
                task@,
                now,
            ),
            old(self)@.wf() ==> final(self)@.wf(),
    {
        let elapsed = elapsed_secs(task.begin, now);
        if self.keep_polling(elapsed) {
            (task.at(Stage::Resting), TaskAction::Sleep { millis: QUERY_INTERVAL_MILLIS })
        } else {
            self.on_query_end(elapsed);
            self.leave(task)
        }
    }

    /// One step of the driver that runs `task`, a task that this session
    /// handed out: takes what happened, changes the session, and returns the
    /// task as it stands then with what is to be done next. `now` is the time
    /// in nanoseconds on a clock that does not go back.
    pub fn auth_task(
        &mut self,
        task: AuthTask,
        api_server: &str,
        event: TaskEvent,
        now: u64,
    ) -> (r: (AuthTask, TaskAction))
        ensures
            (Step { session: final(self)@, task: r.0@, action: r.1@ }) == step(
                old(self)@,
                task@,
                api_server@,
                event@,
                now,
            ),
            old(self)@.wf() ==> final(self)@.wf(),
    {
        match task.stage {
            Stage::Done => (task, TaskAction::Done),
            Stage::Start => match event {
                TaskEvent::Begin => {
                    let url = auth_endpoint(api_server);
                    let form = auth_form(task.op.as_str(), task.id.as_str(), task.uuid.as_str());
                    (task.at(Stage::Requesting), TaskAction::Post { url, form })
                },
                _ => self.leave(task),
            },
            Stage::Requesting => match event {
                TaskEvent::AuthReply(reply) => match self.on_auth_reply(reply) {
                    Some(code) => {
                        let task = AuthTask { code, begin: now, ..task };
                        self.ask_or_leave(task, api_server, now)
                    },
                    None => self.leave(task),
                },
                _ => self.leave(task),
            },
            Stage::Asking => match event {
                TaskEvent::QueryReply(reply) => {
                    let store_first = task.remember_me && self.is_waiting();
                    match reply {
                        Ok(HbbHttpResponse::Data(body)) if store_first => {
                            let record = LocalRecord::of(&body);
                            (
                                AuthTask { stage: Stage::Storing, pending: Some(body), ..task },
                                TaskAction::Store(record),
                            )
                        },
                        reply => match self.on_query_reply(reply, task.remember_me) {
                            PollStep::Wait => self.rest_or_leave(task, now),
                            _ => self.leave(task),
                        },
                    }
                },
                _ => self.leave(task),
            },
            Stage::Storing => match event {
                TaskEvent::Stored => {
                    let AuthTask { op, id, uuid, remember_me, stage, code, begin, pending } = task;
                    match pending {
                        Some(body) => self.log_in(body, true),
                        None => {},
                    }
                    self.leave(
                        AuthTask { op, id, uuid, remember_me, stage, code, begin, pending: None },
                    )
                },
                _ => self.leave(task),
            },
            Stage::Resting => match event {
                TaskEvent::Slept => self.ask_or_leave(task, api_server, now),
                _ => self.leave(task),
            },
        }
    }
}

} // verus!
