//! The session of a process and the steps that a login flow takes on it.

use crate::driver::{AuthTask, TaskState};
use crate::endpoint::OidcAuthUrl;
use crate::model::{
    AuthResultView, LocalRecordView, Phase, PollStepView, SessionState, INVALID_AUTH_RESPONSE,
    NOT_YET_AUTHORIZED, QUERY_TIMEOUT_SECS, TIMEOUT,
};
use crate::reply::{reply_view, HbbHttpResponse, HbbHttpResponseView};
use crate::text::str_contains;
use crate::user::{AuthBody, UserPayload};
use vstd::prelude::*;
use vstd::string::StringExecFns;

verus! {

/// What a status query returns: a copy of the session's state at one moment.
#[derive(Debug)]
pub struct AuthResult {
    /// Label of the phase.
    pub state_msg: String,
    /// Empty while nothing has failed.
    pub failed_msg: String,
    /// The page that the user has to visit, once it is known.
    pub url: Option<String>,
    /// The result of the login, once there is one.
    pub auth_body: Option<AuthBody>,
}

impl View for AuthResult {
    type V = AuthResultView;

    open spec fn view(&self) -> AuthResultView {
        AuthResultView {
            state_msg: self.state_msg@,
            failed_msg: self.failed_msg@,
            url: self.url.deep_view(),
            auth_body: match self.auth_body {
                Some(body) => Some(body@),
                None => None,
            },
        }
    }
}

/// What the device is to keep of a login: the credential, and the user in
/// the shape for the device's own storage.
#[derive(Debug)]
pub struct LocalRecord {
    pub access_token: String,
    pub user: UserPayload,
}

impl View for LocalRecord {
    type V = LocalRecordView;

    open spec fn view(&self) -> LocalRecordView {
        LocalRecordView { access_token: self.access_token@, user: self.user@ }
    }
}

impl LocalRecord {
    /// What the device keeps of the login with the result `body`.
    pub fn of(body: &AuthBody) -> (r: LocalRecord)
        ensures
            Some(r@) == SessionState::stored(body@, true),
    {
        LocalRecord {
            access_token: body.access_token.clone(),
            user: body.user.with_store_local(true),
        }
    }
}

/// What the driver does after an answer to its question.
#[derive(Debug)]
pub enum PollStep {
    /// Wait for the interval, then ask again if the session still allows it.
    Wait,
    /// The flow has ended without a login.
    Stop,
    /// The user is logged in. `store` holds what the device is to keep; it is
    /// written before anyone is let to see the session again.
    LoggedIn { store: Option<LocalRecord> },
}

impl View for PollStep {
    type V = PollStepView;

    open spec fn view(&self) -> PollStepView {
        match self {
            PollStep::Wait => PollStepView::Wait,
            PollStep::Stop => PollStepView::Stop,
            PollStep::LoggedIn { store } => PollStepView::LoggedIn {
                store: match store {
                    Some(record) => Some(record@),
                    None => None,
                },
            },
        }
    }
}

/// The state of the one login flow that a process runs at a time.
#[derive(Debug)]
pub struct OidcSession {
    phase: Phase,
    failed_msg: String,
    code_url: Option<OidcAuthUrl>,
    auth_body: Option<AuthBody>,
    keep_querying: bool,
    running: bool,
    query_timeout: u64,
}

impl View for OidcSession {
    type V = SessionState;

    closed spec fn view(&self) -> SessionState {
        SessionState {
            phase: self.phase,
            failed_msg: self.failed_msg@,
            code_url: match self.code_url {
                Some(handle) => Some(handle@),
                None => None,
            },
            auth_body: match self.auth_body {
                Some(body) => Some(body@),
                None => None,
            },
            keep_querying: self.keep_querying,
            running: self.running,
            query_timeout: self.query_timeout,
        }
    }
}

impl OidcSession {
    /// A session on which no flow was started yet.
    pub fn new() -> (r: Self)
        ensures
            r@ == SessionState::initial(),
            r@.wf(),
    {
        OidcSession {
            phase: Phase::Requesting,
            failed_msg: String::new(),
            code_url: None,
            auth_body: None,
            keep_querying: false,
            running: false,
            query_timeout: QUERY_TIMEOUT_SECS,
        }
    }

    fn reset(&mut self)
        ensures
            final(self)@ == old(self)@.reset(),
    {
        self.phase = Phase::Requesting;
        self.failed_msg = String::new();
        self.keep_querying = true;
        self.running = false;
        self.code_url = None;
        self.auth_body = None;
    }

    fn before_task(&mut self)
        ensures
            final(self)@ == old(self)@.before_task(),
    {
        self.reset();
        self.running = true;
    }

    /// The driver has left: the next flow may start.
    pub(crate) fn after_task(&mut self)
        ensures
            final(self)@ == old(self)@.after_task(),
            old(self)@.wf() ==> final(self)@.wf(),
    {
        self.running = false;
    }

    fn set_state(&mut self, phase: Phase, failed_msg: String)
        ensures
            final(self)@ == old(self)@.set_state(phase, failed_msg@),
    {
        self.phase = phase;
        self.failed_msg = failed_msg;
    }

    /// The step of the flow that the session is in.
    pub fn phase(&self) -> (r: Phase)
        ensures
            r == self@.phase,
    {
        self.phase
    }

    /// Whether a driver is at work.
    pub fn is_running(&self) -> (r: bool)
        ensures
            r == self@.running,
    {
        self.running
    }

    /// Asks to start a flow. Where no driver is at work the session begins
    /// anew and the task of the new driver is returned: the caller runs it.
    /// Where one is at work it is told to stop and `None` is returned: the
    /// caller waits and asks again.
    pub fn account_auth(&mut self, op: &str, id: &str, uuid: &str, remember_me: bool) -> (task:
        Option<AuthTask>)
        ensures
            final(self)@ == old(self)@.start(),
            old(self)@.wf() ==> final(self)@.wf(),
            task is Some <==> old(self)@.may_start(),
            task matches Some(t) ==> t@ == TaskState::new(op@, id@, uuid@, remember_me),
    {
        if self.running {
            self.auth_cancel();
            None
        } else {
            self.before_task();
            Some(AuthTask::new(op, id, uuid, remember_me))
        }
    }

    /// Tells the driver to stop. It does so when it next looks; nothing else
    /// changes, and to tell it twice is to tell it once.
    pub fn auth_cancel(&mut self)
        ensures
            final(self)@ == old(self)@.cancel(),
            old(self)@.wf() ==> final(self)@.wf(),
    {
        self.keep_querying = false;
    }

    /// The session's state at this moment.
    pub fn get_result(&self) -> (r: AuthResult)
        ensures
            r@ == self@.snapshot(),
    {
        AuthResult {
            state_msg: String::from_str(self.phase.label()),
            failed_msg: self.failed_msg.clone(),
            url: match &self.code_url {
                Some(handle) => Some(handle.url().clone()),
                None => None,
            },
            auth_body: match &self.auth_body {
                Some(body) => Some(body.clone()),
                None => None,
            },
        }
    }

    /// Takes the answer to the request that starts an authorization. Returns
    /// the code with which the driver goes on to ask, or `None` where the
    /// flow has ended.
    pub(crate) fn on_auth_reply(
        &mut self,
        reply: Result<HbbHttpResponse<OidcAuthUrl>, String>,
    ) -> (code: Option<String>)
        ensures
            final(self)@ == old(self)@.after_auth_reply(reply_view(reply)),
            code.deep_view() == old(self)@.poll_code(reply_view(reply)),
            old(self)@.wf() ==> final(self)@.wf(),
    {
        if self.phase != Phase::Requesting {
            return None;
        }
        match reply {
            Ok(HbbHttpResponse::Data(handle)) => {
                let code = handle.code().clone();
                self.set_state(Phase::Waiting, String::new());
                self.code_url = Some(handle);
                Some(code)
            },
            Ok(HbbHttpResponse::Error(message)) => {
                self.set_state(Phase::Requesting, message);
                None
            },
            Ok(_) => {
                self.set_state(Phase::Requesting, String::from_str(INVALID_AUTH_RESPONSE));
                None
            },
            Err(message) => {
                self.set_state(Phase::Requesting, message);
                None
            },
        }
    }

    /// Whether the driver asks (again): it was not told to stop, and fewer
    /// seconds than the session allows have passed since it began to ask.
    pub(crate) fn keep_polling(&self, elapsed_secs: u64) -> (r: bool)
        ensures
            r == self@.keep_polling(elapsed_secs),
    {
        self.keep_querying && elapsed_secs < self.query_timeout
    }

    /// Whether the user's authorization is awaited.
    pub(crate) fn is_waiting(&self) -> (r: bool)
        ensures
            r == (self@.phase == Phase::Waiting),
    {
        self.phase == Phase::Waiting
    }

    /// Logs the user in with the result `body`, where the user's
    /// authorization is awaited.
    pub(crate) fn log_in(&mut self, body: AuthBody, remember_me: bool)
        ensures
            final(self)@ == old(self)@.after_query_reply(
                Ok(HbbHttpResponseView::Data(body@)),
                remember_me,
            ),
            old(self)@.wf() ==> final(self)@.wf(),
    {
        if self.phase == Phase::Waiting {
            let kept = if remember_me {
                AuthBody {
                    access_token: body.access_token,
                    token_type: body.token_type,
                    user: body.user.with_store_local(false),
                }
            } else {
                body
            };
            self.set_state(Phase::LoggedIn, String::new());
            self.auth_body = Some(kept);
        }
    }

    /// Takes the answer to the question whether the user has authorized, and
    /// says what the driver does next.
    pub(crate) fn on_query_reply(
        &mut self,
        reply: Result<HbbHttpResponse<AuthBody>, String>,
        remember_me: bool,
    ) -> (step: PollStep)
        ensures
            final(self)@ == old(self)@.after_query_reply(reply_view(reply), remember_me),
            step@ == old(self)@.query_step(reply_view(reply), remember_me),
            old(self)@.wf() ==> final(self)@.wf(),
    {
        match reply {
            Ok(HbbHttpResponse::Data(body)) => {
                if self.phase != Phase::Waiting {
                    return PollStep::Stop;
                }
                let store = if remember_me {
                    Some(LocalRecord::of(&body))
                } else {
                    None
                };
                self.log_in(body, remember_me);
                PollStep::LoggedIn { store }
            },
            Ok(HbbHttpResponse::Error(message)) => {
                if str_contains(message.as_str(), NOT_YET_AUTHORIZED) {
                    PollStep::Wait
                } else {
                    if self.phase == Phase::Waiting {
                        self.set_state(Phase::Waiting, message);
                    }
                    PollStep::Stop
                }
            },
            Ok(_) => PollStep::Wait,
            Err(_) => PollStep::Wait,
        }
    }

    /// The driver has stopped asking, `elapsed_secs` seconds after it began:
    /// where the time is up, that is the flow's failure.
    pub(crate) fn on_query_end(&mut self, elapsed_secs: u64)
        ensures
            final(self)@ == old(self)@.after_query_end(elapsed_secs),
            old(self)@.wf() ==> final(self)@.wf(),
    {
        if self.phase == Phase::Waiting && elapsed_secs >= self.query_timeout {
            self.set_state(Phase::Waiting, String::from_str(TIMEOUT));
        }
    }
}

} // verus!
