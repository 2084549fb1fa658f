//! The session as a mathematical state, and each step of a login flow as a
//! function from one state to the next.

use crate::endpoint::OidcAuthUrlView;
use crate::reply::HbbHttpResponseView;
use crate::text::contains_text;
use crate::user::{AuthBodyView, UserPayloadView};
use vstd::prelude::*;

verus! {

/// Label of the phase in which an authorization is being requested.
pub const REQUESTING_ACCOUNT_AUTH: &'static str = "Requesting account auth";

/// Label of the phase in which the user's authorization is awaited.
pub const WAITING_ACCOUNT_AUTH: &'static str = "Waiting...";

/// Label of the phase in which the user is logged in.
pub const LOGIN_ACCOUNT_AUTH: &'static str = "LoggedIn";

/// Failure message for an answer to the first request that holds neither an
/// error nor a handle.
pub const INVALID_AUTH_RESPONSE: &'static str = "Invalid auth response";

/// Failure message for a flow whose time ran out.
pub const TIMEOUT: &'static str = "timeout";

/// The provider's words for "the user has not authorized yet".
pub const NOT_YET_AUTHORIZED: &'static str = "No authed oidc is found";

/// Key under which the device keeps the credential of a login.
pub const ACCESS_TOKEN_KEY: &'static str = "access_token";

/// Key under which the device keeps the user of a login.
pub const USER_INFO_KEY: &'static str = "user_info";

/// Seconds for which the provider is asked before the flow gives up.
pub const QUERY_TIMEOUT_SECS: u64 = 180;

/// Milliseconds between two questions to the provider.
pub const QUERY_INTERVAL_MILLIS: u64 = 1000;

/// Milliseconds between two looks at whether an earlier flow has stopped.
pub const STOP_WAIT_MILLIS: u64 = 300;

/// The step of the flow that a session is in.
#[derive(Debug, Clone, Copy, PartialEq, Eq, Structural)]
pub enum Phase {
    Requesting,
    Waiting,
    LoggedIn,
}

impl Phase {
    /// The phase's label for people to read.
    pub open spec fn spec_label(self) -> Seq<char> {
        match self {
            Phase::Requesting => REQUESTING_ACCOUNT_AUTH@,
            Phase::Waiting => WAITING_ACCOUNT_AUTH@,
            Phase::LoggedIn => LOGIN_ACCOUNT_AUTH@,
        }
    }

    /// The phase's label for people to read.
    pub fn label(&self) -> (r: &'static str)
        ensures
            r@ == self.spec_label(),
    {
        match self {
            Phase::Requesting => REQUESTING_ACCOUNT_AUTH,
            Phase::Waiting => WAITING_ACCOUNT_AUTH,
            Phase::LoggedIn => LOGIN_ACCOUNT_AUTH,
        }
    }
}

/// What a status query returns.
pub struct AuthResultView {
    pub state_msg: Seq<char>,
    pub failed_msg: Seq<char>,
    pub url: Option<Seq<char>>,
    pub auth_body: Option<AuthBodyView>,
}

/// What the device is to keep of a login.
pub struct LocalRecordView {
    pub access_token: Seq<char>,
    pub user: UserPayloadView,
}

/// What the driver does after an answer to its question.
pub enum PollStepView {
    Wait,
    Stop,
    LoggedIn { store: Option<LocalRecordView> },
}

/// An answer to the request that starts an authorization, or the message of
/// the failure to get one.
pub type AuthReplyView = Result<HbbHttpResponseView<OidcAuthUrlView>, Seq<char>>;

/// An answer to the question whether the user has authorized, or the message
/// of the failure to get one.
pub type QueryReplyView = Result<HbbHttpResponseView<AuthBodyView>, Seq<char>>;

/// The provider says that the user has not authorized yet.
pub open spec fn not_yet_authorized(message: Seq<char>) -> bool {
    contains_text(message, NOT_YET_AUTHORIZED@)
}

/// The state of the one session of a process.
pub struct SessionState {
    pub phase: Phase,
    /// Empty while nothing has failed.
    pub failed_msg: Seq<char>,
    pub code_url: Option<OidcAuthUrlView>,
    pub auth_body: Option<AuthBodyView>,
    /// Cleared to tell the driver to stop.
    pub keep_querying: bool,
    /// Set while a driver is at work.
    pub running: bool,
    /// Seconds for which the provider is asked.
    pub query_timeout: u64,
}

impl SessionState {
    /// The state of a session on which no flow was started yet.
    pub open spec fn initial() -> SessionState {
        SessionState {
            phase: Phase::Requesting,
            failed_msg: Seq::empty(),
            code_url: None,
            auth_body: None,
            keep_querying: false,
            running: false,
            query_timeout: QUERY_TIMEOUT_SECS,
        }
    }

    /// What holds of a session at all times: there is a result exactly in
    /// the phase `LoggedIn`, a handle exactly past the phase `Requesting`,
    /// no failure beside a result, the handle's page is a URL, and the
    /// provider is asked for 180 seconds.
    pub open spec fn wf(self) -> bool {
        &&& self.query_timeout == QUERY_TIMEOUT_SECS
        &&& self.auth_body is Some <==> self.phase == Phase::LoggedIn
        &&& self.code_url is Some <==> self.phase != Phase::Requesting
        &&& self.phase == Phase::LoggedIn ==> self.failed_msg.len() == 0
        &&& self.code_url matches Some(handle) ==> handle.wf()
    }

    /// Nothing has failed.
    pub open spec fn no_failure(self) -> bool {
        self.failed_msg.len() == 0
    }

    /// The state in which a flow begins: nothing known, no failure, the
    /// driver allowed to ask.
    pub open spec fn reset(self) -> SessionState {
        SessionState {
            phase: Phase::Requesting,
            failed_msg: Seq::empty(),
            code_url: None,
            auth_body: None,
            keep_querying: true,
            running: false,
            query_timeout: self.query_timeout,
        }
    }

    pub open spec fn before_task(self) -> SessionState {
        SessionState { running: true, ..self.reset() }
    }

    pub open spec fn after_task(self) -> SessionState {
        SessionState { running: false, ..self }
    }

    pub open spec fn set_state(self, phase: Phase, failed_msg: Seq<char>) -> SessionState {
        SessionState { phase, failed_msg, ..self }
    }

    /// The driver is told to stop; nothing else changes.
    pub open spec fn cancel(self) -> SessionState {
        SessionState { keep_querying: false, ..self }
    }

    /// A request to start a flow is granted exactly when no driver is at
    /// work.
    pub open spec fn may_start(self) -> bool {
        !self.running
    }

    /// The state after a request to start a flow: where it is granted the
    /// session begins anew with a driver at work, where it is not the driver
    /// at work is told to stop.
    pub open spec fn start(self) -> SessionState {
        if self.may_start() {
            self.before_task()
        } else {
            self.cancel()
        }
    }

    /// The failure, if any, that an answer to the first request stands for.
    pub open spec fn auth_failure(reply: AuthReplyView) -> Option<Seq<char>> {
        match reply {
            Ok(HbbHttpResponseView::Data(_)) => None,
            Ok(HbbHttpResponseView::Error(message)) => Some(message),
            Ok(_) => Some(INVALID_AUTH_RESPONSE@),
            Err(message) => Some(message),
        }
    }

    /// The state after an answer to the first request. In the phase
    /// `Requesting` a handle moves the session on to `Waiting`, and anything
    /// else is a failure; in another phase the answer is not looked at.
    pub open spec fn after_auth_reply(self, reply: AuthReplyView) -> SessionState {
        if self.phase != Phase::Requesting {
            self
        } else {
            match reply {
                Ok(HbbHttpResponseView::Data(handle)) => SessionState {
                    phase: Phase::Waiting,
                    failed_msg: Seq::empty(),
                    code_url: Some(handle),
                    ..self
                },
                _ => self.set_state(Phase::Requesting, Self::auth_failure(reply).unwrap()),
            }
        }
    }

    /// The code with which the driver goes on to ask, where the answer to
    /// the first request lets it go on.
    pub open spec fn poll_code(self, reply: AuthReplyView) -> Option<Seq<char>> {
        if self.phase != Phase::Requesting {
            None
        } else {
            match reply {
                Ok(HbbHttpResponseView::Data(handle)) => Some(handle.code),
                _ => None,
            }
        }
    }

    /// The driver asks (again) while it was not told to stop and the time is
    /// not up.
    pub open spec fn keep_polling(self, elapsed_secs: u64) -> bool {
        self.keep_querying && elapsed_secs < self.query_timeout
    }

    /// The result that is kept in the session: the answer's, handed on in
    /// full where it was also stored on the device.
    pub open spec fn kept_body(body: AuthBodyView, remember_me: bool) -> AuthBodyView {
        if remember_me {
            AuthBodyView { user: body.user.with_store_local(false), ..body }
        } else {
            body
        }
    }

    /// What the device is to keep of a login: with `remember_me` the token
    /// and the user in the shape for the device's own storage, else nothing.
    pub open spec fn stored(body: AuthBodyView, remember_me: bool) -> Option<LocalRecordView> {
        if remember_me {
            Some(
                LocalRecordView {
                    access_token: body.access_token,
                    user: body.user.with_store_local(true),
                },
            )
        } else {
            None
        }
    }

    /// What the driver does after an answer to its question: it waits and
    /// asks again after "not authorized yet" and after an answer that says
    /// nothing, whatever the phase; it stops after a result and after any
    /// other error of the provider.
    pub open spec fn query_step(self, reply: QueryReplyView, remember_me: bool) -> PollStepView {
        match reply {
            Ok(HbbHttpResponseView::Data(body)) => if self.phase == Phase::Waiting {
                PollStepView::LoggedIn { store: Self::stored(body, remember_me) }
            } else {
                PollStepView::Stop
            },
            Ok(HbbHttpResponseView::Error(message)) => if not_yet_authorized(message) {
                PollStepView::Wait
            } else {
                PollStepView::Stop
            },
            _ => PollStepView::Wait,
        }
    }

    /// The state after an answer to the driver's question. In the phase
    /// `Waiting` a result logs the user in, and an error of the provider
    /// other than "not authorized yet" is a failure; any other answer, and
    /// any answer in another phase, changes nothing.
    pub open spec fn after_query_reply(self, reply: QueryReplyView, remember_me: bool)
        -> SessionState {
        match reply {
            Ok(HbbHttpResponseView::Data(body)) => if self.phase == Phase::Waiting {
                SessionState {
                    phase: Phase::LoggedIn,
                    failed_msg: Seq::empty(),
                    auth_body: Some(Self::kept_body(body, remember_me)),
                    ..self
                }
            } else {
                self
            },
            Ok(HbbHttpResponseView::Error(message)) => if self.phase == Phase::Waiting
                && !not_yet_authorized(message) {
                self.set_state(Phase::Waiting, message)
            } else {
                self
            },
            _ => self,
        }
    }

    /// The state after the driver has stopped asking: a failure where the
    /// time is up, in the phase `Waiting`; else unchanged.
    pub open spec fn after_query_end(self, elapsed_secs: u64) -> SessionState {
        if self.phase == Phase::Waiting && elapsed_secs >= self.query_timeout {
            self.set_state(Phase::Waiting, TIMEOUT@)
        } else {
            self
        }
    }

    /// What a status query returns in this state.
    pub open spec fn snapshot(self) -> AuthResultView {
        AuthResultView {
            state_msg: self.phase.spec_label(),
            failed_msg: self.failed_msg,
            url: match self.code_url {
                Some(handle) => Some(handle.url),
                None => None,
            },
            auth_body: self.auth_body,
        }
    }
}

} // verus!
