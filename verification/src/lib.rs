//! Single-flight, cancelable third-party account login.
//!
//! A process has one session. A flow on it is run by one driver at a time,
//! which requests an authorization from the provider, asks until the user
//! has authorized or the time is up, and leaves the outcome in the session,
//! where a status query finds it.
//!
//! - `session`: the session, and what is asked of it from outside the flow.
//! - `driver`: the driver as a machine that is told what happened and says
//!   what to do next.
//! - `model`: the session as a mathematical state, which the contracts of
//!   `session` and `driver` speak of.
//! - `laws`: what holds of every run.
//! - `user`: the user record and the result of a login.
//! - `fields`: the further fields of a user, a mapping kept in the order of
//!   its names.
//! - `endpoint`: the provider's endpoints and the handle of an authorization.
//! - `reply`: the shapes of the provider's answers.
//! - `text`: texts as sequences of characters.

pub mod driver;
pub mod endpoint;
pub mod fields;
pub mod laws;
pub mod model;
pub mod reply;
pub mod session;
pub mod text;
pub mod user;

pub use driver::{AuthTask, Stage, TaskAction, TaskEvent};
pub use endpoint::OidcAuthUrl;
pub use fields::OtherFields;
pub use reply::HbbHttpResponse;
pub use session::{AuthResult, LocalRecord, OidcSession};
pub use user::{
    AuthBody, DeviceInfo, UserField, UserInfo, UserPayload, UserSettings, UserStatus,
    WhitelistItem,
};
