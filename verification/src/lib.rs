//! A step-oriented HTTP workflow engine: a registry of named steps, the context of one
//! step's execution, and the rule that decides how an execution ended.

pub mod bot;
pub mod context;
pub mod error;
pub mod request;
pub mod requester;
pub mod step;

pub use context::{BodyError, Context, ContextView};
pub use error::{StepError, StepErrorView};
pub use request::{Header, Method, Request, RequestView};
pub use requester::{HttpRequester, RequestHandle, RequestHandleView, Settings, SettingsView};
pub use step::{StepManager, Stepable};
pub use bot::{accepts, classify, Bot, Outcome, OutcomeView, Reply, ReplyView};
