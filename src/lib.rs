//! Presence synchronisation for an editor: activity templates, placeholder
//! expansion, idle scheduling and connection management decisions.
use vstd::prelude::*;

pub mod text;
pub mod error;
pub mod rules;
pub mod json;
pub mod document;
pub mod config;
pub mod languages;
pub mod placeholders;
pub mod activity;
pub mod git;
pub mod connection;
pub mod idle;
pub mod service;

pub use activity::{ActivityFields, ActivityManager};
pub use config::{
    Activity, Configuration, Idle, IdleAction, DEFAULT_APP_ID, DEFAULT_ICONS_URL,
    DEFAULT_IDLE_TIMEOUT,
};
pub use connection::{
    after_failed_attempt, retry_delay_ms, retry_delays, ConnectionEvent, ConnectionManager,
    ConnectionState, KillPlan, Payload, RetryStep, SendPlan,
};
pub use document::{workspace_name, Document};
pub use error::PresenceError;
pub use git::{main_remote_url, transform_url};
pub use idle::IdleTimer;
pub use json::{JsonList, JsonValue};
pub use languages::{get_language, LanguageTable};
pub use placeholders::{format_file_size, Placeholders};
pub use rules::{Rules, RulesMode};
pub use service::{IdlePresentation, PresenceService, PresenceUpdate};
pub use text::{capitalize_first_letter, set_optional_field};

verus! {

} // verus!
