//! Verified core of a lightweight CI-style orchestration system: the runner's
//! rules and state machines, the protocol types it shares with the server, and
//! the server's schema comparison and repository page.
pub mod answer_laws;
pub mod artifact;
pub mod artifacts;
pub mod auth;
pub mod capabilities;
pub mod config;
pub mod digest;
pub mod job;
pub mod jobs;
pub mod json;
pub mod limit_laws;
pub mod manifest;
pub mod names;
pub mod paths;
pub mod pattern;
pub mod protocol;
pub mod rate_limit;
pub mod runtime;
pub mod schema;
pub mod schema_diff;
pub mod search;
pub mod text;
pub mod text_laws;
pub mod time;
pub mod views;
pub mod workflow_laws;
