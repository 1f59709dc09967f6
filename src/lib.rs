//! Editor activity as chat-service presence: language detection, workspace
//! resolution, session timing, status templating and the dispatch decisions
//! of the presence daemon.

pub mod config;
pub mod language;
pub mod path;
pub mod presence;
pub mod state;
pub mod text;
pub mod workspace;
