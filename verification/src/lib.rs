//! WordPick core: the decision logic of a system-wide text-selection assistant.
pub mod config;
pub mod llm;
pub mod position;
pub mod providers;
pub mod secure;
pub mod selection;
pub mod sse;
pub mod state;
pub mod text;
pub mod tray;
pub mod windows;
