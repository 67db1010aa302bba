//! Filesystem operation service: the decisions, naming rules, content
//! classification and listing order behind a desktop file explorer.
//!
//! Everything that touches the disk stays with the caller; this crate takes
//! what was observed (whether a path exists, a file's first bytes, a child's
//! metadata) and says what the operation returns.
pub mod types;
pub mod names;
pub mod content;
pub mod listing;
pub mod service;
pub mod watch;
