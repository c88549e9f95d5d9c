//! Core logic of a replay upload agent: a directory-watcher state machine
//! with duplicate-upload protection, a bounded retry loop for uploads, and
//! an auth-session manager with preemptive token refresh.
//!
//! All file-system, network and store I/O lives in the host around this
//! library; this crate holds the decisions and data, verified.

pub mod errors;
pub mod folders;
pub mod history;
pub mod paths;
pub mod response;
pub mod session;
pub mod text;
pub mod time;
pub mod types;
pub mod upload;
pub mod validate;
pub mod watcher;
