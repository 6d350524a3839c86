//! Cookie-bound session state behind a small HTTP service: a visit counter, a
//! login/logout flow, and the decision logic of a graceful-shutdown watcher.
//!
//! The session itself is `actix_session::Session`; this crate states what its
//! operations do and proves the request handlers against those statements.

pub mod session;
pub mod handlers;
pub mod shutdown;
pub mod laws;
