//! Lifecycle management for a throwaway PostgreSQL server used by test suites.
//!
//! The library decides; the caller acts. [`lifecycle::Lifecycle`] is a state
//! machine that says which step to take next (look up a tool, create the
//! storage root, spawn the server, poll it, tear it down) and is told how each
//! step went. Its contracts guarantee that every resource acquired is released
//! in reverse order on every path, and that a handle is reported ready only
//! after the server has answered the readiness probe and the default workspace
//! exists.

pub mod error;
pub mod guarantees;
pub mod lifecycle;
pub mod tools;

pub use error::PsqlServerError;
pub use lifecycle::{Action, Event, Lifecycle, Phase, TeardownStep, Tool, POLL_INTERVAL_MS};
pub use tools::tool_path;
