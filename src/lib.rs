//! Orchestration of remote builds: a validated build request, a uniquely
//! scoped session directory with its settings/report handshake files, the
//! command line of the build tool, routing of its console output, and the
//! life cycle of a session from creation to its outcome.

pub mod paths;
pub mod session_id;
pub mod process;
pub mod log_router;
pub mod supervisor;
pub mod session;
pub mod environment;
pub mod access;
