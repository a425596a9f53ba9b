//! Verified core of a note-taking automation control plane.
//!
//! The crate models and verifies the logic of five cooperating components:
//! an external task runner (argument construction, spawn-failure
//! classification, result aggregation), an agent pipeline orchestrator
//! (stage ordering and partial-failure policy), an event notification
//! bridge (a closed vocabulary of notification kinds and a filesystem
//! change classifier), a session state machine (active-editing time per
//! note), and a semantic commit layer (structured commit messages over a
//! version-control backend).  I/O shells around these components live
//! outside the library and hand it plain values.

pub mod bridge;
pub mod chronicle;
pub mod commit;
pub mod files;
pub mod metadata;
pub mod naming;
pub mod paths;
pub mod pipeline;
pub mod search;
pub mod session;
pub mod task;
pub mod text;
