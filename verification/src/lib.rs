//! Provisioning and decommissioning of one named database instance on a
//! cluster orchestrator: the decisions, without the remote calls.
//!
//! The caller performs each remote call and hands its outcome to the
//! library, which says what to do next.

pub mod affinity;
pub mod client;
pub mod cluster;
pub mod decommission;
pub mod error;
pub mod names;
pub mod namespace;
pub mod progress;
pub mod provision;
pub mod resources;

pub use client::KwpmClient;
pub use error::{KwpmError, RemoteApiError};
pub use namespace::Namespace;
