//! Backup engine for mirroring every repository of a GitHub organisation.
//!
//! The crate contains the decision logic of the backup tool: resolving the
//! authenticated user, assembling the organisation's repository list page by
//! page, and driving one clone-or-fetch unit of work per repository through a
//! worker pool with a fixed concurrency ceiling.  All network and filesystem
//! work happens outside this crate; callers feed the observed outcomes of
//! those operations into the state machines defined here.

pub mod config;
pub mod errors;
pub mod identity;
pub mod lister;
pub mod model;
pub mod orchestrator;
