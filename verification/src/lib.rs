//! Read-only synchronisation report for a local git repository.
//!
//! A report has three parts, always in this order: the configured remotes,
//! the divergence of each local branch from its upstream (or, for a branch
//! without one, from every remote-tracking branch), and the status of index
//! and working tree with its four counters.
//!
//! - [`scan`] reads a repository through the calls collected in [`git`] and
//!   fills the plain values of [`model`] and [`status`].
//! - [`report`] turns those values into the [`line`]s of the report; each line
//!   knows its [`severity`] and its text.
//! - [`error`] says at which step a reading failed.
//!
//! Nothing here writes to the repository, and nothing logs: the lines are
//! returned, and the caller chooses the sink.

pub mod severity;
pub mod text;
pub mod status;
pub mod model;
pub mod line;
pub mod report;
pub mod error;
pub mod git;
pub mod scan;
