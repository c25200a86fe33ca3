//! On-chain community governance: polls with quorum resolution, weighted
//! voting, commit-reveal knowledge polls, reputation-driven fees and rewards,
//! and a membership / moderation / appeals subsystem.
//!
//! Every record is plain data keyed by the host's durable storage; the host
//! supplies an authenticated caller identity, a wall-clock timestamp and
//! value transfer. Each operation here is one atomic transition on the
//! records it names: it either returns the new records, or an error and no
//! change.

pub mod categories;
pub mod community;
pub mod digest;
pub mod errors;
pub mod fees;
pub mod leaderboards;
pub mod membership;
pub mod reports;
pub mod user;
pub mod vote;
