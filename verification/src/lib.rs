//! A milestone-gated fund-release engine.
//!
//! An administrator commits a fixed total of a token to a grantee, defines
//! discrete milestones, and releases funds only as milestones are individually
//! approved, under a pause/cancel lifecycle. A companion linear-vesting
//! calculator computes a time-proportional claimable amount without overflow.
//!
//! The engine is pure state: persistence, caller authentication and the token
//! ledger are the host's business. Every operation validates, mutates the
//! in-memory records, and hands back the token movement (if any) that the host
//! must perform afterwards — state is committed before any external call.

pub mod engine;
pub mod laws;
pub mod lifecycle;
pub mod records;
pub mod vesting;
