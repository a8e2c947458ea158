//! Verified core of a database schema revision tool: a line-oriented init
//! file and a database-resident log of applied statements are kept in step by
//! a reconciler that enforces contiguity, conflict and staleness checks, and
//! by an interactive session that advances the pair one statement at a time.
pub mod errors;
pub mod provision;
pub mod reconcile;
pub mod session;
pub mod store;
