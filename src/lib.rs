//! Moves the configuration of an account on a federated link aggregator
//! (blocked users, blocked and followed communities, display settings) from
//! one instance to another: a snapshot of the source account is kept on
//! disk in a versioned schema, compared with the target account, and the
//! difference applied call by call under the target's rate limit.

pub mod apply;
pub mod input;
pub mod lemmy;
pub mod migrations;
pub mod profile;
pub mod rate_limit;
pub mod session;
pub mod text;
pub mod upload;
