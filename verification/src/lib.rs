//! Verified core of a task-management API with email two-factor login,
//! role-based permissions and a per-user task cache.
//!
//! The request handlers' decisions on the values they read (credential and
//! code checks, challenge lifetime, permissions, cache keys and invalidation,
//! task-list answers) are functions here, with contracts proved by Verus; the
//! one-time code is written here from a random draw (`rand`), and its digest
//! and the password hashes are computed here through trusted wrappers of
//! `sha2` and `argon2`; access tokens are signed and checked here through
//! trusted wrappers of `jsonwebtoken`, with the expiry check verified. The
//! HTTP, database and cache I/O and JSON encoding are handled by the service
//! around this crate, which runs the steps in order.

pub mod auth;
pub mod cache;
pub mod error;
pub mod handlers;
pub mod ids;
pub mod middleware;
pub mod models;
pub mod text;
