//! Cache-directory support for a script-running tool: locating the cache and
//! config roots from environment state, losslessly encoding filesystem paths
//! for persisted cache records, supplying clamped millisecond timestamps for
//! freshness checks, and planning the one-time, idempotent migration of a
//! legacy cache layout into the current one.

pub mod codec;
pub mod error;
pub mod file_assoc;
pub mod freshness;
pub mod migration;
pub mod paths;
pub mod platform_native;
pub mod platform_wide;
pub mod resolver;
