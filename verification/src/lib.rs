//! A keyed cache of authenticated Azure Data Lake Storage clients.
//!
//! The cache maps a storage-account identifier to a shared client handle,
//! constructing the client at most once per identifier. Handles grant
//! shared access to the underlying client for the lifetime of the cache.

pub mod azure;
pub mod cache;
pub mod errors;
pub mod handle;
pub mod model;
pub mod shared;
