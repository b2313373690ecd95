//! Cache-first weather lookup: the decisions of a small HTTP service that
//! answers `/weather/{city}` from a key-value store with expiring entries and
//! falls back to an upstream weather provider.
//!
//! The crate holds the rules only. The caller performs the store round trips,
//! the upstream request and the JSON coding, and reports each outcome back.

pub mod error;
pub mod handler;
pub mod key;
pub mod record;
pub mod reply;
pub mod routes;
pub mod store;
pub mod trace;
pub mod upstream;
