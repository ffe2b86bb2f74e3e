//! Aggregation core for machine-readable IP-range publications: a cache
//! store holding the most recent successfully parsed snapshot per provider,
//! a refresh-cycle core that publishes successes and isolates failures, and
//! the per-provider query projections over the cached data. Network I/O,
//! scheduling and the HTTP surface live with the embedding service.

pub mod cache;
pub mod digest;
pub mod fetchers;
pub mod handlers;
pub mod text;
