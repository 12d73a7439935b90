//! A timeline synchronisation engine: providers pull pages of statuses from a
//! remote feed, merge them into a deduplicated cache slot and hand the slot's
//! contents to whoever renders them.
//!
//! - [`timeline`] says what a merge yields, as a function on sequences of
//!   posts, proves what holds of it, and holds the merge itself.
//! - [`environment`] holds the cached state and the scoped access to it.
//! - [`providers`] holds the contract of a timeline source, the provider of
//!   the public timeline, and that provider behind a lock.
//! - [`status`] and [`view_model`] hold the fetched and the displayed form of
//!   a status.

pub mod environment;
pub mod providers;
pub mod status;
pub mod timeline;
pub mod view_model;
