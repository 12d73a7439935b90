//! The merge of a fetched batch into a cache slot.
//!
//! A slot is a sequence of posts in display order. With
//! [`TimelineDirection::NewestTop`](crate::environment::types::TimelineDirection)
//! the freshest post is at index 0 and a batch arrives freshest first; with
//! `OldestTop` the slot is the mirror image of that.

pub mod laws;
pub mod lemmas;
pub mod merge;
pub mod model;
