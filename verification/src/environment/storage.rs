//! The cached state: one slot for each timeline.

use vstd::prelude::*;
use crate::environment::types::TimelineDirection;
use crate::status::{Post, Status};
use crate::timeline::merge::merge;
use crate::timeline::model::{distinct_ids, merged};
use crate::view_model::StatusViewModel;

verus! {

/// The slots of the cache, each in display order. No slot ever holds an
/// identifier twice.
#[derive(Debug)]
pub struct Storage {
    /// The public timeline, newest status first.
    public_timeline: Vec<StatusViewModel>,
}

impl Storage {
    #[verifier::type_invariant]
    spec fn no_duplicates(self) -> bool {
        distinct_ids(self.public_timeline.deep_view())
    }

    /// What the public timeline holds.
    pub closed spec fn public_posts(&self) -> Seq<Post> {
        self.public_timeline.deep_view()
    }

    /// A storage whose slots are empty.
    pub fn new() -> (storage: Self)
        ensures
            storage.public_posts() == Seq::<Post>::empty(),
    {
        Storage { public_timeline: Vec::new() }
    }

    /// Merges a fetched batch into the public timeline, whose newest status
    /// is always on top. The slot held no identifier twice and holds none
    /// twice now.
    pub fn merge_publictimeline(&mut self, updates: &[Status], is_reload: bool)
        ensures
            final(self).public_posts() == merged(
                old(self).public_posts(),
                updates.deep_view(),
                TimelineDirection::NewestTop,
                is_reload,
            ),
            distinct_ids(old(self).public_posts()),
            distinct_ids(final(self).public_posts()),
    {
        proof {
            use_type_invariant(&*self);
        }
        let mut slot: Vec<StatusViewModel> = Vec::new();
        core::mem::swap(&mut slot, &mut self.public_timeline);
        merge(&mut slot, updates, TimelineDirection::NewestTop, is_reload);
        self.public_timeline = slot;
    }

    /// Empties the public timeline.
    pub fn clear_public_timeline(&mut self)
        ensures
            final(self).public_posts() == Seq::<Post>::empty(),
    {
        self.public_timeline = Vec::new();
    }

    /// The view models of the public timeline, newest first. No two of them
    /// have the same identifier.
    pub fn public_timeline(&self) -> (models: &Vec<StatusViewModel>)
        ensures
            models.deep_view() == self.public_posts(),
            distinct_ids(models.deep_view()),
    {
        proof {
            use_type_invariant(self);
        }
        &self.public_timeline
    }
}

} // verus!
