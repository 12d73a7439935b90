//! The provider of the public timeline.

use vstd::prelude::*;
use crate::environment::storage::Storage;
use crate::environment::types::TimelineDirection;
use crate::environment::Environment;
use crate::providers::{distinct_by, TimelineProvider};
use crate::status::{Post, Status};
use crate::timeline::laws::lemma_incremental_load_keeps_order;
use crate::timeline::model::{distinct_ids, listed, merged};
use crate::view_model::{StatusId, StatusViewModel};

verus! {

/// A provider that loads the public timeline. Its newest status is always on
/// top, whatever direction a caller asks for.
#[derive(Debug)]
pub struct PublicTimelineProvider {
    environment: Environment,
}

impl View for PublicTimelineProvider {
    type V = Seq<Post>;

    /// The public timeline as the cache holds it.
    closed spec fn view(&self) -> Seq<Post> {
        self.environment.storage@.public_posts()
    }
}

impl PublicTimelineProvider {
    /// A provider bound to the cache of `environment`.
    pub fn new(environment: Environment) -> (provider: Self)
        ensures
            provider@ == environment.storage@.public_posts(),
    {
        Self { environment }
    }

    /// The cursor handed to the remote source for a page: the identifier
    /// after which to fetch, `None` for the freshest page.
    pub fn request_cursor(after: Option<StatusId>) -> (cursor: Option<String>)
        ensures
            cursor == match after {
                Some(id) => Some(id.0),
                None => None,
            },
    {
        match after {
            Some(id) => Some(id.0),
            None => None,
        }
    }

    /// Takes the outcome of a request. A fetched page is merged and the
    /// answer says whether there may be more; a failure is handed back as it
    /// came and leaves the provider, and so the cache, as it was.
    pub fn complete_request(
        &mut self,
        fetched: Result<Vec<Status>, String>,
        direction: TimelineDirection,
        is_reload: bool,
    ) -> (outcome: Result<bool, String>)
        ensures
            fetched matches Err(message) ==> outcome == Err::<bool, String>(message),
            fetched is Err ==> *final(self) == *old(self),
            fetched matches Ok(updates) ==> outcome == Ok::<bool, String>(updates@.len() != 0),
            fetched matches Ok(updates) ==> final(self)@ == merged(
                old(self)@,
                updates.deep_view(),
                TimelineDirection::NewestTop,
                is_reload,
            ),
            fetched is Ok ==> distinct_ids(old(self)@) && distinct_ids(final(self)@),
    {
        match fetched {
            Ok(updates) => Ok(self.process_new_data(updates.as_slice(), direction, is_reload)),
            Err(message) => Err(message),
        }
    }
}

impl TimelineProvider for PublicTimelineProvider {
    type Id = StatusId;

    type Element = Status;

    type ViewModel = StatusViewModel;

    open spec fn cached(&self) -> Seq<Post> {
        self@
    }

    open spec fn forced(&self) -> Option<TimelineDirection> {
        Some(TimelineDirection::NewestTop)
    }

    open spec fn reloads_by_itself(&self) -> bool {
        true
    }

    open spec fn kind() -> Seq<char> {
        "status_timeline::providers::public::PublicTimelineProvider"@
    }

    open spec fn element_id(element: Status) -> Seq<char> {
        element@.id
    }

    open spec fn model_id(model: Post) -> Seq<char> {
        model.id
    }

    /// The public timeline moves all the time: it is refreshed unasked.
    fn should_auto_reload(&self) -> (auto: bool)
        ensures
            auto,
    {
        true
    }

    /// The path of this type.
    fn identifier(&self) -> (name: &str)
        ensures
            name@ == "status_timeline::providers::public::PublicTimelineProvider"@,
    {
        "status_timeline::providers::public::PublicTimelineProvider"
    }

    /// The newest status is on top, always.
    fn forced_direction(&self) -> (direction: Option<TimelineDirection>)
        ensures
            direction == Some(TimelineDirection::NewestTop),
    {
        Some(TimelineDirection::NewestTop)
    }

    /// Clears the public timeline in the cache, under exclusive access.
    fn reset(&mut self)
        ensures
            final(self)@ == Seq::<Post>::empty(),
    {
        self.environment.storage.with_mutation(
            |storage: &mut Storage| -> (done: ())
                ensures
                    final(storage).public_posts() == Seq::<Post>::empty()
                { storage.clear_public_timeline(); },
        );
    }

    /// No anchor is forced: the display stays where it is.
    fn scroll_to_item(&self, _updates: &[Status]) -> (anchor: Option<StatusId>)
        ensures
            anchor is None,
    {
        None
    }

    /// Merges a fetched batch into the public timeline in the cache, under
    /// exclusive access, with the newest status on top whatever direction is
    /// asked for. There may be more to fetch unless the batch is empty. The
    /// slot held no identifier twice and holds none twice now.
    fn process_new_data(
        &mut self,
        updates: &[Status],
        _direction: TimelineDirection,
        is_reload: bool,
    ) -> (can_load_more: bool)
        ensures
            can_load_more == (updates@.len() != 0),
            final(self)@ == merged(
                old(self)@,
                updates.deep_view(),
                TimelineDirection::NewestTop,
                is_reload,
            ),
            distinct_ids(old(self)@),
            distinct_ids(final(self)@),
    {
        let can_load_more = updates.len() != 0;
        self.environment.storage.with_mutation(
            |storage: &mut Storage| -> (done: ())
                ensures
                    final(storage).public_posts() == merged(
                        old(storage).public_posts(),
                        updates.deep_view(),
                        TimelineDirection::NewestTop,
                        is_reload,
                    ),
                    distinct_ids(old(storage).public_posts()),
                    distinct_ids(final(storage).public_posts())
                { storage.merge_publictimeline(updates, is_reload) },
        );
        proof {
            lemma_incremental_load_keeps_order(
                old(self)@,
                updates.deep_view(),
                TimelineDirection::NewestTop,
            );
        }
        can_load_more
    }

    /// A copy of the public timeline as the cache holds it, newest status
    /// first whatever direction is asked for. No two of its view models have
    /// the same identifier.
    fn data(&self, direction: TimelineDirection) -> (models: Vec<StatusViewModel>)
        ensures
            models.deep_view() == listed(self@, direction),
            distinct_ids(models.deep_view()),
    {
        self.environment.storage.with(
            |storage: &Storage| -> (models: Vec<StatusViewModel>)
                ensures
                    models.deep_view() == storage.public_posts(),
                    distinct_ids(models.deep_view())
                { storage.public_timeline().clone() },
        )
    }
}

} // verus!
