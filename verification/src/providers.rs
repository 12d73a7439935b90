//! The contract between a timeline source and whoever drives it.

pub mod public;
pub mod shared;

use vstd::prelude::*;
use crate::environment::types::TimelineDirection;

verus! {

/// The direction a slot is kept in: the one the provider forces, or else the
/// one the caller asks for.
pub open spec fn effective_direction(
    forced: Option<TimelineDirection>,
    asked: TimelineDirection,
) -> TimelineDirection {
    match forced {
        Some(direction) => direction,
        None => asked,
    }
}

/// No two of `models` have the same key.
pub open spec fn distinct_by<M, K>(models: Seq<M>, key: spec_fn(M) -> K) -> bool {
    forall|i: int, j: int|
        0 <= i < j < models.len() ==> key(#[trigger] models[i]) != key(#[trigger] models[j])
}

/// A source of one timeline, bound to the cache slot it alone writes.
pub trait TimelineProvider: Sized {
    /// The key that tells one item of the feed from another.
    type Id: View;

    /// An item as the remote source delivers it.
    type Element;

    /// An item as it is displayed.
    type ViewModel: DeepView;

    /// What the slot holds, in display order.
    spec fn cached(&self) -> Seq<<Self::ViewModel as DeepView>::V>;

    /// The direction that the source's own meaning fixes, if it fixes one.
    spec fn forced(&self) -> Option<TimelineDirection>;

    /// What `should_auto_reload` answers.
    spec fn reloads_by_itself(&self) -> bool;

    /// The name of this kind of provider.
    spec fn kind() -> Seq<char>;

    /// The identifier that a fetched item comes with.
    spec fn element_id(element: Self::Element) -> <Self::Id as View>::V;

    /// The identifier that a displayed item is cached under.
    spec fn model_id(model: <Self::ViewModel as DeepView>::V) -> <Self::Id as View>::V;

    /// Whether the source should be refreshed from time to time without the
    /// user asking. A hint: it reads the provider and changes nothing.
    fn should_auto_reload(&self) -> (auto: bool)
        ensures
            auto == self.reloads_by_itself(),
    ;

    /// A name for this kind of provider, the same for each of its values.
    fn identifier(&self) -> (name: &str)
        ensures
            name@ == Self::kind(),
    ;

    /// The direction that the source forces, `None` where the caller may
    /// choose.
    fn forced_direction(&self) -> (direction: Option<TimelineDirection>)
        ensures
            direction == self.forced(),
    ;

    /// Clears the slot.
    fn reset(&mut self)
        ensures
            final(self).cached().len() == 0,
            final(self).forced() == old(self).forced(),
    ;

    /// The item of a batch just fetched that the display should move to;
    /// `None` where it should stay where it is.
    fn scroll_to_item(&self, updates: &[Self::Element]) -> (anchor: Option<Self::Id>)
        ensures
            anchor matches Some(id) ==> exists|i: int|
                0 <= i < updates@.len() && Self::element_id(#[trigger] updates@[i]) == id@,
    ;

    /// Merges a fetched batch into the slot and says whether there may be
    /// more to fetch, which is so unless the batch is empty. No merge makes
    /// a duplicate. An incremental load keeps what the slot held, in its
    /// order, and adds at the older edge only.
    fn process_new_data(
        &mut self,
        updates: &[Self::Element],
        direction: TimelineDirection,
        is_reload: bool,
    ) -> (can_load_more: bool)
        ensures
            can_load_more == (updates@.len() != 0),
            final(self).forced() == old(self).forced(),
            distinct_by(
                old(self).cached(),
                |model: <Self::ViewModel as DeepView>::V| Self::model_id(model),
            ) ==> distinct_by(
                final(self).cached(),
                |model: <Self::ViewModel as DeepView>::V| Self::model_id(model),
            ),
            !is_reload && effective_direction(old(self).forced(), direction)
                == TimelineDirection::NewestTop ==> old(self).cached().is_prefix_of(
                final(self).cached(),
            ),
            !is_reload && effective_direction(old(self).forced(), direction)
                == TimelineDirection::OldestTop ==> old(self).cached().is_suffix_of(
                final(self).cached(),
            ),
    ;

    /// The slot's contents, ready for display.
    fn data(&self, direction: TimelineDirection) -> (models: Vec<Self::ViewModel>)
        ensures
            models.deep_view() == self.cached(),
    ;
}

} // verus!
