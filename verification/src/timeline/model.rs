//! What a merge yields, as a function on sequences of posts.

use vstd::prelude::*;
use crate::environment::types::TimelineDirection;
use crate::status::Post;

verus! {

/// Some post of `posts` carries `id`.
pub open spec fn has_id(posts: Seq<Post>, id: Seq<char>) -> bool {
    exists|i: int| 0 <= i < posts.len() && (#[trigger] posts[i]).id == id
}

/// No two posts of `posts` carry the same identifier.
pub open spec fn distinct_ids(posts: Seq<Post>) -> bool {
    forall|i: int, j: int|
        0 <= i < j < posts.len() ==> (#[trigger] posts[i]).id != (#[trigger] posts[j]).id
}

/// The posts of `batch` that a slot holding `slot` takes in, in batch order:
/// those whose identifier is neither in the slot nor earlier in the batch.
pub open spec fn fresh(slot: Seq<Post>, batch: Seq<Post>) -> Seq<Post>
    decreases batch.len(),
{
    if batch.len() == 0 {
        Seq::empty()
    } else {
        let earlier = batch.drop_last();
        let post = batch.last();
        if has_id(slot, post.id) || has_id(earlier, post.id) {
            fresh(slot, earlier)
        } else {
            fresh(slot, earlier).push(post)
        }
    }
}

/// The post of `batch` at place `i` is one that a slot holding `slot` takes
/// in: its identifier is neither in the slot nor earlier in the batch.
pub open spec fn is_taken(slot: Seq<Post>, batch: Seq<Post>, i: int) -> bool {
    &&& 0 <= i < batch.len()
    &&& !has_id(slot, batch[i].id)
    &&& !has_id(batch.take(i), batch[i].id)
}

/// `at` lists the places of `batch` that are taken: each of them, once, in
/// rising order.
pub open spec fn places_taken(slot: Seq<Post>, batch: Seq<Post>, at: Seq<int>) -> bool {
    &&& forall|k: int| 0 <= k < at.len() ==> is_taken(slot, batch, #[trigger] at[k])
    &&& forall|k: int, l: int| 0 <= k < l < at.len() ==> at[k] < at[l]
    &&& forall|i: int| is_taken(slot, batch, i) ==> at.contains(i)
}

/// `slot` followed by what it takes in from `batch`.
pub open spec fn extended(slot: Seq<Post>, batch: Seq<Post>) -> Seq<Post> {
    slot + fresh(slot, batch)
}

/// The slot after a merge, freshest post first.
///
/// An incremental load extends the slot at its tail, the older edge. A reload
/// puts the batch at the head, in the batch's own version of each post, and
/// keeps below it the posts of the slot that the batch does not name.
pub open spec fn merged_newest_top(
    slot: Seq<Post>,
    batch: Seq<Post>,
    is_reload: bool,
) -> Seq<Post> {
    if is_reload {
        extended(extended(Seq::empty(), batch), slot)
    } else {
        extended(slot, batch)
    }
}

/// The slot after a merge, in the display order that `direction` asks for.
pub open spec fn merged(
    slot: Seq<Post>,
    batch: Seq<Post>,
    direction: TimelineDirection,
    is_reload: bool,
) -> Seq<Post> {
    match direction {
        TimelineDirection::NewestTop => merged_newest_top(slot, batch, is_reload),
        TimelineDirection::OldestTop => merged_newest_top(
            slot.reverse(),
            batch,
            is_reload,
        ).reverse(),
    }
}

/// What a listing of the slot shows. The slot is kept in display order, so
/// this is the slot itself, whatever direction is asked for.
pub open spec fn listed(slot: Seq<Post>, direction: TimelineDirection) -> Seq<Post> {
    slot
}

/// One step in the life of a slot.
pub enum SlotEvent {
    /// A fetched batch is merged in.
    Merge { batch: Seq<Post>, direction: TimelineDirection, is_reload: bool },
    /// The slot is cleared.
    Reset,
}

/// The slot after one event.
pub open spec fn slot_after(slot: Seq<Post>, event: SlotEvent) -> Seq<Post> {
    match event {
        SlotEvent::Merge { batch, direction, is_reload } => merged(
            slot,
            batch,
            direction,
            is_reload,
        ),
        SlotEvent::Reset => Seq::empty(),
    }
}

/// The slot after a run of events, the first of them first.
pub open spec fn slot_after_all(slot: Seq<Post>, events: Seq<SlotEvent>) -> Seq<Post>
    decreases events.len(),
{
    if events.len() == 0 {
        slot
    } else {
        slot_after(slot_after_all(slot, events.drop_last()), events.last())
    }
}

} // verus!
