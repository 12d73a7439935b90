//! What holds of every merge and of every slot.

use vstd::prelude::*;
use crate::environment::types::TimelineDirection;
use crate::status::Post;
use crate::timeline::lemmas::{
    lemma_extended_distinct, lemma_extended_has_id, lemma_fresh_by_ids, lemma_fresh_distinct,
    lemma_fresh_has_id, lemma_fresh_of_known, lemma_fresh_of_new, lemma_fresh_skips_known,
    lemma_reverse_distinct, lemma_reverse_has_id, lemma_reverse_twice,
};
use crate::timeline::model::{
    distinct_ids, extended, fresh, has_id, listed, merged, merged_newest_top, slot_after,
    slot_after_all, SlotEvent,
};

verus! {

/// No merge makes a duplicate: a reload yields a slot without duplicates
/// whatever the slot held, an incremental load keeps a slot without
/// duplicates so.
pub proof fn lemma_merged_distinct(
    slot: Seq<Post>,
    batch: Seq<Post>,
    direction: TimelineDirection,
    is_reload: bool,
)
    requires
        is_reload || distinct_ids(slot),
    ensures
        distinct_ids(merged(slot, batch, direction, is_reload)),
{
    let start = match direction {
        TimelineDirection::NewestTop => slot,
        TimelineDirection::OldestTop => slot.reverse(),
    };
    if is_reload {
        lemma_extended_distinct(Seq::empty(), batch);
        lemma_extended_distinct(extended(Seq::empty(), batch), start);
    } else {
        if direction == TimelineDirection::OldestTop {
            lemma_reverse_distinct(slot);
        }
        lemma_extended_distinct(start, batch);
    }
    if direction == TimelineDirection::OldestTop {
        lemma_reverse_distinct(merged_newest_top(start, batch, is_reload));
    }
}

/// However a slot that starts empty is merged into and reset, it never holds
/// an identifier twice.
pub proof fn lemma_slot_never_holds_duplicates(events: Seq<SlotEvent>)
    ensures
        distinct_ids(slot_after_all(Seq::empty(), events)),
    decreases events.len(),
{
    if events.len() > 0 {
        lemma_slot_never_holds_duplicates(events.drop_last());
        let slot = slot_after_all(Seq::empty(), events.drop_last());
        match events.last() {
            SlotEvent::Merge { batch, direction, is_reload } => {
                lemma_merged_distinct(slot, batch, direction, is_reload);
            },
            SlotEvent::Reset => {},
        }
    }
}

/// After a merge the slot holds the identifiers it held and those of the
/// batch, and no others.
pub proof fn lemma_merged_has_id(
    slot: Seq<Post>,
    batch: Seq<Post>,
    direction: TimelineDirection,
    is_reload: bool,
    id: Seq<char>,
)
    ensures
        has_id(merged(slot, batch, direction, is_reload), id) <==> has_id(slot, id) || has_id(
            batch,
            id,
        ),
{
    let start = match direction {
        TimelineDirection::NewestTop => slot,
        TimelineDirection::OldestTop => slot.reverse(),
    };
    lemma_reverse_has_id(slot, id);
    if is_reload {
        lemma_extended_has_id(Seq::empty(), batch, id);
        lemma_extended_has_id(extended(Seq::empty(), batch), start, id);
    } else {
        lemma_extended_has_id(start, batch, id);
    }
    lemma_reverse_has_id(merged_newest_top(start, batch, is_reload), id);
}

/// Merging a batch a second time changes nothing: a post that is delivered
/// again finds its identifier in the slot.
pub proof fn lemma_merge_is_idempotent(
    slot: Seq<Post>,
    batch: Seq<Post>,
    direction: TimelineDirection,
    is_reload: bool,
)
    ensures
        merged(merged(slot, batch, direction, is_reload), batch, direction, is_reload) == merged(
            slot,
            batch,
            direction,
            is_reload,
        ),
{
    let start = match direction {
        TimelineDirection::NewestTop => slot,
        TimelineDirection::OldestTop => slot.reverse(),
    };
    let once = merged_newest_top(start, batch, is_reload);
    lemma_reverse_twice(once);
    if is_reload {
        let top = extended(Seq::empty(), batch);
        let stale = fresh(top, start);
        assert(once == top + stale);
        assert forall|k: int| 0 <= k < top.len() implies has_id(top, (#[trigger] top[k]).id) by {}
        lemma_fresh_skips_known(top, top, stale);
        lemma_fresh_distinct(top, start);
        lemma_fresh_of_new(top, stale);
    } else {
        assert forall|k: int| 0 <= k < batch.len() implies has_id(
            once,
            (#[trigger] batch[k]).id,
        ) by {
            lemma_extended_has_id(start, batch, batch[k].id);
        }
        lemma_fresh_of_known(once, batch);
        assert(extended(once, batch) =~= once);
    }
}

/// An incremental load of a batch whose identifiers the slot all holds
/// leaves the slot as it was.
pub proof fn lemma_known_batch_changes_nothing(
    slot: Seq<Post>,
    batch: Seq<Post>,
    direction: TimelineDirection,
)
    requires
        forall|k: int| 0 <= k < batch.len() ==> has_id(slot, (#[trigger] batch[k]).id),
    ensures
        merged(slot, batch, direction, false) == slot,
{
    let start = match direction {
        TimelineDirection::NewestTop => slot,
        TimelineDirection::OldestTop => slot.reverse(),
    };
    assert forall|k: int| 0 <= k < batch.len() implies has_id(start, (#[trigger] batch[k]).id) by {
        lemma_reverse_has_id(slot, batch[k].id);
    }
    lemma_fresh_of_known(start, batch);
    assert(extended(start, batch) =~= start);
    lemma_reverse_twice(slot);
}

/// An empty batch changes nothing in a slot without duplicates, whether it
/// comes as a reload or as an incremental load.
pub proof fn lemma_empty_batch_changes_nothing(
    slot: Seq<Post>,
    direction: TimelineDirection,
    is_reload: bool,
)
    requires
        distinct_ids(slot),
    ensures
        merged(slot, Seq::empty(), direction, is_reload) == slot,
{
    let start = match direction {
        TimelineDirection::NewestTop => slot,
        TimelineDirection::OldestTop => slot.reverse(),
    };
    let none = Seq::<Post>::empty();
    if direction == TimelineDirection::OldestTop {
        lemma_reverse_distinct(slot);
    }
    lemma_reverse_twice(slot);
    if is_reload {
        assert(extended(none, none) =~= none);
        lemma_fresh_of_new(none, start);
        assert(extended(none, start) =~= start);
    } else {
        assert(extended(start, none) =~= start);
    }
}

/// An incremental load keeps what the slot held, in the order it had, and
/// puts what is new at the older edge: behind it where the newest post is on
/// top, before it where the oldest is. Each post put there is one that the
/// batch names and the slot did not hold.
pub proof fn lemma_incremental_load_keeps_order(
    slot: Seq<Post>,
    batch: Seq<Post>,
    direction: TimelineDirection,
)
    ensures
        direction == TimelineDirection::NewestTop ==> slot.is_prefix_of(
            merged(slot, batch, direction, false),
        ) && merged(slot, batch, direction, false) == slot + fresh(slot, batch),
        direction == TimelineDirection::OldestTop ==> slot.is_suffix_of(
            merged(slot, batch, direction, false),
        ) && merged(slot, batch, direction, false) == fresh(slot, batch).reverse() + slot,
        forall|k: int|
            0 <= k < fresh(slot, batch).len() ==> has_id(
                batch,
                (#[trigger] fresh(slot, batch)[k]).id,
            ) && !has_id(slot, fresh(slot, batch)[k].id),
{
    let taken = fresh(slot, batch);
    assert forall|k: int| 0 <= k < taken.len() implies has_id(batch, (#[trigger] taken[k]).id)
        && !has_id(slot, taken[k].id) by {
        assert(has_id(taken, taken[k].id));
        lemma_fresh_has_id(slot, batch, taken[k].id);
    }
    if direction == TimelineDirection::OldestTop {
        let turned = slot.reverse();
        assert forall|id: Seq<char>| has_id(turned, id) <==> has_id(slot, id) by {
            lemma_reverse_has_id(slot, id);
        }
        lemma_fresh_by_ids(turned, slot, batch);
        lemma_reverse_twice(slot);
        assert(merged(slot, batch, direction, false) =~= taken.reverse() + slot);
    }
}

/// A reload puts the batch, each identifier once, at the newer edge of the
/// slot, and keeps at the other side of it what the slot held under
/// identifiers that the batch does not name.
pub proof fn lemma_reload_puts_batch_on_top(
    slot: Seq<Post>,
    batch: Seq<Post>,
    direction: TimelineDirection,
)
    ensures
        direction == TimelineDirection::NewestTop ==> merged(slot, batch, direction, true) == fresh(
            Seq::empty(),
            batch,
        ) + fresh(batch, slot),
        direction == TimelineDirection::OldestTop ==> merged(slot, batch, direction, true) == fresh(
            batch,
            slot.reverse(),
        ).reverse() + fresh(Seq::empty(), batch).reverse(),
{
    let start = match direction {
        TimelineDirection::NewestTop => slot,
        TimelineDirection::OldestTop => slot.reverse(),
    };
    let top = extended(Seq::empty(), batch);
    assert(top =~= fresh(Seq::empty(), batch));
    assert forall|id: Seq<char>| has_id(top, id) <==> has_id(batch, id) by {
        lemma_extended_has_id(Seq::empty(), batch, id);
    }
    lemma_fresh_by_ids(top, batch, start);
    let whole = top + fresh(batch, start);
    assert(whole.reverse() =~= fresh(batch, start).reverse() + top.reverse());
}

/// A reload into an empty slot, as after a reset, leaves the batch alone in
/// the slot, each identifier once; an incremental load does the same there.
pub proof fn lemma_merge_into_empty(batch: Seq<Post>, is_reload: bool)
    ensures
        merged(Seq::empty(), batch, TimelineDirection::NewestTop, is_reload) == fresh(
            Seq::empty(),
            batch,
        ),
        merged(Seq::empty(), batch, TimelineDirection::OldestTop, is_reload) == fresh(
            Seq::empty(),
            batch,
        ).reverse(),
{
    let none = Seq::<Post>::empty();
    let top = extended(none, batch);
    assert(none.reverse() =~= none);
    assert(top =~= fresh(none, batch));
    assert(fresh(top, none) =~= none);
    assert(extended(top, none) =~= top);
}

/// The two directions mirror each other: a merge with the oldest post on
/// top is the merge with the newest on top, seen from the other end.
pub proof fn lemma_directions_mirror(slot: Seq<Post>, batch: Seq<Post>, is_reload: bool)
    ensures
        merged(slot.reverse(), batch, TimelineDirection::OldestTop, is_reload) == merged(
            slot,
            batch,
            TimelineDirection::NewestTop,
            is_reload,
        ).reverse(),
{
    lemma_reverse_twice(slot);
}

/// A reset leaves an empty slot, whatever the slot held, and a listing taken
/// right after it shows nothing.
pub proof fn lemma_reset_then_listing_is_empty(slot: Seq<Post>, direction: TimelineDirection)
    ensures
        slot_after(slot, SlotEvent::Reset) == Seq::<Post>::empty(),
        listed(slot_after(slot, SlotEvent::Reset), direction) == Seq::<Post>::empty(),
{
}

} // verus!
