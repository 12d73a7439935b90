//! The merge on the vectors that a cache slot is made of.

use vstd::prelude::*;
use crate::environment::types::TimelineDirection;
use crate::status::{Post, Status};
use crate::timeline::laws::lemma_merged_distinct;
use crate::timeline::lemmas::lemma_extended_has_id;
use crate::timeline::model::{distinct_ids, extended, has_id, merged, merged_newest_top};
use crate::view_model::{StatusId, StatusViewModel};

verus! {

/// Whether the slot holds a view model under `id`.
pub fn contains_id(slot: &Vec<StatusViewModel>, id: &StatusId) -> (found: bool)
    ensures
        found == has_id(slot.deep_view(), id@),
{
    let mut i: usize = 0;
    while i < slot.len()
        invariant
            i <= slot.len(),
            forall|k: int| 0 <= k < i ==> (#[trigger] slot.deep_view()[k]).id != id@,
        decreases slot.len() - i,
    {
        if slot[i].id.0 == id.0 {
            assert(slot.deep_view()[i as int].id == id@);
            return true;
        }
        i += 1;
    }
    false
}

/// Projects a fetched batch, one view model for each status and in the same
/// order.
pub fn project(updates: &[Status]) -> (models: Vec<StatusViewModel>)
    ensures
        models.deep_view() == updates.deep_view(),
{
    let mut models: Vec<StatusViewModel> = Vec::new();
    let mut i: usize = 0;
    while i < updates.len()
        invariant
            i <= updates.len(),
            models.deep_view() == updates.deep_view().take(i as int),
        decreases updates.len() - i,
    {
        let ghost projected = models.deep_view();
        models.push(StatusViewModel::new(&updates[i]));
        assert(models.deep_view() =~= projected.push(updates[i as int]@));
        i += 1;
    }
    models
}

/// Appends to the slot, in order, each incoming view model whose identifier
/// the slot does not hold yet.
fn absorb(slot: &mut Vec<StatusViewModel>, incoming: Vec<StatusViewModel>)
    ensures
        final(slot).deep_view() == extended(old(slot).deep_view(), incoming.deep_view()),
{
    let ghost before = slot.deep_view();
    let ghost batch = incoming.deep_view();
    let ghost items = incoming@;
    for model in it: incoming
        invariant
            it.seq() == items,
            batch.len() == items.len(),
            forall|k: int| 0 <= k < items.len() ==> (#[trigger] items[k])@ == batch[k],
            slot.deep_view() == extended(before, batch.take(it.index() as int)),
    {
        let ghost done = it.index() as int;
        proof {
            lemma_extended_has_id(before, batch.take(done), model.id@);
            assert(batch.take(done + 1).drop_last() == batch.take(done));
            assert(batch.take(done + 1).last() == model@);
        }
        if !contains_id(slot, &model.id) {
            let ghost kept = slot.deep_view();
            slot.push(model);
            assert(slot.deep_view() =~= kept.push(model@));
        }
    }
    assert(batch.take(batch.len() as int) == batch);
}

/// Turns the slot end for end.
fn reverse(slot: &mut Vec<StatusViewModel>)
    ensures
        final(slot).deep_view() == old(slot).deep_view().reverse(),
{
    let ghost before = slot.deep_view();
    let mut turned: Vec<StatusViewModel> = Vec::new();
    while slot.len() > 0
        invariant
            slot.len() + turned.len() == before.len(),
            slot.deep_view() == before.take(slot.len() as int),
            forall|k: int|
                0 <= k < turned.len() ==> #[trigger] turned.deep_view()[k] == before[before.len()
                    - 1 - k],
        decreases slot.len(),
    {
        let ghost placed = turned.deep_view();
        let ghost held = slot.deep_view();
        let last = slot.pop();
        match last {
            Some(model) => {
                assert(model@ == held[held.len() - 1]);
                assert(slot.deep_view() =~= held.drop_last());
                turned.push(model);
                assert(turned.deep_view() =~= placed.push(model@));
            },
            None => {},
        }
    }
    core::mem::swap(slot, &mut turned);
}

/// Merges a fetched batch into a slot kept in the display order of
/// `direction`.
pub fn merge(
    slot: &mut Vec<StatusViewModel>,
    updates: &[Status],
    direction: TimelineDirection,
    is_reload: bool,
)
    ensures
        final(slot).deep_view() == merged(
            old(slot).deep_view(),
            updates.deep_view(),
            direction,
            is_reload,
        ),
        is_reload || distinct_ids(old(slot).deep_view()) ==> distinct_ids(final(slot).deep_view()),
{
    proof {
        if is_reload || distinct_ids(slot.deep_view()) {
            lemma_merged_distinct(slot.deep_view(), updates.deep_view(), direction, is_reload);
        }
    }
    let incoming = project(updates);
    match direction {
        TimelineDirection::NewestTop => {
            merge_newest_top(slot, incoming, is_reload);
        },
        TimelineDirection::OldestTop => {
            reverse(slot);
            merge_newest_top(slot, incoming, is_reload);
            reverse(slot);
        },
    }
}

/// The merge with the freshest post first.
fn merge_newest_top(
    slot: &mut Vec<StatusViewModel>,
    incoming: Vec<StatusViewModel>,
    is_reload: bool,
)
    ensures
        final(slot).deep_view() == merged_newest_top(
            old(slot).deep_view(),
            incoming.deep_view(),
            is_reload,
        ),
{
    if is_reload {
        let mut stale: Vec<StatusViewModel> = Vec::new();
        core::mem::swap(slot, &mut stale);
        assert(slot.deep_view() == Seq::<Post>::empty());
        absorb(slot, incoming);
        absorb(slot, stale);
    } else {
        absorb(slot, incoming);
    }
}

} // verus!
