//! What holds of what a slot takes in from a batch.

use vstd::prelude::*;
use crate::status::Post;
use crate::timeline::model::{distinct_ids, extended, fresh, has_id, is_taken, places_taken};

verus! {

/// A slot takes in a post under `id` exactly when the batch names `id` and
/// the slot does not.
pub proof fn lemma_fresh_has_id(slot: Seq<Post>, batch: Seq<Post>, id: Seq<char>)
    ensures
        has_id(fresh(slot, batch), id) <==> has_id(batch, id) && !has_id(slot, id),
    decreases batch.len(),
{
    let taken = fresh(slot, batch);
    if batch.len() > 0 {
        let earlier = batch.drop_last();
        let post = batch.last();
        let before = fresh(slot, earlier);
        lemma_fresh_has_id(slot, earlier, id);
        if has_id(taken, id) {
            let i = choose|i: int| 0 <= i < taken.len() && (#[trigger] taken[i]).id == id;
            if i < before.len() {
                assert(before[i].id == id);
                let j = choose|j: int| 0 <= j < earlier.len() && (#[trigger] earlier[j]).id == id;
                assert(batch[j].id == id);
            } else {
                assert(batch[batch.len() - 1].id == id);
            }
        }
        if has_id(batch, id) && !has_id(slot, id) {
            let j = choose|j: int| 0 <= j < batch.len() && (#[trigger] batch[j]).id == id;
            if j < earlier.len() {
                assert(earlier[j].id == id);
            }
            if has_id(earlier, id) {
                let i = choose|i: int| 0 <= i < before.len() && (#[trigger] before[i]).id == id;
                assert(taken[i].id == id);
            } else {
                assert(taken[taken.len() - 1].id == id);
            }
        }
    }
}

/// The identifiers of `extended(slot, batch)` are those of `slot` and those
/// of `batch`.
pub proof fn lemma_extended_has_id(slot: Seq<Post>, batch: Seq<Post>, id: Seq<char>)
    ensures
        has_id(extended(slot, batch), id) <==> has_id(slot, id) || has_id(batch, id),
{
    let taken = fresh(slot, batch);
    let whole = extended(slot, batch);
    lemma_fresh_has_id(slot, batch, id);
    if has_id(whole, id) {
        let i = choose|i: int| 0 <= i < whole.len() && (#[trigger] whole[i]).id == id;
        if i < slot.len() {
            assert(slot[i].id == id);
        } else {
            assert(taken[i - slot.len()].id == id);
        }
    }
    if has_id(slot, id) {
        let i = choose|i: int| 0 <= i < slot.len() && (#[trigger] slot[i]).id == id;
        assert(whole[i].id == id);
    } else if has_id(batch, id) {
        let i = choose|i: int| 0 <= i < taken.len() && (#[trigger] taken[i]).id == id;
        assert(whole[slot.len() + i].id == id);
    }
}

/// What a slot takes in holds no identifier twice and none of the slot's.
pub proof fn lemma_fresh_distinct(slot: Seq<Post>, batch: Seq<Post>)
    ensures
        distinct_ids(fresh(slot, batch)),
        forall|k: int|
            0 <= k < fresh(slot, batch).len() ==> !has_id(
                slot,
                (#[trigger] fresh(slot, batch)[k]).id,
            ),
    decreases batch.len(),
{
    if batch.len() > 0 {
        let earlier = batch.drop_last();
        let post = batch.last();
        let before = fresh(slot, earlier);
        lemma_fresh_distinct(slot, earlier);
        lemma_fresh_has_id(slot, earlier, post.id);
        let taken = fresh(slot, batch);
        assert forall|i: int, j: int| 0 <= i < j < taken.len() implies (#[trigger] taken[i]).id
            != (#[trigger] taken[j]).id by {
            if j < before.len() {
                assert(before[i].id != before[j].id);
            } else {
                assert(taken[i] == before[i]);
                if before[i].id == post.id {
                    assert(has_id(before, post.id));
                }
            }
        }
        assert forall|k: int| 0 <= k < taken.len() implies !has_id(
            slot,
            (#[trigger] taken[k]).id,
        ) by {
            if k < before.len() {
                assert(taken[k] == before[k]);
            }
        }
    }
}

/// A slot without duplicates stays without them when it is extended.
pub proof fn lemma_extended_distinct(slot: Seq<Post>, batch: Seq<Post>)
    requires
        distinct_ids(slot),
    ensures
        distinct_ids(extended(slot, batch)),
{
    let taken = fresh(slot, batch);
    let whole = extended(slot, batch);
    lemma_fresh_distinct(slot, batch);
    assert forall|i: int, j: int| 0 <= i < j < whole.len() implies (#[trigger] whole[i]).id != (
    #[trigger] whole[j]).id by {
        if j < slot.len() {
            assert(slot[i].id != slot[j].id);
        } else if i < slot.len() {
            assert(whole[j] == taken[j - slot.len()]);
            assert(!has_id(slot, taken[j - slot.len()].id));
            assert(slot[i].id != taken[j - slot.len()].id);
        } else {
            assert(taken[i - slot.len()].id != taken[j - slot.len()].id);
        }
    }
}

/// What a slot takes in from a batch, place by place: the posts at the
/// places of the batch that are taken, in the order of the batch. The
/// answer lists those places.
pub proof fn lemma_fresh_in_batch_order(slot: Seq<Post>, batch: Seq<Post>) -> (at: Seq<int>)
    ensures
        places_taken(slot, batch, at),
        at.len() == fresh(slot, batch).len(),
        forall|k: int| 0 <= k < at.len() ==> #[trigger] fresh(slot, batch)[k] == batch[at[k]],
    decreases batch.len(),
{
    if batch.len() == 0 {
        Seq::empty()
    } else {
        let earlier = batch.drop_last();
        let last = batch.len() - 1;
        let found = lemma_fresh_in_batch_order(slot, earlier);
        assert(batch.take(last) =~= earlier);
        assert forall|i: int| 0 <= i < last implies (is_taken(slot, batch, i) <==> is_taken(
            slot,
            earlier,
            i,
        )) by {
            assert(batch.take(i) =~= earlier.take(i));
        }
        let at = if is_taken(slot, batch, last) {
            found.push(last)
        } else {
            found
        };
        assert forall|k: int| 0 <= k < at.len() implies is_taken(slot, batch, #[trigger] at[k]) by {
            if k < found.len() {
                assert(is_taken(slot, earlier, found[k]));
            }
        }
        assert forall|k: int, l: int| 0 <= k < l < at.len() implies at[k] < at[l] by {
            assert(is_taken(slot, earlier, found[k]));
            if l < found.len() {
                assert(found[k] < found[l]);
            }
        }
        assert forall|i: int| is_taken(slot, batch, i) implies at.contains(i) by {
            if i < last {
                assert(is_taken(slot, earlier, i));
                assert(found.contains(i));
                let k = choose|k: int| 0 <= k < found.len() && #[trigger] found[k] == i;
                assert(at[k] == i);
            } else {
                assert(at[at.len() - 1] == i);
            }
        }
        assert forall|k: int| 0 <= k < at.len() implies #[trigger] fresh(slot, batch)[k]
            == batch[at[k]] by {
            if k < found.len() {
                assert(fresh(slot, earlier)[k] == earlier[found[k]]);
                assert(is_taken(slot, earlier, found[k]));
            }
        }
        at
    }
}

/// What a slot takes in from a batch depends on the slot only through the
/// identifiers it holds.
pub proof fn lemma_fresh_by_ids(slot: Seq<Post>, other: Seq<Post>, batch: Seq<Post>)
    requires
        forall|id: Seq<char>| has_id(slot, id) <==> has_id(other, id),
    ensures
        fresh(slot, batch) == fresh(other, batch),
    decreases batch.len(),
{
    if batch.len() > 0 {
        lemma_fresh_by_ids(slot, other, batch.drop_last());
    }
}

/// A slot takes nothing in from a batch whose identifiers it all holds.
pub proof fn lemma_fresh_of_known(slot: Seq<Post>, batch: Seq<Post>)
    requires
        forall|k: int| 0 <= k < batch.len() ==> has_id(slot, (#[trigger] batch[k]).id),
    ensures
        fresh(slot, batch) == Seq::<Post>::empty(),
    decreases batch.len(),
{
    if batch.len() > 0 {
        let earlier = batch.drop_last();
        assert forall|k: int| 0 <= k < earlier.len() implies has_id(
            slot,
            (#[trigger] earlier[k]).id,
        ) by {
            assert(earlier[k] == batch[k]);
        }
        lemma_fresh_of_known(slot, earlier);
        assert(has_id(slot, batch[batch.len() - 1].id));
    }
}

/// A slot takes in the whole of a batch that repeats no identifier and names
/// none of the slot's.
pub proof fn lemma_fresh_of_new(slot: Seq<Post>, batch: Seq<Post>)
    requires
        distinct_ids(batch),
        forall|k: int| 0 <= k < batch.len() ==> !has_id(slot, (#[trigger] batch[k]).id),
    ensures
        fresh(slot, batch) == batch,
    decreases batch.len(),
{
    if batch.len() > 0 {
        let earlier = batch.drop_last();
        let post = batch.last();
        assert forall|k: int| 0 <= k < earlier.len() implies !has_id(
            slot,
            (#[trigger] earlier[k]).id,
        ) by {
            assert(earlier[k] == batch[k]);
        }
        assert forall|i: int, j: int| 0 <= i < j < earlier.len() implies (#[trigger] earlier[i]).id
            != (#[trigger] earlier[j]).id by {
            assert(batch[i].id != batch[j].id);
        }
        lemma_fresh_of_new(slot, earlier);
        assert(!has_id(slot, batch[batch.len() - 1].id));
        if has_id(earlier, post.id) {
            let i = choose|i: int| 0 <= i < earlier.len() && (#[trigger] earlier[i]).id == post.id;
            assert(batch[i].id != batch[batch.len() - 1].id);
        }
        assert(fresh(slot, batch) =~= batch);
    } else {
        assert(fresh(slot, batch) =~= batch);
    }
}

/// Posts whose identifiers the slot holds, put before a batch, change
/// nothing in what the slot takes in.
pub proof fn lemma_fresh_skips_known(slot: Seq<Post>, known: Seq<Post>, batch: Seq<Post>)
    requires
        forall|k: int| 0 <= k < known.len() ==> has_id(slot, (#[trigger] known[k]).id),
    ensures
        fresh(slot, known + batch) == fresh(slot, batch),
    decreases batch.len(),
{
    if batch.len() == 0 {
        assert(known + batch =~= known);
        lemma_fresh_of_known(slot, known);
    } else {
        let earlier = batch.drop_last();
        let post = batch.last();
        lemma_fresh_skips_known(slot, known, earlier);
        assert((known + batch).drop_last() =~= known + earlier);
        assert((known + batch).last() == post);
        if has_id(known + earlier, post.id) {
            let i = choose|i: int|
                0 <= i < (known + earlier).len() && (#[trigger] (known + earlier)[i]).id == post.id;
            if i < known.len() {
                assert(has_id(slot, known[i].id));
            } else {
                assert(earlier[i - known.len()].id == post.id);
            }
        }
        if has_id(earlier, post.id) {
            let i = choose|i: int| 0 <= i < earlier.len() && (#[trigger] earlier[i]).id == post.id;
            assert((known + earlier)[known.len() + i].id == post.id);
        }
    }
}

/// Turning a sequence end for end keeps its identifiers.
pub proof fn lemma_reverse_has_id(posts: Seq<Post>, id: Seq<char>)
    ensures
        has_id(posts.reverse(), id) <==> has_id(posts, id),
{
    let turned = posts.reverse();
    if has_id(turned, id) {
        let i = choose|i: int| 0 <= i < turned.len() && (#[trigger] turned[i]).id == id;
        assert(posts[posts.len() - 1 - i].id == id);
    }
    if has_id(posts, id) {
        let i = choose|i: int| 0 <= i < posts.len() && (#[trigger] posts[i]).id == id;
        assert(turned[posts.len() - 1 - i].id == id);
    }
}

/// Turning a sequence end for end neither makes nor removes a duplicate.
pub proof fn lemma_reverse_distinct(posts: Seq<Post>)
    requires
        distinct_ids(posts),
    ensures
        distinct_ids(posts.reverse()),
{
    let turned = posts.reverse();
    assert forall|i: int, j: int| 0 <= i < j < turned.len() implies (#[trigger] turned[i]).id != (
    #[trigger] turned[j]).id by {
        assert(posts[posts.len() - 1 - j].id != posts[posts.len() - 1 - i].id);
    }
}

/// Turning a sequence end for end twice gives it back.
pub proof fn lemma_reverse_twice(posts: Seq<Post>)
    ensures
        posts.reverse().reverse() == posts,
{
    assert(posts.reverse().reverse() =~= posts);
}

} // verus!
