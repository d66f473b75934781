use vstd::prelude::*;
use crate::item::ContentItem;
use crate::item::cursor_floor;

verus! {

/// The subsequence of `batch` that is new with respect to `cursor`, in
/// batch order: exactly the items whose identifier exceeds the cursor
/// (all of them when no cursor is stored), as `Seq::filter` keeps them.
pub open spec fn new_of(batch: Seq<ContentItem>, cursor: Option<u64>) -> Seq<ContentItem> {
    batch.filter(|i: ContentItem| i.is_new(cursor))
}

/// The highest identifier observed in a run: the cursor's floor joined
/// with every identifier in the batch.  On an empty batch this is the
/// floor itself, so the cursor never regresses.
pub open spec fn max_id_of(batch: Seq<ContentItem>, cursor: Option<u64>) -> u64
    decreases batch.len(),
{
    if batch.len() == 0 {
        cursor_floor(cursor)
    } else {
        let m = max_id_of(batch.drop_last(), cursor);
        if batch.last().id > m {
            batch.last().id
        } else {
            m
        }
    }
}

/// Unfolding step for `new_of` when one item is appended to the batch.
proof fn lemma_new_of_push(s: Seq<ContentItem>, x: ContentItem, cursor: Option<u64>)
    ensures
        new_of(s.push(x), cursor) == if x.is_new(cursor) {
            new_of(s, cursor).push(x)
        } else {
            new_of(s, cursor)
        },
{
    reveal(Seq::filter);
    assert(s.push(x).drop_last() =~= s);
    assert(s.push(x).last() == x);
}

/// `new_of` of an empty batch selects nothing.
proof fn lemma_new_of_empty(cursor: Option<u64>)
    ensures
        new_of(Seq::<ContentItem>::empty(), cursor) == Seq::<ContentItem>::empty(),
{
    reveal(Seq::filter);
}

/// The filter keeps exactly the new items: everything it selects comes
/// from the batch and is new, and every new item of the batch is
/// selected.  (Order preservation is `new_of` itself: it is the batch's
/// order-preserving `Seq::filter`.)
pub proof fn lemma_new_of_membership(batch: Seq<ContentItem>, cursor: Option<u64>)
    ensures
        forall|k: int|
            0 <= k < new_of(batch, cursor).len() ==> batch.contains(
                #[trigger] new_of(batch, cursor)[k],
            ) && new_of(batch, cursor)[k].is_new(cursor),
        forall|k: int|
            0 <= k < batch.len() && batch[k].is_new(cursor) ==> new_of(batch, cursor).contains(
                #[trigger] batch[k],
            ),
    decreases batch.len(),
{
    reveal(Seq::filter);
    if batch.len() > 0 {
        let prefix = batch.drop_last();
        lemma_new_of_membership(prefix, cursor);
        assert(prefix.push(batch.last()) =~= batch);
        lemma_new_of_push(prefix, batch.last(), cursor);
        assert forall|k: int| 0 <= k < new_of(batch, cursor).len() implies batch.contains(
            new_of(batch, cursor)[k],
        ) && new_of(batch, cursor)[k].is_new(cursor) by {
            if k < new_of(prefix, cursor).len() {
                assert(new_of(batch, cursor)[k] == new_of(prefix, cursor)[k]);
                let j = choose|j: int| 0 <= j < prefix.len() && prefix[j] == new_of(
                    prefix,
                    cursor,
                )[k];
                assert(batch[j] == new_of(batch, cursor)[k]);
            } else {
                assert(new_of(batch, cursor)[k] == batch.last());
                assert(batch[batch.len() - 1] == batch.last());
            }
        }
        assert forall|k: int| 0 <= k < batch.len() && batch[k].is_new(cursor) implies new_of(
            batch,
            cursor,
        ).contains(batch[k]) by {
            if k < batch.len() - 1 {
                assert(prefix[k] == batch[k]);
                assert(new_of(prefix, cursor).contains(prefix[k]));
                let j = choose|j: int|
                    0 <= j < new_of(prefix, cursor).len() && new_of(prefix, cursor)[j] == prefix[k];
                assert(new_of(batch, cursor)[j] == batch[k]);
            } else {
                assert(new_of(batch, cursor).last() == batch[k]);
            }
        }
    }
}

/// The watermark is exact: it is at least the cursor's floor, it covers
/// every identifier in the batch, and it is nothing else — either the
/// floor itself or an identifier that occurs in the batch.
pub proof fn lemma_max_id_exact(batch: Seq<ContentItem>, cursor: Option<u64>)
    ensures
        max_id_of(batch, cursor) >= cursor_floor(cursor),
        forall|k: int| 0 <= k < batch.len() ==> #[trigger] batch[k].id <= max_id_of(batch, cursor),
        max_id_of(batch, cursor) == cursor_floor(cursor) || exists|k: int|
            0 <= k < batch.len() && #[trigger] batch[k].id == max_id_of(batch, cursor),
        batch.len() == 0 ==> max_id_of(batch, cursor) == cursor_floor(cursor),
    decreases batch.len(),
{
    if batch.len() > 0 {
        let prefix = batch.drop_last();
        lemma_max_id_exact(prefix, cursor);
        assert(forall|k: int| 0 <= k < prefix.len() ==> prefix[k] == #[trigger] batch[k]);
        if max_id_of(batch, cursor) != cursor_floor(cursor) {
            if batch.last().id > max_id_of(prefix, cursor) {
                assert(batch[batch.len() - 1].id == max_id_of(batch, cursor));
            } else if max_id_of(prefix, cursor) != cursor_floor(cursor) {
                let k = choose|k: int|
                    0 <= k < prefix.len() && #[trigger] prefix[k].id == max_id_of(prefix, cursor);
                assert(batch[k].id == max_id_of(batch, cursor));
            }
        }
    }
}

/// The watermark depends on the cursor only through its floor: an
/// absent cursor acts exactly as a floor of zero.
pub proof fn lemma_max_id_floor_only(batch: Seq<ContentItem>, cursor: Option<u64>)
    ensures
        max_id_of(batch, cursor) == max_id_of(batch, Some(cursor_floor(cursor))),
    decreases batch.len(),
{
    if batch.len() > 0 {
        lemma_max_id_floor_only(batch.drop_last(), cursor);
    }
}

/// The cursor still covers an item whose delivery failed: the watermark
/// of the whole batch is at least that item's identifier, so a per-item
/// delivery failure never holds the cursor back.
pub proof fn lemma_cursor_covers_item(batch: Seq<ContentItem>, cursor: Option<u64>, k: int)
    requires
        0 <= k < batch.len(),
    ensures
        batch[k].id <= max_id_of(batch, cursor),
{
    lemma_max_id_exact(batch, cursor);
}

/// A run on a batch with nothing new leaves the watermark where it was
/// and selects no items: a second run over already-seen content is a
/// no-op for the cursor.
pub proof fn lemma_nothing_new_keeps_cursor(batch: Seq<ContentItem>, c: u64)
    requires
        forall|k: int| 0 <= k < batch.len() ==> #[trigger] batch[k].id <= c,
    ensures
        max_id_of(batch, Some(c)) == c,
        new_of(batch, Some(c)) == Seq::<ContentItem>::empty(),
{
    lemma_max_id_exact(batch, Some(c));
    lemma_new_of_membership(batch, Some(c));
    if new_of(batch, Some(c)).len() > 0 {
        assert(batch.contains(new_of(batch, Some(c))[0]));
        assert(false);
    }
    assert(new_of(batch, Some(c)) =~= Seq::<ContentItem>::empty());
}

/// What a fetch yields after filtering: the new items in batch order and
/// the watermark the cursor will advance to.
pub struct FilterResult {
    pub new_items: Vec<ContentItem>,
    pub max_id: u64,
}

/// Splits a batch against the stored cursor: keeps exactly the new items
/// (identifier strictly above the cursor; all items when no cursor is
/// stored), in batch order, and computes the highest identifier observed
/// across the entire batch, floored at the cursor's value.
pub fn select(batch: Vec<ContentItem>, cursor: Option<u64>) -> (r: FilterResult)
    ensures
        r.new_items@ == new_of(batch@, cursor),
        r.max_id == max_id_of(batch@, cursor),
{
    let ghost orig: Seq<ContentItem> = batch@;
    let mut rest = batch;
    let mut new_items: Vec<ContentItem> = Vec::new();
    let mut max_id: u64 = match cursor {
        Some(c) => c,
        None => 0,
    };
    let mut i: usize = 0;
    let total = rest.len();
    proof {
        assert(orig.take(0) =~= Seq::<ContentItem>::empty());
        lemma_new_of_empty(cursor);
    }
    while rest.len() > 0
        invariant
            orig.len() == total,
            i as int + rest@.len() == orig.len(),
            rest@ == orig.subrange(i as int, orig.len() as int),
            new_items@ == new_of(orig.take(i as int), cursor),
            max_id == max_id_of(orig.take(i as int), cursor),
        decreases rest@.len(),
    {
        let item = rest.remove(0);
        proof {
            assert(rest@ =~= orig.subrange(i as int + 1, orig.len() as int));
            assert(item == orig[i as int]);
            let prefix = orig.take(i as int);
            let ext = orig.take(i as int + 1);
            assert(ext.drop_last() =~= prefix);
            assert(ext.last() == orig[i as int]);
            assert(prefix.push(item) =~= ext);
            lemma_new_of_push(prefix, item, cursor);
        }
        let keep = match cursor {
            Some(c) => item.id > c,
            None => true,
        };
        proof {
            assert(keep == item.is_new(cursor));
        }
        if item.id > max_id {
            max_id = item.id;
        }
        if keep {
            new_items.push(item);
        }
        i = i + 1;
    }
    proof {
        assert(orig.take(orig.len() as int) =~= orig);
    }
    FilterResult { new_items, max_id }
}

} // verus!
