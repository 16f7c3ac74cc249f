//! The play queue: a snapshot kept up to date by positional changes.

use vstd::prelude::*;
use crate::io::transport::{QueueChange, QueueChangeView, QueueItem, QueueItemView};
use crate::text::str_eq;

verus! {

/// Whether a change can be applied to a queue of `len` items: an insertion
/// stands at or before the end, a removal with a count stays inside the
/// queue, and the queue does not outgrow what can be addressed.
pub open spec fn change_valid(len: int, change: QueueChangeView) -> bool {
    match change {
        QueueChangeView::Insert(index, items) => 0 <= index <= len && len + items.len()
            <= usize::MAX,
        QueueChangeView::Remove(index, count) => count == 0 || (0 <= index && 0 < count && index
            + count <= len),
    }
}

/// The length of a queue of `len` items after a change.
pub open spec fn len_after(len: int, change: QueueChangeView) -> int {
    match change {
        QueueChangeView::Insert(_, items) => len + items.len(),
        QueueChangeView::Remove(_, count) => len - count,
    }
}

/// Whether each change of a batch can be applied to the queue that the
/// changes before it leave.
pub open spec fn changes_valid(len: int, changes: Seq<QueueChangeView>) -> bool
    decreases changes.len(),
{
    changes.len() == 0 || (change_valid(len, changes[0]) && changes_valid(
        len_after(len, changes[0]),
        changes.drop_first(),
    ))
}

/// The queue after one change.
pub open spec fn apply_change(queue: Seq<QueueItemView>, change: QueueChangeView) -> Seq<
    QueueItemView,
> {
    match change {
        QueueChangeView::Insert(index, items) => queue.take(index) + items + queue.skip(index),
        QueueChangeView::Remove(index, count) => if count == 0 {
            queue
        } else {
            queue.take(index) + queue.skip(index + count)
        },
    }
}

/// The queue after a batch of changes, each applied to what the one before
/// it left.
pub open spec fn apply_changes(queue: Seq<QueueItemView>, changes: Seq<QueueChangeView>) -> Seq<
    QueueItemView,
>
    decreases changes.len(),
{
    if changes.len() == 0 {
        queue
    } else {
        apply_changes(apply_change(queue, changes[0]), changes.drop_first())
    }
}

/// The number of items that a batch inserts.
pub open spec fn total_inserted(changes: Seq<QueueChangeView>) -> int
    decreases changes.len(),
{
    if changes.len() == 0 {
        0
    } else {
        (match changes[0] {
            QueueChangeView::Insert(_, items) => items.len() as int,
            QueueChangeView::Remove(_, _) => 0,
        }) + total_inserted(changes.drop_first())
    }
}

/// The number of items that a batch removes.
pub open spec fn total_removed(changes: Seq<QueueChangeView>) -> int
    decreases changes.len(),
{
    if changes.len() == 0 {
        0
    } else {
        (match changes[0] {
            QueueChangeView::Insert(_, _) => 0,
            QueueChangeView::Remove(_, count) => count,
        }) + total_removed(changes.drop_first())
    }
}

/// The first position whose first display line is `label`.
pub open spec fn position_of_label(queue: Seq<QueueItemView>, label: Seq<char>) -> Option<int>
    decreases queue.len(),
{
    if queue.len() == 0 {
        None
    } else if queue[0].line1 == label {
        Some(0)
    } else {
        match position_of_label(queue.drop_first(), label) {
            Some(i) => Some(i + 1),
            None => None,
        }
    }
}

/// `position_of_label` finds the least position that carries the label, and
/// nothing exactly where no item carries it.
pub proof fn lemma_position_of_label(queue: Seq<QueueItemView>, label: Seq<char>)
    ensures
        match position_of_label(queue, label) {
            Some(i) => 0 <= i < queue.len() && queue[i].line1 == label && forall|j: int|
                0 <= j < i ==> queue[j].line1 != label,
            None => forall|j: int| 0 <= j < queue.len() ==> queue[j].line1 != label,
        },
    decreases queue.len(),
{
    if queue.len() > 0 && queue[0].line1 != label {
        lemma_position_of_label(queue.drop_first(), label);
        match position_of_label(queue.drop_first(), label) {
            Some(i) => {
                assert forall|j: int| 0 <= j < i + 1 implies queue[j].line1 != label by {
                    if j > 0 {
                        assert(queue.drop_first()[j - 1] == queue[j]);
                    }
                }
            },
            None => {
                assert forall|j: int| 0 <= j < queue.len() implies queue[j].line1 != label by {
                    if j > 0 {
                        assert(queue.drop_first()[j - 1] == queue[j]);
                    }
                }
            },
        }
    }
}

/// The length of a queue after a batch of changes is its length before, plus
/// what the batch inserts, minus what it removes.
pub proof fn lemma_apply_changes_len(queue: Seq<QueueItemView>, changes: Seq<QueueChangeView>)
    requires
        changes_valid(queue.len() as int, changes),
    ensures
        apply_changes(queue, changes).len() == queue.len() + total_inserted(changes)
            - total_removed(changes),
    decreases changes.len(),
{
    if changes.len() > 0 {
        let next = apply_change(queue, changes[0]);
        assert(next.len() == len_after(queue.len() as int, changes[0]));
        lemma_apply_changes_len(next, changes.drop_first());
    }
}

/// The same batch applied to the same queue leaves the same queue.
pub proof fn lemma_apply_changes_deterministic(
    first: Seq<QueueItemView>,
    second: Seq<QueueItemView>,
    changes: Seq<QueueChangeView>,
)
    requires
        first == second,
    ensures
        apply_changes(first, changes) == apply_changes(second, changes),
{
}

/// After the first of several items is removed, the label of the item that
/// stood second is found at the first position.
pub proof fn lemma_remove_first_keeps_label(queue: Seq<QueueItemView>, label: Seq<char>)
    requires
        queue.len() >= 2,
        queue[1].line1 == label,
    ensures
        position_of_label(apply_change(queue, QueueChangeView::Remove(0, 1)), label) == Some(
            0int,
        ),
{
    let after = apply_change(queue, QueueChangeView::Remove(0, 1));
    assert(after[0] == queue[1]);
}

/// Whether a batch of changes can be applied to a queue of `len` items.
pub fn changes_fit(len: usize, changes: &Vec<QueueChange>) -> (r: bool)
    ensures
        r == changes_valid(len as int, changes.deep_view()),
{
    let mut cur: usize = len;
    let mut i: usize = 0;
    assert(changes.deep_view().skip(0) =~= changes.deep_view());
    while i < changes.len()
        invariant
            i <= changes.len(),
            changes_valid(len as int, changes.deep_view()) == changes_valid(
                cur as int,
                changes.deep_view().skip(i as int),
            ),
        decreases changes.len() - i,
    {
        let ghost rest = changes.deep_view().skip(i as int);
        assert(rest[0] == changes[i as int].deep_view());
        assert(rest.drop_first() =~= changes.deep_view().skip(i + 1));
        match &changes[i] {
            QueueChange::Insert(index, items) => {
                assert(items.deep_view().len() == items.len());
                if *index > cur || items.len() > usize::MAX - cur {
                    return false;
                }
                cur = cur + items.len();
            },
            QueueChange::Remove(index, count) => {
                if *count > 0 {
                    if *index > cur || *count > cur - *index {
                        return false;
                    }
                    cur = cur - *count;
                }
            },
        }
        i += 1;
    }
    assert(changes.deep_view().skip(i as int).len() == 0);
    true
}

/// Applies one change to the queue.
pub fn apply_queue_change(queue: &mut Vec<QueueItem>, change: &QueueChange)
    requires
        change_valid(old(queue).len() as int, change.deep_view()),
    ensures
        final(queue).deep_view() == apply_change(old(queue).deep_view(), change.deep_view()),
        final(queue).len() == len_after(old(queue).len() as int, change.deep_view()),
{
    let ghost before = queue.deep_view();
    match change {
        QueueChange::Insert(index, items) => {
            let mut i: usize = 0;
            assert(queue.deep_view() =~= before.take(*index as int) + items.deep_view().take(0)
                + before.skip(*index as int));
            while i < items.len()
                invariant
                    i <= items.len(),
                    *index <= before.len(),
                    before.len() + items.len() <= usize::MAX,
                    queue.len() == before.len() + i,
                    queue.deep_view() == before.take(*index as int) + items.deep_view().take(
                        i as int,
                    ) + before.skip(*index as int),
                decreases items.len() - i,
            {
                let ghost prev = queue.deep_view();
                let item = items[i].clone();
                queue.insert(*index + i, item);
                assert(queue.deep_view() =~= prev.insert(*index + i, item.deep_view()));
                assert(queue.deep_view() =~= before.take(*index as int) + items.deep_view().take(
                    i + 1,
                ) + before.skip(*index as int));
                i += 1;
            }
            assert(items.deep_view().take(i as int) =~= items.deep_view());
        },
        QueueChange::Remove(index, count) => {
            let mut k: usize = 0;
            if *count > 0 {
                assert(queue.deep_view() =~= before.take(*index as int) + before.skip(
                    *index as int,
                ));
                while k < *count
                    invariant
                        k <= *count,
                        *index + *count <= before.len(),
                        queue.len() == before.len() - k,
                        queue.deep_view() == before.take(*index as int) + before.skip(
                            *index + k,
                        ),
                    decreases *count - k,
                {
                    let ghost prev = queue.deep_view();
                    queue.remove(*index);
                    assert(queue.deep_view() =~= prev.remove(*index as int));
                    assert(queue.deep_view() =~= before.take(*index as int) + before.skip(
                        *index + k + 1,
                    ));
                    k += 1;
                }
            }
        },
    }
}

/// Applies a batch of changes in order, each to the queue as the changes
/// before it left it.
pub fn apply_queue_changes(queue: &mut Vec<QueueItem>, changes: &Vec<QueueChange>)
    requires
        changes_valid(old(queue).len() as int, changes.deep_view()),
    ensures
        final(queue).deep_view() == apply_changes(old(queue).deep_view(), changes.deep_view()),
{
    let ghost before = queue.deep_view();
    let mut i: usize = 0;
    assert(changes.deep_view().skip(0) =~= changes.deep_view());
    while i < changes.len()
        invariant
            i <= changes.len(),
            changes_valid(queue.len() as int, changes.deep_view().skip(i as int)),
            apply_changes(before, changes.deep_view()) == apply_changes(
                queue.deep_view(),
                changes.deep_view().skip(i as int),
            ),
        decreases changes.len() - i,
    {
        let ghost rest = changes.deep_view().skip(i as int);
        assert(rest[0] == changes[i as int].deep_view());
        assert(rest.drop_first() =~= changes.deep_view().skip(i + 1));
        apply_queue_change(queue, &changes[i]);
        i += 1;
    }
    assert(changes.deep_view().skip(i as int).len() == 0);
}

/// The position of the first item whose first display line is `label`.
pub fn find_label(queue: &Vec<QueueItem>, label: &str) -> (r: Option<usize>)
    ensures
        match r {
            Some(i) => i < queue.len() && position_of_label(queue.deep_view(), label@) == Some(
                i as int,
            ),
            None => position_of_label(queue.deep_view(), label@) is None,
        },
{
    let mut i: usize = 0;
    while i < queue.len()
        invariant
            i <= queue.len(),
            forall|j: int| 0 <= j < i ==> queue.deep_view()[j].line1 != label@,
        decreases queue.len() - i,
    {
        if str_eq(queue[i].line1.as_str(), label) {
            proof {
                assert(queue.deep_view()[i as int].line1 == label@);
                lemma_position_of_label(queue.deep_view(), label@);
            }
            return Some(i);
        }
        assert(queue.deep_view()[i as int].line1 == queue[i as int].line1@);
        i += 1;
    }
    proof {
        lemma_position_of_label(queue.deep_view(), label@);
    }
    None
}

} // verus!
