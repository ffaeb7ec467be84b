//! Laws of the channel window, stated over its mathematical model.

use vstd::prelude::*;
use crate::message::MessageView;
use crate::window::{
    after_add, after_adds, after_delete, after_delete_bulk, after_update, distinct_ids, has_id,
    lemma_delete_bulk_props, most_recent, window_wf,
};

verus! {

/// Adding to a well-formed window leaves it well formed.
pub proof fn lemma_add_keeps_wf(s: Seq<MessageView>, m: MessageView, capacity: nat)
    requires
        window_wf(s, capacity),
    ensures
        window_wf(after_add(s, m, capacity), capacity),
{
    let now = after_add(s, m, capacity);
    if capacity != 0 && !has_id(s, m.id) {
        assert forall|i: int, j: int| 0 <= i < j < now.len() implies (#[trigger] now[i]).id != (
        #[trigger] now[j]).id by {
            if s.len() >= capacity {
                if j == now.len() - 1 {
                    assert(s[i + 1].id != m.id);
                } else {
                    assert(s[i + 1].id != s[j + 1].id);
                }
            } else {
                if j == now.len() - 1 {
                    assert(s[i].id != m.id);
                } else {
                    assert(s[i].id != s[j].id);
                }
            }
        }
    }
}

/// A window that has seen a run of arrivals, none of which repeats an id,
/// holds the most recent entries up to its capacity, in arrival order.
pub proof fn lemma_adds_keep_most_recent(
    s: Seq<MessageView>,
    arrivals: Seq<MessageView>,
    capacity: nat,
)
    requires
        s.len() <= capacity,
        distinct_ids(s + arrivals),
    ensures
        after_adds(s, arrivals, capacity) == most_recent(s + arrivals, capacity),
    decreases arrivals.len(),
{
    let all = s + arrivals;
    if arrivals.len() == 0 {
        assert(all =~= s);
    } else {
        let front = arrivals.drop_last();
        let last = arrivals.last();
        let before = s + front;
        assert(before =~= all.drop_last());
        assert(distinct_ids(before)) by {
            assert forall|i: int, j: int| 0 <= i < j < before.len() implies (#[trigger] before[i]).id
                != (#[trigger] before[j]).id by {
                assert(all[i].id != all[j].id);
            }
        }
        lemma_adds_keep_most_recent(s, front, capacity);
        let held = most_recent(before, capacity);
        assert(all[all.len() - 1] == last);
        assert(!has_id(held, last.id)) by {
            if has_id(held, last.id) {
                let i = choose|i: int| 0 <= i < held.len() && (#[trigger] held[i]).id == last.id;
                if before.len() <= capacity {
                    assert(all[i].id != all[all.len() - 1].id);
                } else {
                    let k = i + before.len() - capacity;
                    assert(held[i] == before[k]);
                    assert(all[k].id != all[all.len() - 1].id);
                }
            }
        }
        assert(after_add(held, last, capacity) =~= most_recent(all, capacity));
    }
}

/// After `n` arrivals with distinct ids at an empty window of capacity `c`,
/// the window holds `min(n, c)` entries: the last ones to arrive.
pub proof fn lemma_window_after_n_adds(arrivals: Seq<MessageView>, capacity: nat)
    requires
        distinct_ids(arrivals),
    ensures
        after_adds(Seq::empty(), arrivals, capacity) == most_recent(arrivals, capacity),
        after_adds(Seq::empty(), arrivals, capacity).len() == if arrivals.len() <= capacity {
            arrivals.len()
        } else {
            capacity
        },
{
    assert(Seq::<MessageView>::empty() + arrivals =~= arrivals);
    lemma_adds_keep_most_recent(Seq::empty(), arrivals, capacity);
}

/// An update or a delete that names an id the window does not hold changes
/// nothing.
pub proof fn lemma_absent_id_changes_nothing(
    s: Seq<MessageView>,
    id: u64,
    text: Option<Seq<char>>,
    embeds: Option<Seq<Seq<char>>>,
)
    requires
        !has_id(s, id),
    ensures
        after_update(s, id, text, embeds) == s,
        after_delete(s, id) == s,
{
    assert forall|i: int| 0 <= i < s.len() implies (#[trigger] s[i]).id != id by {}
    assert(after_update(s, id, text, embeds) =~= s);
    assert forall|i: int| 0 <= i < s.len() implies !seq![id].contains((#[trigger] s[i]).id) by {
        if seq![id].contains(s[i].id) {
            assert(s[i].id == id);
        }
    }
    lemma_delete_bulk_props(s, seq![id]);
}

/// A bulk delete that names only ids the window does not hold changes nothing.
pub proof fn lemma_absent_ids_change_nothing(s: Seq<MessageView>, ids: Seq<u64>)
    requires
        forall|k: int| 0 <= k < ids.len() ==> !has_id(s, #[trigger] ids[k]),
    ensures
        after_delete_bulk(s, ids) == s,
{
    assert forall|i: int| 0 <= i < s.len() implies !ids.contains((#[trigger] s[i]).id) by {
        if ids.contains(s[i].id) {
            let k = choose|k: int| 0 <= k < ids.len() && ids[k] == s[i].id;
            assert(has_id(s, ids[k]));
        }
    }
    lemma_delete_bulk_props(s, ids);
}

/// Deleting twice is the same as deleting once.
pub proof fn lemma_delete_idempotent(s: Seq<MessageView>, id: u64, ids: Seq<u64>)
    ensures
        after_delete(after_delete(s, id), id) == after_delete(s, id),
        after_delete_bulk(after_delete_bulk(s, ids), ids) == after_delete_bulk(s, ids),
{
    lemma_delete_bulk_props(s, seq![id]);
    lemma_delete_bulk_props(s, ids);
    let once = after_delete_bulk(s, ids);
    assert forall|i: int| 0 <= i < once.len() implies !ids.contains((#[trigger] once[i]).id) by {
        assert(has_id(once, once[i].id));
    }
    lemma_delete_bulk_props(once, ids);
    let single = after_delete(s, id);
    assert forall|i: int| 0 <= i < single.len() implies !seq![id].contains(
        (#[trigger] single[i]).id,
    ) by {
        assert(has_id(single, single[i].id));
    }
    lemma_delete_bulk_props(single, seq![id]);
}

/// Applying the same update twice is the same as applying it once.
pub proof fn lemma_update_idempotent(
    s: Seq<MessageView>,
    id: u64,
    text: Option<Seq<char>>,
    embeds: Option<Seq<Seq<char>>>,
)
    ensures
        after_update(after_update(s, id, text, embeds), id, text, embeds) == after_update(
            s,
            id,
            text,
            embeds,
        ),
{
    assert(after_update(after_update(s, id, text, embeds), id, text, embeds) =~= after_update(
        s,
        id,
        text,
        embeds,
    ));
}

} // verus!
