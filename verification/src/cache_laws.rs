//! Laws of the message cache, stated over its mathematical model: the map
//! from channels to windows.

use vstd::prelude::*;
use crate::cache::{window_or_empty, windows_after_add, with_window};
use crate::message::MessageView;
use crate::window::{
    after_add, after_adds, after_delete, after_delete_bulk, after_update, distinct_ids, has_id,
    most_recent,
};
use crate::window_laws::{
    lemma_absent_id_changes_nothing, lemma_absent_ids_change_nothing, lemma_adds_keep_most_recent,
};

verus! {

/// The windows after the messages of `arrivals` were recorded in order.
pub open spec fn windows_after_adds(
    windows: Map<u64, Seq<MessageView>>,
    arrivals: Seq<MessageView>,
    capacity: nat,
) -> Map<u64, Seq<MessageView>>
    decreases arrivals.len(),
{
    if arrivals.len() == 0 {
        windows
    } else {
        windows_after_add(
            windows_after_adds(windows, arrivals.drop_last(), capacity),
            arrivals.last(),
            capacity,
        )
    }
}

/// Messages that arrive for one channel change the window of that channel as
/// if it stood alone, and leave every other channel as it was.
pub proof fn lemma_adds_stay_in_their_channel(
    windows: Map<u64, Seq<MessageView>>,
    arrivals: Seq<MessageView>,
    capacity: nat,
    channel: u64,
)
    requires
        arrivals.len() > 0,
        forall|i: int| 0 <= i < arrivals.len() ==> (#[trigger] arrivals[i]).channel_id == channel,
    ensures
        windows_after_adds(windows, arrivals, capacity) == windows.insert(
            channel,
            after_adds(window_or_empty(windows, channel), arrivals, capacity),
        ),
    decreases arrivals.len(),
{
    let earlier = arrivals.drop_last();
    let last = arrivals.last();
    let alone = window_or_empty(windows, channel);
    let before = windows_after_adds(windows, earlier, capacity);
    assert(last == arrivals[arrivals.len() - 1]);
    assert(last.channel_id == channel);
    if earlier.len() == 0 {
        assert(after_adds(alone, earlier, capacity) == alone);
        assert(before == windows);
    } else {
        assert forall|i: int| 0 <= i < earlier.len() implies (#[trigger] earlier[i]).channel_id
            == channel by {
            assert(earlier[i] == arrivals[i]);
        }
        lemma_adds_stay_in_their_channel(windows, earlier, capacity, channel);
        assert(window_or_empty(before, channel) == after_adds(alone, earlier, capacity));
    }
    assert(window_or_empty(before, channel) == after_adds(alone, earlier, capacity));
    assert(windows_after_adds(windows, arrivals, capacity) == windows_after_add(
        before,
        last,
        capacity,
    ));
    assert(after_adds(alone, arrivals, capacity) == after_add(
        after_adds(alone, earlier, capacity),
        last,
        capacity,
    ));
    assert(windows_after_add(before, last, capacity) =~= windows.insert(
        channel,
        after_adds(alone, arrivals, capacity),
    ));
}

/// After any number of messages with distinct ids have arrived for a channel
/// that had no window, the channel's window holds the most recent of them up
/// to the capacity: as many as arrived, or as many as fit.
pub proof fn lemma_channel_keeps_most_recent(
    windows: Map<u64, Seq<MessageView>>,
    arrivals: Seq<MessageView>,
    capacity: nat,
    channel: u64,
)
    requires
        arrivals.len() > 0,
        !windows.contains_key(channel),
        distinct_ids(arrivals),
        forall|i: int| 0 <= i < arrivals.len() ==> (#[trigger] arrivals[i]).channel_id == channel,
    ensures
        windows_after_adds(windows, arrivals, capacity)[channel] == most_recent(arrivals, capacity),
        windows_after_adds(windows, arrivals, capacity)[channel].len() == if arrivals.len()
            <= capacity {
            arrivals.len()
        } else {
            capacity
        },
{
    lemma_adds_stay_in_their_channel(windows, arrivals, capacity, channel);
    assert(Seq::<MessageView>::empty() + arrivals =~= arrivals);
    lemma_adds_keep_most_recent(Seq::empty(), arrivals, capacity);
}

/// An update or a delete for an id that the channel's window does not hold,
/// or for a channel without a window, leaves the whole cache as it was.
pub proof fn lemma_absent_id_leaves_cache(
    windows: Map<u64, Seq<MessageView>>,
    channel: u64,
    id: u64,
    text: Option<Seq<char>>,
    embeds: Option<Seq<Seq<char>>>,
)
    requires
        !has_id(window_or_empty(windows, channel), id),
    ensures
        with_window(
            windows,
            channel,
            after_update(window_or_empty(windows, channel), id, text, embeds),
        ) == windows,
        with_window(windows, channel, after_delete(window_or_empty(windows, channel), id))
            == windows,
{
    let window = window_or_empty(windows, channel);
    lemma_absent_id_changes_nothing(window, id, text, embeds);
    assert(with_window(windows, channel, window) =~= windows);
}

/// A bulk delete that names only ids that the channel's window does not hold
/// leaves the whole cache as it was.
pub proof fn lemma_absent_ids_leave_cache(
    windows: Map<u64, Seq<MessageView>>,
    channel: u64,
    ids: Seq<u64>,
)
    requires
        forall|k: int|
            0 <= k < ids.len() ==> !has_id(window_or_empty(windows, channel), #[trigger] ids[k]),
    ensures
        with_window(windows, channel, after_delete_bulk(window_or_empty(windows, channel), ids))
            == windows,
{
    let window = window_or_empty(windows, channel);
    lemma_absent_ids_change_nothing(window, ids);
    assert(with_window(windows, channel, window) =~= windows);
}

} // verus!
