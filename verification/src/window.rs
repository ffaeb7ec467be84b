//! The bounded history of one channel.
//!
//! A window keeps the most recent messages of a channel in arrival order,
//! oldest first. It never holds more than its capacity and never holds an id
//! twice; when a message arrives at a full window the oldest entry leaves.

use std::collections::VecDeque;
use vstd::prelude::*;
use crate::message::{CachedMessage, MessageView};

verus! {

/// The number of messages a channel's window keeps.
pub const WINDOW_CAPACITY: usize = 20;

/// True when some entry of `s` has the id.
pub open spec fn has_id(s: Seq<MessageView>, id: u64) -> bool {
    exists|i: int| 0 <= i < s.len() && (#[trigger] s[i]).id == id
}

/// True when no id occurs twice in `s`.
pub open spec fn distinct_ids(s: Seq<MessageView>) -> bool {
    forall|i: int, j: int| 0 <= i < j < s.len() ==> (#[trigger] s[i]).id != (#[trigger] s[j]).id
}

/// The invariant of a window of the given capacity.
pub open spec fn window_wf(s: Seq<MessageView>, capacity: nat) -> bool {
    s.len() <= capacity && distinct_ids(s)
}

/// The window after a message arrives. An id that is already held is a
/// repeated delivery and changes nothing; otherwise the message joins at the
/// tail, and the head leaves first if the window is full.
pub open spec fn after_add(s: Seq<MessageView>, m: MessageView, capacity: nat) -> Seq<MessageView> {
    if capacity == 0 || has_id(s, m.id) {
        s
    } else if s.len() >= capacity {
        s.drop_first().push(m)
    } else {
        s.push(m)
    }
}

/// The window after an update: the entry with the id, if there is one, takes
/// the new parts; all others and the order stay.
pub open spec fn after_update(
    s: Seq<MessageView>,
    id: u64,
    text: Option<Seq<char>>,
    embeds: Option<Seq<Seq<char>>>,
) -> Seq<MessageView> {
    Seq::new(
        s.len(),
        |i: int|
            if s[i].id == id {
                s[i].with_update(text, embeds)
            } else {
                s[i]
            },
    )
}

/// The window after the entries with one of the ids have left.
pub open spec fn after_delete_bulk(s: Seq<MessageView>, ids: Seq<u64>) -> Seq<MessageView> {
    s.filter(|m: MessageView| !ids.contains(m.id))
}

/// The window after the entry with the id has left.
pub open spec fn after_delete(s: Seq<MessageView>, id: u64) -> Seq<MessageView> {
    after_delete_bulk(s, seq![id])
}

/// Up to `limit` entries, newest first.
pub open spec fn newest_first(s: Seq<MessageView>, limit: nat) -> Seq<MessageView> {
    Seq::new(
        if limit < s.len() {
            limit
        } else {
            s.len()
        },
        |i: int| s[s.len() - 1 - i],
    )
}

/// The last `capacity` entries of `s`, or all of them if there are fewer.
pub open spec fn most_recent(s: Seq<MessageView>, capacity: nat) -> Seq<MessageView> {
    if s.len() <= capacity {
        s
    } else {
        s.skip(s.len() - capacity)
    }
}

/// The window that results from adding the messages of `arrivals` in order.
pub open spec fn after_adds(s: Seq<MessageView>, arrivals: Seq<MessageView>, capacity: nat) -> Seq<
    MessageView,
>
    decreases arrivals.len(),
{
    if arrivals.len() == 0 {
        s
    } else {
        after_add(after_adds(s, arrivals.drop_last(), capacity), arrivals.last(), capacity)
    }
}

/// Filtering the first `i + 1` entries extends the filter of the first `i`.
pub proof fn lemma_filter_step(s: Seq<MessageView>, ids: Seq<u64>, i: int)
    requires
        0 <= i < s.len(),
    ensures
        after_delete_bulk(s.take(i + 1), ids) == if ids.contains(s[i].id) {
            after_delete_bulk(s.take(i), ids)
        } else {
            after_delete_bulk(s.take(i), ids).push(s[i])
        },
{
    reveal(Seq::filter);
    assert(s.take(i + 1).drop_last() =~= s.take(i));
}

/// Every entry that a bulk delete leaves was there before, none of them has
/// one of the ids, and the entries keep their order.
pub proof fn lemma_delete_bulk_props(s: Seq<MessageView>, ids: Seq<u64>)
    ensures
        after_delete_bulk(s, ids).len() <= s.len(),
        forall|id: u64| has_id(after_delete_bulk(s, ids), id) ==> has_id(s, id) && !ids.contains(id),
        forall|id: u64| has_id(s, id) && !ids.contains(id) ==> has_id(after_delete_bulk(s, ids), id),
        distinct_ids(s) ==> distinct_ids(after_delete_bulk(s, ids)),
        (forall|i: int| 0 <= i < s.len() ==> !ids.contains((#[trigger] s[i]).id))
            ==> after_delete_bulk(s, ids) == s,
    decreases s.len(),
{
    reveal(Seq::filter);
    let out = after_delete_bulk(s, ids);
    if s.len() > 0 {
        let front = s.drop_last();
        let rest = after_delete_bulk(front, ids);
        lemma_delete_bulk_props(front, ids);
        let last = s.last();
        assert forall|id: u64| has_id(out, id) implies has_id(s, id) && !ids.contains(id) by {
            let i = choose|i: int| 0 <= i < out.len() && (#[trigger] out[i]).id == id;
            if i < rest.len() {
                assert(rest[i].id == id);
                assert(has_id(rest, id));
                let j = choose|j: int| 0 <= j < front.len() && (#[trigger] front[j]).id == id;
                assert(s[j].id == id);
            } else {
                assert(s[s.len() - 1].id == id);
            }
        }
        assert forall|id: u64| has_id(s, id) && !ids.contains(id) implies has_id(out, id) by {
            let j = choose|j: int| 0 <= j < s.len() && (#[trigger] s[j]).id == id;
            if j < front.len() {
                assert(front[j].id == id);
                assert(has_id(front, id));
                let i = choose|i: int| 0 <= i < rest.len() && (#[trigger] rest[i]).id == id;
                assert(out[i].id == id);
            } else {
                assert(out[out.len() - 1].id == id);
            }
        }
        if distinct_ids(s) {
            assert(distinct_ids(front)) by {
                assert forall|i: int, j: int| 0 <= i < j < front.len() implies (#[trigger] front[i]).id
                    != (#[trigger] front[j]).id by {
                    assert(s[i].id != s[j].id);
                }
            }
            if !ids.contains(last.id) {
                assert forall|i: int, j: int| 0 <= i < j < out.len() implies (#[trigger] out[i]).id
                    != (#[trigger] out[j]).id by {
                    if j == out.len() - 1 {
                        assert(rest[i].id == out[i].id);
                        assert(has_id(rest, out[i].id));
                        let k = choose|k: int| 0 <= k < front.len() && (#[trigger] front[k]).id == out[i].id;
                        assert(s[k].id != s[s.len() - 1].id);
                    } else {
                        assert(rest[i].id != rest[j].id);
                    }
                }
            }
        }
        if forall|i: int| 0 <= i < s.len() ==> !ids.contains((#[trigger] s[i]).id) {
            assert forall|i: int| 0 <= i < front.len() implies !ids.contains((#[trigger] front[i]).id) by {
                assert(!ids.contains(s[i].id));
            }
            assert(!ids.contains(s[s.len() - 1].id));
            assert(out =~= s);
        }
    }
}

/// The bounded, ordered history of one channel.
pub struct ChannelWindow {
    messages: VecDeque<CachedMessage>,
    capacity: usize,
}

impl ChannelWindow {
    /// The entries, oldest first.
    pub closed spec fn entries(&self) -> Seq<MessageView> {
        self.messages.deep_view()
    }

    /// The most entries the window keeps.
    pub closed spec fn capacity(&self) -> nat {
        self.capacity as nat
    }

    /// The window's invariant: bounded, and no id twice.
    pub open spec fn wf(&self) -> bool {
        window_wf(self.entries(), self.capacity())
    }

    /// An empty window.
    pub fn new(capacity: usize) -> (window: ChannelWindow)
        ensures
            window.entries() == Seq::<MessageView>::empty(),
            window.capacity() == capacity,
            window.wf(),
    {
        let window = ChannelWindow { messages: VecDeque::new(), capacity };
        assert(window.entries() =~= Seq::<MessageView>::empty());
        window
    }

    /// A window over messages that are already in arrival order.
    pub fn from_parts(messages: VecDeque<CachedMessage>, capacity: usize) -> (window: ChannelWindow)
        ensures
            window.entries() == messages.deep_view(),
            window.capacity() == capacity,
    {
        ChannelWindow { messages, capacity }
    }

    /// Gives the messages back, oldest first.
    pub fn into_parts(self) -> (messages: VecDeque<CachedMessage>)
        ensures
            messages.deep_view() == self.entries(),
    {
        self.messages
    }

    /// The number of entries.
    pub fn len(&self) -> (n: usize)
        ensures
            n == self.entries().len(),
    {
        self.messages.len()
    }

    /// The position of the entry with the id.
    pub fn position(&self, id: u64) -> (found: Option<usize>)
        ensures
            match found {
                Some(i) => i < self.entries().len() && self.entries()[i as int].id == id && forall|
                    j: int,
                | 0 <= j < i ==> (#[trigger] self.entries()[j]).id != id,
                None => !has_id(self.entries(), id),
            },
    {
        let mut i: usize = 0;
        while i < self.messages.len()
            invariant
                i <= self.messages@.len(),
                forall|j: int| 0 <= j < i ==> (#[trigger] self.entries()[j]).id != id,
            decreases self.messages@.len() - i,
        {
            if self.messages[i].id == id {
                return Some(i);
            }
            i += 1;
        }
        None
    }

    /// Records a newly created message.
    pub fn add(&mut self, message: CachedMessage)
        requires
            old(self).wf(),
        ensures
            final(self).entries() == after_add(
                old(self).entries(),
                message.deep_view(),
                old(self).capacity(),
            ),
            final(self).capacity() == old(self).capacity(),
            final(self).wf(),
    {
        if self.capacity == 0 {
            return ;
        }
        if self.position(message.id).is_some() {
            return ;
        }
        let ghost before = self.entries();
        if self.messages.len() >= self.capacity {
            self.messages.pop_front();
        }
        self.messages.push_back(message);
        proof {
            let now = self.entries();
            let expected = after_add(before, message.deep_view(), self.capacity as nat);
            assert(now =~= expected);
            assert forall|i: int, j: int| 0 <= i < j < now.len() implies (#[trigger] now[i]).id != (
            #[trigger] now[j]).id by {
                if before.len() >= self.capacity {
                    if j == now.len() - 1 {
                        assert(before[i + 1].id != message.id);
                    } else {
                        assert(before[i + 1].id != before[j + 1].id);
                    }
                } else {
                    if j == now.len() - 1 {
                        assert(before[i].id != message.id);
                    } else {
                        assert(before[i].id != before[j].id);
                    }
                }
            }
        }
    }

    /// Applies an update event. Returns whether the message was held.
    pub fn update(&mut self, id: u64, text: Option<String>, embeds: Option<Vec<String>>) -> (found:
        bool)
        requires
            old(self).wf(),
        ensures
            final(self).entries() == after_update(
                old(self).entries(),
                id,
                text.deep_view(),
                embeds.deep_view(),
            ),
            found == has_id(old(self).entries(), id),
            !found ==> final(self).entries() == old(self).entries(),
            final(self).capacity() == old(self).capacity(),
            final(self).wf(),
    {
        let ghost before = self.entries();
        match self.position(id) {
            Some(i) => {
                let taken = self.messages.remove(i);
                match taken {
                    Some(message) => {
                        let updated = message.apply_update(text, embeds);
                        self.messages.insert(i, updated);
                    },
                    None => {},
                }
                proof {
                    let now = self.entries();
                    let expected = after_update(before, id, text.deep_view(), embeds.deep_view());
                    assert forall|j: int| 0 <= j < before.len() implies now[j] == expected[j] by {
                        if j != i {
                            assert(before[j].id != before[i as int].id);
                        }
                    }
                    assert(now =~= expected);
                    assert(before[i as int].id == id);
                }
                true
            },
            None => {
                proof {
                    assert(self.entries() =~= after_update(
                        before,
                        id,
                        text.deep_view(),
                        embeds.deep_view(),
                    ));
                }
                false
            },
        }
    }

    /// Removes the entries whose id is among `ids`. Returns how many left.
    pub fn delete_bulk(&mut self, ids: &Vec<u64>) -> (removed: usize)
        requires
            old(self).wf(),
        ensures
            final(self).entries() == after_delete_bulk(old(self).entries(), ids@),
            removed == old(self).entries().len() - final(self).entries().len(),
            final(self).capacity() == old(self).capacity(),
            final(self).wf(),
    {
        let ghost before = self.entries();
        let mut kept: VecDeque<CachedMessage> = VecDeque::new();
        let total: usize = self.messages.len();
        let mut removed: usize = 0;
        let ghost mut done: int = 0;
        assert(kept.deep_view() =~= after_delete_bulk(before.take(0), ids@)) by {
            reveal(Seq::filter);
        }
        loop
            invariant
                0 <= done <= before.len(),
                before.len() == total,
                self.messages.deep_view() == before.skip(done),
                kept.deep_view() == after_delete_bulk(before.take(done), ids@),
                removed + kept.deep_view().len() == done,
                self.capacity == old(self).capacity,
            ensures
                done == before.len(),
                self.messages@.len() == 0,
            decreases before.len() - done,
        {
            let ghost remaining = self.messages.deep_view();
            let ghost raw = self.messages@;
            match self.messages.pop_front() {
                Some(message) => {
                    proof {
                        assert(remaining.len() > 0);
                        assert(message.deep_view() == remaining[0]);
                        assert(remaining[0] == before[done]);
                        lemma_filter_step(before, ids@, done);
                        let rest = self.messages.deep_view();
                        assert forall|j: int| 0 <= j < rest.len() implies rest[j] == before.skip(
                            done + 1,
                        )[j] by {
                            assert(self.messages@[j] == raw[j + 1]);
                            assert(remaining[j + 1] == raw[j + 1].deep_view());
                            assert(remaining[j + 1] == before[done + j + 1]);
                        }
                        assert(rest =~= before.skip(done + 1));
                    }
                    let ghost kept_before = kept.deep_view();
                    if contains_id(ids, message.id) {
                        removed += 1;
                    } else {
                        kept.push_back(message);
                        assert(kept.deep_view() =~= kept_before.push(message.deep_view()));
                    }
                    proof {
                        done = done + 1;
                    }
                },
                None => {
                    assert(remaining.len() == 0);
                    break ;
                },
            }
        }
        self.messages = kept;
        proof {
            assert(before.take(before.len() as int) =~= before);
            lemma_delete_bulk_props(before, ids@);
        }
        removed
    }

    /// Removes the entry with the id. Returns whether it was held.
    pub fn delete(&mut self, id: u64) -> (found: bool)
        requires
            old(self).wf(),
        ensures
            final(self).entries() == after_delete(old(self).entries(), id),
            found == has_id(old(self).entries(), id),
            !found ==> final(self).entries() == old(self).entries(),
            final(self).capacity() == old(self).capacity(),
            final(self).wf(),
    {
        let ghost before = self.entries();
        let found = self.position(id).is_some();
        let mut ids: Vec<u64> = Vec::new();
        ids.push(id);
        assert(ids@ =~= seq![id]);
        self.delete_bulk(&ids);
        proof {
            lemma_delete_bulk_props(before, seq![id]);
            if !found {
                assert forall|i: int| 0 <= i < before.len() implies !seq![id].contains(
                    (#[trigger] before[i]).id,
                ) by {
                    if seq![id].contains(before[i].id) {
                        assert(before[i].id == id);
                    }
                }
            }
        }
        found
    }

    /// Copies of up to `limit` entries, newest first.
    pub fn newest(&self, limit: usize) -> (out: Vec<CachedMessage>)
        ensures
            out.deep_view() == newest_first(self.entries(), limit as nat),
    {
        newest_of(&self.messages, limit)
    }
}

/// Copies of up to `limit` of the messages, newest first, where `messages`
/// runs from oldest to newest.
pub fn newest_of(messages: &VecDeque<CachedMessage>, limit: usize) -> (out: Vec<CachedMessage>)
    ensures
        out.deep_view() == newest_first(messages.deep_view(), limit as nat),
{
    let len = messages.len();
    let count: usize = if limit < len {
        limit
    } else {
        len
    };
    let mut out: Vec<CachedMessage> = Vec::new();
    let mut i: usize = 0;
    while i < count
        invariant
            i <= count <= len,
            len == messages@.len(),
            out@.len() == i,
            forall|j: int|
                0 <= j < i ==> (#[trigger] out@[j]).deep_view() == messages.deep_view()[len - 1 - j],
        decreases count - i,
    {
        out.push(messages[len - 1 - i].duplicate());
        i += 1;
    }
    assert(out.deep_view() =~= newest_first(messages.deep_view(), limit as nat));
    out
}

/// Tells whether `id` is among `ids`.
pub fn contains_id(ids: &Vec<u64>, id: u64) -> (found: bool)
    ensures
        found == ids@.contains(id),
{
    let mut i: usize = 0;
    while i < ids.len()
        invariant
            i <= ids.len(),
            forall|j: int| 0 <= j < i ==> ids@[j] != id,
        decreases ids.len() - i,
    {
        if ids[i] == id {
            return true;
        }
        i += 1;
    }
    false
}

} // verus!
