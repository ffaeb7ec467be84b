//! The engine's caches: the recent messages of every channel it has seen,
//! and the impersonation endpoints it has provisioned.

use std::collections::VecDeque;
use dashmap::DashMap;
use vstd::prelude::*;
use crate::message::{CachedMessage, MessageUpdate, MessageView};
use crate::shims::{window_entries, windows_insert, windows_new, windows_newest, windows_remove};
use crate::webhooks::{
    after_claim, after_release, after_validation, claim_answer, endpoint_missing, CachedWebhook,
    ClaimView, SlotView, WebhookCache, WebhookClaim,
};
use crate::window::{
    after_add, after_delete, after_delete_bulk, after_update, newest_first, window_wf,
    ChannelWindow, WINDOW_CAPACITY,
};

verus! {

/// The window of a channel, empty where the channel has none yet.
pub open spec fn window_or_empty(windows: Map<u64, Seq<MessageView>>, channel: u64) -> Seq<
    MessageView,
> {
    if windows.contains_key(channel) {
        windows[channel]
    } else {
        Seq::empty()
    }
}

/// The windows with `changed` in place of the window of `channel`, where the
/// channel has one; a channel without a window stays without.
pub open spec fn with_window(
    windows: Map<u64, Seq<MessageView>>,
    channel: u64,
    changed: Seq<MessageView>,
) -> Map<u64, Seq<MessageView>> {
    if windows.contains_key(channel) {
        windows.insert(channel, changed)
    } else {
        windows
    }
}

/// The windows after a created message was recorded.
pub open spec fn windows_after_add(
    windows: Map<u64, Seq<MessageView>>,
    message: MessageView,
    capacity: nat,
) -> Map<u64, Seq<MessageView>> {
    windows.insert(
        message.channel_id,
        after_add(window_or_empty(windows, message.channel_id), message, capacity),
    )
}

/// Everything the engine remembers between events.
pub struct Cache {
    user_id: u64,
    messages: DashMap<u64, VecDeque<CachedMessage>>,
    capacity: usize,
    webhooks: WebhookCache,
}

impl Cache {
    /// The windows, by channel id, each from oldest to newest.
    pub closed spec fn windows(&self) -> Map<u64, Seq<MessageView>> {
        window_entries(self.messages)
    }

    /// The endpoint slots, by destination channel.
    pub closed spec fn slots(&self) -> Map<u64, SlotView> {
        self.webhooks.slots()
    }

    /// The engine's own user id.
    pub closed spec fn user(&self) -> u64 {
        self.user_id
    }

    /// The capacity of every window.
    pub closed spec fn capacity(&self) -> nat {
        self.capacity as nat
    }

    /// The invariant: every window is bounded and holds no id twice.
    pub open spec fn wf(&self) -> bool {
        forall|channel: u64| #[trigger]
            self.windows().contains_key(channel) ==> window_wf(
                self.windows()[channel],
                self.capacity(),
            )
    }

    /// Caches for the engine with the given user id: no window, no endpoint,
    /// and room for twenty messages per channel.
    pub fn new(user_id: u64) -> (cache: Cache)
        ensures
            cache.user() == user_id,
            cache.windows() == Map::<u64, Seq<MessageView>>::empty(),
            cache.slots() == Map::<u64, SlotView>::empty(),
            cache.capacity() == WINDOW_CAPACITY,
            cache.wf(),
    {
        Cache::with_capacity(user_id, WINDOW_CAPACITY)
    }

    /// Caches whose windows keep `capacity` messages each.
    pub fn with_capacity(user_id: u64, capacity: usize) -> (cache: Cache)
        ensures
            cache.user() == user_id,
            cache.windows() == Map::<u64, Seq<MessageView>>::empty(),
            cache.slots() == Map::<u64, SlotView>::empty(),
            cache.capacity() == capacity,
            cache.wf(),
    {
        let cache = Cache {
            user_id,
            messages: windows_new(),
            capacity,
            webhooks: WebhookCache::new(),
        };
        assert(cache.windows() =~= Map::<u64, Seq<MessageView>>::empty());
        cache
    }

    /// Records a created message at the tail of its channel's window, opening
    /// the window if the channel had none.
    pub fn add_message(&mut self, message: CachedMessage)
        requires
            old(self).wf(),
        ensures
            final(self).windows() == windows_after_add(
                old(self).windows(),
                message.deep_view(),
                old(self).capacity(),
            ),
            final(self).capacity() == old(self).capacity(),
            final(self).user() == old(self).user(),
            final(self).slots() == old(self).slots(),
            final(self).wf(),
    {
        let channel_id = message.channel_id;
        let held = match windows_remove(&mut self.messages, channel_id) {
            Some(messages) => messages,
            None => {
                let fresh: VecDeque<CachedMessage> = VecDeque::new();
                assert(fresh.deep_view() =~= Seq::<MessageView>::empty());
                fresh
            },
        };
        let mut window = ChannelWindow::from_parts(held, self.capacity);
        assert(old(self).windows().contains_key(channel_id) ==> window_wf(
            old(self).windows()[channel_id],
            self.capacity(),
        ));
        window.add(message);
        self.put_back(channel_id, window, Ghost(old(self).windows()));
    }

    /// Stores a changed window in place of the one that was taken out.
    fn put_back(
        &mut self,
        channel_id: u64,
        window: ChannelWindow,
        Ghost(before): Ghost<Map<u64, Seq<MessageView>>>,
    )
        requires
            old(self).windows() == before.remove(channel_id),
            window.wf(),
            window.capacity() == old(self).capacity(),
            forall|channel: u64| #[trigger]
                before.contains_key(channel) ==> window_wf(before[channel], old(self).capacity()),
        ensures
            final(self).windows() == before.insert(channel_id, window.entries()),
            final(self).capacity() == old(self).capacity(),
            final(self).user() == old(self).user(),
            final(self).slots() == old(self).slots(),
            final(self).wf(),
    {
        windows_insert(&mut self.messages, channel_id, window.into_parts());
        assert(self.windows() =~= before.insert(channel_id, window.entries()));
        assert forall|channel: u64| #[trigger] self.windows().contains_key(channel) implies window_wf(
            self.windows()[channel],
            self.capacity(),
        ) by {
            if channel != channel_id {
                assert(before.contains_key(channel));
            }
        }
    }

    /// Applies an update event: the message with the id, if its channel's
    /// window holds it, takes the new text and embeds. Anything else is left
    /// alone; the cache never invents history it did not see.
    pub fn update_message(&mut self, update: MessageUpdate)
        requires
            old(self).wf(),
        ensures
            final(self).windows() == with_window(
                old(self).windows(),
                update.channel_id,
                after_update(
                    window_or_empty(old(self).windows(), update.channel_id),
                    update.id,
                    update.text.deep_view(),
                    update.embeds.deep_view(),
                ),
            ),
            final(self).capacity() == old(self).capacity(),
            final(self).user() == old(self).user(),
            final(self).slots() == old(self).slots(),
            final(self).wf(),
    {
        let channel_id = update.channel_id;
        match windows_remove(&mut self.messages, channel_id) {
            Some(messages) => {
                let mut window = ChannelWindow::from_parts(messages, self.capacity);
                assert(window_wf(old(self).windows()[channel_id], self.capacity()));
                window.update(update.id, update.text, update.embeds);
                self.put_back(channel_id, window, Ghost(old(self).windows()));
            },
            None => {
                assert(self.windows() =~= old(self).windows());
            },
        }
    }

    /// Applies a delete event: the message with the id leaves its channel's
    /// window. An id that is not held is ignored.
    pub fn delete_message(&mut self, id: u64, channel_id: u64)
        requires
            old(self).wf(),
        ensures
            final(self).windows() == with_window(
                old(self).windows(),
                channel_id,
                after_delete(window_or_empty(old(self).windows(), channel_id), id),
            ),
            final(self).capacity() == old(self).capacity(),
            final(self).user() == old(self).user(),
            final(self).slots() == old(self).slots(),
            final(self).wf(),
    {
        match windows_remove(&mut self.messages, channel_id) {
            Some(messages) => {
                let mut window = ChannelWindow::from_parts(messages, self.capacity);
                assert(window_wf(old(self).windows()[channel_id], self.capacity()));
                window.delete(id);
                self.put_back(channel_id, window, Ghost(old(self).windows()));
            },
            None => {
                assert(self.windows() =~= old(self).windows());
            },
        }
    }

    /// Applies a bulk delete event: every message whose id is among `ids`
    /// leaves the channel's window. Ids that are not held are ignored.
    pub fn delete_messages(&mut self, ids: &Vec<u64>, channel_id: u64)
        requires
            old(self).wf(),
        ensures
            final(self).windows() == with_window(
                old(self).windows(),
                channel_id,
                after_delete_bulk(window_or_empty(old(self).windows(), channel_id), ids@),
            ),
            final(self).capacity() == old(self).capacity(),
            final(self).user() == old(self).user(),
            final(self).slots() == old(self).slots(),
            final(self).wf(),
    {
        match windows_remove(&mut self.messages, channel_id) {
            Some(messages) => {
                let mut window = ChannelWindow::from_parts(messages, self.capacity);
                assert(window_wf(old(self).windows()[channel_id], self.capacity()));
                window.delete_bulk(ids);
                self.put_back(channel_id, window, Ghost(old(self).windows()));
            },
            None => {
                assert(self.windows() =~= old(self).windows());
            },
        }
    }

    /// Up to `limit` of the newest messages of a channel, newest first.
    /// `None` means that the channel has no window at all, which is different
    /// from a window with fewer than `limit` entries.
    pub fn query(&self, channel_id: u64, limit: usize) -> (found: Option<Vec<CachedMessage>>)
        ensures
            found.is_some() == self.windows().contains_key(channel_id),
            found.is_some() ==> found.unwrap().deep_view() == newest_first(
                self.windows()[channel_id],
                limit as nat,
            ),
    {
        windows_newest(&self.messages, channel_id, limit)
    }

    /// The whole window of a channel from oldest to newest, or `None` where
    /// the channel has no window.
    pub fn get_messages(&self, channel_id: u64) -> (found: Option<Vec<CachedMessage>>)
        requires
            self.wf(),
        ensures
            found.is_some() == self.windows().contains_key(channel_id),
            found.is_some() ==> found.unwrap().deep_view() == self.windows()[channel_id],
    {
        match windows_newest(&self.messages, channel_id, self.capacity) {
            Some(newest) => {
                let oldest_first = reversed(newest);
                assert(oldest_first.deep_view() =~= self.windows()[channel_id]);
                Some(oldest_first)
            },
            None => None,
        }
    }

    /// The engine's own user id.
    pub fn user_id(&self) -> (id: u64)
        ensures
            id == self.user(),
    {
        self.user_id
    }

    /// Stores the endpoint that was provisioned for a channel.
    pub fn populate_webhook(&mut self, channel_id: u64, webhook: CachedWebhook)
        ensures
            final(self).slots() == old(self).slots().insert(
                channel_id,
                SlotView::Ready(webhook.deep_view()),
            ),
            final(self).windows() == old(self).windows(),
            final(self).capacity() == old(self).capacity(),
            final(self).user() == old(self).user(),
    {
        self.webhooks.populate(channel_id, webhook);
    }

    /// Gives up the claim on a channel after provisioning failed.
    pub fn release_webhook(&mut self, channel_id: u64)
        ensures
            final(self).slots() == after_release(old(self).slots(), channel_id),
            final(self).windows() == old(self).windows(),
            final(self).capacity() == old(self).capacity(),
            final(self).user() == old(self).user(),
    {
        self.webhooks.release(channel_id);
    }

    /// The id of the live endpoint of a channel, if one is cached.
    pub fn cached_webhook_id(&mut self, channel_id: u64) -> (id: Option<u64>)
        ensures
            final(self).slots() == old(self).slots(),
            final(self).windows() == old(self).windows(),
            final(self).capacity() == old(self).capacity(),
            final(self).user() == old(self).user(),
            id == match claim_answer(old(self).slots(), channel_id) {
                ClaimView::Ready(webhook) => Some(webhook.id),
                _ => None,
            },
    {
        self.webhooks.cached_id(channel_id)
    }

    /// Asks for the endpoint of a destination channel; see `webhooks::get`.
    pub fn get_webhook(&mut self, channel_id: u64) -> (claim: WebhookClaim)
        ensures
            claim.deep_view() == claim_answer(old(self).slots(), channel_id),
            final(self).slots() == after_claim(old(self).slots(), channel_id),
            final(self).windows() == old(self).windows(),
            final(self).capacity() == old(self).capacity(),
            final(self).user() == old(self).user(),
    {
        crate::webhooks::get(&mut self.webhooks, channel_id)
    }

    /// Drops the cached endpoint of a channel if the platform no longer lists
    /// it; see `webhooks::update`.
    pub fn update_webhooks(&mut self, channel_id: u64, listed_ids: &Vec<u64>) -> (evicted: bool)
        ensures
            evicted == endpoint_missing(old(self).slots(), channel_id, listed_ids@),
            final(self).slots() == after_validation(
                old(self).slots(),
                channel_id,
                listed_ids@,
            ),
            final(self).windows() == old(self).windows(),
            final(self).capacity() == old(self).capacity(),
            final(self).user() == old(self).user(),
    {
        crate::webhooks::update(&mut self.webhooks, channel_id, listed_ids)
    }
}

/// The messages in the opposite order.
pub fn reversed(messages: Vec<CachedMessage>) -> (out: Vec<CachedMessage>)
    ensures
        out.deep_view() == messages.deep_view().reverse(),
{
    let mut rest = messages;
    let mut out: Vec<CachedMessage> = Vec::new();
    let ghost all = messages.deep_view();
    loop
        invariant
            rest@.len() <= all.len(),
            rest.deep_view() == all.take(rest@.len() as int),
            out@.len() == all.len() - rest@.len(),
            forall|j: int| 0 <= j < out@.len() ==> (#[trigger] out@[j]).deep_view() == all[all.len() - 1 - j],
        ensures
            rest@.len() == 0,
        decreases rest@.len(),
    {
        let ghost before = rest.deep_view();
        match rest.pop() {
            Some(message) => {
                assert(message.deep_view() == before[before.len() - 1]);
                out.push(message);
                assert(rest.deep_view() =~= all.take(rest@.len() as int));
            },
            None => {
                break ;
            },
        }
    }
    assert(out.deep_view() =~= all.reverse());
    out
}

} // verus!
