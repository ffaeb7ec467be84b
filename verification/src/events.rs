//! Keeps the caches in step with the platform's event stream.

use vstd::prelude::*;
use crate::cache::{window_or_empty, windows_after_add, with_window, Cache};
use crate::message::{CachedMessage, MessageUpdate};
use crate::webhooks::claim_answer;
use crate::window::{after_delete, after_delete_bulk, after_update};

verus! {

/// What the platform reports.
#[derive(Debug)]
pub enum Event {
    MessageCreate(CachedMessage),
    MessageUpdate(MessageUpdate),
    MessageDelete { id: u64, channel_id: u64 },
    MessageDeleteBulk { ids: Vec<u64>, channel_id: u64 },
    /// The endpoints of a channel have changed in some way.
    WebhooksUpdate { channel_id: u64 },
    /// Anything the caches do not depend on.
    Other,
}

/// What the caller has to do after an event was applied.
#[derive(Clone, Copy, Debug, PartialEq, Eq, Structural)]
pub enum SyncAction {
    Nothing,
    /// List the endpoints of the channel and hand their ids to
    /// `Cache::update_webhooks`.
    ListWebhooks { channel_id: u64 },
}

/// Applies one event to the caches.
///
/// Message events change the window of their channel and nothing else. A
/// change of a channel's endpoints asks for a fresh listing, but only where
/// an endpoint of that channel is cached. No event touches the endpoints
/// themselves.
pub fn handle(cache: &mut Cache, event: Event) -> (action: SyncAction)
    requires
        old(cache).wf(),
    ensures
        final(cache).wf(),
        final(cache).slots() == old(cache).slots(),
        final(cache).capacity() == old(cache).capacity(),
        final(cache).user() == old(cache).user(),
        final(cache).windows() == match event {
            Event::MessageCreate(message) => windows_after_add(
                old(cache).windows(),
                message.deep_view(),
                old(cache).capacity(),
            ),
            Event::MessageUpdate(update) => with_window(
                old(cache).windows(),
                update.channel_id,
                after_update(
                    window_or_empty(old(cache).windows(), update.channel_id),
                    update.id,
                    update.text.deep_view(),
                    update.embeds.deep_view(),
                ),
            ),
            Event::MessageDelete { id, channel_id } => with_window(
                old(cache).windows(),
                channel_id,
                after_delete(window_or_empty(old(cache).windows(), channel_id), id),
            ),
            Event::MessageDeleteBulk { ids, channel_id } => with_window(
                old(cache).windows(),
                channel_id,
                after_delete_bulk(window_or_empty(old(cache).windows(), channel_id), ids@),
            ),
            _ => old(cache).windows(),
        },
        action == match event {
            Event::WebhooksUpdate { channel_id } => if claim_answer(
                old(cache).slots(),
                channel_id,
            ) is Ready {
                (SyncAction::ListWebhooks { channel_id })
            } else {
                SyncAction::Nothing
            },
            _ => SyncAction::Nothing,
        },
{
    match event {
        Event::MessageCreate(message) => {
            cache.add_message(message);
            SyncAction::Nothing
        },
        Event::MessageUpdate(update) => {
            cache.update_message(update);
            SyncAction::Nothing
        },
        Event::MessageDelete { id, channel_id } => {
            cache.delete_message(id, channel_id);
            SyncAction::Nothing
        },
        Event::MessageDeleteBulk { ids, channel_id } => {
            cache.delete_messages(&ids, channel_id);
            SyncAction::Nothing
        },
        Event::WebhooksUpdate { channel_id } => {
            match cache.cached_webhook_id(channel_id) {
                Some(_) => SyncAction::ListWebhooks { channel_id },
                None => SyncAction::Nothing,
            }
        },
        Event::Other => SyncAction::Nothing,
    }
}

} // verus!
