//! Trusted declarations for the crates this library calls into.
//!
//! Nothing in this file is proved. Each item states what the outside code
//! does, as its source shows it, and the rest of the crate is verified
//! against these statements. The maps are `dashmap::DashMap`s; its methods
//! take `&self`, and the wrappers ask for `&mut` so that a contract can speak
//! of the map before and after a call.

use std::collections::VecDeque;
use dashmap::DashMap;
use twilight_mention::Mention;
use twilight_model::channel::ChannelType;
use twilight_model::id::Id;
use twilight_model::id::marker::UserMarker;
use vstd::prelude::*;
use crate::message::{CachedMessage, MessageView};
use crate::text::mention_text;
use crate::webhooks::{SlotView, WebhookSlot};
use crate::window::{newest_first, newest_of};

verus! {

/// `dashmap::DashMap`, a sharded concurrent hash map. Its fields stay hidden:
/// verified code speaks of a map only through the functions below.
#[verifier::external_type_specification]
#[verifier::external_body]
#[verifier::reject_recursive_types(K)]
#[verifier::reject_recursive_types(V)]
#[verifier::reject_recursive_types(S)]
pub struct ExDashMap<K, V, S>(DashMap<K, V, S>);

/// The windows that a map holds, by channel id, each as the sequence of its
/// messages from oldest to newest.
pub uninterp spec fn window_entries(m: DashMap<u64, VecDeque<CachedMessage>>) -> Map<u64, Seq<MessageView>>;

/// The endpoint slots that a map holds, by channel id.
pub uninterp spec fn slot_entries(m: DashMap<u64, WebhookSlot>) -> Map<u64, SlotView>;

/// `DashMap::new`: a map without entries.
#[verifier::external_body]
pub(crate) fn windows_new() -> (m: DashMap<u64, VecDeque<CachedMessage>>)
    ensures
        window_entries(m).dom() == Set::<u64>::empty(),
{
    DashMap::new()
}

/// `DashMap::insert`: afterwards the key maps to the given window, and every
/// other entry is as before. The window that was there, if any, is dropped.
#[verifier::external_body]
pub(crate) fn windows_insert(
    m: &mut DashMap<u64, VecDeque<CachedMessage>>,
    channel: u64,
    window: VecDeque<CachedMessage>,
)
    ensures
        window_entries(*final(m)) == window_entries(*old(m)).insert(channel, window.deep_view()),
{
    m.insert(channel, window);
}

/// `DashMap::remove`: takes the entry of the key out of the map and hands its
/// window back; `None`, and no change, where the key has no entry.
#[verifier::external_body]
pub(crate) fn windows_remove(m: &mut DashMap<u64, VecDeque<CachedMessage>>, channel: u64) -> (taken:
    Option<VecDeque<CachedMessage>>)
    ensures
        window_entries(*final(m)) == window_entries(*old(m)).remove(channel),
        taken.is_some() == window_entries(*old(m)).contains_key(channel),
        taken.is_some() ==> taken.unwrap().deep_view() == window_entries(*old(m))[channel],
{
    m.remove(&channel).map(|pair| pair.1)
}

/// `DashMap::view`: runs `newest_of` on the window of the key, if there is
/// one, and hands back what it returned; the map is not changed.
#[verifier::external_body]
pub(crate) fn windows_newest(
    m: &DashMap<u64, VecDeque<CachedMessage>>,
    channel: u64,
    limit: usize,
) -> (found: Option<Vec<CachedMessage>>)
    ensures
        found.is_some() == window_entries(*m).contains_key(channel),
        found.is_some() ==> found.unwrap().deep_view() == newest_first(
            window_entries(*m)[channel],
            limit as nat,
        ),
{
    m.view(&channel, |_, window| newest_of(window, limit))
}

/// `DashMap::new`: a map without entries.
#[verifier::external_body]
pub(crate) fn slots_new() -> (m: DashMap<u64, WebhookSlot>)
    ensures
        slot_entries(m).dom() == Set::<u64>::empty(),
{
    DashMap::new()
}

/// `DashMap::insert`: afterwards the key maps to the given slot, and every
/// other entry is as before.
#[verifier::external_body]
pub(crate) fn slots_insert(m: &mut DashMap<u64, WebhookSlot>, channel: u64, slot: WebhookSlot)
    ensures
        slot_entries(*final(m)) == slot_entries(*old(m)).insert(channel, slot.deep_view()),
{
    m.insert(channel, slot);
}

/// `DashMap::remove`: takes the entry of the key out of the map and hands its
/// slot back; `None`, and no change, where the key has no entry.
#[verifier::external_body]
pub(crate) fn slots_remove(m: &mut DashMap<u64, WebhookSlot>, channel: u64) -> (taken: Option<
    WebhookSlot,
>)
    ensures
        slot_entries(*final(m)) == slot_entries(*old(m)).remove(channel),
        taken.is_some() == slot_entries(*old(m)).contains_key(channel),
        taken.is_some() ==> taken.unwrap().deep_view() == slot_entries(*old(m))[channel],
{
    m.remove(&channel).map(|pair| pair.1)
}

/// `Mention::mention` of `twilight_mention` on a user id, rendered with
/// `to_string`: the text `<@ID>` with the id in decimal. `Id::new` panics on
/// zero, which the precondition leaves out.
#[verifier::external_body]
pub(crate) fn user_mention(id: u64) -> (text: String)
    requires
        id != 0,
    ensures
        text@ == mention_text(id),
{
    Id::<UserMarker>::new(id).mention().to_string()
}

/// `ChannelType::is_thread` of `twilight_model` on the channel type with the
/// given number: true for announcement, public and private threads, which
/// have the numbers 10, 11 and 12.
#[verifier::external_body]
pub(crate) fn channel_kind_is_thread(kind: u8) -> (yes: bool)
    ensures
        yes == (kind == 10 || kind == 11 || kind == 12),
{
    ChannelType::from(kind).is_thread()
}

} // verus!
