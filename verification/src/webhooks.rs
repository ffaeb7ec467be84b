//! The cache of impersonation endpoints, one per destination channel.
//!
//! An endpoint is provisioned at most once per channel: whoever asks first
//! claims the channel's slot before any network round trip, and everyone who
//! asks while the claim stands is told to wait.

use dashmap::DashMap;
use vstd::prelude::*;
use vstd::string::StringExecFns;
use crate::shims::{slot_entries, slots_insert, slots_new, slots_remove};
use crate::window::contains_id;

verus! {

/// The name under which the engine creates its endpoints.
pub fn webhook_name() -> (name: String)
    ensures
        name@ == "message highway"@,
{
    String::from_str("message highway")
}

/// An endpoint the engine can post through.
#[derive(Debug)]
pub struct CachedWebhook {
    pub id: u64,
    /// The secret that authorises posting.
    pub token: String,
}

/// The mathematical value of a `CachedWebhook`.
pub struct WebhookView {
    pub id: u64,
    pub token: Seq<char>,
}

impl DeepView for CachedWebhook {
    type V = WebhookView;

    open spec fn deep_view(&self) -> WebhookView {
        WebhookView { id: self.id, token: self.token@ }
    }
}

/// What the cache holds for a channel.
#[derive(Debug)]
pub enum WebhookSlot {
    /// Somebody is provisioning the endpoint right now.
    Claimed,
    /// The live endpoint of the channel.
    Ready(CachedWebhook),
}

/// The mathematical value of a `WebhookSlot`.
pub enum SlotView {
    Claimed,
    Ready(WebhookView),
}

impl DeepView for WebhookSlot {
    type V = SlotView;

    open spec fn deep_view(&self) -> SlotView {
        match self {
            WebhookSlot::Claimed => SlotView::Claimed,
            WebhookSlot::Ready(webhook) => SlotView::Ready(webhook.deep_view()),
        }
    }
}

/// One endpoint as the platform lists it.
#[derive(Debug)]
pub struct ListedWebhook {
    pub id: u64,
    /// True for endpoints of the incoming kind, the only kind that takes
    /// posts.
    pub incoming: bool,
    /// The secret that authorises posting, where the listing exposes it.
    pub token: Option<String>,
    /// The application that created the endpoint.
    pub application_id: Option<u64>,
}

/// The answer to a request for a channel's endpoint.
#[derive(Debug)]
pub enum WebhookClaim {
    /// The endpoint is cached.
    Ready(CachedWebhook),
    /// Nothing is cached and the caller now holds the claim: it must
    /// provision the endpoint and then call `populate`, or `release` on
    /// failure.
    Provision,
    /// Another caller holds the claim.
    Busy,
}

/// The mathematical value of a `WebhookClaim`.
pub enum ClaimView {
    Ready(WebhookView),
    Provision,
    Busy,
}

impl DeepView for WebhookClaim {
    type V = ClaimView;

    open spec fn deep_view(&self) -> ClaimView {
        match self {
            WebhookClaim::Ready(webhook) => ClaimView::Ready(webhook.deep_view()),
            WebhookClaim::Provision => ClaimView::Provision,
            WebhookClaim::Busy => ClaimView::Busy,
        }
    }
}

/// The answer to a request for the endpoint of `channel`.
pub open spec fn claim_answer(slots: Map<u64, SlotView>, channel: u64) -> ClaimView {
    if slots.contains_key(channel) {
        match slots[channel] {
            SlotView::Ready(webhook) => ClaimView::Ready(webhook),
            SlotView::Claimed => ClaimView::Busy,
        }
    } else {
        ClaimView::Provision
    }
}

/// The slots after a request for the endpoint of `channel`: a channel without
/// a slot is claimed, everything else stays.
pub open spec fn after_claim(slots: Map<u64, SlotView>, channel: u64) -> Map<u64, SlotView> {
    if slots.contains_key(channel) {
        slots
    } else {
        slots.insert(channel, SlotView::Claimed)
    }
}

/// The slots after a claim is given up: a claimed slot goes, a live endpoint
/// stays.
pub open spec fn after_release(slots: Map<u64, SlotView>, channel: u64) -> Map<u64, SlotView> {
    if slots.contains_key(channel) && slots[channel] == SlotView::Claimed {
        slots.remove(channel)
    } else {
        slots
    }
}

/// True when the platform's listing no longer shows the cached endpoint of
/// `channel`.
pub open spec fn endpoint_missing(slots: Map<u64, SlotView>, channel: u64, listed: Seq<u64>) -> bool {
    slots.contains_key(channel) && match slots[channel] {
        SlotView::Ready(webhook) => !listed.contains(webhook.id),
        SlotView::Claimed => false,
    }
}

/// The slots after the platform reported the endpoints of `channel`.
pub open spec fn after_validation(slots: Map<u64, SlotView>, channel: u64, listed: Seq<u64>) -> Map<
    u64,
    SlotView,
> {
    if endpoint_missing(slots, channel, listed) {
        slots.remove(channel)
    } else {
        slots
    }
}

/// True when a listed endpoint can serve the engine: it is of the incoming
/// kind, the given application created it, and it exposes its token.
pub open spec fn usable(listed: ListedWebhook, application_id: u64) -> bool {
    listed.incoming && listed.application_id == Some(application_id) && listed.token.is_some()
}

/// The slots after a run of requests, one for each channel of `requests` in
/// order, none of which has finished provisioning yet.
pub open spec fn after_claims(slots: Map<u64, SlotView>, requests: Seq<u64>) -> Map<u64, SlotView>
    decreases requests.len(),
{
    if requests.len() == 0 {
        slots
    } else {
        after_claim(after_claims(slots, requests.drop_last()), requests.last())
    }
}

/// The number of requests of the run that ask for `channel` and are told to
/// provision.
pub open spec fn provisions(slots: Map<u64, SlotView>, requests: Seq<u64>, channel: u64) -> nat
    decreases requests.len(),
{
    if requests.len() == 0 {
        0
    } else {
        let earlier = requests.drop_last();
        let last: nat = if requests.last() == channel && claim_answer(
            after_claims(slots, earlier),
            channel,
        ) == ClaimView::Provision {
            1
        } else {
            0
        };
        provisions(slots, earlier, channel) + last
    }
}

/// Giving up a claim undoes it: a channel that had no slot has none again,
/// so that the next request is told to provision.
pub proof fn lemma_release_undoes_claim(slots: Map<u64, SlotView>, channel: u64)
    requires
        !slots.contains_key(channel),
    ensures
        after_release(after_claim(slots, channel), channel) == slots,
        claim_answer(after_release(after_claim(slots, channel), channel), channel)
            == ClaimView::Provision,
{
    assert(after_release(after_claim(slots, channel), channel) =~= slots);
}

/// A run of requests leaves every slot that was there as it was, and gives a
/// claimed slot to exactly the channels that were asked for and had none.
pub proof fn lemma_after_claims(slots: Map<u64, SlotView>, requests: Seq<u64>, channel: u64)
    ensures
        after_claims(slots, requests).contains_key(channel) == (slots.contains_key(channel)
            || requests.contains(channel)),
        slots.contains_key(channel) ==> after_claims(slots, requests)[channel] == slots[channel],
    decreases requests.len(),
{
    if requests.len() > 0 {
        let earlier = requests.drop_last();
        lemma_after_claims(slots, earlier, channel);
        if requests.contains(channel) {
            let i = choose|i: int| 0 <= i < requests.len() && requests[i] == channel;
            if i < earlier.len() {
                assert(earlier[i] == channel);
            }
        }
        if earlier.contains(channel) {
            let i = choose|i: int| 0 <= i < earlier.len() && earlier[i] == channel;
            assert(requests[i] == channel);
        }
        assert(requests[requests.len() - 1] == requests.last());
    }
}

/// However many requests for endpoints arrive, in whatever order, before any
/// of them has finished provisioning: for each channel exactly one request
/// is told to provision if the channel had no slot and was asked for, and
/// none otherwise.
pub proof fn lemma_one_provision(slots: Map<u64, SlotView>, requests: Seq<u64>, channel: u64)
    ensures
        provisions(slots, requests, channel) == if !slots.contains_key(channel)
            && requests.contains(channel) {
            1nat
        } else {
            0nat
        },
    decreases requests.len(),
{
    if requests.len() > 0 {
        let earlier = requests.drop_last();
        lemma_one_provision(slots, earlier, channel);
        lemma_after_claims(slots, earlier, channel);
        lemma_after_claims(slots, requests, channel);
        assert(requests[requests.len() - 1] == requests.last());
        if earlier.contains(channel) {
            let i = choose|i: int| 0 <= i < earlier.len() && earlier[i] == channel;
            assert(requests[i] == channel);
        }
        if requests.contains(channel) && requests.last() != channel {
            let i = choose|i: int| 0 <= i < requests.len() && requests[i] == channel;
            assert(earlier[i] == channel);
        }
    }
}

impl CachedWebhook {
    /// A copy of the endpoint.
    pub fn duplicate(&self) -> (copy: CachedWebhook)
        ensures
            copy.deep_view() == self.deep_view(),
    {
        CachedWebhook { id: self.id, token: self.token.clone() }
    }

    /// The endpoint behind a listing entry, if the entry is of the incoming
    /// kind and exposes its token.
    pub fn try_from(listed: ListedWebhook) -> (webhook: Option<CachedWebhook>)
        ensures
            webhook.is_some() == (listed.incoming && listed.token.is_some()),
            webhook.is_some() ==> webhook.unwrap().id == listed.id && webhook.unwrap().token
                == listed.token.unwrap(),
    {
        if !listed.incoming {
            return None;
        }
        match listed.token {
            Some(token) => Some(CachedWebhook { id: listed.id, token }),
            None => None,
        }
    }
}

/// Picks from the platform's listing the first endpoint that the given
/// application created and that exposes a token.
pub fn resolve(listing: &Vec<ListedWebhook>, application_id: u64) -> (choice: Option<CachedWebhook>)
    ensures
        match choice {
            Some(webhook) => exists|i: int|
                0 <= i < listing@.len() && usable(#[trigger] listing@[i], application_id)
                    && webhook.id == listing@[i].id && webhook.token@ == listing@[i].token.unwrap()@
                    && forall|j: int| 0 <= j < i ==> !usable(#[trigger] listing@[j], application_id),
            None => forall|i: int| 0 <= i < listing@.len() ==> !usable(#[trigger] listing@[i], application_id),
        },
{
    let mut i: usize = 0;
    while i < listing.len()
        invariant
            i <= listing.len(),
            forall|j: int| 0 <= j < i ==> !usable(#[trigger] listing@[j], application_id),
        decreases listing.len() - i,
    {
        let entry = &listing[i];
        let owned = entry.incoming && match entry.application_id {
            Some(app) => app == application_id,
            None => false,
        };
        if owned {
            match &entry.token {
                Some(token) => {
                    return Some(CachedWebhook { id: entry.id, token: token.clone() });
                },
                None => {},
            }
        }
        i += 1;
    }
    None
}

/// The endpoints the engine holds, by channel.
pub struct WebhookCache {
    slots: DashMap<u64, WebhookSlot>,
}

impl WebhookCache {
    /// The slots, by channel id.
    pub closed spec fn slots(&self) -> Map<u64, SlotView> {
        slot_entries(self.slots)
    }

    /// A cache without endpoints.
    pub fn new() -> (cache: WebhookCache)
        ensures
            cache.slots() == Map::<u64, SlotView>::empty(),
    {
        let cache = WebhookCache { slots: slots_new() };
        assert(cache.slots() =~= Map::<u64, SlotView>::empty());
        cache
    }

    /// Stores the endpoint that was provisioned for the channel.
    pub fn populate(&mut self, channel_id: u64, webhook: CachedWebhook)
        ensures
            final(self).slots() == old(self).slots().insert(
                channel_id,
                SlotView::Ready(webhook.deep_view()),
            ),
    {
        slots_insert(&mut self.slots, channel_id, WebhookSlot::Ready(webhook));
    }

    /// Gives up the claim on a channel after provisioning failed, so that the
    /// next request provisions again.
    pub fn release(&mut self, channel_id: u64)
        ensures
            final(self).slots() == after_release(old(self).slots(), channel_id),
    {
        match slots_remove(&mut self.slots, channel_id) {
            Some(WebhookSlot::Ready(webhook)) => {
                slots_insert(&mut self.slots, channel_id, WebhookSlot::Ready(webhook));
                assert(self.slots() =~= old(self).slots());
            },
            Some(WebhookSlot::Claimed) => {},
            None => {
                assert(self.slots() =~= old(self).slots());
            },
        }
    }

    /// The id of the live endpoint of the channel, if one is cached.
    pub fn cached_id(&mut self, channel_id: u64) -> (id: Option<u64>)
        ensures
            final(self).slots() == old(self).slots(),
            id == match claim_answer(old(self).slots(), channel_id) {
                ClaimView::Ready(webhook) => Some(webhook.id),
                _ => None,
            },
    {
        match slots_remove(&mut self.slots, channel_id) {
            Some(slot) => {
                let id = match &slot {
                    WebhookSlot::Ready(webhook) => Some(webhook.id),
                    WebhookSlot::Claimed => None,
                };
                slots_insert(&mut self.slots, channel_id, slot);
                assert(self.slots() =~= old(self).slots());
                id
            },
            None => {
                assert(self.slots() =~= old(self).slots());
                None
            },
        }
    }
}

/// Asks for the endpoint of a channel. A cached endpoint is handed out; a
/// channel without a slot is claimed for the caller, who must provision; a
/// channel that someone else has claimed is reported busy.
pub fn get(cache: &mut WebhookCache, channel_id: u64) -> (claim: WebhookClaim)
    ensures
        claim.deep_view() == claim_answer(old(cache).slots(), channel_id),
        final(cache).slots() == after_claim(old(cache).slots(), channel_id),
{
    match slots_remove(&mut cache.slots, channel_id) {
        Some(WebhookSlot::Ready(webhook)) => {
            let copy = webhook.duplicate();
            slots_insert(&mut cache.slots, channel_id, WebhookSlot::Ready(webhook));
            assert(cache.slots() =~= old(cache).slots());
            WebhookClaim::Ready(copy)
        },
        Some(WebhookSlot::Claimed) => {
            slots_insert(&mut cache.slots, channel_id, WebhookSlot::Claimed);
            assert(cache.slots() =~= old(cache).slots());
            WebhookClaim::Busy
        },
        None => {
            slots_insert(&mut cache.slots, channel_id, WebhookSlot::Claimed);
            assert(cache.slots() =~= old(cache).slots().insert(channel_id, SlotView::Claimed));
            WebhookClaim::Provision
        },
    }
}

/// Drops the cached endpoint of a channel if the platform's listing, given by
/// the ids it shows, no longer has it. Returns whether the endpoint was
/// dropped.
pub fn update(cache: &mut WebhookCache, channel_id: u64, listed_ids: &Vec<u64>) -> (evicted: bool)
    ensures
        evicted == endpoint_missing(old(cache).slots(), channel_id, listed_ids@),
        final(cache).slots() == after_validation(old(cache).slots(), channel_id, listed_ids@),
{
    match slots_remove(&mut cache.slots, channel_id) {
        Some(WebhookSlot::Ready(webhook)) => {
            if contains_id(listed_ids, webhook.id) {
                slots_insert(&mut cache.slots, channel_id, WebhookSlot::Ready(webhook));
                assert(cache.slots() =~= old(cache).slots());
                false
            } else {
                true
            }
        },
        Some(WebhookSlot::Claimed) => {
            slots_insert(&mut cache.slots, channel_id, WebhookSlot::Claimed);
            assert(cache.slots() =~= old(cache).slots());
            false
        },
        None => {
            assert(cache.slots() =~= old(cache).slots());
            false
        },
    }
}

} // verus!
