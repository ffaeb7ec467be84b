//! The decisions of a move that need no state: what the engine is allowed
//! to do, which messages a move covers, what is posted for each of them and
//! how the originals are removed.

use vstd::prelude::*;
use vstd::string::StringExecFns;
use crate::errors::CustomError;
use crate::message::{
    check, check_spec, duplicate_attachments, duplicate_opt, duplicate_strings, Attachment,
    AttachmentView, CachedMessage, ContentView, MessageContent, MessageView,
};
use crate::shims::channel_kind_is_thread;
use crate::text::{format_member_avatar_url, format_user_avatar_url, member_avatar_url, user_avatar_url};

verus! {

pub const VIEW_CHANNEL: u64 = 0x400;

pub const SEND_MESSAGES: u64 = 0x800;

pub const MANAGE_MESSAGES: u64 = 0x2000;

pub const READ_MESSAGE_HISTORY: u64 = 0x1_0000;

pub const MANAGE_WEBHOOKS: u64 = 0x2000_0000;

pub const SEND_MESSAGES_IN_THREADS: u64 = 0x40_0000_0000;

/// What the engine needs in a channel it moves messages out of or into:
/// manage webhooks, view channel, manage messages, read message history.
pub const REQUIRED_PERMISSIONS: u64 = 0x2001_2400;

/// What the engine needs wherever it is asked to move the newest messages:
/// manage messages, view channel, send messages.
pub const COMMAND_PERMISSIONS: u64 = 0x2C00;

/// The most messages one move covers.
pub const MAX_MESSAGES: usize = 50;

/// The age, in seconds, beyond which a message cannot be moved: two weeks.
pub const MAX_AGE_SECONDS: u64 = 1_209_600;

/// The pause, in seconds, between two posts of one move.
pub const SEND_DELAY_SECONDS: u64 = 1;

/// True when the permission set `bits` holds every permission of `required`.
pub open spec fn holds(bits: u64, required: u64) -> bool {
    bits & required == required
}

/// Tells whether a permission set holds every permission of `required`.
pub fn contains(bits: u64, required: u64) -> (yes: bool)
    ensures
        yes == holds(bits, required),
{
    bits & required == required
}

/// Tells whether the engine has what it needs to move the newest messages:
/// manage messages, view channel and send messages where it was asked, and
/// manage webhooks in the destination.
pub fn has_perms(app_permissions: u64, target_channel_permissions: u64) -> (yes: bool)
    ensures
        yes == (holds(app_permissions, COMMAND_PERMISSIONS) && holds(
            target_channel_permissions,
            MANAGE_WEBHOOKS,
        )),
{
    contains(app_permissions, COMMAND_PERMISSIONS) && contains(
        target_channel_permissions,
        MANAGE_WEBHOOKS,
    )
}

/// Tells whether the person who asked may move other people's messages
/// without asking them.
pub fn has_override(initiator_permissions: u64) -> (yes: bool)
    ensures
        yes == holds(initiator_permissions, MANAGE_MESSAGES),
{
    contains(initiator_permissions, MANAGE_MESSAGES)
}

/// True for the channel kinds that are threads.
pub open spec fn is_thread_kind(kind: u8) -> bool {
    kind == 10 || kind == 11 || kind == 12
}

/// The permission that lets a member post in a channel of the given kind.
pub fn required_send_permission(kind: u8) -> (permission: u64)
    ensures
        permission == if is_thread_kind(kind) {
            SEND_MESSAGES_IN_THREADS
        } else {
            SEND_MESSAGES
        },
{
    if channel_kind_is_thread(kind) {
        SEND_MESSAGES_IN_THREADS
    } else {
        SEND_MESSAGES
    }
}

/// The destination of a move as the platform describes it.
#[derive(Clone, Copy, Debug)]
pub struct Destination {
    pub id: u64,
    pub kind: u8,
    /// The channel a thread belongs to.
    pub parent_id: Option<u64>,
}

/// Where the engine posts for a destination.
#[derive(Clone, Copy, Debug, PartialEq, Eq, Structural)]
pub struct PostTarget {
    /// The channel that owns the endpoint.
    pub channel_id: u64,
    /// The thread to post into, where the destination is one.
    pub thread_id: Option<u64>,
}

/// Where to post for a destination: endpoints belong to channels, so a
/// thread is reached through the endpoint of its parent. `None` where a
/// thread comes without a parent.
pub open spec fn post_target_of(destination: Destination) -> Option<PostTarget> {
    if is_thread_kind(destination.kind) {
        match destination.parent_id {
            Some(parent) => Some(PostTarget { channel_id: parent, thread_id: Some(destination.id) }),
            None => None,
        }
    } else {
        Some(PostTarget { channel_id: destination.id, thread_id: None })
    }
}

/// Resolves where to post for a destination.
pub fn post_target(destination: &Destination) -> (target: Option<PostTarget>)
    ensures
        target == post_target_of(*destination),
{
    if channel_kind_is_thread(destination.kind) {
        match destination.parent_id {
            Some(parent) => Some(PostTarget { channel_id: parent, thread_id: Some(destination.id) }),
            None => None,
        }
    } else {
        Some(PostTarget { channel_id: destination.id, thread_id: None })
    }
}

/// What the permission evaluator found for one move.
#[derive(Clone, Copy, Debug)]
pub struct Permissions {
    /// The engine's permissions in the source channel.
    pub engine_in_source: u64,
    /// The engine's permissions in the channel that owns the endpoint.
    pub engine_in_destination: u64,
    /// The initiator's permissions in the destination.
    pub initiator_in_destination: u64,
}

/// The verdict on the permissions of a move.
pub open spec fn permission_verdict(permissions: Permissions, kind: u8) -> Result<(), CustomError> {
    if !holds(permissions.engine_in_source, REQUIRED_PERMISSIONS) || !holds(
        permissions.engine_in_destination,
        REQUIRED_PERMISSIONS,
    ) {
        Err(CustomError::EnginePermissionsMissing)
    } else if !holds(
        permissions.initiator_in_destination,
        if is_thread_kind(kind) {
            SEND_MESSAGES_IN_THREADS
        } else {
            SEND_MESSAGES
        },
    ) {
        Err(CustomError::SendMessagesPermissionMissing)
    } else {
        Ok(())
    }
}

/// Checks that the engine has its required permissions in both channels and
/// that the initiator may post in the destination.
pub fn check_permissions(permissions: &Permissions, kind: u8) -> (verdict: Result<(), CustomError>)
    ensures
        verdict == permission_verdict(*permissions, kind),
{
    if !contains(permissions.engine_in_source, REQUIRED_PERMISSIONS) || !contains(
        permissions.engine_in_destination,
        REQUIRED_PERMISSIONS,
    ) {
        Err(CustomError::EnginePermissionsMissing)
    } else if !contains(permissions.initiator_in_destination, required_send_permission(kind)) {
        Err(CustomError::SendMessagesPermissionMissing)
    } else {
        Ok(())
    }
}

/// The messages of a move from oldest to newest: the triggering message,
/// then the messages after it, which the platform lists newest first.
pub open spec fn target_set(trigger: MessageView, following: Seq<MessageView>) -> Seq<MessageView> {
    seq![trigger] + following.reverse()
}

/// Puts the messages of a move in order, oldest first.
pub fn assemble_targets(trigger: CachedMessage, following: Vec<CachedMessage>) -> (targets: Vec<
    CachedMessage,
>)
    ensures
        targets.deep_view() == target_set(trigger.deep_view(), following.deep_view()),
{
    let mut rest = following;
    let mut targets: Vec<CachedMessage> = Vec::new();
    let ghost all = following.deep_view();
    targets.push(trigger);
    loop
        invariant
            rest@.len() <= all.len(),
            rest.deep_view() == all.take(rest@.len() as int),
            targets@.len() == 1 + all.len() - rest@.len(),
            targets@[0].deep_view() == trigger.deep_view(),
            forall|j: int|
                1 <= j < targets@.len() ==> (#[trigger] targets@[j]).deep_view() == all[all.len() - j],
        ensures
            rest@.len() == 0,
        decreases rest@.len(),
    {
        let ghost before = rest.deep_view();
        match rest.pop() {
            Some(message) => {
                assert(message.deep_view() == before[before.len() - 1]);
                targets.push(message);
                assert(rest.deep_view() =~= all.take(rest@.len() as int));
            },
            None => {
                break ;
            },
        }
    }
    assert(targets.deep_view() =~= target_set(trigger.deep_view(), all));
    targets
}

/// Tells whether to ask the platform for another page of the messages that
/// follow the triggering one: not once the last page came back empty, and
/// not once more than the ceiling have been collected, since such a move is
/// turned down anyway.
pub fn wants_more(collected: usize, last_page: usize) -> (more: bool)
    ensures
        more == (last_page > 0 && collected <= MAX_MESSAGES),
{
    last_page > 0 && collected <= MAX_MESSAGES
}

/// True when the message is older than the age ceiling at time `now`.
pub open spec fn too_old(message: MessageView, now: u64) -> bool {
    now - message.timestamp > MAX_AGE_SECONDS
}

/// True when `i` is the place of the first message that `check` rejects.
pub open spec fn first_rejected(targets: Seq<MessageView>, i: int) -> bool {
    &&& 0 <= i < targets.len()
    &&& check_spec(targets[i]).is_err()
    &&& forall|j: int| 0 <= j < i ==> check_spec(#[trigger] targets[j]).is_ok()
}

/// True when `verdict` is the right answer for a target set: too many
/// messages come first, then a message beyond the age ceiling, then the
/// first message that cannot be replayed.
pub open spec fn is_verdict(targets: Seq<MessageView>, now: u64, verdict: Result<(), CustomError>) -> bool {
    if targets.len() > MAX_MESSAGES {
        verdict == Err::<(), CustomError>(CustomError::TooManyMessages)
    } else if exists|i: int| 0 <= i < targets.len() && too_old(#[trigger] targets[i], now) {
        verdict == Err::<(), CustomError>(CustomError::MessageTooOld)
    } else if exists|i: int| first_rejected(targets, i) {
        exists|i: int| first_rejected(targets, i) && verdict == check_spec(targets[i])
    } else {
        verdict.is_ok()
    }
}

/// Validates the target set of a move before anything is changed.
pub fn validate_targets(targets: &Vec<CachedMessage>, now: u64) -> (verdict: Result<(), CustomError>)
    ensures
        is_verdict(targets.deep_view(), now, verdict),
        verdict.is_ok() ==> forall|i: int|
            0 <= i < targets@.len() ==> check_spec(#[trigger] targets.deep_view()[i]).is_ok(),
{
    let ghost views = targets.deep_view();
    if targets.len() > MAX_MESSAGES {
        return Err(CustomError::TooManyMessages);
    }
    let mut i: usize = 0;
    while i < targets.len()
        invariant
            i <= targets.len(),
            targets.len() <= MAX_MESSAGES,
            views == targets.deep_view(),
            forall|j: int| 0 <= j < i ==> !too_old(#[trigger] views[j], now),
        decreases targets.len() - i,
    {
        let stamp = targets[i].timestamp;
        if now > stamp && now - stamp > MAX_AGE_SECONDS {
            assert(too_old(views[i as int], now));
            return Err(CustomError::MessageTooOld);
        }
        i += 1;
    }
    let mut k: usize = 0;
    while k < targets.len()
        invariant
            k <= targets.len(),
            targets.len() <= MAX_MESSAGES,
            views == targets.deep_view(),
            forall|j: int| 0 <= j < views.len() ==> !too_old(#[trigger] views[j], now),
            forall|j: int| 0 <= j < k ==> check_spec(#[trigger] views[j]).is_ok(),
        decreases targets.len() - k,
    {
        let verdict = check(&targets[k]);
        if verdict.is_err() {
            assert(first_rejected(views, k as int));
            return verdict;
        }
        k += 1;
    }
    assert forall|i: int| !first_rejected(views, i) by {}
    Ok(())
}

/// One post of a move.
#[derive(Debug)]
pub struct Replica {
    /// The message this post recreates.
    pub source_id: u64,
    pub text: String,
    pub embeds: Vec<String>,
    /// The files of the message, carried over as they are.
    pub attachments: Vec<Attachment>,
    /// The name the post is shown under.
    pub username: String,
    /// The avatar the post is shown with; the platform's default where absent.
    pub avatar_url: Option<String>,
}

/// The mathematical value of a `Replica`.
pub struct ReplicaView {
    pub source_id: u64,
    pub text: Seq<char>,
    pub embeds: Seq<Seq<char>>,
    pub attachments: Seq<AttachmentView>,
    pub username: Seq<char>,
    pub avatar_url: Option<Seq<char>>,
}

impl DeepView for Replica {
    type V = ReplicaView;

    open spec fn deep_view(&self) -> ReplicaView {
        ReplicaView {
            source_id: self.source_id,
            text: self.text@,
            embeds: self.embeds.deep_view(),
            attachments: self.attachments.deep_view(),
            username: self.username@,
            avatar_url: self.avatar_url.deep_view(),
        }
    }
}

impl Replica {
    /// A copy of the post.
    pub fn duplicate(&self) -> (copy: Replica)
        ensures
            copy.deep_view() == self.deep_view(),
    {
        Replica {
            source_id: self.source_id,
            text: self.text.clone(),
            embeds: duplicate_strings(&self.embeds),
            attachments: duplicate_attachments(&self.attachments),
            username: self.username.clone(),
            avatar_url: duplicate_opt(&self.avatar_url),
        }
    }
}

/// The name a message is reposted under: the author's nickname in the
/// community where one is set, else the account name.
pub open spec fn display_name(message: MessageView) -> Seq<char> {
    match message.nickname {
        Some(nick) => nick,
        None => message.username,
    }
}

/// The avatar a message is reposted with: the one the author set for the
/// community, else the account's, else none.
pub open spec fn avatar_address(message: MessageView) -> Option<Seq<char>> {
    if message.member_avatar.is_some() && message.guild_id.is_some() {
        Some(
            member_avatar_url(
                message.guild_id.unwrap(),
                message.author_id,
                message.member_avatar.unwrap(),
            ),
        )
    } else if message.user_avatar.is_some() {
        Some(user_avatar_url(message.author_id, message.user_avatar.unwrap()))
    } else {
        None
    }
}

/// True when a message is reposted: it was not posted by an impersonation
/// endpoint, and it has text, an embed or a file.
pub open spec fn sendable(message: MessageView) -> bool {
    !message.from_webhook && message.reproducible()
}

/// The post that recreates a message.
pub open spec fn replica_of(message: MessageView) -> ReplicaView {
    ReplicaView {
        source_id: message.id,
        text: match message.content {
            ContentView::Valid { text, embeds } => text,
            ContentView::Unrepresentable => Seq::empty(),
        },
        embeds: match message.content {
            ContentView::Valid { text, embeds } => embeds,
            ContentView::Unrepresentable => Seq::empty(),
        },
        attachments: message.attachments,
        username: display_name(message),
        avatar_url: avatar_address(message),
    }
}

/// The posts of a move, in the order of its messages.
pub open spec fn replicas_of(messages: Seq<MessageView>) -> Seq<ReplicaView>
    decreases messages.len(),
{
    if messages.len() == 0 {
        Seq::empty()
    } else if sendable(messages.last()) {
        replicas_of(messages.drop_last()).push(replica_of(messages.last()))
    } else {
        replicas_of(messages.drop_last())
    }
}

/// Composes the post that recreates a message.
pub fn make_replica(message: &CachedMessage) -> (replica: Replica)
    ensures
        replica.deep_view() == replica_of(message.deep_view()),
{
    let username = match &message.nickname {
        Some(nick) => nick.clone(),
        None => message.username.clone(),
    };
    let avatar_url = match (&message.member_avatar, message.guild_id) {
        (Some(hash), Some(guild_id)) => Some(
            format_member_avatar_url(guild_id, message.author_id, hash),
        ),
        _ => match &message.user_avatar {
            Some(hash) => Some(format_user_avatar_url(message.author_id, hash)),
            None => None,
        },
    };
    match &message.content {
        MessageContent::Valid { text, embeds } => Replica {
            source_id: message.id,
            text: text.clone(),
            embeds: duplicate_strings(embeds),
            attachments: duplicate_attachments(&message.attachments),
            username,
            avatar_url,
        },
        MessageContent::Unrepresentable => {
            let embeds: Vec<String> = Vec::new();
            assert(embeds.deep_view() =~= Seq::<Seq<char>>::empty());
            Replica {
                source_id: message.id,
                text: String::new(),
                embeds,
                attachments: duplicate_attachments(&message.attachments),
                username,
                avatar_url,
            }
        },
    }
}

/// Plans the posts of a move: one per message that is reposted, oldest
/// first. Messages that an impersonation endpoint posted and messages
/// without text, embed or file are passed over.
pub fn make_webhooks(messages: &Vec<CachedMessage>) -> (replicas: Vec<Replica>)
    ensures
        replicas.deep_view() == replicas_of(messages.deep_view()),
{
    let mut replicas: Vec<Replica> = Vec::new();
    let ghost all = messages.deep_view();
    let mut i: usize = 0;
    assert(replicas.deep_view() =~= replicas_of(all.take(0)));
    while i < messages.len()
        invariant
            i <= messages.len(),
            all == messages.deep_view(),
            replicas.deep_view() == replicas_of(all.take(i as int)),
        decreases messages.len() - i,
    {
        let message = &messages[i];
        let ghost before = replicas.deep_view();
        proof {
            assert(all.take(i + 1).drop_last() =~= all.take(i as int));
            assert(all.take(i + 1).last() == message.deep_view());
        }
        if !message.from_webhook && message.is_reproducible() {
            replicas.push(make_replica(message));
            assert(replicas.deep_view() =~= before.push(replica_of(message.deep_view())));
        }
        i += 1;
    }
    assert(all.take(messages.len() as int) =~= all);
    replicas
}

/// How the originals of a move are removed.
#[derive(Debug)]
pub enum DeleteOp {
    /// There is nothing to remove.
    Nothing,
    /// Remove one message with the single-delete operation.
    Single { channel_id: u64, message_id: u64 },
    /// Remove the messages with one bulk-delete operation.
    Bulk { channel_id: u64, message_ids: Vec<u64> },
}

/// The mathematical value of a `DeleteOp`.
pub enum DeleteOpView {
    Nothing,
    Single { channel_id: u64, message_id: u64 },
    Bulk { channel_id: u64, message_ids: Seq<u64> },
}

impl DeepView for DeleteOp {
    type V = DeleteOpView;

    open spec fn deep_view(&self) -> DeleteOpView {
        match self {
            DeleteOp::Nothing => DeleteOpView::Nothing,
            DeleteOp::Single { channel_id, message_id } => DeleteOpView::Single {
                channel_id: *channel_id,
                message_id: *message_id,
            },
            DeleteOp::Bulk { channel_id, message_ids } => DeleteOpView::Bulk {
                channel_id: *channel_id,
                message_ids: message_ids@,
            },
        }
    }
}

/// The operation that removes the given messages: the single-delete
/// operation for exactly one message, one bulk-delete for more.
pub open spec fn delete_op_of(message_ids: Seq<u64>, channel_id: u64) -> DeleteOpView {
    if message_ids.len() == 0 {
        DeleteOpView::Nothing
    } else if message_ids.len() == 1 {
        DeleteOpView::Single { channel_id, message_id: message_ids[0] }
    } else {
        DeleteOpView::Bulk { channel_id, message_ids }
    }
}

/// Chooses the operation that removes the originals of a move.
pub fn delete_messages(message_ids: &Vec<u64>, channel_id: u64) -> (op: DeleteOp)
    ensures
        op.deep_view() == delete_op_of(message_ids@, channel_id),
{
    if message_ids.len() == 0 {
        DeleteOp::Nothing
    } else if message_ids.len() == 1 {
        DeleteOp::Single { channel_id, message_id: message_ids[0] }
    } else {
        let mut copy: Vec<u64> = Vec::new();
        let mut i: usize = 0;
        while i < message_ids.len()
            invariant
                i <= message_ids.len(),
                copy@ == message_ids@.take(i as int),
            decreases message_ids.len() - i,
        {
            copy.push(message_ids[i]);
            assert(copy@ =~= message_ids@.take(i + 1));
            i += 1;
        }
        assert(copy@ =~= message_ids@);
        DeleteOp::Bulk { channel_id, message_ids: copy }
    }
}

/// The progress note for a move of `count` messages.
pub open spec fn reply_text(count: nat) -> Seq<char> {
    if count <= 10 {
        "starting up the car :red_car:"@
    } else if count <= 20 {
        "starting up the truck :pickup_truck:"@
    } else if count <= 30 {
        "starting up the truck :truck:"@
    } else if count <= 40 {
        "starting up the lorry :articulated_lorry:"@
    } else {
        "starting up the ship :ship:"@
    }
}

/// Composes the progress note shown while a move of `count` messages runs.
pub fn reply_content(count: usize) -> (text: String)
    ensures
        text@ == reply_text(count as nat),
{
    if count <= 10 {
        String::from_str("starting up the car :red_car:")
    } else if count <= 20 {
        String::from_str("starting up the truck :pickup_truck:")
    } else if count <= 30 {
        String::from_str("starting up the truck :truck:")
    } else if count <= 40 {
        String::from_str("starting up the lorry :articulated_lorry:")
    } else {
        String::from_str("starting up the ship :ship:")
    }
}

} // verus!
