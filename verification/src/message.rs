//! Lightweight snapshots of chat messages, as the caches hold them.

use vstd::prelude::*;
use crate::errors::CustomError;

verus! {

/// The longest text, in characters, that the platform lets the engine post.
pub const MAX_CONTENT_CHARS: usize = 2000;

/// What of a message can be replayed.
#[derive(Debug)]
pub enum MessageContent {
    /// Plain text and embeds, both of which can be posted again as they are.
    Valid { text: String, embeds: Vec<String> },
    /// The message carries something that cannot be posted again faithfully,
    /// such as interactive components.
    Unrepresentable,
}

/// A file that came with a message.
#[derive(Debug)]
pub struct Attachment {
    pub id: u64,
    pub filename: String,
    /// Where the platform serves the file from.
    pub url: String,
    /// The alternative text, where one was given.
    pub description: Option<String>,
}

/// The mathematical value of an `Attachment`.
pub struct AttachmentView {
    pub id: u64,
    pub filename: Seq<char>,
    pub url: Seq<char>,
    pub description: Option<Seq<char>>,
}

impl DeepView for Attachment {
    type V = AttachmentView;

    open spec fn deep_view(&self) -> AttachmentView {
        AttachmentView {
            id: self.id,
            filename: self.filename@,
            url: self.url@,
            description: self.description.deep_view(),
        }
    }
}

/// A snapshot of one message.
#[derive(Debug)]
pub struct CachedMessage {
    /// Unique within the channel.
    pub id: u64,
    pub channel_id: u64,
    pub author_id: u64,
    pub content: MessageContent,
    /// The files the message was created with. Updates never change them.
    pub attachments: Vec<Attachment>,
    /// The author's account name.
    pub username: String,
    /// The author's nickname in this community, where one is set.
    pub nickname: Option<String>,
    /// Hash of the avatar the author set for this community.
    pub member_avatar: Option<String>,
    /// Hash of the author's account avatar.
    pub user_avatar: Option<String>,
    /// The community the message was posted in.
    pub guild_id: Option<u64>,
    /// True when an impersonation endpoint posted the message.
    pub from_webhook: bool,
    /// Creation time in seconds since the Unix epoch.
    pub timestamp: u64,
}

/// The mathematical value of a `MessageContent`.
pub enum ContentView {
    Valid { text: Seq<char>, embeds: Seq<Seq<char>> },
    Unrepresentable,
}

/// The mathematical value of a `CachedMessage`.
pub struct MessageView {
    pub id: u64,
    pub channel_id: u64,
    pub author_id: u64,
    pub content: ContentView,
    pub attachments: Seq<AttachmentView>,
    pub username: Seq<char>,
    pub nickname: Option<Seq<char>>,
    pub member_avatar: Option<Seq<char>>,
    pub user_avatar: Option<Seq<char>>,
    pub guild_id: Option<u64>,
    pub from_webhook: bool,
    pub timestamp: u64,
}

impl DeepView for MessageContent {
    type V = ContentView;

    open spec fn deep_view(&self) -> ContentView {
        match self {
            MessageContent::Valid { text, embeds } => ContentView::Valid {
                text: text@,
                embeds: embeds.deep_view(),
            },
            MessageContent::Unrepresentable => ContentView::Unrepresentable,
        }
    }
}

impl DeepView for CachedMessage {
    type V = MessageView;

    open spec fn deep_view(&self) -> MessageView {
        MessageView {
            id: self.id,
            channel_id: self.channel_id,
            author_id: self.author_id,
            content: self.content.deep_view(),
            attachments: self.attachments.deep_view(),
            username: self.username@,
            nickname: self.nickname.deep_view(),
            member_avatar: self.member_avatar.deep_view(),
            user_avatar: self.user_avatar.deep_view(),
            guild_id: self.guild_id,
            from_webhook: self.from_webhook,
            timestamp: self.timestamp,
        }
    }
}

/// The changed parts that an update event carries.
#[derive(Debug)]
pub struct MessageUpdate {
    pub id: u64,
    pub channel_id: u64,
    pub text: Option<String>,
    pub embeds: Option<Vec<String>>,
}

/// The traits of a platform message that decide whether it can be recreated.
#[derive(Clone, Copy, Debug)]
pub struct MessageTraits {
    pub has_activity: bool,
    pub has_application: bool,
    pub has_application_id: bool,
    pub has_components: bool,
    pub regular_or_reply: bool,
    pub pinned: bool,
    pub from_webhook: bool,
}

impl ContentView {
    /// The content after an update with the given parts: a missing part keeps
    /// what was there, and content that could not be replayed stays so.
    pub open spec fn updated(self, text: Option<Seq<char>>, embeds: Option<Seq<Seq<char>>>) -> ContentView {
        match self {
            ContentView::Valid { text: old_text, embeds: old_embeds } => ContentView::Valid {
                text: match text {
                    Some(t) => t,
                    None => old_text,
                },
                embeds: match embeds {
                    Some(e) => e,
                    None => old_embeds,
                },
            },
            ContentView::Unrepresentable => ContentView::Unrepresentable,
        }
    }

    /// True when there is something to post: text or at least one embed.
    pub open spec fn reproducible(self) -> bool {
        match self {
            ContentView::Valid { text, embeds } => text.len() > 0 || embeds.len() > 0,
            ContentView::Unrepresentable => false,
        }
    }
}

impl MessageView {
    /// True when there is something to post: text, an embed or a file.
    pub open spec fn reproducible(self) -> bool {
        self.content.reproducible() || self.attachments.len() > 0
    }

    /// The snapshot with the parts of an update applied; everything but the
    /// content is kept.
    pub open spec fn with_update(self, text: Option<Seq<char>>, embeds: Option<Seq<Seq<char>>>) -> MessageView {
        MessageView { content: self.content.updated(text, embeds), ..self }
    }
}

impl MessageContent {
    /// Applies the parts of an update.
    pub fn update(self, text: Option<String>, embeds: Option<Vec<String>>) -> (content: MessageContent)
        ensures
            content.deep_view() == self.deep_view().updated(text.deep_view(), embeds.deep_view()),
    {
        match self {
            MessageContent::Valid { text: old_text, embeds: old_embeds } => MessageContent::Valid {
                text: match text {
                    Some(t) => t,
                    None => old_text,
                },
                embeds: match embeds {
                    Some(e) => e,
                    None => old_embeds,
                },
            },
            MessageContent::Unrepresentable => MessageContent::Unrepresentable,
        }
    }

    /// Tells whether there is something to post.
    pub fn is_reproducible(&self) -> (yes: bool)
        ensures
            yes == self.deep_view().reproducible(),
    {
        match self {
            MessageContent::Valid { text, embeds } => {
                text.as_str().unicode_len() > 0 || embeds.len() > 0
            },
            MessageContent::Unrepresentable => false,
        }
    }

    /// A copy of the content.
    pub fn duplicate(&self) -> (copy: MessageContent)
        ensures
            copy.deep_view() == self.deep_view(),
    {
        match self {
            MessageContent::Valid { text, embeds } => {
                let copied = duplicate_strings(embeds);
                MessageContent::Valid { text: text.clone(), embeds: copied }
            },
            MessageContent::Unrepresentable => MessageContent::Unrepresentable,
        }
    }
}

/// A copy of a list of strings.
pub fn duplicate_strings(items: &Vec<String>) -> (copy: Vec<String>)
    ensures
        copy.deep_view() == items.deep_view(),
{
    let mut copy: Vec<String> = Vec::new();
    let mut i: usize = 0;
    while i < items.len()
        invariant
            i <= items.len(),
            copy@.len() == i,
            forall|j: int| 0 <= j < i ==> copy@[j]@ == items@[j]@,
        decreases items.len() - i,
    {
        copy.push(items[i].clone());
        i += 1;
    }
    assert(copy.deep_view() =~= items.deep_view());
    copy
}

/// A copy of a list of attachments.
pub fn duplicate_attachments(items: &Vec<Attachment>) -> (copy: Vec<Attachment>)
    ensures
        copy.deep_view() == items.deep_view(),
{
    let mut copy: Vec<Attachment> = Vec::new();
    let mut i: usize = 0;
    while i < items.len()
        invariant
            i <= items.len(),
            copy@.len() == i,
            forall|j: int| 0 <= j < i ==> (#[trigger] copy@[j]).deep_view() == items@[j].deep_view(),
        decreases items.len() - i,
    {
        let item = &items[i];
        copy.push(
            Attachment {
                id: item.id,
                filename: item.filename.clone(),
                url: item.url.clone(),
                description: duplicate_opt(&item.description),
            },
        );
        i += 1;
    }
    assert(copy.deep_view() =~= items.deep_view());
    copy
}

/// A copy of an optional string.
pub fn duplicate_opt(item: &Option<String>) -> (copy: Option<String>)
    ensures
        copy.deep_view() == item.deep_view(),
{
    match item {
        Some(s) => Some(s.clone()),
        None => None,
    }
}

impl CachedMessage {
    /// Tells whether there is something to post: text, an embed or a file.
    pub fn is_reproducible(&self) -> (yes: bool)
        ensures
            yes == self.deep_view().reproducible(),
    {
        self.content.is_reproducible() || self.attachments.len() > 0
    }

    /// A copy of the snapshot.
    pub fn duplicate(&self) -> (copy: CachedMessage)
        ensures
            copy.deep_view() == self.deep_view(),
    {
        CachedMessage {
            id: self.id,
            channel_id: self.channel_id,
            author_id: self.author_id,
            content: self.content.duplicate(),
            attachments: duplicate_attachments(&self.attachments),
            username: self.username.clone(),
            nickname: duplicate_opt(&self.nickname),
            member_avatar: duplicate_opt(&self.member_avatar),
            user_avatar: duplicate_opt(&self.user_avatar),
            guild_id: self.guild_id,
            from_webhook: self.from_webhook,
            timestamp: self.timestamp,
        }
    }

    /// The snapshot with the parts of an update applied.
    pub fn apply_update(self, text: Option<String>, embeds: Option<Vec<String>>) -> (updated: CachedMessage)
        ensures
            updated.deep_view() == self.deep_view().with_update(text.deep_view(), embeds.deep_view()),
    {
        CachedMessage {
            id: self.id,
            channel_id: self.channel_id,
            author_id: self.author_id,
            content: self.content.update(text, embeds),
            attachments: self.attachments,
            username: self.username,
            nickname: self.nickname,
            member_avatar: self.member_avatar,
            user_avatar: self.user_avatar,
            guild_id: self.guild_id,
            from_webhook: self.from_webhook,
            timestamp: self.timestamp,
        }
    }
}

impl MessageTraits {
    /// True when the message has a trait that the engine cannot recreate.
    pub open spec fn weird(self) -> bool {
        self.has_activity || self.has_application || self.has_application_id
            || self.has_components || !self.regular_or_reply || self.pinned || self.from_webhook
    }
}

/// Says whether a message has a trait that the engine cannot recreate: an
/// activity, an application, components, a kind other than a plain message or
/// a reply, a pin, or an impersonation endpoint as its author.
pub fn message_is_weird(traits: &MessageTraits) -> (weird: bool)
    ensures
        weird == traits.weird(),
{
    traits.has_activity || traits.has_application || traits.has_application_id
        || traits.has_components || !traits.regular_or_reply || traits.pinned
        || traits.from_webhook
}

/// The classification of a platform message's content from its traits.
pub fn classify_content(traits: &MessageTraits, text: String, embeds: Vec<String>) -> (content:
    MessageContent)
    ensures
        content.deep_view() == if traits.weird() && !traits.from_webhook {
            ContentView::Unrepresentable
        } else {
            (ContentView::Valid { text: text@, embeds: embeds.deep_view() })
        },
{
    if message_is_weird(traits) && !traits.from_webhook {
        MessageContent::Unrepresentable
    } else {
        MessageContent::Valid { text, embeds }
    }
}

/// What `check` answers for a message.
pub open spec fn check_spec(message: MessageView) -> Result<(), CustomError> {
    match message.content {
        ContentView::Unrepresentable => Err(CustomError::MessageUnrepresentable),
        ContentView::Valid { text, embeds } => if text.len() > MAX_CONTENT_CHARS {
            Err(CustomError::MessageTooLong)
        } else {
            Ok(())
        },
    }
}

/// Validates that a message can be replayed faithfully: content that cannot
/// be represented and text beyond the platform's limit are rejected.
pub fn check(message: &CachedMessage) -> (verdict: Result<(), CustomError>)
    ensures
        verdict == check_spec(message.deep_view()),
{
    match &message.content {
        MessageContent::Unrepresentable => Err(CustomError::MessageUnrepresentable),
        MessageContent::Valid { text, embeds } => {
            if text.as_str().unicode_len() > MAX_CONTENT_CHARS {
                Err(CustomError::MessageTooLong)
            } else {
                Ok(())
            }
        },
    }
}

} // verus!
