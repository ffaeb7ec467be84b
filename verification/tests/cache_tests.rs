use message_mover::cache::Cache;
use message_mover::message::{CachedMessage, MessageContent, MessageUpdate};

fn message(id: u64, channel_id: u64, author_id: u64, text: &str) -> CachedMessage {
    CachedMessage {
        id,
        channel_id,
        author_id,
        content: MessageContent::Valid { text: text.to_string(), embeds: Vec::new() },
        attachments: Vec::new(),
        username: format!("user{author_id}"),
        nickname: None,
        member_avatar: None,
        user_avatar: None,
        guild_id: Some(1),
        from_webhook: false,
        timestamp: 1_700_000_000 + id,
    }
}

fn ids(messages: &[CachedMessage]) -> Vec<u64> {
    messages.iter().map(|m| m.id).collect()
}

fn text_of(message: &CachedMessage) -> String {
    match &message.content {
        MessageContent::Valid { text, .. } => text.clone(),
        MessageContent::Unrepresentable => panic!("content is not representable"),
    }
}

#[test]
fn window_keeps_the_twenty_most_recent_of_twenty_five() {
    let mut cache = Cache::new(99);
    for id in 1..=25u64 {
        cache.add_message(message(id, 7, 1, "hi"));
    }
    let held = cache.get_messages(7).unwrap();
    assert_eq!(ids(&held), (6..=25u64).collect::<Vec<_>>());
}

#[test]
fn window_length_is_the_smaller_of_adds_and_capacity() {
    for n in [0u64, 1, 3, 4, 5, 9] {
        let mut cache = Cache::with_capacity(99, 4);
        cache.add_message(message(1000, 8, 1, "other channel"));
        for id in 1..=n {
            cache.add_message(message(id, 7, 1, "hi"));
        }
        match cache.get_messages(7) {
            None => assert_eq!(n, 0),
            Some(held) => {
                assert_eq!(held.len() as u64, n.min(4));
                let first = if n > 4 { n - 3 } else { 1 };
                assert_eq!(ids(&held), (first..=n).collect::<Vec<_>>());
            }
        }
    }
}

#[test]
fn repeated_delivery_of_a_create_event_is_ignored() {
    let mut cache = Cache::new(99);
    cache.add_message(message(1, 7, 1, "first"));
    cache.add_message(message(2, 7, 1, "second"));
    cache.add_message(message(1, 7, 1, "first again"));
    let held = cache.get_messages(7).unwrap();
    assert_eq!(ids(&held), vec![1, 2]);
    assert_eq!(text_of(&held[0]), "first");
}

#[test]
fn zero_capacity_keeps_nothing_but_opens_the_window() {
    let mut cache = Cache::with_capacity(99, 0);
    cache.add_message(message(1, 7, 1, "first"));
    assert_eq!(cache.get_messages(7).unwrap().len(), 0);
}

#[test]
fn query_tells_a_missing_window_from_a_short_one() {
    let mut cache = Cache::new(99);
    assert!(cache.query(7, 5).is_none());
    cache.add_message(message(1, 7, 1, "a"));
    cache.add_message(message(2, 7, 1, "b"));
    cache.add_message(message(3, 7, 1, "c"));
    let short = cache.query(7, 5).unwrap();
    assert_eq!(ids(&short), vec![3, 2, 1]);
    let limited = cache.query(7, 2).unwrap();
    assert_eq!(ids(&limited), vec![3, 2]);
    assert_eq!(cache.query(7, 0).unwrap().len(), 0);
    assert!(cache.query(8, 5).is_none());
}

#[test]
fn update_replaces_text_and_keeps_order() {
    let mut cache = Cache::new(99);
    cache.add_message(message(1, 7, 1, "a"));
    cache.add_message(message(2, 7, 1, "b"));
    cache.add_message(message(3, 7, 1, "c"));
    cache.update_message(MessageUpdate {
        id: 2,
        channel_id: 7,
        text: Some("edited".to_string()),
        embeds: None,
    });
    let held = cache.get_messages(7).unwrap();
    assert_eq!(ids(&held), vec![1, 2, 3]);
    assert_eq!(text_of(&held[0]), "a");
    assert_eq!(text_of(&held[1]), "edited");
    assert_eq!(text_of(&held[2]), "c");
}

#[test]
fn update_of_embeds_keeps_text() {
    let mut cache = Cache::new(99);
    cache.add_message(message(1, 7, 1, "a"));
    cache.update_message(MessageUpdate {
        id: 1,
        channel_id: 7,
        text: None,
        embeds: Some(vec!["{\"title\":\"t\"}".to_string()]),
    });
    let held = cache.get_messages(7).unwrap();
    match &held[0].content {
        MessageContent::Valid { text, embeds } => {
            assert_eq!(text, "a");
            assert_eq!(embeds, &vec!["{\"title\":\"t\"}".to_string()]);
        }
        MessageContent::Unrepresentable => panic!("content is not representable"),
    }
}

#[test]
fn update_of_unrepresentable_content_stays_unrepresentable() {
    let mut cache = Cache::new(99);
    let mut m = message(1, 7, 1, "");
    m.content = MessageContent::Unrepresentable;
    cache.add_message(m);
    cache.update_message(MessageUpdate {
        id: 1,
        channel_id: 7,
        text: Some("now text".to_string()),
        embeds: None,
    });
    let held = cache.get_messages(7).unwrap();
    assert!(matches!(held[0].content, MessageContent::Unrepresentable));
}

#[test]
fn changes_to_an_absent_id_are_ignored() {
    let mut cache = Cache::new(99);
    cache.add_message(message(1, 7, 1, "a"));
    cache.add_message(message(2, 7, 1, "b"));
    for _ in 0..2 {
        cache.update_message(MessageUpdate {
            id: 50,
            channel_id: 7,
            text: Some("x".to_string()),
            embeds: None,
        });
        cache.delete_message(50, 7);
        cache.delete_messages(&vec![50, 51], 7);
        cache.delete_message(1, 8);
        cache.update_message(MessageUpdate {
            id: 1,
            channel_id: 8,
            text: Some("x".to_string()),
            embeds: None,
        });
        let held = cache.get_messages(7).unwrap();
        assert_eq!(ids(&held), vec![1, 2]);
        assert_eq!(text_of(&held[0]), "a");
        assert_eq!(text_of(&held[1]), "b");
        assert!(cache.get_messages(8).is_none());
    }
}

#[test]
fn delete_removes_only_the_named_message() {
    let mut cache = Cache::new(99);
    for id in 1..=4u64 {
        cache.add_message(message(id, 7, 1, "m"));
    }
    cache.delete_message(2, 7);
    assert_eq!(ids(&cache.get_messages(7).unwrap()), vec![1, 3, 4]);
    cache.delete_message(2, 7);
    assert_eq!(ids(&cache.get_messages(7).unwrap()), vec![1, 3, 4]);
}

#[test]
fn bulk_delete_removes_the_named_messages_and_ignores_the_rest() {
    let mut cache = Cache::new(99);
    for id in 1..=6u64 {
        cache.add_message(message(id, 7, 1, "m"));
    }
    cache.delete_messages(&vec![5, 2, 40, 2], 7);
    assert_eq!(ids(&cache.get_messages(7).unwrap()), vec![1, 3, 4, 6]);
    cache.delete_messages(&vec![5, 2, 40, 2], 7);
    assert_eq!(ids(&cache.get_messages(7).unwrap()), vec![1, 3, 4, 6]);
    cache.delete_messages(&vec![1, 3, 4, 6], 7);
    assert_eq!(cache.get_messages(7).unwrap().len(), 0);
    assert!(cache.query(7, 3).is_some());
}

#[test]
fn a_deleted_id_can_arrive_again() {
    let mut cache = Cache::new(99);
    cache.add_message(message(1, 7, 1, "a"));
    cache.add_message(message(2, 7, 1, "b"));
    cache.delete_message(1, 7);
    cache.add_message(message(1, 7, 1, "again"));
    let held = cache.get_messages(7).unwrap();
    assert_eq!(ids(&held), vec![2, 1]);
    assert_eq!(text_of(&held[1]), "again");
}

#[test]
fn channels_do_not_share_windows() {
    let mut cache = Cache::new(99);
    cache.add_message(message(1, 7, 1, "a"));
    cache.add_message(message(1, 8, 1, "b"));
    cache.delete_message(1, 7);
    assert_eq!(cache.get_messages(7).unwrap().len(), 0);
    assert_eq!(ids(&cache.get_messages(8).unwrap()), vec![1]);
    assert_eq!(cache.user_id(), 99);
}
