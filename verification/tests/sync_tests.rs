use message_mover::cache::Cache;
use message_mover::commands::{
    handle as dispatch, Command, Dispatch, InteractionKind, MoveLastMessages,
};
use message_mover::errors::{err_reply, CustomError, Error, ErrorKind, Failure};
use message_mover::events::{handle, Event, SyncAction};
use message_mover::message::{CachedMessage, MessageContent, MessageUpdate};
use message_mover::webhooks::CachedWebhook;

fn message(id: u64, channel_id: u64) -> CachedMessage {
    CachedMessage {
        id,
        channel_id,
        author_id: 1,
        content: MessageContent::Valid { text: format!("m{id}"), embeds: Vec::new() },
        attachments: Vec::new(),
        username: "user".to_string(),
        nickname: None,
        member_avatar: None,
        user_avatar: None,
        guild_id: None,
        from_webhook: false,
        timestamp: 0,
    }
}

fn ids(cache: &Cache, channel_id: u64) -> Vec<u64> {
    cache.get_messages(channel_id).unwrap().iter().map(|m| m.id).collect()
}

#[test]
fn message_events_keep_the_window_current() {
    let mut cache = Cache::new(99);
    for id in 1..=4u64 {
        assert_eq!(handle(&mut cache, Event::MessageCreate(message(id, 7))), SyncAction::Nothing);
    }
    assert_eq!(ids(&cache, 7), vec![1, 2, 3, 4]);
    handle(
        &mut cache,
        Event::MessageUpdate(MessageUpdate {
            id: 3,
            channel_id: 7,
            text: Some("edited".to_string()),
            embeds: None,
        }),
    );
    handle(&mut cache, Event::MessageDelete { id: 1, channel_id: 7 });
    handle(&mut cache, Event::MessageDeleteBulk { ids: vec![2, 9], channel_id: 7 });
    handle(&mut cache, Event::Other);
    let held = cache.get_messages(7).unwrap();
    assert_eq!(held.len(), 2);
    assert_eq!(held[0].id, 3);
    assert!(matches!(&held[0].content, MessageContent::Valid { text, .. } if text == "edited"));
    assert_eq!(held[1].id, 4);
}

#[test]
fn update_before_create_is_dropped() {
    let mut cache = Cache::new(99);
    handle(
        &mut cache,
        Event::MessageUpdate(MessageUpdate {
            id: 3,
            channel_id: 7,
            text: Some("edited".to_string()),
            embeds: None,
        }),
    );
    assert!(cache.get_messages(7).is_none());
    handle(&mut cache, Event::MessageDelete { id: 3, channel_id: 7 });
    handle(&mut cache, Event::MessageDeleteBulk { ids: vec![3], channel_id: 7 });
    assert!(cache.get_messages(7).is_none());
}

#[test]
fn endpoint_changes_ask_for_a_listing_only_where_one_is_cached() {
    let mut cache = Cache::new(99);
    assert_eq!(handle(&mut cache, Event::WebhooksUpdate { channel_id: 5 }), SyncAction::Nothing);
    cache.get_webhook(5);
    assert_eq!(handle(&mut cache, Event::WebhooksUpdate { channel_id: 5 }), SyncAction::Nothing);
    cache.populate_webhook(5, CachedWebhook { id: 70, token: "t".to_string() });
    assert_eq!(
        handle(&mut cache, Event::WebhooksUpdate { channel_id: 5 }),
        SyncAction::ListWebhooks { channel_id: 5 }
    );
    assert_eq!(handle(&mut cache, Event::WebhooksUpdate { channel_id: 6 }), SyncAction::Nothing);
    assert_eq!(cache.cached_webhook_id(5), Some(70));
}

fn command(name: &str) -> Result<Dispatch, Error> {
    dispatch(InteractionKind::ApplicationCommand, &name.to_string())
}

#[test]
fn commands_are_found_by_name() {
    assert_eq!(command("move message"), Ok(Dispatch::Run(Command::MoveMessage)));
    assert_eq!(command("move"), Ok(Dispatch::Run(Command::MoveMessage)));
    assert_eq!(
        command("move this message and below"),
        Ok(Dispatch::Run(Command::MoveMessageAndBelow))
    );
    assert_eq!(command("move_last_messages"), Ok(Dispatch::Run(Command::MoveLastMessages)));
    assert_eq!(command("dance"), Err(Error::UnknownCommand("dance".to_string())));
    assert_eq!(command("agree"), Err(Error::UnknownCommand("agree".to_string())));
    assert_eq!(command(""), Err(Error::UnknownCommand(String::new())));
}

#[test]
fn presses_on_messages_are_left_alone() {
    for id in ["agree", "refuse", "move_channel", "move message", "anything", ""] {
        assert_eq!(
            dispatch(InteractionKind::MessageComponent, &id.to_string()),
            Ok(Dispatch::LeaveAlone)
        );
    }
}

#[test]
fn other_interactions_are_no_commands() {
    for name in ["move message", "agree", ""] {
        assert_eq!(dispatch(InteractionKind::Other, &name.to_string()), Err(Error::NotACommand));
    }
    assert_eq!(Error::NotACommand.message(), "interaction is not an application command");
}

#[test]
fn errors_have_their_texts() {
    assert_eq!(Error::UnknownCommand("dance".to_string()).message(), "unknown command: dance");
    assert_eq!(
        CustomError::ManageMessagesPermissionsMissing.message(),
        "you need **Manage Messages** permissions to move messages that are not your own"
    );
    assert_eq!(
        CustomError::SendMessagesPermissionMissing.message(),
        "you need **Send Messages** permissions in the channel you want to move the messages to"
    );
    assert_eq!(
        CustomError::MessageTooLong.message(),
        "one of the messages is too long, you're probably using your super nitro powers"
    );
    assert_eq!(
        CustomError::MessageAttachment.message(),
        "one of the messages has an image/file, this will be handled better in the future, sorry \
         for the inconvenience and stay tuned!"
    );
    assert_eq!(
        CustomError::TooManyMessages.message(),
        "i can work with up to 50 messages, if you need a higher limit, please join the support \
         server and tell lara"
    );
    assert_eq!(
        CustomError::MessageTooOld.message(),
        "i can't work with messages older than 2 weeks, if you need me to, please join the \
         support server and tell lara"
    );
    assert!(CustomError::EnginePermissionsMissing.message().contains("manage webhooks"));
    assert!(CustomError::MessageUnrepresentable.message().contains("can't recreate"));
    assert_eq!(CustomError::ManageMessagesPermissionsMissing.kind(), ErrorKind::PermissionDenied);
    assert_eq!(CustomError::SendMessagesPermissionMissing.kind(), ErrorKind::PermissionDenied);
    assert_eq!(CustomError::MessageAttachment.kind(), ErrorKind::UnrepresentableMessage);
}

#[test]
fn failures_without_explanation_get_the_apology() {
    let apology = "something went terribly wrong there... i spammed lara (the dev) with the error, \
                   im sure they'll look at it asap";
    assert_eq!(err_reply(&Failure::Upstream), apology);
    assert_eq!(err_reply(&Failure::Command(Error::UnknownCommand("x".to_string()))), apology);
    assert_eq!(
        err_reply(&Failure::Custom(CustomError::TooManyMessages)),
        CustomError::TooManyMessages.message()
    );
}

#[test]
fn message_count_must_be_between_one_and_twenty() {
    assert_eq!(MoveLastMessages::new(0, 5), None);
    assert_eq!(MoveLastMessages::new(-3, 5), None);
    assert_eq!(MoveLastMessages::new(21, 5), None);
    assert_eq!(MoveLastMessages::new(i64::MAX, 5), None);
    assert_eq!(MoveLastMessages::new(1, 5), Some(MoveLastMessages { message_count: 1, channel: 5 }));
    assert_eq!(
        MoveLastMessages::new(20, 5),
        Some(MoveLastMessages { message_count: 20, channel: 5 })
    );
}
