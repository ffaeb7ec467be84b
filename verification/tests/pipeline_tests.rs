use message_mover::cache::Cache;
use message_mover::consent::ConsentEvent;
use message_mover::errors::{CustomError, ErrorKind};
use message_mover::message::{
    check, classify_content, message_is_weird, Attachment, CachedMessage, MessageContent,
    MessageTraits, MessageUpdate,
};
use message_mover::pipeline::{
    get_messages, report_message, Migration, MoveRequest, PipelineAction, PipelineEvent, Report, Stage,
};
use message_mover::plan::{
    assemble_targets, check_permissions, contains, delete_messages, has_override, has_perms,
    make_replica, make_webhooks, post_target, reply_content, required_send_permission,
    validate_targets, wants_more, DeleteOp, Destination, Permissions, PostTarget, MANAGE_MESSAGES,
    MANAGE_WEBHOOKS, READ_MESSAGE_HISTORY, REQUIRED_PERMISSIONS, SEND_MESSAGES,
    SEND_MESSAGES_IN_THREADS, VIEW_CHANNEL,
};

const NOW: u64 = 1_700_000_000;

fn message(id: u64, author_id: u64, text: &str) -> CachedMessage {
    CachedMessage {
        id,
        channel_id: 7,
        author_id,
        content: MessageContent::Valid { text: text.to_string(), embeds: Vec::new() },
        attachments: Vec::new(),
        username: format!("user{author_id}"),
        nickname: None,
        member_avatar: None,
        user_avatar: None,
        guild_id: Some(900),
        from_webhook: false,
        timestamp: NOW - 60,
    }
}

fn all_permissions() -> Permissions {
    Permissions {
        engine_in_source: REQUIRED_PERMISSIONS,
        engine_in_destination: REQUIRED_PERMISSIONS | SEND_MESSAGES,
        initiator_in_destination: SEND_MESSAGES | SEND_MESSAGES_IN_THREADS,
    }
}

fn request(targets: Vec<CachedMessage>, initiator: u64) -> MoveRequest {
    MoveRequest {
        initiator,
        initiator_permissions: VIEW_CHANNEL | SEND_MESSAGES,
        permissions: all_permissions(),
        source_channel: 7,
        destination_kind: 0,
        target: PostTarget { channel_id: 8, thread_id: None },
        targets,
        now: NOW,
    }
}

fn agree(message_id: u64, user_id: u64) -> PipelineEvent {
    PipelineEvent::Answer(ConsentEvent::Agree { message_id, user_id })
}

fn refuse(message_id: u64, user_id: u64) -> PipelineEvent {
    PipelineEvent::Answer(ConsentEvent::Refuse { message_id, user_id })
}

fn expect_send(action: PipelineAction, source_id: u64, text: &str) {
    match action {
        PipelineAction::Send { target, replica } => {
            assert_eq!(target, PostTarget { channel_id: 8, thread_id: None });
            assert_eq!(replica.source_id, source_id);
            assert_eq!(replica.text, text);
        }
        other => panic!("expected a post of {source_id}, got {other:?}"),
    }
}

#[test]
fn three_authors_agree_then_three_posts_and_one_bulk_delete() {
    let targets = vec![message(1, 1, "one"), message(2, 2, "two"), message(3, 3, "three")];
    let (mut migration, first) = Migration::start(request(targets, 1)).unwrap();
    match first {
        PipelineAction::PostPrompt { content } => {
            assert!(content.ends_with("\n\n<@2>\n<@3>"));
        }
        other => panic!("expected the prompt, got {other:?}"),
    }
    assert_eq!(migration.stage(), Stage::Consent);
    assert_eq!(migration.session().pending_authors(), &vec![2, 3]);
    assert!(matches!(
        migration.step(PipelineEvent::PromptPosted { message_id: 500 }),
        PipelineAction::Wait
    ));
    match migration.step(agree(500, 2)) {
        PipelineAction::EditPrompt { content } => assert!(content.ends_with("\n\n<@3>")),
        other => panic!("expected a new prompt, got {other:?}"),
    }
    let mut singles = 0;
    let mut bulks = 0;
    let mut posts = Vec::new();
    let mut action = migration.step(agree(500, 3));
    loop {
        action = match action {
            PipelineAction::Send { replica, .. } => {
                posts.push(replica.source_id);
                migration.step(PipelineEvent::Sent)
            }
            PipelineAction::Pause { seconds } => {
                assert_eq!(seconds, 1);
                migration.step(PipelineEvent::Paused)
            }
            PipelineAction::Delete(DeleteOp::Bulk { channel_id, message_ids }) => {
                assert_eq!(posts, vec![1, 2, 3]);
                assert_eq!(channel_id, 7);
                assert_eq!(message_ids, vec![1, 2, 3]);
                bulks += 1;
                migration.step(PipelineEvent::Deleted)
            }
            PipelineAction::Delete(DeleteOp::Single { .. }) => {
                singles += 1;
                migration.step(PipelineEvent::Deleted)
            }
            PipelineAction::DeletePrompt { channel_id, message_id } => {
                assert_eq!((channel_id, message_id), (7, 500));
                assert_eq!(bulks, 1);
                migration.step(PipelineEvent::Deleted)
            }
            PipelineAction::Finish(report) => {
                assert_eq!(report, Report::Moved);
                break;
            }
            other => panic!("unexpected action {other:?}"),
        };
    }
    assert_eq!(posts, vec![1, 2, 3]);
    assert_eq!((singles, bulks), (0, 1));
    assert_eq!(migration.stage(), Stage::Done);
    assert_eq!(migration.report(), Report::Moved);
    assert_eq!(migration.sent(), 3);
}

#[test]
fn one_message_uses_the_single_delete() {
    let (mut migration, first) = Migration::start(request(vec![message(1, 1, "one")], 1)).unwrap();
    expect_send(first, 1, "one");
    match migration.step(PipelineEvent::Sent) {
        PipelineAction::Delete(DeleteOp::Single { channel_id, message_id }) => {
            assert_eq!((channel_id, message_id), (7, 1));
        }
        other => panic!("expected the single delete, got {other:?}"),
    }
    assert_eq!(migration.stage(), Stage::Deleting);
    assert!(matches!(
        migration.step(PipelineEvent::Deleted),
        PipelineAction::Finish(Report::Moved)
    ));
}

#[test]
fn one_foreign_message_still_uses_the_single_delete() {
    let (mut migration, first) = Migration::start(request(vec![message(1, 2, "one")], 1)).unwrap();
    assert!(matches!(first, PipelineAction::PostPrompt { .. }));
    migration.step(PipelineEvent::PromptPosted { message_id: 500 });
    expect_send(migration.step(agree(500, 2)), 1, "one");
    assert!(matches!(
        migration.step(PipelineEvent::Sent),
        PipelineAction::Delete(DeleteOp::Single { channel_id: 7, message_id: 1 })
    ));
    assert!(matches!(
        migration.step(PipelineEvent::Deleted),
        PipelineAction::DeletePrompt { channel_id: 7, message_id: 500 }
    ));
    assert!(matches!(
        migration.step(PipelineEvent::Deleted),
        PipelineAction::Finish(Report::Moved)
    ));
}

#[test]
fn refusal_removes_only_the_prompt() {
    let targets = vec![message(1, 1, "one"), message(2, 2, "two"), message(3, 3, "three")];
    let (mut migration, _) = Migration::start(request(targets, 1)).unwrap();
    migration.step(PipelineEvent::PromptPosted { message_id: 500 });
    assert!(matches!(migration.step(agree(500, 2)), PipelineAction::EditPrompt { .. }));
    assert!(matches!(
        migration.step(refuse(500, 3)),
        PipelineAction::DeletePrompt { channel_id: 7, message_id: 500 }
    ));
    assert_eq!(migration.stage(), Stage::Cleanup);
    assert!(matches!(
        migration.step(PipelineEvent::Deleted),
        PipelineAction::Finish(Report::Cancelled)
    ));
    assert_eq!(migration.sent(), 0);
    assert_eq!(migration.stage(), Stage::Done);
    assert!(matches!(
        migration.step(PipelineEvent::Sent),
        PipelineAction::Finish(Report::Cancelled)
    ));
    assert!(matches!(
        migration.step(PipelineEvent::ApiError),
        PipelineAction::Finish(Report::Cancelled)
    ));
}

#[test]
fn refusal_of_a_stranger_keeps_waiting() {
    let targets = vec![message(1, 1, "one"), message(2, 2, "two")];
    let (mut migration, _) = Migration::start(request(targets, 1)).unwrap();
    migration.step(PipelineEvent::PromptPosted { message_id: 500 });
    assert!(matches!(migration.step(refuse(500, 9)), PipelineAction::Wait));
    assert!(matches!(migration.step(refuse(501, 2)), PipelineAction::Wait));
    assert_eq!(migration.stage(), Stage::Consent);
}

#[test]
fn end_of_answers_leaves_everything_untouched() {
    let targets = vec![message(1, 1, "one"), message(2, 2, "two")];
    let (mut migration, _) = Migration::start(request(targets, 1)).unwrap();
    migration.step(PipelineEvent::PromptPosted { message_id: 500 });
    assert!(matches!(
        migration.step(PipelineEvent::Answer(ConsentEvent::StreamEnded)),
        PipelineAction::Finish(Report::Indeterminate)
    ));
    assert_eq!(migration.sent(), 0);
    assert_eq!(migration.report(), Report::Indeterminate);
}

#[test]
fn override_skips_the_prompt() {
    let targets = vec![message(1, 1, "one"), message(2, 2, "two")];
    let mut req = request(targets, 1);
    req.initiator_permissions = MANAGE_MESSAGES;
    let (mut migration, first) = Migration::start(req).unwrap();
    expect_send(first, 1, "one");
    assert!(matches!(migration.step(PipelineEvent::Sent), PipelineAction::Pause { seconds: 1 }));
    expect_send(migration.step(PipelineEvent::Paused), 2, "two");
    match migration.step(PipelineEvent::Sent) {
        PipelineAction::Delete(DeleteOp::Bulk { message_ids, .. }) => {
            assert_eq!(message_ids, vec![1, 2]);
        }
        other => panic!("expected the bulk delete, got {other:?}"),
    }
    assert!(matches!(
        migration.step(PipelineEvent::Deleted),
        PipelineAction::Finish(Report::Moved)
    ));
}

#[test]
fn failure_stops_the_move_and_reports_what_was_posted() {
    let targets = vec![message(1, 1, "one"), message(2, 1, "two"), message(3, 1, "three")];
    let (mut migration, first) = Migration::start(request(targets, 1)).unwrap();
    expect_send(first, 1, "one");
    migration.step(PipelineEvent::Sent);
    expect_send(migration.step(PipelineEvent::Paused), 2, "two");
    assert!(matches!(
        migration.step(PipelineEvent::ApiError),
        PipelineAction::Finish(Report::Failed { sent: 1 })
    ));
    assert_eq!(migration.stage(), Stage::Done);
    assert!(matches!(
        migration.step(PipelineEvent::Sent),
        PipelineAction::Finish(Report::Failed { sent: 1 })
    ));
}

#[test]
fn events_out_of_turn_change_nothing() {
    let targets = vec![message(1, 1, "one"), message(2, 1, "two")];
    let (mut migration, _) = Migration::start(request(targets, 1)).unwrap();
    assert!(matches!(migration.step(PipelineEvent::Paused), PipelineAction::Wait));
    assert!(matches!(migration.step(PipelineEvent::Deleted), PipelineAction::Wait));
    assert!(matches!(migration.step(agree(500, 2)), PipelineAction::Wait));
    assert_eq!(migration.stage(), Stage::Sending);
    assert_eq!(migration.sent(), 0);
}

#[test]
fn replicas_and_empty_messages_are_not_posted_but_are_removed() {
    let mut replica = message(2, 1, "already moved");
    replica.from_webhook = true;
    let targets = vec![message(1, 1, "one"), replica, message(3, 1, ""), message(4, 1, "four")];
    let (mut migration, first) = Migration::start(request(targets, 1)).unwrap();
    expect_send(first, 1, "one");
    migration.step(PipelineEvent::Sent);
    expect_send(migration.step(PipelineEvent::Paused), 4, "four");
    match migration.step(PipelineEvent::Sent) {
        PipelineAction::Delete(DeleteOp::Bulk { message_ids, .. }) => {
            assert_eq!(message_ids, vec![1, 2, 3, 4]);
        }
        other => panic!("expected the bulk delete, got {other:?}"),
    }
}

#[test]
fn a_move_of_nothing_ends_at_once() {
    let (migration, first) = Migration::start(request(Vec::new(), 1)).unwrap();
    assert!(matches!(first, PipelineAction::Finish(Report::Moved)));
    assert_eq!(migration.stage(), Stage::Done);
}

#[test]
fn missing_engine_permissions_stop_the_move() {
    let mut req = request(vec![message(1, 1, "one")], 1);
    req.permissions.engine_in_destination = REQUIRED_PERMISSIONS & !MANAGE_WEBHOOKS;
    match Migration::start(req) {
        Err(e) => {
            assert_eq!(e, CustomError::EnginePermissionsMissing);
            assert_eq!(e.kind(), ErrorKind::PermissionDenied);
        }
        Ok(_) => panic!("the move must not start"),
    }
    let mut req = request(vec![message(1, 1, "one")], 1);
    req.permissions.engine_in_source = 0;
    assert!(matches!(Migration::start(req), Err(CustomError::EnginePermissionsMissing)));
}

#[test]
fn initiator_must_be_able_to_post_in_the_destination() {
    let mut req = request(vec![message(1, 1, "one")], 1);
    req.permissions.initiator_in_destination = VIEW_CHANNEL;
    assert!(matches!(Migration::start(req), Err(CustomError::SendMessagesPermissionMissing)));
    let mut req = request(vec![message(1, 1, "one")], 1);
    req.destination_kind = 11;
    req.permissions.initiator_in_destination = SEND_MESSAGES;
    assert!(matches!(Migration::start(req), Err(CustomError::SendMessagesPermissionMissing)));
    let mut req = request(vec![message(1, 1, "one")], 1);
    req.destination_kind = 11;
    req.permissions.initiator_in_destination = SEND_MESSAGES_IN_THREADS;
    assert!(Migration::start(req).is_ok());
}

#[test]
fn permissions_are_judged_before_the_messages() {
    let mut old = message(1, 1, "one");
    old.timestamp = 0;
    let mut req = request(vec![old], 1);
    req.permissions.engine_in_source = 0;
    assert!(matches!(Migration::start(req), Err(CustomError::EnginePermissionsMissing)));
}

#[test]
fn more_than_fifty_messages_are_too_many() {
    let fifty: Vec<CachedMessage> = (1..=50).map(|id| message(id, 1, "m")).collect();
    assert!(validate_targets(&fifty, NOW).is_ok());
    let fifty_one: Vec<CachedMessage> = (1..=51).map(|id| message(id, 1, "m")).collect();
    assert_eq!(validate_targets(&fifty_one, NOW), Err(CustomError::TooManyMessages));
    assert_eq!(CustomError::TooManyMessages.kind(), ErrorKind::LimitExceeded);
    assert!(matches!(
        Migration::start(request(fifty_one, 1)),
        Err(CustomError::TooManyMessages)
    ));
}

#[test]
fn messages_older_than_two_weeks_are_too_old() {
    let mut edge = message(1, 1, "m");
    edge.timestamp = NOW - 1_209_600;
    assert!(validate_targets(&vec![edge], NOW).is_ok());
    let mut old = message(2, 1, "m");
    old.timestamp = NOW - 1_209_601;
    assert_eq!(
        validate_targets(&vec![message(1, 1, "m"), old], NOW),
        Err(CustomError::MessageTooOld)
    );
    assert_eq!(CustomError::MessageTooOld.kind(), ErrorKind::LimitExceeded);
    let mut future = message(3, 1, "m");
    future.timestamp = NOW + 5;
    assert!(validate_targets(&vec![future], NOW).is_ok());
}

#[test]
fn the_first_message_that_cannot_be_replayed_decides() {
    let long = "x".repeat(2001);
    let mut weird = message(3, 1, "");
    weird.content = MessageContent::Unrepresentable;
    let targets = vec![message(1, 1, "fine"), message(2, 1, &long), weird];
    assert_eq!(validate_targets(&targets, NOW), Err(CustomError::MessageTooLong));
    let mut weird = message(3, 1, "");
    weird.content = MessageContent::Unrepresentable;
    let targets = vec![weird, message(2, 1, &long)];
    assert_eq!(validate_targets(&targets, NOW), Err(CustomError::MessageUnrepresentable));
    assert_eq!(CustomError::MessageTooLong.kind(), ErrorKind::UnrepresentableMessage);
    assert_eq!(CustomError::MessageUnrepresentable.kind(), ErrorKind::UnrepresentableMessage);
}

#[test]
fn check_counts_characters_not_bytes() {
    let exactly = "\u{e9}".repeat(2000);
    assert_eq!(check(&message(1, 1, &exactly)), Ok(()));
    let over = "\u{e9}".repeat(2001);
    assert_eq!(check(&message(1, 1, &over)), Err(CustomError::MessageTooLong));
}

#[test]
fn age_comes_before_content() {
    let mut old = message(1, 1, "");
    old.content = MessageContent::Unrepresentable;
    old.timestamp = 0;
    assert_eq!(validate_targets(&vec![old], NOW), Err(CustomError::MessageTooOld));
}

#[test]
fn targets_are_the_trigger_then_the_following_oldest_first() {
    let following = vec![message(4, 1, "d"), message(3, 1, "c"), message(2, 1, "b")];
    let targets = assemble_targets(message(1, 1, "a"), following);
    let ids: Vec<u64> = targets.iter().map(|m| m.id).collect();
    assert_eq!(ids, vec![1, 2, 3, 4]);
    let alone = assemble_targets(message(1, 1, "a"), Vec::new());
    assert_eq!(alone.len(), 1);
}

#[test]
fn newest_cached_messages_become_targets_oldest_first() {
    let mut cache = Cache::new(99);
    for id in 1..=5u64 {
        cache.add_message(message(id, 1, "m"));
    }
    let targets = get_messages(&cache, 7, 3).unwrap();
    let ids: Vec<u64> = targets.iter().map(|m| m.id).collect();
    assert_eq!(ids, vec![3, 4, 5]);
    let one = get_messages(&cache, 7, 1).unwrap();
    assert_eq!(one.len(), 1);
    assert_eq!(one[0].id, 5);
    let all = get_messages(&cache, 7, 9).unwrap();
    let ids: Vec<u64> = all.iter().map(|m| m.id).collect();
    assert_eq!(ids, vec![1, 2, 3, 4, 5]);
    assert_eq!(get_messages(&cache, 7, 0).unwrap().len(), 0);
}

#[test]
fn an_empty_window_is_not_a_missing_window() {
    let mut cache = Cache::new(99);
    assert!(get_messages(&cache, 7, 3).is_none());
    assert!(get_messages(&cache, 7, 0).is_none());
    for id in 1..=3u64 {
        cache.add_message(message(id, 1, "m"));
    }
    cache.delete_messages(&vec![1, 2, 3], 7);
    let targets = get_messages(&cache, 7, 3).unwrap();
    assert!(targets.is_empty());
    assert!(get_messages(&cache, 8, 3).is_none());

    let (migration, first) = Migration::start(request(targets, 1)).unwrap();
    assert!(matches!(first, PipelineAction::Finish(Report::Moved)));
    assert_eq!(migration.sent(), 0);
}

#[test]
fn nickname_and_member_avatar_win() {
    let mut m = message(1, 42, "hi");
    m.nickname = Some("nick".to_string());
    m.member_avatar = Some("aaa".to_string());
    m.user_avatar = Some("bbb".to_string());
    let replica = make_replica(&m);
    assert_eq!(replica.username, "nick");
    assert_eq!(
        replica.avatar_url.unwrap(),
        "https://cdn.discordapp.com/guilds/900/users/42/avatar/aaa.png"
    );
}

#[test]
fn account_avatar_is_the_fallback() {
    let mut m = message(1, 18446744073709551615, "hi");
    m.user_avatar = Some("bbb".to_string());
    let replica = make_replica(&m);
    assert_eq!(replica.username, "user18446744073709551615");
    assert_eq!(
        replica.avatar_url.unwrap(),
        "https://cdn.discordapp.com/avatars/18446744073709551615/bbb.png"
    );
    let mut no_guild = message(1, 42, "hi");
    no_guild.guild_id = None;
    no_guild.member_avatar = Some("aaa".to_string());
    no_guild.user_avatar = Some("bbb".to_string());
    assert_eq!(
        make_replica(&no_guild).avatar_url.unwrap(),
        "https://cdn.discordapp.com/avatars/42/bbb.png"
    );
}

#[test]
fn no_avatar_means_the_platform_default() {
    let replica = make_replica(&message(1, 42, "hi"));
    assert!(replica.avatar_url.is_none());
    assert_eq!(replica.text, "hi");
    assert_eq!(replica.source_id, 1);
}

#[test]
fn embeds_are_carried_and_make_a_message_postable() {
    let mut m = message(1, 42, "");
    m.content = MessageContent::Valid { text: String::new(), embeds: vec!["{}".to_string()] };
    let replicas = make_webhooks(&vec![m]);
    assert_eq!(replicas.len(), 1);
    assert_eq!(replicas[0].embeds, vec!["{}".to_string()]);
    let mut weird = message(2, 42, "");
    weird.content = MessageContent::Unrepresentable;
    assert_eq!(make_webhooks(&vec![weird]).len(), 0);
}

#[test]
fn delete_operation_depends_on_the_count() {
    assert!(matches!(delete_messages(&vec![], 7), DeleteOp::Nothing));
    assert!(matches!(
        delete_messages(&vec![5], 7),
        DeleteOp::Single { channel_id: 7, message_id: 5 }
    ));
    match delete_messages(&vec![5, 6], 7) {
        DeleteOp::Bulk { channel_id, message_ids } => {
            assert_eq!(channel_id, 7);
            assert_eq!(message_ids, vec![5, 6]);
        }
        other => panic!("expected the bulk delete, got {other:?}"),
    }
}

#[test]
fn threads_are_reached_through_their_parent() {
    let text = Destination { id: 8, kind: 0, parent_id: Some(1) };
    assert_eq!(post_target(&text), Some(PostTarget { channel_id: 8, thread_id: None }));
    for kind in [10u8, 11, 12] {
        let thread = Destination { id: 8, kind, parent_id: Some(3) };
        assert_eq!(post_target(&thread), Some(PostTarget { channel_id: 3, thread_id: Some(8) }));
        assert_eq!(post_target(&Destination { id: 8, kind, parent_id: None }), None);
        assert_eq!(required_send_permission(kind), SEND_MESSAGES_IN_THREADS);
    }
    for kind in [0u8, 1, 5, 9, 13, 15, 200] {
        assert_eq!(required_send_permission(kind), SEND_MESSAGES);
    }
}

#[test]
fn permission_sets_are_compared_bit_by_bit() {
    assert!(contains(0b1110, 0b0110));
    assert!(!contains(0b1010, 0b0110));
    assert!(contains(5, 0));
    assert_eq!(
        REQUIRED_PERMISSIONS,
        MANAGE_WEBHOOKS | VIEW_CHANNEL | MANAGE_MESSAGES | READ_MESSAGE_HISTORY
    );
    let command = MANAGE_MESSAGES | VIEW_CHANNEL | SEND_MESSAGES;
    assert!(has_perms(command, MANAGE_WEBHOOKS));
    assert!(!has_perms(command & !SEND_MESSAGES, MANAGE_WEBHOOKS));
    assert!(!has_perms(command, MANAGE_MESSAGES));
    assert!(has_override(MANAGE_MESSAGES | VIEW_CHANNEL));
    assert!(!has_override(VIEW_CHANNEL));
    assert!(check_permissions(&all_permissions(), 0).is_ok());
}

#[test]
fn progress_note_follows_the_count() {
    assert_eq!(reply_content(0), "starting up the car :red_car:");
    assert_eq!(reply_content(10), "starting up the car :red_car:");
    assert_eq!(reply_content(11), "starting up the truck :pickup_truck:");
    assert_eq!(reply_content(20), "starting up the truck :pickup_truck:");
    assert_eq!(reply_content(21), "starting up the truck :truck:");
    assert_eq!(reply_content(30), "starting up the truck :truck:");
    assert_eq!(reply_content(31), "starting up the lorry :articulated_lorry:");
    assert_eq!(reply_content(40), "starting up the lorry :articulated_lorry:");
    assert_eq!(reply_content(41), "starting up the ship :ship:");
}

#[test]
fn weird_messages_are_unrepresentable() {
    let plain = MessageTraits {
        has_activity: false,
        has_application: false,
        has_application_id: false,
        has_components: false,
        regular_or_reply: true,
        pinned: false,
        from_webhook: false,
    };
    assert!(!message_is_weird(&plain));
    assert!(message_is_weird(&MessageTraits { has_activity: true, ..plain }));
    assert!(message_is_weird(&MessageTraits { has_application: true, ..plain }));
    assert!(message_is_weird(&MessageTraits { has_application_id: true, ..plain }));
    assert!(message_is_weird(&MessageTraits { has_components: true, ..plain }));
    assert!(message_is_weird(&MessageTraits { regular_or_reply: false, ..plain }));
    assert!(message_is_weird(&MessageTraits { pinned: true, ..plain }));
    assert!(message_is_weird(&MessageTraits { from_webhook: true, ..plain }));
    assert!(matches!(
        classify_content(&plain, "t".to_string(), Vec::new()),
        MessageContent::Valid { .. }
    ));
    assert!(matches!(
        classify_content(
            &MessageTraits { has_components: true, ..plain },
            "t".to_string(),
            Vec::new()
        ),
        MessageContent::Unrepresentable
    ));
    assert!(matches!(
        classify_content(&MessageTraits { from_webhook: true, ..plain }, "t".to_string(), Vec::new()),
        MessageContent::Valid { .. }
    ));
}

fn file(id: u64, name: &str) -> Attachment {
    Attachment {
        id,
        filename: name.to_string(),
        url: format!("https://cdn.example/{name}"),
        description: Some("alt".to_string()),
    }
}

#[test]
fn files_are_carried_over_as_they_are() {
    let mut m = message(1, 42, "look");
    m.attachments = vec![file(10, "a.png"), file(11, "SPOILER_b.png")];
    let replica = make_replica(&m);
    assert_eq!(replica.attachments.len(), 2);
    assert_eq!(replica.attachments[0].id, 10);
    assert_eq!(replica.attachments[0].filename, "a.png");
    assert_eq!(replica.attachments[0].url, "https://cdn.example/a.png");
    assert_eq!(replica.attachments[0].description.as_deref(), Some("alt"));
    assert_eq!(replica.attachments[1].filename, "SPOILER_b.png");
}

#[test]
fn a_message_with_only_a_file_is_posted() {
    let mut only_file = message(1, 1, "");
    only_file.attachments = vec![file(10, "a.png")];
    let replicas = make_webhooks(&vec![only_file, message(2, 1, "")]);
    assert_eq!(replicas.len(), 1);
    assert_eq!(replicas[0].source_id, 1);
    assert_eq!(replicas[0].text, "");
}

#[test]
fn updates_never_change_the_files() {
    let mut cache = Cache::new(99);
    let mut m = message(1, 1, "look");
    m.attachments = vec![file(10, "a.png")];
    cache.add_message(m);
    cache.update_message(MessageUpdate {
        id: 1,
        channel_id: 7,
        text: Some("edited".to_string()),
        embeds: Some(Vec::new()),
    });
    let held = cache.get_messages(7).unwrap();
    assert_eq!(held[0].attachments.len(), 1);
    assert_eq!(held[0].attachments[0].filename, "a.png");
}

#[test]
fn every_ending_has_its_words() {
    assert_eq!(report_message(Report::Moved), "done :incoming_envelope:");
    assert_eq!(report_message(Report::Cancelled), "someone refused, so i didn't move anything");
    assert_eq!(
        report_message(Report::Indeterminate),
        "the message with the buttons is gone, so i didn't move anything"
    );
    assert_eq!(
        report_message(Report::Failed { sent: 12 }),
        "something went terribly wrong there... i spammed lara (the dev) with the error, im sure \
         they'll look at it asap (messages already moved: 12)"
    );
}

#[test]
fn paging_stops_at_the_ceiling_or_an_empty_page() {
    assert!(wants_more(0, 100));
    assert!(wants_more(50, 1));
    assert!(!wants_more(51, 100));
    assert!(!wants_more(10, 0));
}
