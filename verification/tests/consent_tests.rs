use message_mover::consent::{
    answer, get_agree_waiting, insert_sorted, ConsentAction, ConsentEvent, ConsentOutcome, ConsentPhase,
    ConsentSession,
};
use message_mover::message::{CachedMessage, MessageContent};
use message_mover::text::{decimal_string, get_agree_message_content, mention};

const HEADER: &str =
    "**some of the messages aren't yours so i'll mention the people that need to agree first**\n";

fn message(id: u64, author_id: u64) -> CachedMessage {
    CachedMessage {
        id,
        channel_id: 7,
        author_id,
        content: MessageContent::Valid { text: "hi".to_string(), embeds: Vec::new() },
        attachments: Vec::new(),
        username: format!("user{author_id}"),
        nickname: None,
        member_avatar: None,
        user_avatar: None,
        guild_id: Some(1),
        from_webhook: false,
        timestamp: 1_700_000_000,
    }
}

fn collecting(authors: &[u64], initiator: u64, prompt: u64) -> ConsentSession {
    let messages: Vec<CachedMessage> =
        authors.iter().enumerate().map(|(i, a)| message(i as u64 + 1, *a)).collect();
    let (mut session, content) = ConsentSession::begin(&messages, initiator, false);
    assert!(content.is_some());
    session.prompt_posted(prompt);
    session
}

fn agree(message_id: u64, user_id: u64) -> ConsentEvent {
    ConsentEvent::Agree { message_id, user_id }
}

fn refuse(message_id: u64, user_id: u64) -> ConsentEvent {
    ConsentEvent::Refuse { message_id, user_id }
}

#[test]
fn mention_has_the_platform_format() {
    assert_eq!(mention(123), "<@123>");
    assert_eq!(mention(0), "<@0>");
    assert_eq!(mention(u64::MAX), "<@18446744073709551615>");
}

#[test]
fn decimal_notation_matches_the_standard_one() {
    for n in [0u64, 1, 9, 10, 11, 99, 100, 101, 1234567890, u64::MAX - 1, u64::MAX] {
        assert_eq!(decimal_string(n), n.to_string());
        if n != 0 {
            assert_eq!(mention(n), format!("<@{}>", decimal_string(n)));
        }
    }
    assert_eq!(decimal_string(907), "907");
}

#[test]
fn prompt_names_everyone_awaited() {
    assert_eq!(get_agree_message_content(&vec![]), HEADER);
    assert_eq!(
        get_agree_message_content(&vec![20, 30]),
        format!("{HEADER}\n<@20>\n<@30>")
    );
}

#[test]
fn awaited_authors_are_distinct_sorted_and_exclude_the_initiator() {
    let messages = vec![message(1, 30), message(2, 10), message(3, 20), message(4, 30), message(5, 10)];
    assert_eq!(get_agree_waiting(&messages, 10), vec![20, 30]);
    assert_eq!(get_agree_waiting(&messages, 99), vec![10, 20, 30]);
    assert_eq!(get_agree_waiting(&Vec::new(), 10), Vec::<u64>::new());
    assert_eq!(get_agree_waiting(&vec![message(1, 10)], 10), Vec::<u64>::new());
}

#[test]
fn insert_sorted_keeps_order_and_skips_duplicates() {
    let mut list = vec![10, 30];
    insert_sorted(&mut list, 20);
    insert_sorted(&mut list, 5);
    insert_sorted(&mut list, 40);
    insert_sorted(&mut list, 30);
    assert_eq!(list, vec![5, 10, 20, 30, 40]);
}

#[test]
fn both_agree_approves() {
    let mut session = collecting(&[1, 2, 3], 1, 500);
    assert_eq!(session.pending_authors(), &vec![2, 3]);
    assert_eq!(session.target_message_ids(), &vec![1, 2, 3]);
    match session.step(agree(500, 2)) {
        ConsentAction::Rerender { content } => assert_eq!(content, format!("{HEADER}\n<@3>")),
        other => panic!("expected a new prompt, got {other:?}"),
    }
    assert_eq!(session.outcome(), ConsentOutcome::Pending);
    assert!(matches!(
        session.step(agree(500, 3)),
        ConsentAction::Resolve(ConsentOutcome::Approved)
    ));
    assert_eq!(session.phase(), ConsentPhase::Approved);
    assert_eq!(session.outcome(), ConsentOutcome::Approved);
    assert!(session.pending_authors().is_empty());
}

#[test]
fn agree_then_refuse_refuses() {
    let mut session = collecting(&[1, 2, 3], 1, 500);
    assert!(matches!(session.step(agree(500, 2)), ConsentAction::Rerender { .. }));
    assert!(matches!(
        session.step(refuse(500, 3)),
        ConsentAction::Resolve(ConsentOutcome::Refused)
    ));
    assert_eq!(session.phase(), ConsentPhase::Refused);
    assert_eq!(session.outcome(), ConsentOutcome::Refused);
}

#[test]
fn answers_of_strangers_change_nothing() {
    let mut session = collecting(&[1, 2, 3], 1, 500);
    assert!(matches!(session.step(refuse(500, 9)), ConsentAction::Ignore));
    assert!(matches!(session.step(agree(500, 9)), ConsentAction::Ignore));
    assert!(matches!(session.step(refuse(500, 1)), ConsentAction::Ignore));
    assert_eq!(session.phase(), ConsentPhase::Collecting);
    assert_eq!(session.pending_authors(), &vec![2, 3]);
    assert_eq!(session.prompt_message_id(), Some(500));
}

#[test]
fn a_second_agreement_of_the_same_person_is_ignored() {
    let mut session = collecting(&[1, 2, 3], 1, 500);
    assert!(matches!(session.step(agree(500, 2)), ConsentAction::Rerender { .. }));
    assert!(matches!(session.step(agree(500, 2)), ConsentAction::Ignore));
    assert!(matches!(session.step(refuse(500, 2)), ConsentAction::Ignore));
    assert_eq!(session.pending_authors(), &vec![3]);
    assert_eq!(session.phase(), ConsentPhase::Collecting);
}

#[test]
fn answers_to_other_prompts_are_not_consumed() {
    let mut session = collecting(&[1, 2], 1, 500);
    assert!(matches!(session.step(agree(501, 2)), ConsentAction::Ignore));
    assert!(matches!(session.step(refuse(501, 2)), ConsentAction::Ignore));
    assert_eq!(session.phase(), ConsentPhase::Collecting);
    assert_eq!(session.pending_authors(), &vec![2]);
}

#[test]
fn answers_before_the_prompt_is_known_are_ignored() {
    let messages = vec![message(1, 1), message(2, 2)];
    let (mut session, _) = ConsentSession::begin(&messages, 1, false);
    assert_eq!(session.prompt_message_id(), None);
    assert!(matches!(session.step(agree(500, 2)), ConsentAction::Ignore));
    session.prompt_posted(500);
    session.prompt_posted(501);
    assert_eq!(session.prompt_message_id(), Some(500));
    assert!(matches!(
        session.step(agree(500, 2)),
        ConsentAction::Resolve(ConsentOutcome::Approved)
    ));
}

#[test]
fn end_of_stream_abandons() {
    let mut session = collecting(&[1, 2], 1, 500);
    assert!(matches!(
        session.step(ConsentEvent::StreamEnded),
        ConsentAction::Resolve(ConsentOutcome::Abandoned)
    ));
    assert_eq!(session.phase(), ConsentPhase::Abandoned);
    assert_eq!(session.outcome(), ConsentOutcome::Abandoned);
    assert!(matches!(session.step(agree(500, 2)), ConsentAction::Ignore));
    assert!(matches!(session.step(ConsentEvent::StreamEnded), ConsentAction::Ignore));
    assert_eq!(session.phase(), ConsentPhase::Abandoned);
}

#[test]
fn resolved_sessions_ignore_everything() {
    let mut session = collecting(&[1, 2], 1, 500);
    assert!(matches!(session.step(refuse(500, 2)), ConsentAction::Resolve(_)));
    assert!(matches!(session.step(agree(500, 2)), ConsentAction::Ignore));
    assert!(matches!(session.step(ConsentEvent::StreamEnded), ConsentAction::Ignore));
    assert_eq!(session.phase(), ConsentPhase::Refused);
}

#[test]
fn nobody_pending_is_approved_at_once_without_a_prompt() {
    let messages = vec![message(1, 1), message(2, 1)];
    let (session, prompt) = ConsentSession::begin(&messages, 1, false);
    assert!(prompt.is_none());
    assert_eq!(session.phase(), ConsentPhase::Bypassed);
    assert_eq!(session.outcome(), ConsentOutcome::Approved);
    assert_eq!(session.prompt_message_id(), None);
    assert!(session.pending_authors().is_empty());

    let (empty, prompt) = ConsentSession::begin(&Vec::new(), 1, false);
    assert!(prompt.is_none());
    assert_eq!(empty.outcome(), ConsentOutcome::Approved);
}

#[test]
fn override_bypasses_consent() {
    let messages = vec![message(1, 1), message(2, 2), message(3, 3)];
    let (mut session, prompt) = ConsentSession::begin(&messages, 1, true);
    assert!(prompt.is_none());
    assert_eq!(session.phase(), ConsentPhase::Bypassed);
    assert_eq!(session.outcome(), ConsentOutcome::Approved);
    assert_eq!(session.target_message_ids(), &vec![1, 2, 3]);
    session.prompt_posted(9);
    assert_eq!(session.prompt_message_id(), None);
    assert!(matches!(session.step(ConsentEvent::StreamEnded), ConsentAction::Ignore));
    assert_eq!(session.outcome(), ConsentOutcome::Approved);
}

#[test]
fn begin_returns_the_prompt_for_the_awaited() {
    let messages = vec![message(1, 1), message(2, 3), message(3, 2)];
    let (session, prompt) = ConsentSession::begin(&messages, 1, false);
    assert_eq!(prompt.unwrap(), format!("{HEADER}\n<@2>\n<@3>"));
    assert_eq!(session.phase(), ConsentPhase::Collecting);
    assert_eq!(session.outcome(), ConsentOutcome::Pending);
}

#[test]
fn buttons_are_read_by_their_label() {
    assert_eq!(
        answer(&"agree".to_string(), 500, 2),
        Some(ConsentEvent::Agree { message_id: 500, user_id: 2 })
    );
    assert_eq!(
        answer(&"refuse".to_string(), 500, 2),
        Some(ConsentEvent::Refuse { message_id: 500, user_id: 2 })
    );
    assert_eq!(answer(&"Agree".to_string(), 500, 2), None);
    assert_eq!(answer(&String::new(), 500, 2), None);
}
