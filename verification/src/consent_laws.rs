//! Laws of the consent coordinator, stated over its mathematical model.

use vstd::prelude::*;
use crate::consent::{
    consent_reaction, consent_step, consent_wf, lemma_without, lists_foreign_authors, outcome_of,
    without, ActionView, ConsentEvent, ConsentOutcome, ConsentPhase, SessionView,
};
use crate::message::MessageView;

verus! {

/// Every event leaves a well-formed session well formed.
pub proof fn lemma_step_keeps_wf(s: SessionView, event: ConsentEvent)
    requires
        consent_wf(s),
    ensures
        consent_wf(consent_step(s, event)),
{
    match event {
        ConsentEvent::Agree { message_id, user_id } => {
            lemma_without(s.pending, user_id);
        },
        _ => {},
    }
}

/// Where two people are awaited, the agreement of the first keeps the session
/// collecting; the agreement of the second then approves the move, and a
/// refusal of the second refuses it.
pub proof fn lemma_two_awaited(s: SessionView, prompt: u64, a: u64, b: u64)
    requires
        consent_wf(s),
        s.phase == ConsentPhase::Collecting,
        s.prompt == Some(prompt),
        a != b,
        forall|user: u64| s.pending.contains(user) <==> user == a || user == b,
    ensures
        consent_step(s, ConsentEvent::Agree { message_id: prompt, user_id: a }).phase
            == ConsentPhase::Collecting,
        consent_step(
            consent_step(s, ConsentEvent::Agree { message_id: prompt, user_id: a }),
            ConsentEvent::Agree { message_id: prompt, user_id: b },
        ).phase == ConsentPhase::Approved,
        consent_step(
            consent_step(s, ConsentEvent::Agree { message_id: prompt, user_id: a }),
            ConsentEvent::Refuse { message_id: prompt, user_id: b },
        ).phase == ConsentPhase::Refused,
{
    lemma_without(s.pending, a);
    assert(s.pending.contains(a));
    assert(s.pending.contains(b));
    let one = consent_step(s, ConsentEvent::Agree { message_id: prompt, user_id: a });
    assert(one.pending == without(s.pending, a));
    assert(without(s.pending, a).contains(b));
    assert(one.pending.len() > 0);
    lemma_without(one.pending, b);
    let rest = without(one.pending, b);
    if rest.len() > 0 {
        let c = rest[0];
        assert(rest.contains(c));
        assert(one.pending.contains(c) && c != b);
        assert(without(s.pending, a).contains(c));
        assert(s.pending.contains(c) && c != a);
    }
    assert(rest.len() == 0);
}

/// An answer from someone who is not awaited changes nothing and asks for
/// nothing, whether it agrees or refuses.
pub proof fn lemma_stranger_changes_nothing(s: SessionView, message_id: u64, user_id: u64)
    requires
        !s.pending.contains(user_id),
    ensures
        consent_step(s, ConsentEvent::Agree { message_id, user_id }) == s,
        consent_step(s, ConsentEvent::Refuse { message_id, user_id }) == s,
        consent_reaction(s, ConsentEvent::Agree { message_id, user_id }) == ActionView::Ignore,
        consent_reaction(s, ConsentEvent::Refuse { message_id, user_id }) == ActionView::Ignore,
{
}

/// An answer given on another message than the session's prompt changes
/// nothing.
pub proof fn lemma_other_prompt_changes_nothing(s: SessionView, message_id: u64, user_id: u64)
    requires
        s.prompt != Some(message_id),
    ensures
        consent_step(s, ConsentEvent::Agree { message_id, user_id }) == s,
        consent_step(s, ConsentEvent::Refuse { message_id, user_id }) == s,
{
}

/// A second agreement of the same person changes nothing.
pub proof fn lemma_agreement_counts_once(s: SessionView, message_id: u64, user_id: u64)
    requires
        consent_wf(s),
    ensures
        ({
            let once = consent_step(s, ConsentEvent::Agree { message_id, user_id });
            consent_step(once, ConsentEvent::Agree { message_id, user_id }) == once
        }),
{
    lemma_without(s.pending, user_id);
}

/// A session that has resolved stays as it is, whatever arrives.
pub proof fn lemma_resolved_is_final(s: SessionView, event: ConsentEvent)
    requires
        s.phase != ConsentPhase::Collecting,
    ensures
        consent_step(s, event) == s,
        consent_reaction(s, event) == ActionView::Ignore,
{
}

/// Where the initiator wrote every message, nobody has to be asked: the list
/// of awaited authors is empty, and a session with an empty list is bypassed,
/// which counts as approved.
pub proof fn lemma_own_messages_need_no_consent(
    pending: Seq<u64>,
    messages: Seq<MessageView>,
    initiator: u64,
)
    requires
        lists_foreign_authors(pending, messages, initiator),
        forall|k: int| 0 <= k < messages.len() ==> (#[trigger] messages[k]).author_id == initiator,
    ensures
        pending.len() == 0,
        outcome_of(ConsentPhase::Bypassed) == ConsentOutcome::Approved,
{
    if pending.len() > 0 {
        assert(pending.contains(pending[0]));
    }
}

} // verus!
