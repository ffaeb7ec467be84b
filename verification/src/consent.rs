//! The consent coordinator.
//!
//! Before messages of several people are moved, every author other than the
//! person who asked has to agree. A session collects the answers that arrive
//! for its own prompt message and resolves as soon as everyone has agreed,
//! someone whose answer is awaited has refused, or the stream of answers has
//! ended. The session decides; posting the prompt and waiting for answers is
//! the caller's part.

use vstd::prelude::*;
use vstd::string::StringExecFns;
use crate::message::{CachedMessage, MessageView};
use crate::text::{get_agree_message_content, prompt_text};

verus! {

/// Where a session stands.
#[derive(Clone, Copy, Debug, PartialEq, Eq, Structural)]
pub enum ConsentPhase {
    /// Nobody had to be asked.
    Bypassed,
    /// Answers are awaited.
    Collecting,
    Approved,
    Refused,
    /// The stream of answers ended before the session resolved.
    Abandoned,
}

/// What a session has decided so far.
#[derive(Clone, Copy, Debug, PartialEq, Eq, Structural)]
pub enum ConsentOutcome {
    Pending,
    Approved,
    Refused,
    Abandoned,
}

/// What reaches a session from the outside.
#[derive(Clone, Copy, Debug, PartialEq, Eq, Structural)]
pub enum ConsentEvent {
    /// A user pressed "agree" on the message with the given id.
    Agree { message_id: u64, user_id: u64 },
    /// A user pressed "refuse" on the message with the given id.
    Refuse { message_id: u64, user_id: u64 },
    /// No further answers will arrive.
    StreamEnded,
}

/// The answer that a button of the prompt stands for.
pub open spec fn answer_of(label: Seq<char>, message_id: u64, user_id: u64) -> Option<ConsentEvent> {
    if label == "agree"@ {
        Some(ConsentEvent::Agree { message_id, user_id })
    } else if label == "refuse"@ {
        Some(ConsentEvent::Refuse { message_id, user_id })
    } else {
        None
    }
}

/// Reads an answer from the label of the button that was pressed, the
/// message the button sits on and the user who pressed it. The prompt has two
/// buttons, "agree" and "refuse"; any other label is no answer.
pub fn answer(label: &String, message_id: u64, user_id: u64) -> (event: Option<ConsentEvent>)
    ensures
        event == answer_of(label@, message_id, user_id),
{
    if *label == String::from_str("agree") {
        Some(ConsentEvent::Agree { message_id, user_id })
    } else if *label == String::from_str("refuse") {
        Some(ConsentEvent::Refuse { message_id, user_id })
    } else {
        None
    }
}

/// What the caller has to do after an event.
#[derive(Debug)]
pub enum ConsentAction {
    /// Nothing: the event did not concern this session.
    Ignore,
    /// Show the prompt with this content, which names who is still awaited.
    Rerender { content: String },
    /// Stop listening: the session has resolved with the given outcome.
    Resolve(ConsentOutcome),
}

/// The mathematical value of a `ConsentAction`.
pub enum ActionView {
    Ignore,
    Rerender { content: Seq<char> },
    Resolve(ConsentOutcome),
}

impl DeepView for ConsentAction {
    type V = ActionView;

    open spec fn deep_view(&self) -> ActionView {
        match self {
            ConsentAction::Ignore => ActionView::Ignore,
            ConsentAction::Rerender { content } => ActionView::Rerender { content: content@ },
            ConsentAction::Resolve(outcome) => ActionView::Resolve(*outcome),
        }
    }
}

/// The mathematical value of a `ConsentSession`.
pub struct SessionView {
    /// The ids of the messages to move, in the order given.
    pub targets: Seq<u64>,
    /// The authors whose agreement is awaited, in ascending order.
    pub pending: Seq<u64>,
    /// The id of the prompt message, once it has been posted.
    pub prompt: Option<u64>,
    pub phase: ConsentPhase,
}

/// True when every element is smaller than the ones after it.
pub open spec fn strictly_increasing(s: Seq<u64>) -> bool {
    forall|i: int, j: int| 0 <= i < j < s.len() ==> s[i] < s[j]
}

/// True when `user` wrote one of the messages and is not the initiator.
pub open spec fn foreign_author(messages: Seq<MessageView>, initiator: u64, user: u64) -> bool {
    user != initiator && exists|k: int| 0 <= k < messages.len() && (#[trigger] messages[k]).author_id == user
}

/// True when `pending` lists exactly the authors to ask: everyone but the
/// initiator who wrote one of the messages, each once, in ascending order.
pub open spec fn lists_foreign_authors(
    pending: Seq<u64>,
    messages: Seq<MessageView>,
    initiator: u64,
) -> bool {
    &&& strictly_increasing(pending)
    &&& forall|user: u64| pending.contains(user) <==> foreign_author(messages, initiator, user)
}

/// The sequence without `user`.
pub open spec fn without(pending: Seq<u64>, user: u64) -> Seq<u64> {
    if pending.contains(user) {
        pending.remove(pending.index_of(user))
    } else {
        pending
    }
}

/// The invariant of a session.
pub open spec fn consent_wf(s: SessionView) -> bool {
    &&& strictly_increasing(s.pending)
    &&& s.phase == ConsentPhase::Collecting ==> s.pending.len() > 0
    &&& s.phase == ConsentPhase::Approved || s.phase == ConsentPhase::Bypassed ==> s.pending.len()
        == 0
    &&& s.phase == ConsentPhase::Bypassed ==> s.prompt.is_none()
}

/// True when the event is an answer to the session's own prompt from someone
/// whose answer is awaited.
pub open spec fn concerns(s: SessionView, message_id: u64, user_id: u64) -> bool {
    s.phase == ConsentPhase::Collecting && s.prompt == Some(message_id) && s.pending.contains(
        user_id,
    )
}

/// The session after an event.
pub open spec fn consent_step(s: SessionView, event: ConsentEvent) -> SessionView {
    match event {
        ConsentEvent::Agree { message_id, user_id } => if concerns(s, message_id, user_id) {
            let rest = without(s.pending, user_id);
            SessionView {
                pending: rest,
                phase: if rest.len() == 0 {
                    ConsentPhase::Approved
                } else {
                    ConsentPhase::Collecting
                },
                ..s
            }
        } else {
            s
        },
        ConsentEvent::Refuse { message_id, user_id } => if concerns(s, message_id, user_id) {
            SessionView { phase: ConsentPhase::Refused, ..s }
        } else {
            s
        },
        ConsentEvent::StreamEnded => if s.phase == ConsentPhase::Collecting {
            SessionView { phase: ConsentPhase::Abandoned, ..s }
        } else {
            s
        },
    }
}

/// What the caller has to do after an event.
pub open spec fn consent_reaction(s: SessionView, event: ConsentEvent) -> ActionView {
    match event {
        ConsentEvent::Agree { message_id, user_id } => if concerns(s, message_id, user_id) {
            let rest = without(s.pending, user_id);
            if rest.len() == 0 {
                ActionView::Resolve(ConsentOutcome::Approved)
            } else {
                ActionView::Rerender { content: prompt_text(rest) }
            }
        } else {
            ActionView::Ignore
        },
        ConsentEvent::Refuse { message_id, user_id } => if concerns(s, message_id, user_id) {
            ActionView::Resolve(ConsentOutcome::Refused)
        } else {
            ActionView::Ignore
        },
        ConsentEvent::StreamEnded => if s.phase == ConsentPhase::Collecting {
            ActionView::Resolve(ConsentOutcome::Abandoned)
        } else {
            ActionView::Ignore
        },
    }
}

/// The outcome that a phase stands for.
pub open spec fn outcome_of(phase: ConsentPhase) -> ConsentOutcome {
    match phase {
        ConsentPhase::Bypassed => ConsentOutcome::Approved,
        ConsentPhase::Collecting => ConsentOutcome::Pending,
        ConsentPhase::Approved => ConsentOutcome::Approved,
        ConsentPhase::Refused => ConsentOutcome::Refused,
        ConsentPhase::Abandoned => ConsentOutcome::Abandoned,
    }
}

/// Removing an element that occurs keeps the order and the other elements.
pub proof fn lemma_without(pending: Seq<u64>, user: u64)
    requires
        strictly_increasing(pending),
    ensures
        strictly_increasing(without(pending, user)),
        forall|other: u64| without(pending, user).contains(other) <==> pending.contains(other) && other != user,
        pending.contains(user) ==> without(pending, user).len() == pending.len() - 1,
{
    let rest = without(pending, user);
    if pending.contains(user) {
        let at = pending.index_of(user);
        assert forall|other: u64| rest.contains(other) implies pending.contains(other) && other
            != user by {
            let i = choose|i: int| 0 <= i < rest.len() && rest[i] == other;
            if i < at {
                assert(pending[i] == other);
            } else {
                assert(pending[i + 1] == other);
            }
        }
        assert forall|other: u64| pending.contains(other) && other != user implies rest.contains(
            other,
        ) by {
            let i = choose|i: int| 0 <= i < pending.len() && pending[i] == other;
            if i < at {
                assert(rest[i] == other);
            } else {
                assert(rest[i - 1] == other);
            }
        }
    }
}

/// Puts `user` into an ascending list, unless it is there already.
pub fn insert_sorted(list: &mut Vec<u64>, user: u64)
    requires
        strictly_increasing(old(list)@),
    ensures
        strictly_increasing(final(list)@),
        forall|other: u64| final(list)@.contains(other) <==> old(list)@.contains(other) || other == user,
{
    let mut i: usize = 0;
    while i < list.len() && list[i] < user
        invariant
            i <= list.len(),
            *list == *old(list),
            forall|j: int| 0 <= j < i ==> list@[j] < user,
        decreases list.len() - i,
    {
        i += 1;
    }
    if i < list.len() && list[i] == user {
        assert(list@.contains(user));
        return ;
    }
    let ghost before = list@;
    list.insert(i, user);
    proof {
        let now = list@;
        assert(now[i as int] == user);
        assert forall|other: u64| now.contains(other) implies before.contains(other) || other
            == user by {
            let k = choose|k: int| 0 <= k < now.len() && now[k] == other;
            if k < i {
                assert(before[k] == other);
            } else if k > i {
                assert(before[k - 1] == other);
            }
        }
        assert forall|other: u64| before.contains(other) || other == user implies now.contains(
            other,
        ) by {
            if other == user {
                assert(now[i as int] == other);
            } else {
                let k = choose|k: int| 0 <= k < before.len() && before[k] == other;
                if k < i {
                    assert(now[k] == other);
                } else {
                    assert(now[k + 1] == other);
                }
            }
        }
    }
}

/// Lists the people who have to agree to a move: the authors of the messages
/// other than the one who asked, each once, in ascending order.
pub fn get_agree_waiting(messages: &Vec<CachedMessage>, author_id: u64) -> (waiting: Vec<u64>)
    ensures
        lists_foreign_authors(waiting@, messages.deep_view(), author_id),
{
    let mut waiting: Vec<u64> = Vec::new();
    let mut i: usize = 0;
    let ghost all = messages.deep_view();
    while i < messages.len()
        invariant
            i <= messages.len(),
            all == messages.deep_view(),
            lists_foreign_authors(waiting@, all.take(i as int), author_id),
        decreases messages.len() - i,
    {
        let ghost before = waiting@;
        let author = messages[i].author_id;
        if author != author_id {
            insert_sorted(&mut waiting, author);
        }
        proof {
            let seen = all.take(i as int);
            let next = all.take(i + 1);
            assert(next[i as int].author_id == author);
            assert forall|user: u64| waiting@.contains(user) <==> foreign_author(
                next,
                author_id,
                user,
            ) by {
                if foreign_author(next, author_id, user) {
                    let k = choose|k: int| 0 <= k < next.len() && (#[trigger] next[k]).author_id == user;
                    if k < i {
                        assert(seen[k].author_id == user);
                        assert(foreign_author(seen, author_id, user));
                    }
                }
                if waiting@.contains(user) {
                    if before.contains(user) {
                        let k = choose|k: int| 0 <= k < seen.len() && (#[trigger] seen[k]).author_id == user;
                        assert(next[k].author_id == user);
                    } else {
                        assert(next[i as int].author_id == user);
                    }
                }
            }
        }
        i += 1;
    }
    assert(all.take(messages.len() as int) =~= all);
    waiting
}

/// One consent session: the answers for one move.
pub struct ConsentSession {
    target_message_ids: Vec<u64>,
    pending_authors: Vec<u64>,
    prompt_message_id: Option<u64>,
    phase: ConsentPhase,
}

impl View for ConsentSession {
    type V = SessionView;

    closed spec fn view(&self) -> SessionView {
        SessionView {
            targets: self.target_message_ids@,
            pending: self.pending_authors@,
            prompt: self.prompt_message_id,
            phase: self.phase,
        }
    }
}

/// The ids of the messages, in order.
pub open spec fn ids_of(messages: Seq<MessageView>) -> Seq<u64> {
    Seq::new(messages.len(), |i: int| messages[i].id)
}

impl ConsentSession {
    /// The invariant of the session.
    pub open spec fn wf(&self) -> bool {
        consent_wf(self@)
    }

    /// Opens the session for a move of `messages` asked for by `initiator`.
    ///
    /// Where the initiator may override, or nobody else wrote any of the
    /// messages, the session is bypassed: it counts as approved and no prompt
    /// is returned. Otherwise the session starts collecting, and the returned
    /// text is the prompt to post, which names everyone who has to agree.
    pub fn begin(messages: &Vec<CachedMessage>, initiator: u64, has_override: bool) -> (opened: (
        ConsentSession,
        Option<String>,
    ))
        ensures
            opened.0.wf(),
            opened.0@.targets == ids_of(messages.deep_view()),
            opened.0@.prompt.is_none(),
            has_override ==> opened.0@.pending.len() == 0,
            !has_override ==> lists_foreign_authors(
                opened.0@.pending,
                messages.deep_view(),
                initiator,
            ),
            opened.0@.phase == if opened.0@.pending.len() == 0 {
                ConsentPhase::Bypassed
            } else {
                ConsentPhase::Collecting
            },
            opened.1.is_none() == (opened.0@.pending.len() == 0),
            opened.1.is_some() ==> opened.1.unwrap()@ == prompt_text(opened.0@.pending),
    {
        let mut targets: Vec<u64> = Vec::new();
        let mut i: usize = 0;
        while i < messages.len()
            invariant
                i <= messages.len(),
                targets@.len() == i,
                forall|j: int| 0 <= j < i ==> targets@[j] == (#[trigger] messages@[j]).id,
            decreases messages.len() - i,
        {
            targets.push(messages[i].id);
            i += 1;
        }
        assert(targets@ =~= ids_of(messages.deep_view()));
        let pending = if has_override {
            Vec::new()
        } else {
            get_agree_waiting(messages, initiator)
        };
        if pending.len() == 0 {
            let session = ConsentSession {
                target_message_ids: targets,
                pending_authors: pending,
                prompt_message_id: None,
                phase: ConsentPhase::Bypassed,
            };
            (session, None)
        } else {
            let content = get_agree_message_content(&pending);
            let session = ConsentSession {
                target_message_ids: targets,
                pending_authors: pending,
                prompt_message_id: None,
                phase: ConsentPhase::Collecting,
            };
            (session, Some(content))
        }
    }

    /// Records the id under which the prompt was posted. Only answers to that
    /// message count from now on. A session that is not collecting, or that
    /// already has its prompt, is left as it is.
    pub fn prompt_posted(&mut self, message_id: u64)
        ensures
            final(self)@ == if old(self)@.phase == ConsentPhase::Collecting && old(
                self,
            )@.prompt.is_none() {
                (SessionView { prompt: Some(message_id), ..old(self)@ })
            } else {
                old(self)@
            },
            old(self).wf() ==> final(self).wf(),
    {
        if self.phase == ConsentPhase::Collecting && self.prompt_message_id.is_none() {
            self.prompt_message_id = Some(message_id);
        }
    }

    /// Feeds one event to the session and says what to do next.
    ///
    /// An answer counts only if the session is collecting, the answer was
    /// given on the session's own prompt, and it comes from someone whose
    /// answer is awaited; any other answer changes nothing. An agreement
    /// strikes its author from the list and approves the move once the list
    /// is empty. A refusal resolves the session at once. The end of the
    /// stream abandons a session that is still collecting.
    pub fn step(&mut self, event: ConsentEvent) -> (action: ConsentAction)
        requires
            old(self).wf(),
        ensures
            final(self)@ == consent_step(old(self)@, event),
            action.deep_view() == consent_reaction(old(self)@, event),
            final(self).wf(),
    {
        match event {
            ConsentEvent::Agree { message_id, user_id } => {
                match self.awaited(message_id, user_id) {
                    Some(at) => {
                        proof {
                            lemma_without(self.pending_authors@, user_id);
                            let chosen = self.pending_authors@.index_of(user_id);
                            assert(chosen == at) by {
                                if chosen < at {
                                    assert(self.pending_authors@[chosen] < self.pending_authors@[at as int]);
                                } else if at < chosen {
                                    assert(self.pending_authors@[at as int] < self.pending_authors@[chosen]);
                                }
                            }
                        }
                        self.pending_authors.remove(at);
                        if self.pending_authors.len() == 0 {
                            self.phase = ConsentPhase::Approved;
                            ConsentAction::Resolve(ConsentOutcome::Approved)
                        } else {
                            ConsentAction::Rerender {
                                content: get_agree_message_content(&self.pending_authors),
                            }
                        }
                    },
                    None => ConsentAction::Ignore,
                }
            },
            ConsentEvent::Refuse { message_id, user_id } => {
                match self.awaited(message_id, user_id) {
                    Some(_) => {
                        self.phase = ConsentPhase::Refused;
                        ConsentAction::Resolve(ConsentOutcome::Refused)
                    },
                    None => ConsentAction::Ignore,
                }
            },
            ConsentEvent::StreamEnded => {
                if self.phase == ConsentPhase::Collecting {
                    self.phase = ConsentPhase::Abandoned;
                    ConsentAction::Resolve(ConsentOutcome::Abandoned)
                } else {
                    ConsentAction::Ignore
                }
            },
        }
    }

    /// The place of `user_id` among the awaited authors, if the answer
    /// concerns this session.
    fn awaited(&self, message_id: u64, user_id: u64) -> (at: Option<usize>)
        ensures
            at.is_some() == concerns(self@, message_id, user_id),
            at.is_some() ==> at.unwrap() < self.pending_authors@.len()
                && self.pending_authors@[at.unwrap() as int] == user_id,
    {
        if self.phase != ConsentPhase::Collecting {
            return None;
        }
        match self.prompt_message_id {
            Some(prompt) => {
                if prompt != message_id {
                    return None;
                }
            },
            None => {
                return None;
            },
        }
        let mut i: usize = 0;
        while i < self.pending_authors.len()
            invariant
                i <= self.pending_authors.len(),
                self.phase == ConsentPhase::Collecting,
                self.prompt_message_id == Some(message_id),
                forall|j: int| 0 <= j < i ==> self.pending_authors@[j] != user_id,
            decreases self.pending_authors.len() - i,
        {
            if self.pending_authors[i] == user_id {
                assert(self@.pending[i as int] == user_id);
                return Some(i);
            }
            i += 1;
        }
        None
    }

    /// What the session has decided so far.
    pub fn outcome(&self) -> (outcome: ConsentOutcome)
        ensures
            outcome == outcome_of(self@.phase),
    {
        match self.phase {
            ConsentPhase::Bypassed => ConsentOutcome::Approved,
            ConsentPhase::Collecting => ConsentOutcome::Pending,
            ConsentPhase::Approved => ConsentOutcome::Approved,
            ConsentPhase::Refused => ConsentOutcome::Refused,
            ConsentPhase::Abandoned => ConsentOutcome::Abandoned,
        }
    }

    /// Where the session stands.
    pub fn phase(&self) -> (phase: ConsentPhase)
        ensures
            phase == self@.phase,
    {
        self.phase
    }

    /// The id of the prompt message, once it has been posted.
    pub fn prompt_message_id(&self) -> (id: Option<u64>)
        ensures
            id == self@.prompt,
    {
        self.prompt_message_id
    }

    /// The authors whose agreement is awaited, in ascending order.
    pub fn pending_authors(&self) -> (pending: &Vec<u64>)
        ensures
            pending@ == self@.pending,
    {
        &self.pending_authors
    }

    /// The ids of the messages to move.
    pub fn target_message_ids(&self) -> (targets: &Vec<u64>)
        ensures
            targets@ == self@.targets,
    {
        &self.target_message_ids
    }
}

} // verus!
