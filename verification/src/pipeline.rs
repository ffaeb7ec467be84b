//! The migration pipeline.
//!
//! A move is validated as a whole before anything is changed. After that the
//! pipeline is a state machine: it names the next thing to do, the caller
//! does it against the platform and reports what happened, and the pipeline
//! names the next thing. Posts go out oldest first, one at a time with a
//! pause in between, and only after consent; the originals are removed last.
//! A failure of the platform stops the move where it stands; what was posted
//! before stays posted.

use vstd::prelude::*;
use vstd::string::StringExecFns;
use crate::cache::Cache;
use crate::consent::{
    consent_reaction, consent_step, consent_wf, ids_of, lists_foreign_authors, outcome_of,
    ActionView, ConsentAction, ConsentEvent, ConsentOutcome, ConsentPhase, ConsentSession,
    SessionView,
};
use crate::errors::{err_reply, fallback_text, CustomError, Failure};
use crate::message::{CachedMessage, MessageView};
use crate::plan::{
    check_permissions, delete_messages, delete_op_of, has_override, holds, is_verdict,
    make_webhooks, permission_verdict, replicas_of, validate_targets, DeleteOp, DeleteOpView,
    Permissions, PostTarget, Replica, ReplicaView, MANAGE_MESSAGES, SEND_DELAY_SECONDS,
};
use crate::text::{decimal_string, decimal_text, prompt_text};
use crate::window::newest_first;

verus! {

/// How a move ended.
#[derive(Clone, Copy, Debug, PartialEq, Eq, Structural)]
pub enum Report {
    /// Everything was posted and the originals are gone.
    Moved,
    /// Someone refused; nothing was posted and no original was removed.
    Cancelled,
    /// The answers stopped coming; nothing was posted or removed.
    Indeterminate,
    /// The platform failed after `sent` posts had gone out.
    Failed { sent: usize },
}

/// What the initiator is told at the end of a move.
pub open spec fn report_text(report: Report) -> Seq<char> {
    match report {
        Report::Moved => "done :incoming_envelope:"@,
        Report::Cancelled => "someone refused, so i didn't move anything"@,
        Report::Indeterminate =>
            "the message with the buttons is gone, so i didn't move anything"@,
        Report::Failed { sent } => fallback_text() + " (messages already moved: "@ + decimal_text(
            sent as nat,
        ) + ")"@,
    }
}

/// Composes what the initiator is told at the end of a move. A move that
/// failed half way says how many messages had been moved by then.
pub fn report_message(report: Report) -> (text: String)
    ensures
        text@ == report_text(report),
{
    match report {
        Report::Moved => String::from_str("done :incoming_envelope:"),
        Report::Cancelled => String::from_str("someone refused, so i didn't move anything"),
        Report::Indeterminate => String::from_str(
            "the message with the buttons is gone, so i didn't move anything",
        ),
        Report::Failed { sent } => {
            let mut text = err_reply(&Failure::Upstream);
            let count = decimal_string(sent as u64);
            text.append(" (messages already moved: ");
            text.append(count.as_str());
            text.append(")");
            text
        },
    }
}

/// What the pipeline is waiting for.
#[derive(Clone, Copy, Debug, PartialEq, Eq, Structural)]
pub enum Stage {
    /// The prompt's id, or an answer to the prompt.
    Consent,
    /// The outcome of a post.
    Sending,
    /// The end of the pause between two posts.
    Pausing,
    /// The removal of the originals.
    Deleting,
    /// The removal of the prompt.
    Cleanup,
    /// Nothing: the move has ended.
    Done,
}

/// What the caller reports to the pipeline.
#[derive(Clone, Copy, Debug, PartialEq, Eq, Structural)]
pub enum PipelineEvent {
    /// The prompt was posted under the given id.
    PromptPosted { message_id: u64 },
    /// An answer arrived, or the stream of answers ended.
    Answer(ConsentEvent),
    /// The post went out.
    Sent,
    /// The pause is over.
    Paused,
    /// The removal succeeded.
    Deleted,
    /// The platform refused or failed the last request.
    ApiError,
}

/// What the pipeline asks the caller to do.
#[derive(Debug)]
pub enum PipelineAction {
    /// Post the consent prompt with its two buttons, then report its id.
    PostPrompt { content: String },
    /// Nothing new: go on waiting and report the next event.
    Wait,
    /// Show the prompt with this content.
    EditPrompt { content: String },
    /// Post the replica through the endpoint of the target.
    Send { target: PostTarget, replica: Replica },
    /// Let the given number of seconds pass.
    Pause { seconds: u64 },
    /// Remove the originals with the given operation.
    Delete(DeleteOp),
    /// Remove the prompt with the single-delete operation.
    DeletePrompt { channel_id: u64, message_id: u64 },
    /// Tell the initiator how the move ended.
    Finish(Report),
}

/// The mathematical value of a `PipelineAction`.
pub enum PipelineActionView {
    PostPrompt { content: Seq<char> },
    Wait,
    EditPrompt { content: Seq<char> },
    Send { target: PostTarget, replica: ReplicaView },
    Pause { seconds: u64 },
    Delete(DeleteOpView),
    DeletePrompt { channel_id: u64, message_id: u64 },
    Finish(Report),
}

impl DeepView for PipelineAction {
    type V = PipelineActionView;

    open spec fn deep_view(&self) -> PipelineActionView {
        match self {
            PipelineAction::PostPrompt { content } => PipelineActionView::PostPrompt {
                content: content@,
            },
            PipelineAction::Wait => PipelineActionView::Wait,
            PipelineAction::EditPrompt { content } => PipelineActionView::EditPrompt {
                content: content@,
            },
            PipelineAction::Send { target, replica } => PipelineActionView::Send {
                target: *target,
                replica: replica.deep_view(),
            },
            PipelineAction::Pause { seconds } => PipelineActionView::Pause { seconds: *seconds },
            PipelineAction::Delete(op) => PipelineActionView::Delete(op.deep_view()),
            PipelineAction::DeletePrompt { channel_id, message_id } => PipelineActionView::DeletePrompt {
                channel_id: *channel_id,
                message_id: *message_id,
            },
            PipelineAction::Finish(report) => PipelineActionView::Finish(*report),
        }
    }
}

/// The mathematical value of a `Migration`.
pub struct MigrationView {
    /// The channel the messages leave.
    pub source_channel: u64,
    /// Where the replicas are posted.
    pub target: PostTarget,
    pub session: SessionView,
    /// The posts of the move, oldest first.
    pub replicas: Seq<ReplicaView>,
    /// How many posts have gone out.
    pub sent: usize,
    pub stage: Stage,
    /// How the move ended, or will end once the prompt is removed.
    pub report: Report,
}

/// The move ends with the given report.
pub open spec fn finish(v: MigrationView, report: Report) -> (MigrationView, PipelineActionView) {
    (MigrationView { stage: Stage::Done, report, ..v }, PipelineActionView::Finish(report))
}

/// The prompt, if one was posted, is removed before the move ends.
pub open spec fn cleanup(v: MigrationView, report: Report) -> (MigrationView, PipelineActionView) {
    match v.session.prompt {
        Some(message_id) => (
            MigrationView { stage: Stage::Cleanup, report, ..v },
            PipelineActionView::DeletePrompt { channel_id: v.source_channel, message_id },
        ),
        None => finish(v, report),
    }
}

/// The originals are removed: one message with the single-delete operation,
/// more with one bulk-delete.
pub open spec fn removal(v: MigrationView) -> (MigrationView, PipelineActionView) {
    match delete_op_of(v.session.targets, v.source_channel) {
        DeleteOpView::Nothing => cleanup(v, Report::Moved),
        op => (MigrationView { stage: Stage::Deleting, ..v }, PipelineActionView::Delete(op)),
    }
}

/// The next post goes out, or, when all have gone out, the originals are
/// removed.
pub open spec fn proceed(v: MigrationView) -> (MigrationView, PipelineActionView) {
    if v.sent < v.replicas.len() {
        (
            MigrationView { stage: Stage::Sending, ..v },
            PipelineActionView::Send { target: v.target, replica: v.replicas[v.sent as int] },
        )
    } else {
        removal(v)
    }
}

/// The session once its prompt has been posted.
pub open spec fn with_prompt(s: SessionView, message_id: u64) -> SessionView {
    if s.phase == ConsentPhase::Collecting && s.prompt.is_none() {
        SessionView { prompt: Some(message_id), ..s }
    } else {
        s
    }
}

/// The first step of a move that passed validation: the prompt is posted if
/// anyone has to agree, else the move proceeds at once.
pub open spec fn opening(v: MigrationView) -> (MigrationView, PipelineActionView) {
    if v.session.pending.len() == 0 {
        proceed(v)
    } else {
        (v, PipelineActionView::PostPrompt { content: prompt_text(v.session.pending) })
    }
}

/// The pipeline after an event, and what it asks for.
pub open spec fn pipeline_step(v: MigrationView, event: PipelineEvent) -> (
    MigrationView,
    PipelineActionView,
) {
    if v.stage == Stage::Done {
        (v, PipelineActionView::Finish(v.report))
    } else if event == PipelineEvent::ApiError {
        finish(v, Report::Failed { sent: v.sent })
    } else {
        match (v.stage, event) {
            (Stage::Consent, PipelineEvent::PromptPosted { message_id }) => (
                MigrationView { session: with_prompt(v.session, message_id), ..v },
                PipelineActionView::Wait,
            ),
            (Stage::Consent, PipelineEvent::Answer(answer)) => {
                let heard = MigrationView { session: consent_step(v.session, answer), ..v };
                match consent_reaction(v.session, answer) {
                    ActionView::Ignore => (heard, PipelineActionView::Wait),
                    ActionView::Rerender { content } => (
                        heard,
                        PipelineActionView::EditPrompt { content },
                    ),
                    ActionView::Resolve(ConsentOutcome::Approved) => proceed(heard),
                    ActionView::Resolve(ConsentOutcome::Refused) => cleanup(
                        heard,
                        Report::Cancelled,
                    ),
                    ActionView::Resolve(_) => finish(heard, Report::Indeterminate),
                }
            },
            (Stage::Sending, PipelineEvent::Sent) => {
                let posted = MigrationView { sent: (v.sent + 1) as usize, ..v };
                if posted.sent < posted.replicas.len() {
                    (
                        MigrationView { stage: Stage::Pausing, ..posted },
                        PipelineActionView::Pause { seconds: SEND_DELAY_SECONDS },
                    )
                } else {
                    removal(posted)
                }
            },
            (Stage::Pausing, PipelineEvent::Paused) => proceed(v),
            (Stage::Deleting, PipelineEvent::Deleted) => cleanup(v, Report::Moved),
            (Stage::Cleanup, PipelineEvent::Deleted) => finish(v, v.report),
            _ => (v, PipelineActionView::Wait),
        }
    }
}

/// The invariant of a move: posts are counted within the plan, and posting
/// and removal happen only after consent.
pub open spec fn migration_wf(v: MigrationView) -> bool {
    &&& consent_wf(v.session)
    &&& v.replicas.len() <= usize::MAX
    &&& v.sent <= v.replicas.len()
    &&& v.stage == Stage::Consent ==> v.sent == 0 && v.session.phase == ConsentPhase::Collecting
    &&& v.stage == Stage::Sending || v.stage == Stage::Pausing ==> v.sent < v.replicas.len()
    &&& v.stage == Stage::Sending || v.stage == Stage::Pausing || v.stage == Stage::Deleting
        ==> outcome_of(v.session.phase) == ConsentOutcome::Approved
    &&& v.stage == Stage::Cleanup ==> v.session.prompt.is_some()
}

/// What is needed to start a move.
#[derive(Debug)]
pub struct MoveRequest {
    /// The person who asked for the move.
    pub initiator: u64,
    /// The initiator's permissions in the source channel.
    pub initiator_permissions: u64,
    /// What the permission evaluator found.
    pub permissions: Permissions,
    pub source_channel: u64,
    /// The kind of the destination channel.
    pub destination_kind: u8,
    /// Where the replicas are posted.
    pub target: PostTarget,
    /// The messages to move, oldest first.
    pub targets: Vec<CachedMessage>,
    /// The current time in seconds since the Unix epoch.
    pub now: u64,
}

/// The verdict on a request: permissions come first, then the target set.
pub open spec fn is_start_verdict(
    permissions: Permissions,
    destination_kind: u8,
    targets: Seq<MessageView>,
    now: u64,
    verdict: Result<(), CustomError>,
) -> bool {
    if permission_verdict(permissions, destination_kind).is_err() {
        verdict == permission_verdict(permissions, destination_kind)
    } else {
        is_verdict(targets, now, verdict)
    }
}

/// One move in progress.
pub struct Migration {
    source_channel: u64,
    target: PostTarget,
    session: ConsentSession,
    replicas: Vec<Replica>,
    sent: usize,
    stage: Stage,
    report: Report,
}

impl View for Migration {
    type V = MigrationView;

    closed spec fn view(&self) -> MigrationView {
        MigrationView {
            source_channel: self.source_channel,
            target: self.target,
            session: self.session@,
            replicas: self.replicas.deep_view(),
            sent: self.sent,
            stage: self.stage,
            report: self.report,
        }
    }
}

/// The newest `message_count` messages of a channel, oldest first, as the
/// target set of a move.
///
/// `None` means that the channel has no window at all: the engine has never
/// seen a message there, and a move cannot go on. A channel whose window is
/// there gets `Some`, also where the window holds fewer messages than were
/// asked for, or none.
pub fn get_messages(cache: &Cache, channel_id: u64, message_count: usize) -> (targets: Option<
    Vec<CachedMessage>,
>)
    ensures
        targets.is_some() == cache.windows().contains_key(channel_id),
        targets.is_some() ==> targets.unwrap().deep_view() == newest_first(
            cache.windows()[channel_id],
            message_count as nat,
        ).reverse(),
        targets.is_some() ==> targets.unwrap()@.len() == if message_count
            < cache.windows()[channel_id].len() {
            message_count as nat
        } else {
            cache.windows()[channel_id].len()
        },
{
    match cache.query(channel_id, message_count) {
        Some(newest) => {
            let targets = crate::cache::reversed(newest);
            assert(targets.deep_view().len() == targets@.len());
            Some(targets)
        },
        None => None,
    }
}

impl Migration {
    /// The invariant of the move.
    pub open spec fn wf(&self) -> bool {
        migration_wf(self@)
    }

    /// Validates a request and starts the move.
    ///
    /// Nothing has been changed when this returns an error: the permissions
    /// are judged first, then the number and the age of the messages, then
    /// whether each message can be replayed. On success the consent session
    /// is open and the first action is returned: the prompt to post where
    /// someone has to agree, else the first post.
    pub fn start(request: MoveRequest) -> (started: Result<(Migration, PipelineAction), CustomError>)
        ensures
            is_start_verdict(
                request.permissions,
                request.destination_kind,
                request.targets.deep_view(),
                request.now,
                match started {
                    Ok(_) => Ok(()),
                    Err(e) => Err(e),
                },
            ),
            started.is_ok() ==> ({
                let migration = started.unwrap().0;
                let action = started.unwrap().1;
                let session = migration@.session;
                let targets = request.targets.deep_view();
                &&& migration.wf()
                &&& session.targets == ids_of(targets)
                &&& session.prompt.is_none()
                &&& holds(request.initiator_permissions, MANAGE_MESSAGES) ==> session.pending.len() == 0
                &&& !holds(request.initiator_permissions, MANAGE_MESSAGES) ==> lists_foreign_authors(
                    session.pending,
                    targets,
                    request.initiator,
                )
                &&& session.phase == if session.pending.len() == 0 {
                    ConsentPhase::Bypassed
                } else {
                    ConsentPhase::Collecting
                }
                &&& (migration@, action.deep_view()) == opening(
                    MigrationView {
                        source_channel: request.source_channel,
                        target: request.target,
                        session,
                        replicas: replicas_of(targets),
                        sent: 0,
                        stage: Stage::Consent,
                        report: Report::Indeterminate,
                    },
                )
            }),
    {
        match check_permissions(&request.permissions, request.destination_kind) {
            Err(e) => {
                return Err(e);
            },
            Ok(_) => {},
        }
        match validate_targets(&request.targets, request.now) {
            Err(e) => {
                return Err(e);
            },
            Ok(_) => {},
        }
        let (session, prompt) = ConsentSession::begin(
            &request.targets,
            request.initiator,
            has_override(request.initiator_permissions),
        );
        let replicas = make_webhooks(&request.targets);
        let planned: usize = replicas.len();
        assert(replicas.deep_view().len() == planned);
        let mut migration = Migration {
            source_channel: request.source_channel,
            target: request.target,
            session,
            replicas,
            sent: 0,
            stage: Stage::Consent,
            report: Report::Indeterminate,
        };
        match prompt {
            Some(content) => Ok((migration, PipelineAction::PostPrompt { content })),
            None => {
                let action = migration.proceed();
                Ok((migration, action))
            },
        }
    }

    fn finish(&mut self, report: Report) -> (action: PipelineAction)
        ensures
            (final(self)@, action.deep_view()) == finish(old(self)@, report),
    {
        self.stage = Stage::Done;
        self.report = report;
        PipelineAction::Finish(report)
    }

    fn cleanup(&mut self, report: Report) -> (action: PipelineAction)
        ensures
            (final(self)@, action.deep_view()) == cleanup(old(self)@, report),
    {
        match self.session.prompt_message_id() {
            Some(message_id) => {
                self.stage = Stage::Cleanup;
                self.report = report;
                PipelineAction::DeletePrompt { channel_id: self.source_channel, message_id }
            },
            None => self.finish(report),
        }
    }

    fn removal(&mut self) -> (action: PipelineAction)
        ensures
            (final(self)@, action.deep_view()) == removal(old(self)@),
    {
        let op = delete_messages(self.session.target_message_ids(), self.source_channel);
        match op {
            DeleteOp::Nothing => self.cleanup(Report::Moved),
            op => {
                self.stage = Stage::Deleting;
                PipelineAction::Delete(op)
            },
        }
    }

    fn proceed(&mut self) -> (action: PipelineAction)
        ensures
            (final(self)@, action.deep_view()) == proceed(old(self)@),
    {
        if self.sent < self.replicas.len() {
            self.stage = Stage::Sending;
            let replica = self.replicas[self.sent].duplicate();
            PipelineAction::Send { target: self.target, replica }
        } else {
            self.removal()
        }
    }

    /// Feeds one event to the pipeline and says what to do next.
    ///
    /// An event that the current stage does not wait for changes nothing. A
    /// failure of the platform ends the move and reports how many posts had
    /// gone out. Once the move has ended, every event is answered with the
    /// same report.
    pub fn step(&mut self, event: PipelineEvent) -> (action: PipelineAction)
        requires
            old(self).wf(),
        ensures
            (final(self)@, action.deep_view()) == pipeline_step(old(self)@, event),
            final(self).wf(),
    {
        proof {
            crate::pipeline_laws::lemma_pipeline_step_keeps_wf(self@, event);
        }
        if self.stage == Stage::Done {
            return PipelineAction::Finish(self.report);
        }
        match (self.stage, event) {
            (_, PipelineEvent::ApiError) => self.finish(Report::Failed { sent: self.sent }),
            (Stage::Consent, PipelineEvent::PromptPosted { message_id }) => {
                self.session.prompt_posted(message_id);
                PipelineAction::Wait
            },
            (Stage::Consent, PipelineEvent::Answer(answer)) => {
                match self.session.step(answer) {
                    ConsentAction::Ignore => PipelineAction::Wait,
                    ConsentAction::Rerender { content } => PipelineAction::EditPrompt { content },
                    ConsentAction::Resolve(ConsentOutcome::Approved) => self.proceed(),
                    ConsentAction::Resolve(ConsentOutcome::Refused) => self.cleanup(
                        Report::Cancelled,
                    ),
                    ConsentAction::Resolve(_) => self.finish(Report::Indeterminate),
                }
            },
            (Stage::Sending, PipelineEvent::Sent) => {
                let planned: usize = self.replicas.len();
                assert(self.replicas.deep_view().len() == planned);
                self.sent = self.sent + 1;
                if self.sent < planned {
                    self.stage = Stage::Pausing;
                    PipelineAction::Pause { seconds: SEND_DELAY_SECONDS }
                } else {
                    self.removal()
                }
            },
            (Stage::Pausing, PipelineEvent::Paused) => self.proceed(),
            (Stage::Deleting, PipelineEvent::Deleted) => self.cleanup(Report::Moved),
            (Stage::Cleanup, PipelineEvent::Deleted) => {
                let report = self.report;
                self.finish(report)
            },
            _ => PipelineAction::Wait,
        }
    }

    /// What the pipeline is waiting for.
    pub fn stage(&self) -> (stage: Stage)
        ensures
            stage == self@.stage,
    {
        self.stage
    }

    /// How the move ended; meaningful once the stage is `Done`.
    pub fn report(&self) -> (report: Report)
        ensures
            report == self@.report,
    {
        self.report
    }

    /// How many posts have gone out.
    pub fn sent(&self) -> (sent: usize)
        ensures
            sent == self@.sent,
    {
        self.sent
    }

    /// The consent session of the move.
    pub fn session(&self) -> (session: &ConsentSession)
        ensures
            session@ == self@.session,
    {
        &self.session
    }
}

} // verus!
