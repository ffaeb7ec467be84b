//! Laws of the migration pipeline, stated over its mathematical model.

use vstd::prelude::*;
use crate::consent::{concerns, outcome_of, ConsentEvent, ConsentOutcome};
use crate::consent_laws::lemma_step_keeps_wf;
use crate::pipeline::{
    migration_wf, opening, pipeline_step, removal, MigrationView, PipelineActionView, PipelineEvent, Report,
    Stage,
};
use crate::plan::{delete_op_of, DeleteOpView, SEND_DELAY_SECONDS};

verus! {

/// Every event leaves a well-formed move well formed.
pub proof fn lemma_pipeline_step_keeps_wf(v: MigrationView, event: PipelineEvent)
    requires
        migration_wf(v),
    ensures
        migration_wf(pipeline_step(v, event).0),
{
    match event {
        PipelineEvent::Answer(answer) => {
            lemma_step_keeps_wf(v.session, answer);
        },
        _ => {},
    }
}

/// A post is asked for only after consent, and the posts go out in the order
/// of the plan: the one asked for is the first that has not gone out yet.
pub proof fn lemma_posts_need_consent(v: MigrationView, event: PipelineEvent)
    requires
        migration_wf(v),
    ensures
        match pipeline_step(v, event).1 {
            PipelineActionView::Send { target, replica } => {
                let after = pipeline_step(v, event).0;
                &&& outcome_of(after.session.phase) == ConsentOutcome::Approved
                &&& after.sent < after.replicas.len()
                &&& replica == after.replicas[after.sent as int]
                &&& target == v.target
            },
            _ => true,
        },
{
    match event {
        PipelineEvent::Answer(answer) => {
            lemma_step_keeps_wf(v.session, answer);
        },
        _ => {},
    }
}

/// The originals are removed only after consent and only when every post of
/// the plan has gone out; exactly one message is removed with the
/// single-delete operation, more with one bulk-delete.
pub proof fn lemma_removal_comes_last(v: MigrationView, event: PipelineEvent)
    requires
        migration_wf(v),
    ensures
        match pipeline_step(v, event).1 {
            PipelineActionView::Delete(op) => {
                let after = pipeline_step(v, event).0;
                &&& outcome_of(after.session.phase) == ConsentOutcome::Approved
                &&& after.sent == after.replicas.len()
                &&& op == delete_op_of(v.session.targets, v.source_channel)
                &&& v.session.targets.len() == 1 ==> op == (DeleteOpView::Single {
                    channel_id: v.source_channel,
                    message_id: v.session.targets[0],
                })
                &&& v.session.targets.len() > 1 ==> op == (DeleteOpView::Bulk {
                    channel_id: v.source_channel,
                    message_ids: v.session.targets,
                })
            },
            _ => true,
        },
{
    match event {
        PipelineEvent::Answer(answer) => {
            lemma_step_keeps_wf(v.session, answer);
        },
        _ => {},
    }
}

/// When the last post of the plan has gone out, the removal of the
/// originals follows at once; when more are planned, the pause follows and
/// the count of posts goes up by one.
pub proof fn lemma_removal_follows_the_last_post(v: MigrationView)
    requires
        migration_wf(v),
        v.stage == Stage::Sending,
    ensures
        v.sent + 1 == v.replicas.len() ==> pipeline_step(v, PipelineEvent::Sent) == removal(
            MigrationView { sent: (v.sent + 1) as usize, ..v },
        ),
        v.sent + 1 < v.replicas.len() ==> pipeline_step(v, PipelineEvent::Sent) == (
            MigrationView { sent: (v.sent + 1) as usize, stage: Stage::Pausing, ..v },
            PipelineActionView::Pause { seconds: SEND_DELAY_SECONDS },
        ),
        pipeline_step(v, PipelineEvent::Sent).0.sent == v.sent + 1,
{
}

/// A refusal from someone whose answer is awaited asks for the removal of
/// the prompt and nothing else; when that is done the move ends as
/// cancelled, with no post sent.
pub proof fn lemma_refusal_removes_only_the_prompt(v: MigrationView, message_id: u64, user_id: u64)
    requires
        migration_wf(v),
        v.stage == Stage::Consent,
        concerns(v.session, message_id, user_id),
    ensures
        ({
            let refusal = PipelineEvent::Answer(ConsentEvent::Refuse { message_id, user_id });
            let (refused, first) = pipeline_step(v, refusal);
            let (ended, second) = pipeline_step(refused, PipelineEvent::Deleted);
            &&& first == (PipelineActionView::DeletePrompt {
                channel_id: v.source_channel,
                message_id,
            })
            &&& refused.stage == Stage::Cleanup
            &&& second == PipelineActionView::Finish(Report::Cancelled)
            &&& ended.stage == Stage::Done
            &&& ended.sent == 0
        }),
{
}

/// When the answers stop coming the move ends at once as indeterminate:
/// nothing is posted and nothing is removed.
pub proof fn lemma_abandonment_touches_nothing(v: MigrationView)
    requires
        migration_wf(v),
        v.stage == Stage::Consent,
    ensures
        ({
            let (ended, action) = pipeline_step(v, PipelineEvent::Answer(ConsentEvent::StreamEnded));
            &&& action == PipelineActionView::Finish(Report::Indeterminate)
            &&& ended.stage == Stage::Done
            &&& ended.sent == 0
        }),
{
}

/// A failure of the platform ends the move where it stands and reports how
/// many posts had gone out; nothing is asked for to undo them.
pub proof fn lemma_failure_reports_progress(v: MigrationView)
    requires
        v.stage != Stage::Done,
    ensures
        pipeline_step(v, PipelineEvent::ApiError).1 == PipelineActionView::Finish(
            Report::Failed { sent: v.sent },
        ),
        pipeline_step(v, PipelineEvent::ApiError).0.stage == Stage::Done,
        pipeline_step(v, PipelineEvent::ApiError).0.sent == v.sent,
{
}

/// Once a move has ended, every event is answered with its report and
/// changes nothing.
pub proof fn lemma_done_is_final(v: MigrationView, event: PipelineEvent)
    requires
        v.stage == Stage::Done,
    ensures
        pipeline_step(v, event) == (v, PipelineActionView::Finish(v.report)),
{
}

/// A move for which nobody has to be asked posts no prompt: its first action
/// is the first post, or the removal where nothing is to be posted.
pub proof fn lemma_no_prompt_without_pending(v: MigrationView)
    requires
        v.session.pending.len() == 0,
    ensures
        !(opening(v).1 is PostPrompt),
        !(opening(v).1 is EditPrompt),
{
}

} // verus!
