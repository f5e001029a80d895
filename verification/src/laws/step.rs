//! What holds of a whole step, whatever answers it gets.

use crate::canonical::{canonical_bytes, holds, json_parsed, parsable, round_trips};
use crate::error::WorkflowError;
use crate::execute::{
    AwaitRecordStored, StepBase, StepCall, StepContent, StepEnding, StepEntity, StepProgress,
    StepPut, StepReady, StepRun,
};
use crate::executor::StepExecutionError;
use crate::finish::error_value;
use crate::ids::{sha256, Sha256};
use crate::instance::{instance_value, record_value};
use crate::plan::{step_plan, StepPlan};
use crate::runs::{law_every_answer_advances, step_follows, step_rank, step_run, Answer};
use crate::status::InstanceStatus;
use crate::step::{StepOutcome, StepRecordWrite, StepResult};
use crate::store::RevisionRow;
use vstd::prelude::*;

verus! {

/// Digest of the subject that asks for a step, as its record keeps it.
pub open spec fn subject_digest(call: StepCall) -> Sha256 {
    sha256(canonical_bytes(call.subject.audit_value())->Ok_0)
}

/// The one record of a step that was asked for with `call`, took the instance
/// from `latest`, and ended so.
pub open spec fn step_record(
    call: StepCall,
    latest: RevisionRow,
    ending: StepEnding,
) -> StepRecordWrite {
    StepRecordWrite {
        instance_id: call.instance_id,
        instance_revision_seq: latest.revision_seq,
        step_seq: (latest.revision_seq + 1) as u64,
        input_hash: sha256(call.input@),
        subject_hash: subject_digest(call),
        outcome: match ending {
            StepEnding::Succeeded { .. } => StepOutcome::Success,
            StepEnding::Failed { .. } => StepOutcome::Failure,
        },
        output_hash: match ending {
            StepEnding::Succeeded { result, .. } => Some(
                sha256(canonical_bytes(result.output@)->Ok_0),
            ),
            StepEnding::Failed { .. } => None,
        },
        error_hash: match ending {
            StepEnding::Succeeded { .. } => None,
            StepEnding::Failed { detail } => Some(
                sha256(canonical_bytes(error_value(detail@))->Ok_0),
            ),
        },
    }
}

/// The plan belongs to this revision of the instance.
pub open spec fn plan_fits(plan: StepPlan, call: StepCall, latest: RevisionRow) -> bool {
    step_plan(latest, call.instance_id.spec_internal()) matches Ok(wanted) && plan == wanted
}

/// The step was asked for with `call`, and its instance read as `latest`.
pub open spec fn base_fits(base: StepBase, call: StepCall, latest: RevisionRow) -> bool {
    base.call == call && base.latest == latest && plan_fits(base.plan, call, latest)
}

/// The step's input and subject have the digests that they are kept under.
pub open spec fn ready_fits(ready: StepReady, call: StepCall, latest: RevisionRow) -> bool {
    &&& base_fits(ready.material.base, call, latest)
    &&& ready.input_hash == sha256(call.input@)
    &&& canonical_bytes(call.subject.audit_value()) is Ok
    &&& ready.subject_hash == subject_digest(call)
}

/// What is kept of the step is what was read and stored.
pub open spec fn run_fits(run: StepRun, call: StepCall, latest: RevisionRow) -> bool {
    &&& run.instance_id == call.instance_id
    &&& run.latest == latest
    &&& step_plan(latest, call.instance_id.spec_internal()) is Ok
    &&& run.status == step_plan(latest, call.instance_id.spec_internal())->Ok_0.status
    &&& run.step_seq == latest.revision_seq + 1
    &&& run.input_hash == sha256(call.input@)
    &&& canonical_bytes(call.subject.audit_value()) is Ok
    &&& run.subject_hash == subject_digest(call)
}

/// The ending is one that the instance can come to, and says what was stored.
pub open spec fn ending_fits(ending: StepEnding, call: StepCall, latest: RevisionRow) -> bool {
    &&& latest@.status() is Ok
    &&& match ending {
        StepEnding::Succeeded { context_hash, result } => {
            &&& latest@.status()->Ok_0.may_become(result.status)
            &&& result.status == InstanceStatus::Running || result.status
                == InstanceStatus::Completed
            &&& result.step_seq == latest.revision_seq + 1
            &&& canonical_bytes(result.context@) is Ok
            &&& context_hash == sha256(canonical_bytes(result.context@)->Ok_0)
            &&& canonical_bytes(result.output@) is Ok
            &&& parsable(result.context@) ==> json_parsed(
                canonical_bytes(result.context@)->Ok_0,
            ) is Ok
            &&& round_trips(result.context@) ==> holds(
                canonical_bytes(result.context@)->Ok_0,
                result.context@,
            )
            &&& parsable(result.output@) ==> json_parsed(
                canonical_bytes(result.output@)->Ok_0,
            ) is Ok
            &&& round_trips(result.output@) ==> holds(
                canonical_bytes(result.output@)->Ok_0,
                result.output@,
            )
        },
        StepEnding::Failed { detail } => {
            &&& latest@.status()->Ok_0.may_become(InstanceStatus::Failed)
            &&& canonical_bytes(error_value(detail@)) is Ok
        },
    }
}

/// Where a step stands fits what it was asked for with and what its instance
/// was read as.
pub open spec fn progress_fits(p: StepProgress, call: StepCall, latest: RevisionRow) -> bool {
    match p {
        StepProgress::GetEntity { then, entity_id } => match then {
            StepEntity::Instance(_) => false,
            StepEntity::Template(base) => base_fits(base, call, latest) && entity_id
                == base.plan.template_id,
            StepEntity::Dataset(with) => ready_fits(with.ready, call, latest),
        },
        StepProgress::GetInstanceRevision { .. } => false,
        StepProgress::GetTemplateRevision { then, template_id, revision_seq } => base_fits(
            then,
            call,
            latest,
        ) && template_id == then.plan.template_id && revision_seq == then.plan.template_seq,
        StepProgress::GetDatasetRevision { then, .. } => ready_fits(then.ready, call, latest),
        StepProgress::ResolvePublic { then, .. } => ready_fits(then.ready, call, latest),
        StepProgress::GetContent { then, .. } => match then {
            StepContent::Script(then) => base_fits(then.base, call, latest),
            StepContent::Config(then) => base_fits(then.base, call, latest),
            StepContent::Context(then) => base_fits(then.base, call, latest),
            StepContent::Args(then) => base_fits(then.base, call, latest),
            StepContent::Data(with) => ready_fits(with.ready, call, latest),
        },
        StepProgress::PutContent { hash, bytes, then } => {
            &&& hash == sha256(bytes@)
            &&& match then {
                StepPut::Input(then) => base_fits(then.material.base, call, latest) && bytes@
                    == call.input@ && then.input_hash == hash,
                StepPut::Subject(then) => {
                    &&& base_fits(then.material.base, call, latest)
                    &&& then.input_hash == sha256(call.input@)
                    &&& canonical_bytes(call.subject.audit_value()) is Ok
                    &&& bytes@ == canonical_bytes(call.subject.audit_value())->Ok_0
                    &&& then.subject_hash == hash
                },
                StepPut::Context(then) => {
                    &&& run_fits(then.run, call, latest)
                    &&& ending_fits(
                        StepEnding::Succeeded {
                            context_hash: then.context_hash,
                            result: then.result,
                        },
                        call,
                        latest,
                    )
                    &&& bytes@ == canonical_bytes(then.result.context@)->Ok_0
                    &&& then.output@ == canonical_bytes(then.result.output@)->Ok_0
                },
                StepPut::Output(then) => {
                    &&& run_fits(then.run, call, latest)
                    &&& ending_fits(
                        StepEnding::Succeeded {
                            context_hash: then.context_hash,
                            result: then.result,
                        },
                        call,
                        latest,
                    )
                    &&& bytes@ == canonical_bytes(then.result.output@)->Ok_0
                    &&& then.output_hash == hash
                },
                StepPut::Error(then) => {
                    &&& run_fits(then.run, call, latest)
                    &&& ending_fits(StepEnding::Failed { detail: then.detail }, call, latest)
                    &&& bytes@ == canonical_bytes(error_value(then.detail@))->Ok_0
                    &&& then.error_hash == hash
                },
            }
        },
        StepProgress::Lower { then, instance_id, step_seq, subject, .. } => {
            &&& run_fits(then.run, call, latest)
            &&& instance_id == call.instance_id
            &&& step_seq == latest.revision_seq + 1
            &&& subject == call.subject
        },
        StepProgress::Execute { then, .. } => run_fits(then.run, call, latest),
        StepProgress::CreateRecord { then } => {
            &&& then.latest == latest
            &&& ending_fits(then.ending, call, latest)
            &&& latest.revision_seq < u64::MAX
            &&& then.write == step_record(call, latest, then.ending)
            &&& canonical_bytes(call.subject.audit_value()) is Ok
        },
        StepProgress::AppendRecord { revision_seq, revision, then, .. } => {
            &&& then.instance_id == call.instance_id
            &&& then.latest == latest
            &&& ending_fits(then.ending, call, latest)
            &&& latest.revision_seq < i64::MAX
            &&& revision_seq == 0
            &&& revision@ == record_value(step_record(call, latest, then.ending))
            &&& canonical_bytes(call.subject.audit_value()) is Ok
        },
        StepProgress::AppendInstance { instance_id, revision_seq, revision, then } => {
            &&& instance_id == call.instance_id
            &&& ending_fits(then.ending, call, latest)
            &&& (AwaitRecordStored {
                instance_id: call.instance_id,
                latest,
                ending: then.ending,
            }).successor() matches Ok((seq, view)) && revision_seq == seq && revision@ == view
        },
        StepProgress::Finished(_) => true,
    }
}

proof fn lemma_entity_fits(
    p: StepProgress,
    answer: Answer,
    q: StepProgress,
    call: StepCall,
    latest: RevisionRow,
)
    requires
        p is GetEntity,
        progress_fits(p, call, latest),
        step_follows(p, answer, q),
    ensures
        progress_fits(q, call, latest),
{
}

proof fn lemma_revision_fits(
    p: StepProgress,
    answer: Answer,
    q: StepProgress,
    call: StepCall,
    latest: RevisionRow,
)
    requires
        p is GetTemplateRevision || p is GetDatasetRevision || p is ResolvePublic,
        progress_fits(p, call, latest),
        step_follows(p, answer, q),
    ensures
        progress_fits(q, call, latest),
{
}

proof fn lemma_content_fits(
    p: StepProgress,
    answer: Answer,
    q: StepProgress,
    call: StepCall,
    latest: RevisionRow,
)
    requires
        p is GetContent,
        progress_fits(p, call, latest),
        step_follows(p, answer, q),
    ensures
        progress_fits(q, call, latest),
{
}

proof fn lemma_put_fits(
    p: StepProgress,
    answer: Answer,
    q: StepProgress,
    call: StepCall,
    latest: RevisionRow,
)
    requires
        p is PutContent,
        progress_fits(p, call, latest),
        step_follows(p, answer, q),
    ensures
        progress_fits(q, call, latest),
{
}

proof fn lemma_executed_fits(
    p: StepProgress,
    answer: Answer,
    q: StepProgress,
    call: StepCall,
    latest: RevisionRow,
)
    requires
        p is Lower || p is Execute,
        progress_fits(p, call, latest),
        step_follows(p, answer, q),
    ensures
        progress_fits(q, call, latest),
{
}

proof fn lemma_written_fits(
    p: StepProgress,
    answer: Answer,
    q: StepProgress,
    call: StepCall,
    latest: RevisionRow,
)
    requires
        p is CreateRecord || p is AppendRecord || p is AppendInstance,
        progress_fits(p, call, latest),
        step_follows(p, answer, q),
    ensures
        progress_fits(q, call, latest),
{
}

/// Each answer keeps what a step has to fit.
proof fn lemma_fits_kept(
    p: StepProgress,
    answer: Answer,
    q: StepProgress,
    call: StepCall,
    latest: RevisionRow,
)
    requires
        progress_fits(p, call, latest),
        step_follows(p, answer, q),
    ensures
        progress_fits(q, call, latest),
{
    match p {
        StepProgress::GetEntity { .. } => lemma_entity_fits(p, answer, q, call, latest),
        StepProgress::GetTemplateRevision { .. }
        | StepProgress::GetDatasetRevision { .. }
        | StepProgress::ResolvePublic { .. } => lemma_revision_fits(p, answer, q, call, latest),
        StepProgress::GetContent { .. } => lemma_content_fits(p, answer, q, call, latest),
        StepProgress::PutContent { .. } => lemma_put_fits(p, answer, q, call, latest),
        StepProgress::Lower { .. } | StepProgress::Execute { .. } => lemma_executed_fits(
            p,
            answer,
            q,
            call,
            latest,
        ),
        StepProgress::CreateRecord { .. }
        | StepProgress::AppendRecord { .. }
        | StepProgress::AppendInstance { .. } => lemma_written_fits(p, answer, q, call, latest),
        StepProgress::GetInstanceRevision { .. } | StepProgress::Finished(_) => {},
    }
}

/// The instance's latest revision, as a run was answered it.
pub open spec fn instance_read(answers: Seq<Answer>) -> Option<RevisionRow> {
    match answers[1] {
        Answer::Revision(Ok(Some(latest))) if answers.len() > 1 => Some(latest),
        _ => None,
    }
}

/// Whatever a run still does after it has read the instance fits what it was
/// asked for with and what it read.
pub proof fn lemma_run_fits(
    call: StepCall,
    progress: Seq<StepProgress>,
    answers: Seq<Answer>,
    i: int,
)
    requires
        step_run(call, progress, answers),
        2 <= i < progress.len(),
        progress[i] !is Finished,
    ensures
        instance_read(answers) is Some,
        progress_fits(progress[i], call, instance_read(answers)->Some_0),
    decreases i,
{
    assert(step_follows(progress[i - 1], answers[i - 1], progress[i]));
    if i == 2 {
        assert(step_follows(progress[0], answers[0], progress[1]));
    } else {
        assert(progress[i - 1] !is Finished);
        lemma_run_fits(call, progress, answers, i - 1);
        lemma_fits_kept(
            progress[i - 1],
            answers[i - 1],
            progress[i],
            call,
            instance_read(answers)->Some_0,
        );
    }
}

/// A run never goes back, and past the lookup of its data it never stays.
pub proof fn lemma_rank_grows(
    call: StepCall,
    progress: Seq<StepProgress>,
    answers: Seq<Answer>,
    i: int,
    j: int,
)
    requires
        step_run(call, progress, answers),
        0 <= i < j < progress.len(),
    ensures
        step_rank(progress[i]) <= step_rank(progress[j]),
        step_rank(progress[i]) != 11 ==> step_rank(progress[i]) < step_rank(progress[j]),
    decreases j - i,
{
    assert(step_follows(progress[j - 1], answers[j - 1], progress[j]));
    law_every_answer_advances(progress[j - 1], answers[j - 1], progress[j]);
    if i < j - 1 {
        lemma_rank_grows(call, progress, answers, i, j - 1);
    }
}

/// A step's record is stored before its instance is changed: when a run asks to
/// append to the instance, it has just been told that the record is stored, and
/// the record is that of this very step.
pub proof fn law_record_before_instance(
    call: StepCall,
    progress: Seq<StepProgress>,
    answers: Seq<Answer>,
    i: int,
)
    requires
        step_run(call, progress, answers),
        0 <= i < progress.len(),
        progress[i] is AppendInstance,
    ensures
        i >= 3,
        answers[i - 1] matches Answer::Stored(Ok(_)),
        instance_read(answers) is Some,
        progress[i - 1] matches StepProgress::AppendRecord { revision_seq, revision, then, .. }
            && revision_seq == 0 && revision@ == record_value(
            step_record(call, instance_read(answers)->Some_0, then.ending),
        ),
{
    if i >= 1 {
        assert(step_follows(progress[i - 1], answers[i - 1], progress[i]));
        if i >= 2 {
            assert(step_follows(progress[i - 2], answers[i - 2], progress[i - 1]));
        }
        if i - 1 >= 2 {
            lemma_run_fits(call, progress, answers, i - 1);
        } else if i == 2 {
            assert(step_follows(progress[0], answers[0], progress[1]));
        }
    }
}

/// A run writes one record at most, and appends to its instance once at most;
/// to nothing else does it append.
pub proof fn law_one_record_one_revision(
    call: StepCall,
    progress: Seq<StepProgress>,
    answers: Seq<Answer>,
    i: int,
    j: int,
)
    requires
        step_run(call, progress, answers),
        0 <= i < progress.len(),
        0 <= j < progress.len(),
    ensures
        progress[i] is CreateRecord && progress[j] is CreateRecord ==> i == j,
        progress[i] is AppendRecord && progress[j] is AppendRecord ==> i == j,
        progress[i] is AppendInstance && progress[j] is AppendInstance ==> i == j,
{
    if i < j {
        lemma_rank_grows(call, progress, answers, i, j);
    } else if j < i {
        lemma_rank_grows(call, progress, answers, j, i);
    }
}

/// Where the executor cannot be reached, the step leaves no trace in the
/// instance's history: nothing is created, no revision is appended, and the
/// only content stored is the step's input and its subject. The failure may be
/// tried again.
pub proof fn law_transport_failure_writes_nothing(
    call: StepCall,
    progress: Seq<StepProgress>,
    answers: Seq<Answer>,
    detail: String,
)
    requires
        step_run(call, progress, answers),
        progress.last() == StepProgress::Finished(
            Err(WorkflowError::ExecutorUnreachable { detail }),
        ),
    ensures
        (WorkflowError::ExecutorUnreachable { detail }).retryable(),
        forall|i: int|
            0 <= i < progress.len() ==> {
                let p = #[trigger] progress[i];
                &&& p !is CreateRecord
                &&& p !is AppendRecord
                &&& p !is AppendInstance
                &&& p matches StepProgress::PutContent { then, .. } ==> then is Input
                    || then is Subject
            },
{
    let last = progress.len() - 1;
    if last > 0 {
        assert(step_follows(progress[last - 1], answers[last - 1], progress[last]));
        lemma_unreachable_comes_from_executor(
            progress[last - 1],
            answers[last - 1],
            progress[last],
        );
        assert forall|i: int| 0 <= i < progress.len() implies ({
            let p = #[trigger] progress[i];
            &&& p !is CreateRecord
            &&& p !is AppendRecord
            &&& p !is AppendInstance
            &&& p matches StepProgress::PutContent { then, .. } ==> then is Input
                || then is Subject
        }) by {
            if i < last - 1 {
                lemma_rank_grows(call, progress, answers, i, last - 1);
            }
        }
    }
}

/// Only the executor's answer makes a step end for want of an executor.
proof fn lemma_unreachable_comes_from_executor(p: StepProgress, answer: Answer, q: StepProgress)
    requires
        step_follows(p, answer, q),
        q matches StepProgress::Finished(Err(WorkflowError::ExecutorUnreachable { .. })),
    ensures
        p is Execute,
{
}

/// A step of an instance that has ended is refused, with the status that the
/// instance ended in, and nothing at all is written.
pub proof fn law_step_of_ended_instance_is_refused(
    call: StepCall,
    progress: Seq<StepProgress>,
    answers: Seq<Answer>,
    latest: RevisionRow,
    status: InstanceStatus,
)
    requires
        step_run(call, progress, answers),
        answers.len() >= 2,
        answers[1] == Answer::Revision(Ok(Some(latest))),
        latest@.status() is Ok,
        latest@.status()->Ok_0 == status,
        status.terminal(),
    ensures
        progress.len() == 3,
        progress[0] is GetEntity,
        progress[1] is GetInstanceRevision,
        progress[2] == StepProgress::Finished(
            Err(
                WorkflowError::InstanceTerminal {
                    instance_id: call.instance_id.spec_internal(),
                    status,
                },
            ),
        ),
{
    assert(step_follows(progress[0], answers[0], progress[1]));
    assert(step_follows(progress[1], answers[1], progress[2]));
    if answers.len() > 2 {
        assert(step_follows(progress[2], answers[2], progress[3]));
    }
}

/// What a successful step leaves behind. The instance's next revision, which
/// has the step's number, holds the digest of the context that the caller gets
/// and the status that the caller gets; its arguments, its template and its
/// tenant are as they were, and the change of status is one of the lifecycle's.
/// Before it comes the step's record: it pins the instance at its revision
/// before the step, and holds the digests of the input, of the subject and of
/// the output that the caller gets. A context and an output that are not nested
/// too deep can be read back, and ones that round-trip are what is read.
pub proof fn law_success_is_written_down(
    call: StepCall,
    progress: Seq<StepProgress>,
    answers: Seq<Answer>,
    result: StepResult,
)
    requires
        step_run(call, progress, answers),
        progress.last() == StepProgress::Finished(Ok(result)),
    ensures
        progress.len() >= 5,
        instance_read(answers) is Some,
        ({
            let latest = instance_read(answers)->Some_0;
            let context_hash = sha256(canonical_bytes(result.context@)->Ok_0);
            let record = progress[progress.len() - 3];
            let change = progress[progress.len() - 2];
            &&& canonical_bytes(result.context@) is Ok
            &&& canonical_bytes(result.output@) is Ok
            &&& canonical_bytes(call.subject.audit_value()) is Ok
            &&& parsable(result.context@) ==> json_parsed(
                canonical_bytes(result.context@)->Ok_0,
            ) is Ok
            &&& round_trips(result.context@) ==> holds(
                canonical_bytes(result.context@)->Ok_0,
                result.context@,
            )
            &&& parsable(result.output@) ==> json_parsed(
                canonical_bytes(result.output@)->Ok_0,
            ) is Ok
            &&& round_trips(result.output@) ==> holds(
                canonical_bytes(result.output@)->Ok_0,
                result.output@,
            )
            &&& result.step_seq == latest.revision_seq + 1
            &&& latest@.status() is Ok
            &&& latest@.status()->Ok_0.may_become(result.status)
            &&& result.status == InstanceStatus::Running || result.status
                == InstanceStatus::Completed
            &&& record matches StepProgress::AppendRecord { revision_seq: 0, revision, .. }
                && revision@ == record_value(
                step_record(call, latest, StepEnding::Succeeded { context_hash, result }),
            )
            &&& change matches StepProgress::AppendInstance {
                instance_id,
                revision_seq,
                revision,
                ..
            } && instance_id == call.instance_id && revision_seq == result.step_seq && revision@
                == instance_value(
                context_hash,
                latest@.content["args"@],
                latest@.entity["template"@],
                latest@.entity["tenant"@],
                result.status,
            )
            &&& answers[answers.len() - 2] matches Answer::Stored(Ok(_))
            &&& answers.last() matches Answer::Stored(Ok(_))
        }),
{
    let last = progress.len() - 1;
    assert(last > 0);
    assert(step_follows(progress[last - 1], answers[last - 1], progress[last]));
    lemma_success_comes_from_stored_instance(
        progress[last - 1],
        answers[last - 1],
        progress[last],
    );
    law_record_before_instance(call, progress, answers, last - 1);
    lemma_run_fits(call, progress, answers, last - 1);
    lemma_run_fits(call, progress, answers, last - 2);
    assert(step_follows(progress[last - 2], answers[last - 2], progress[last - 1]));
}

/// A step succeeds only when the instance's next revision is stored.
proof fn lemma_success_comes_from_stored_instance(
    p: StepProgress,
    answer: Answer,
    q: StepProgress,
)
    requires
        step_follows(p, answer, q),
        q matches StepProgress::Finished(Ok(_)),
    ensures
        p is AppendInstance,
{
}

/// What a failed step leaves behind. The instance's next revision has failed
/// status and the context as it was, like its arguments, its template and its
/// tenant. Before it comes the step's record: it pins the instance at its
/// revision before the step, and holds the digests of the input, of the subject
/// and of the error that the caller gets.
pub proof fn law_failure_is_written_down(
    call: StepCall,
    progress: Seq<StepProgress>,
    answers: Seq<Answer>,
    detail: String,
)
    requires
        step_run(call, progress, answers),
        progress.last() == StepProgress::Finished(
            Err(WorkflowError::StepExecutionFailed { detail }),
        ),
    ensures
        progress.len() >= 5,
        instance_read(answers) is Some,
        ({
            let latest = instance_read(answers)->Some_0;
            let record = progress[progress.len() - 3];
            let change = progress[progress.len() - 2];
            &&& canonical_bytes(error_value(detail@)) is Ok
            &&& canonical_bytes(call.subject.audit_value()) is Ok
            &&& latest@.status() is Ok
            &&& latest@.status()->Ok_0.may_become(InstanceStatus::Failed)
            &&& record matches StepProgress::AppendRecord { revision_seq: 0, revision, .. }
                && revision@ == record_value(
                step_record(call, latest, StepEnding::Failed { detail }),
            )
            &&& change matches StepProgress::AppendInstance {
                instance_id,
                revision_seq,
                revision,
                ..
            } && instance_id == call.instance_id && revision_seq == latest.revision_seq + 1
                && revision@ == instance_value(
                latest@.content["context"@],
                latest@.content["args"@],
                latest@.entity["template"@],
                latest@.entity["tenant"@],
                InstanceStatus::Failed,
            )
            &&& answers[answers.len() - 2] matches Answer::Stored(Ok(_))
            &&& answers.last() matches Answer::Stored(Ok(_))
        }),
{
    let last = progress.len() - 1;
    assert(last > 0);
    assert(step_follows(progress[last - 1], answers[last - 1], progress[last]));
    lemma_failure_comes_from_stored_instance(
        progress[last - 1],
        answers[last - 1],
        progress[last],
    );
    law_record_before_instance(call, progress, answers, last - 1);
    lemma_run_fits(call, progress, answers, last - 1);
    lemma_run_fits(call, progress, answers, last - 2);
    assert(step_follows(progress[last - 2], answers[last - 2], progress[last - 1]));
}

/// A script's failure is reported only when the instance's next revision is
/// stored.
proof fn lemma_failure_comes_from_stored_instance(
    p: StepProgress,
    answer: Answer,
    q: StepProgress,
)
    requires
        step_follows(p, answer, q),
        q matches StepProgress::Finished(Err(WorkflowError::StepExecutionFailed { .. })),
    ensures
        p is AppendInstance,
{
}

/// A record is written only when the script's result is conclusive: before a
/// run creates a record, it was answered by the executor, and not that it could
/// not be reached.
pub proof fn law_record_needs_conclusive_result(
    call: StepCall,
    progress: Seq<StepProgress>,
    answers: Seq<Answer>,
    i: int,
)
    requires
        step_run(call, progress, answers),
        0 <= i < progress.len(),
        progress[i] is CreateRecord,
    ensures
        exists|j: int| #[trigger] concluded(progress, answers, j) && j < i,
{
    lemma_written_after_conclusion(call, progress, answers, i);
}

/// At `j` a run ran the script, and was told what came of it.
pub open spec fn concluded(progress: Seq<StepProgress>, answers: Seq<Answer>, j: int) -> bool {
    &&& 0 <= j < answers.len()
    &&& progress[j] is Execute
    &&& answers[j] matches Answer::Executed(executed) && !(executed matches Err(
        StepExecutionError::Transport(_),
    ))
}

proof fn lemma_written_after_conclusion(
    call: StepCall,
    progress: Seq<StepProgress>,
    answers: Seq<Answer>,
    i: int,
)
    requires
        step_run(call, progress, answers),
        0 <= i < progress.len(),
        13 < step_rank(progress[i]) < 19,
    ensures
        exists|j: int| #[trigger] concluded(progress, answers, j) && j < i,
    decreases i,
{
    assert(i > 0);
    assert(step_follows(progress[i - 1], answers[i - 1], progress[i]));
    lemma_writing_follows(progress[i - 1], answers[i - 1], progress[i]);
    if progress[i - 1] is Execute {
        assert(concluded(progress, answers, i - 1));
    } else {
        lemma_written_after_conclusion(call, progress, answers, i - 1);
    }
}

proof fn lemma_writing_follows(p: StepProgress, answer: Answer, q: StepProgress)
    requires
        step_follows(p, answer, q),
        13 < step_rank(q) < 19,
    ensures
        p is Execute || 13 < step_rank(p) < 19,
{
}

} // verus!
