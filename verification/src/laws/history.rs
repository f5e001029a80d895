//! The whole history of an instance: what its status tells of its steps.

use crate::canonical::CanonicalJson;
use crate::create::CreateProgress;
use crate::entities::{WorkflowInstance, WorkflowTemplate};
use crate::execute::{StepCall, StepEnding, StepProgress};
use crate::ids::{EntityId, Sha256};
use crate::instance::{instance_successor, record_value};
use crate::laws::lifecycle::{
    create_run, law_new_instance_is_pending, transition_follows, transition_run,
};
use crate::laws::records::{law_instance_reads_back, law_record_reads_back};
use crate::laws::step::{
    instance_read, law_one_record_one_revision, law_record_before_instance, lemma_run_fits,
    step_record,
};
use crate::runs::{step_follows, step_run, Answer};
use crate::status::InstanceStatus;
use crate::store::{EntityRefValue, RevisionRow, RevisionView, ScalarValue};
use crate::transition::TransitionProgress;
use vstd::prelude::*;

verus! {

/// What a store has of an instance: its revisions, oldest first, and the
/// revisions of its step records, oldest first.
pub struct InstanceLog {
    /// The instance's revisions.
    pub rows: Seq<RevisionRow>,
    /// The step records that refer to the instance.
    pub records: Seq<RevisionView>,
}

/// An operation on an instance, from its first request to its end.
pub enum Operation {
    /// A step.
    Step { call: StepCall, progress: Seq<StepProgress>, answers: Seq<Answer> },
    /// Completing or cancelling the instance.
    End {
        next_status: InstanceStatus,
        progress: Seq<TransitionProgress>,
        answers: Seq<Answer>,
    },
}

/// The store never failed to store anything.
pub open spec fn all_stored(answers: Seq<Answer>) -> bool {
    forall|i: int|
        0 <= i < answers.len() ==> ((#[trigger] answers[i]) matches Answer::Stored(stored)
            ==> stored is Ok)
}

/// Where the instance's latest revision was asked for and found, it was this.
pub open spec fn read_latest(answers: Seq<Answer>, latest: RevisionRow) -> bool {
    answers.len() > 1 ==> (answers[1] matches Answer::Revision(Ok(Some(row))) ==> row == latest)
}

/// The row is the stored form of what this request appends to the instance.
pub open spec fn step_appends(p: StepProgress, row: RevisionRow) -> bool {
    p matches StepProgress::AppendInstance { revision_seq, revision, .. } && row.revision_seq
        == revision_seq && row@ == revision@
}

/// The row is the stored form of what this request appends to the instance.
pub open spec fn end_appends(p: TransitionProgress, row: RevisionRow) -> bool {
    p matches TransitionProgress::AppendRevision { revision_seq, revision, .. }
        && row.revision_seq == revision_seq && row@ == revision@
}

/// The record is the stored form of what this request appends to a step record.
pub open spec fn records(p: StepProgress, record: RevisionView) -> bool {
    p matches StepProgress::AppendRecord { revision, .. } && record == revision@
}

/// A finished operation, in which the store gave the instance's latest revision
/// and stored all that it was asked to, takes the log so.
pub open spec fn operates(
    instance_id: EntityId<WorkflowInstance>,
    before: InstanceLog,
    operation: Operation,
    after: InstanceLog,
) -> bool {
    match operation {
        Operation::Step { call, progress, answers } => {
            &&& call.instance_id == instance_id
            &&& step_run(call, progress, answers)
            &&& progress.last() is Finished
            &&& all_stored(answers)
            &&& read_latest(answers, before.rows.last())
            &&& ({
                ||| after.rows == before.rows && forall|i: int|
                    0 <= i < progress.len() ==> (#[trigger] progress[i]) !is AppendInstance
                ||| exists|i: int, row: RevisionRow|
                    0 <= i < progress.len() && #[trigger] step_appends(progress[i], row)
                        && after.rows == before.rows.push(row)
            })
            &&& ({
                ||| after.records == before.records && forall|i: int|
                    0 <= i < progress.len() ==> (#[trigger] progress[i]) !is AppendRecord
                ||| exists|i: int, record: RevisionView|
                    0 <= i < progress.len() && #[trigger] records(progress[i], record)
                        && after.records == before.records.push(record)
            })
        },
        Operation::End { next_status, progress, answers } => {
            &&& next_status == InstanceStatus::Completed || next_status
                == InstanceStatus::Cancelled
            &&& transition_run(instance_id, next_status, progress, answers)
            &&& progress.last() is Finished
            &&& all_stored(answers)
            &&& read_latest(answers, before.rows.last())
            &&& after.records == before.records
            &&& ({
                ||| after.rows == before.rows && forall|i: int|
                    0 <= i < progress.len() ==> (#[trigger] progress[i]) !is AppendRevision
                ||| exists|i: int, row: RevisionRow|
                    0 <= i < progress.len() && #[trigger] end_appends(progress[i], row)
                        && after.rows == before.rows.push(row)
            })
        },
    }
}

/// The log of an instance that was created so.
pub open spec fn created(
    instance_id: EntityId<WorkflowInstance>,
    progress: Seq<CreateProgress>,
    log: InstanceLog,
) -> bool {
    &&& progress.last() == CreateProgress::Finished(Ok(instance_id))
    &&& log.records == Seq::<RevisionView>::empty()
    &&& log.rows.len() == 1
    &&& progress[4] matches CreateProgress::AppendRevision { revision_seq, revision, .. }
        && log.rows[0].revision_seq == revision_seq && log.rows[0]@ == revision@
}

/// The logs of an instance, from its creation on, operation by operation.
pub open spec fn history(
    template_id: EntityId<WorkflowTemplate>,
    args: CanonicalJson,
    progress: Seq<CreateProgress>,
    answers: Seq<Answer>,
    instance_id: EntityId<WorkflowInstance>,
    operations: Seq<Operation>,
    logs: Seq<InstanceLog>,
) -> bool {
    &&& create_run(template_id, args, progress, answers)
    &&& logs.len() == operations.len() + 1
    &&& created(instance_id, progress, logs[0])
    &&& forall|i: int|
        0 <= i < operations.len() ==> operates(
            instance_id,
            logs[i],
            #[trigger] operations[i],
            logs[i + 1],
        )
}

/// A record of a successful step: the step that has number `k + 1`, taken from
/// revision `k` of the instance.
pub open spec fn records_success(
    record: RevisionView,
    instance_id: EntityId<WorkflowInstance>,
    k: int,
) -> bool {
    &&& record.scalar_attr("outcome"@) == Some(ScalarValue::I64(0))
    &&& record.scalar_attr("step_seq"@) == Some(ScalarValue::I64((k + 1) as i64))
    &&& record.entity_attr("instance"@) == Some(
        EntityRefValue {
            target_entity_id: instance_id.spec_internal(),
            target_revision_seq: Some(k as u64),
        },
    )
}

/// One row after another: numbered from zero, pending at first and never again,
/// and bound to the same arguments, template and tenant throughout.
pub open spec fn rows_fit(rows: Seq<RevisionRow>) -> bool {
    &&& rows.len() > 0
    &&& forall|k: int|
        0 <= k < rows.len() ==> {
            let row = #[trigger] rows[k];
            &&& row.revision_seq == k
            &&& row@.status() is Ok
            &&& row@.status()->Ok_0 == InstanceStatus::Pending <==> k == 0
            &&& row@.content_attr("context"@) is Some
            &&& row@.content_attr("args"@) is Some
            &&& row@.content_attr("args"@) == rows[0]@.content_attr("args"@)
            &&& row@.entity_attr("template"@) is Some
            &&& row@.entity_attr("template"@) == rows[0]@.entity_attr("template"@)
            &&& row@.entity_attr("tenant"@) is Some
            &&& row@.entity_attr("tenant"@) == rows[0]@.entity_attr("tenant"@)
        }
}

/// While the instance is live, it has one record for each revision after the
/// first, each of a successful step.
pub open spec fn records_fit(log: InstanceLog, instance_id: EntityId<WorkflowInstance>) -> bool {
    !log.rows.last()@.status()->Ok_0.terminal() ==> {
        &&& log.records.len() == log.rows.len() - 1
        &&& forall|k: int|
            0 <= k < log.records.len() ==> records_success(
                #[trigger] log.records[k],
                instance_id,
                k,
            )
    }
}

/// A row made like an instance's successor fits after the rows before it.
proof fn lemma_row_fits(
    rows: Seq<RevisionRow>,
    row: RevisionRow,
    context: Sha256,
    status: InstanceStatus,
)
    requires
        rows_fit(rows),
        status != InstanceStatus::Pending,
        instance_successor(rows.last(), context, status) matches Ok((seq, view))
            && row.revision_seq == seq && row@ == view,
    ensures
        rows_fit(rows.push(row)),
        row@.status()->Ok_0 == status,
{
    let latest = rows.last();
    law_instance_reads_back(
        context,
        latest@.content["args"@],
        latest@.entity["template"@],
        latest@.entity["tenant"@],
        status,
    );
    let more = rows.push(row);
    assert forall|k: int| 0 <= k < more.len() implies {
        let row = #[trigger] more[k];
        &&& row.revision_seq == k
        &&& row@.status() is Ok
        &&& row@.status()->Ok_0 == InstanceStatus::Pending <==> k == 0
        &&& row@.content_attr("context"@) is Some
        &&& row@.content_attr("args"@) is Some
        &&& row@.content_attr("args"@) == more[0]@.content_attr("args"@)
        &&& row@.entity_attr("template"@) is Some
        &&& row@.entity_attr("template"@) == more[0]@.entity_attr("template"@)
        &&& row@.entity_attr("tenant"@) is Some
        &&& row@.entity_attr("tenant"@) == more[0]@.entity_attr("tenant"@)
    } by {
        assert(more[0] == rows[0]);
        if k < rows.len() {
            assert(more[k] == rows[k]);
        } else {
            assert(rows[rows.len() - 1] == latest);
        }
    }
}

/// A new instance's log fits.
proof fn lemma_created_fits(
    template_id: EntityId<WorkflowTemplate>,
    args: CanonicalJson,
    progress: Seq<CreateProgress>,
    answers: Seq<Answer>,
    instance_id: EntityId<WorkflowInstance>,
    log: InstanceLog,
)
    requires
        create_run(template_id, args, progress, answers),
        created(instance_id, progress, log),
    ensures
        rows_fit(log.rows),
        records_fit(log, instance_id),
{
    law_new_instance_is_pending(template_id, args, progress, answers, instance_id);
    if let Answer::Revision(Ok(Some(template))) = answers[0] {
        law_instance_reads_back(
            log.rows[0]@.content["context"@],
            log.rows[0]@.content["args"@],
            EntityRefValue {
                target_entity_id: template_id.spec_internal(),
                target_revision_seq: Some(template.revision_seq),
            },
            template@.entity["tenant"@],
            InstanceStatus::Pending,
        );
    }
    reveal_strlit("context");
    reveal_strlit("args");
    reveal_strlit("template");
    reveal_strlit("tenant");
    assert("context"@.len() == 7 && "args"@.len() == 4);
    assert("template"@.len() == 8 && "tenant"@.len() == 6);
}

/// Completing or cancelling keeps a log fit.
proof fn lemma_end_fits(
    instance_id: EntityId<WorkflowInstance>,
    before: InstanceLog,
    operation: Operation,
    after: InstanceLog,
)
    requires
        rows_fit(before.rows),
        records_fit(before, instance_id),
        operation is End,
        operates(instance_id, before, operation, after),
    ensures
        rows_fit(after.rows),
        records_fit(after, instance_id),
{
    if let Operation::End { next_status, progress, answers } = operation {
        if after.rows != before.rows {
            let (i, row) = choose|i: int, row: RevisionRow|
                0 <= i < progress.len() && #[trigger] end_appends(progress[i], row)
                    && after.rows == before.rows.push(row);
            assert(end_appends(progress[i], row));
            if i >= 1 {
                assert(transition_follows(progress[0], answers[0], progress[1]));
            }
            if i >= 2 {
                assert(transition_follows(progress[1], answers[1], progress[2]));
            }
            if i >= 3 {
                assert(transition_follows(progress[2], answers[2], progress[3]));
            }
            if i >= 4 {
                assert(transition_follows(progress[3], answers[3], progress[4]));
            }
            assert(i == 2);
            let latest = before.rows.last();
            let context = latest@.content_attr("context"@)->Some_0;
            lemma_row_fits(before.rows, row, context, next_status);
        }
    }
}

/// What a step that changes its instance adds to the log: first the record of
/// this step, then the instance's next revision.
proof fn lemma_step_writes(
    instance_id: EntityId<WorkflowInstance>,
    before: InstanceLog,
    operation: Operation,
    after: InstanceLog,
)
    requires
        rows_fit(before.rows),
        operation is Step,
        operates(instance_id, before, operation, after),
    ensures
        after == before || exists|ending: StepEnding, row: RevisionRow|
            #[trigger] step_adds(before, operation->call, ending, row, after),
{
    if let Operation::Step { call, progress, answers } = operation {
        if exists|i: int| 0 <= i < progress.len() && (#[trigger] progress[i]) is AppendRecord {
            let i = choose|i: int|
                0 <= i < progress.len() && (#[trigger] progress[i]) is AppendRecord;
            let latest = before.rows.last();
            assert(before.rows[before.rows.len() - 1] == latest);
            assert(i < answers.len());
            assert(step_follows(progress[i], answers[i], progress[i + 1]));
            assert(i >= 2) by {
                if i >= 1 {
                    assert(step_follows(progress[0], answers[0], progress[1]));
                }
            }
            lemma_run_fits(call, progress, answers, i);
            assert(instance_read(answers) == Some(latest));
            assert(answers[i] matches Answer::Stored(Ok(_)));
            if let StepProgress::AppendRecord { revision, then, .. } = progress[i] {
                let record = revision@;
                assert(records(progress[i], record));
                assert(then.successor() is Ok);
                assert(progress[i + 1] is AppendInstance);
                let j = i + 1;
                if after.records == before.records {
                    assert(progress[i] is AppendRecord);
                }
                let (n, added) = choose|n: int, added: RevisionView|
                    0 <= n < progress.len() && #[trigger] records(progress[n], added)
                        && after.records == before.records.push(added);
                assert(records(progress[n], added));
                law_one_record_one_revision(call, progress, answers, i, n);
                let (m, row) = choose|m: int, row: RevisionRow|
                    0 <= m < progress.len() && #[trigger] step_appends(progress[m], row)
                        && after.rows == before.rows.push(row);
                assert(step_appends(progress[m], row));
                law_one_record_one_revision(call, progress, answers, j, m);
                lemma_run_fits(call, progress, answers, j);
                assert(step_adds(before, call, then.ending, row, after));
            }
        } else {
            assert forall|i: int| 0 <= i < progress.len() implies (
            #[trigger] progress[i]) !is AppendInstance by {
                if progress[i] is AppendInstance {
                    law_record_before_instance(call, progress, answers, i);
                    assert(progress[i - 1] is AppendRecord);
                }
            }
            assert(after.rows == before.rows);
            assert(after.records == before.records);
        }
    }
}

/// The step with this call and this ending adds its record and this row.
pub open spec fn step_adds(
    before: InstanceLog,
    call: StepCall,
    ending: StepEnding,
    row: RevisionRow,
    after: InstanceLog,
) -> bool {
    let latest = before.rows.last();
    &&& after.rows == before.rows.push(row)
    &&& after.records == before.records.push(record_value(step_record(call, latest, ending)))
    &&& latest.revision_seq < i64::MAX
    &&& latest@.status() is Ok
    &&& match ending {
        StepEnding::Succeeded { context_hash, result } => {
            &&& latest@.status()->Ok_0.may_become(result.status)
            &&& instance_successor(latest, context_hash, result.status) matches Ok((seq, view))
                && row.revision_seq == seq && row@ == view
        },
        StepEnding::Failed { .. } => {
            &&& latest@.status()->Ok_0.may_become(InstanceStatus::Failed)
            &&& latest@.content_attr("context"@) matches Some(context) && instance_successor(
                latest,
                context,
                InstanceStatus::Failed,
            ) matches Ok((seq, view)) && row.revision_seq == seq && row@ == view
        },
    }
}

/// A step keeps a log fit.
proof fn lemma_step_fits(
    instance_id: EntityId<WorkflowInstance>,
    before: InstanceLog,
    operation: Operation,
    after: InstanceLog,
)
    requires
        rows_fit(before.rows),
        records_fit(before, instance_id),
        operation is Step,
        operates(instance_id, before, operation, after),
    ensures
        rows_fit(after.rows),
        records_fit(after, instance_id),
{
    lemma_step_writes(instance_id, before, operation, after);
    if after != before {
        let call = operation->call;
        let (ending, row) = choose|ending: StepEnding, row: RevisionRow|
            #[trigger] step_adds(before, call, ending, row, after);
        let latest = before.rows.last();
        let at = before.rows.len() - 1;
        assert(before.rows[at] == latest);
        let write = step_record(call, latest, ending);
        law_record_reads_back(write);
        match ending {
            StepEnding::Succeeded { context_hash, result } => {
                lemma_row_fits(before.rows, row, context_hash, result.status);
                assert forall|k: int| 0 <= k < after.records.len() implies records_success(
                    #[trigger] after.records[k],
                    instance_id,
                    k,
                ) by {
                    if k < before.records.len() {
                        assert(after.records[k] == before.records[k]);
                    }
                }
            },
            StepEnding::Failed { .. } => {
                lemma_row_fits(
                    before.rows,
                    row,
                    latest@.content_attr("context"@)->Some_0,
                    InstanceStatus::Failed,
                );
            },
        }
    }
}

/// Every log of a history fits.
proof fn lemma_history_fits(
    template_id: EntityId<WorkflowTemplate>,
    args: CanonicalJson,
    progress: Seq<CreateProgress>,
    answers: Seq<Answer>,
    instance_id: EntityId<WorkflowInstance>,
    operations: Seq<Operation>,
    logs: Seq<InstanceLog>,
    i: int,
)
    requires
        history(template_id, args, progress, answers, instance_id, operations, logs),
        0 <= i < logs.len(),
    ensures
        rows_fit(logs[i].rows),
        records_fit(logs[i], instance_id),
    decreases i,
{
    if i == 0 {
        lemma_created_fits(template_id, args, progress, answers, instance_id, logs[0]);
    } else {
        lemma_history_fits(
            template_id,
            args,
            progress,
            answers,
            instance_id,
            operations,
            logs,
            i - 1,
        );
        assert(operates(instance_id, logs[i - 1], operations[i - 1], logs[i]));
        match operations[i - 1] {
            Operation::Step { .. } => lemma_step_fits(
                instance_id,
                logs[i - 1],
                operations[i - 1],
                logs[i],
            ),
            Operation::End { .. } => lemma_end_fits(
                instance_id,
                logs[i - 1],
                operations[i - 1],
                logs[i],
            ),
        }
    }
}

/// What an instance's status tells of its history, whatever operations it has
/// seen in whatever order, as long as the store stores what it is asked to: it
/// is pending just at its first revision, when it has no step records; and when
/// it is running, it has taken a step for each revision after the first, each
/// with a record of its own, and all of them successful.
pub proof fn law_status_tells_history(
    template_id: EntityId<WorkflowTemplate>,
    args: CanonicalJson,
    progress: Seq<CreateProgress>,
    answers: Seq<Answer>,
    instance_id: EntityId<WorkflowInstance>,
    operations: Seq<Operation>,
    logs: Seq<InstanceLog>,
)
    requires
        history(template_id, args, progress, answers, instance_id, operations, logs),
    ensures
        ({
            let log = logs.last();
            let row = log.rows.last();
            &&& log.rows.len() > 0
            &&& row.revision_seq == log.rows.len() - 1
            &&& row@.status() is Ok
            &&& row@.status()->Ok_0 == InstanceStatus::Pending <==> row.revision_seq == 0
            &&& row@.status()->Ok_0 == InstanceStatus::Pending ==> log.records.len() == 0
            &&& row@.status()->Ok_0 == InstanceStatus::Running ==> {
                &&& row.revision_seq >= 1
                &&& log.records.len() == row.revision_seq
                &&& forall|k: int|
                    0 <= k < log.records.len() ==> records_success(
                        #[trigger] log.records[k],
                        instance_id,
                        k,
                    )
            }
        }),
{
    let last = logs.len() - 1;
    lemma_history_fits(
        template_id,
        args,
        progress,
        answers,
        instance_id,
        operations,
        logs,
        last,
    );
    let log = logs[last];
    assert(log.rows[log.rows.len() - 1] == log.rows.last());
}

/// Throughout its history an instance keeps its arguments, its template with the
/// revision that it is pinned to, and its tenant, and its revisions are numbered
/// one after another.
pub proof fn law_binding_never_changes(
    template_id: EntityId<WorkflowTemplate>,
    args: CanonicalJson,
    progress: Seq<CreateProgress>,
    answers: Seq<Answer>,
    instance_id: EntityId<WorkflowInstance>,
    operations: Seq<Operation>,
    logs: Seq<InstanceLog>,
    k: int,
)
    requires
        history(template_id, args, progress, answers, instance_id, operations, logs),
        0 <= k < logs.last().rows.len(),
    ensures
        ({
            let rows = logs.last().rows;
            &&& rows[k].revision_seq == k
            &&& rows[k]@.content_attr("args"@) == rows[0]@.content_attr("args"@)
            &&& rows[k]@.entity_attr("template"@) == rows[0]@.entity_attr("template"@)
            &&& rows[k]@.entity_attr("tenant"@) == rows[0]@.entity_attr("tenant"@)
        }),
{
    lemma_history_fits(
        template_id,
        args,
        progress,
        answers,
        instance_id,
        operations,
        logs,
        logs.len() - 1,
    );
}

} // verus!
