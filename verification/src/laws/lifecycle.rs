//! The life of an instance: its statuses, its creation and its end.

use crate::canonical::{canonical_bytes, holds, CanonicalJson};
use crate::create::{AwaitTemplate, CreateProgress};
use crate::entities::{WorkflowInstance, WorkflowTemplate};
use crate::error::WorkflowError;
use crate::ids::{sha256, EntityId};
use crate::instance::instance_value;
use crate::json::JsonView;
use crate::runs::Answer;
use crate::status::InstanceStatus;
use crate::store::{EntityRefValue, RevisionRow};
use crate::transition::{AwaitEndedEntity, TransitionProgress};
use vstd::prelude::*;

verus! {

/// A status is stored as a number of its own, and read back from it; no other
/// number is a status.
pub proof fn law_status_number_round_trip(status: InstanceStatus, value: i64)
    ensures
        InstanceStatus::of_discriminant(status.discriminant()) == Some(status),
        InstanceStatus::of_discriminant(value) == Some(status) <==> value == status.discriminant(),
        InstanceStatus::of_discriminant(value) is None <==> !(0 <= value <= 4),
{
}

/// The terminal statuses are those that nothing leads out of, and no status
/// leads back to the first.
pub proof fn law_terminal_statuses_are_final(status: InstanceStatus)
    ensures
        status.terminal() <==> forall|next: InstanceStatus| !status.may_become(next),
        !status.may_become(InstanceStatus::Pending),
{
    if !status.terminal() {
        assert(status.may_become(InstanceStatus::Running));
    }
}

/// From `p`, with this answer, the end of an instance goes on to `q`.
pub open spec fn transition_follows(
    p: TransitionProgress,
    answer: Answer,
    q: TransitionProgress,
) -> bool {
    match (p, answer) {
        (TransitionProgress::GetEntity { then, .. }, Answer::Entity(found)) => then.followed_by(
            found,
            q,
        ),
        (TransitionProgress::GetLatestRevision { then, .. }, Answer::Revision(found)) =>
            then.followed_by(found, q),
        (TransitionProgress::AppendRevision { then, .. }, Answer::Stored(stored)) =>
            then.followed_by(stored, q),
        _ => false,
    }
}

/// A run of completing or cancelling an instance, finished or not.
pub open spec fn transition_run(
    instance_id: EntityId<WorkflowInstance>,
    next_status: InstanceStatus,
    progress: Seq<TransitionProgress>,
    answers: Seq<Answer>,
) -> bool {
    &&& progress.len() == answers.len() + 1
    &&& progress[0] == (TransitionProgress::GetEntity {
        entity_id: instance_id.spec_internal(),
        then: AwaitEndedEntity { instance_id, next_status },
    })
    &&& forall|i: int|
        0 <= i < answers.len() ==> transition_follows(
            progress[i],
            #[trigger] answers[i],
            progress[i + 1],
        )
}

/// An instance that has ended can neither be completed nor cancelled: it is
/// refused with the status that it ended in, and nothing is written.
pub proof fn law_ended_instance_cannot_be_ended(
    instance_id: EntityId<WorkflowInstance>,
    next_status: InstanceStatus,
    progress: Seq<TransitionProgress>,
    answers: Seq<Answer>,
    latest: RevisionRow,
    status: InstanceStatus,
)
    requires
        transition_run(instance_id, next_status, progress, answers),
        answers.len() >= 2,
        answers[1] == Answer::Revision(Ok(Some(latest))),
        latest@.status() is Ok,
        latest@.status()->Ok_0 == status,
        status.terminal(),
    ensures
        progress.len() == 3,
        progress[0] is GetEntity,
        progress[1] is GetLatestRevision,
        progress[2] == TransitionProgress::Finished(
            Err(
                WorkflowError::InstanceTerminal {
                    instance_id: instance_id.spec_internal(),
                    status,
                },
            ),
        ),
{
    assert(transition_follows(progress[0], answers[0], progress[1]));
    assert(transition_follows(progress[1], answers[1], progress[2]));
    if answers.len() > 2 {
        assert(transition_follows(progress[2], answers[2], progress[3]));
    }
}

/// Completing or cancelling an instance appends one revision to it, the next,
/// with the new status; its context, its arguments, its template and its tenant
/// are as they were, and the change of status is one of the lifecycle's.
pub proof fn law_end_changes_only_the_status(
    instance_id: EntityId<WorkflowInstance>,
    next_status: InstanceStatus,
    progress: Seq<TransitionProgress>,
    answers: Seq<Answer>,
)
    requires
        transition_run(instance_id, next_status, progress, answers),
        progress.last() matches TransitionProgress::Finished(Ok(_)),
    ensures
        progress.len() == 4,
        answers[1] matches Answer::Revision(Ok(Some(latest))) && {
            &&& latest@.status() is Ok
            &&& latest@.status()->Ok_0.may_become(next_status)
            &&& progress[2] matches TransitionProgress::AppendRevision {
                instance_id: id,
                revision_seq,
                revision,
                ..
            } && id == instance_id && revision_seq == latest.revision_seq + 1 && revision@
                == instance_value(
                latest@.content["context"@],
                latest@.content["args"@],
                latest@.entity["template"@],
                latest@.entity["tenant"@],
                next_status,
            )
        },
        answers[2] matches Answer::Stored(Ok(_)),
{
    assert(answers.len() > 0);
    assert(transition_follows(progress[0], answers[0], progress[1]));
    assert(answers.len() > 1);
    assert(transition_follows(progress[1], answers[1], progress[2]));
    assert(answers.len() > 2);
    assert(transition_follows(progress[2], answers[2], progress[3]));
    if answers.len() > 3 {
        assert(transition_follows(progress[3], answers[3], progress[4]));
    }
}

/// From `p`, with this answer, the creation of an instance goes on to `q`.
pub open spec fn create_follows(p: CreateProgress, answer: Answer, q: CreateProgress) -> bool {
    match (p, answer) {
        (CreateProgress::GetLatestRevision { then, .. }, Answer::Revision(found)) =>
            then.followed_by(found, q),
        (CreateProgress::CreateInstance { then }, Answer::Created(created)) => then.followed_by(
            created,
            q,
        ),
        (CreateProgress::PutContent { then, .. }, Answer::Stored(stored)) => then.followed_by(
            stored,
            q,
        ),
        (CreateProgress::AppendRevision { then, .. }, Answer::Stored(stored)) => then.followed_by(
            stored,
            q,
        ),
        _ => false,
    }
}

/// A run of creating an instance, finished or not.
pub open spec fn create_run(
    template_id: EntityId<WorkflowTemplate>,
    args: CanonicalJson,
    progress: Seq<CreateProgress>,
    answers: Seq<Answer>,
) -> bool {
    &&& progress.len() == answers.len() + 1
    &&& progress[0] == (CreateProgress::GetLatestRevision {
        template_id,
        then: AwaitTemplate { template_id, args },
    })
    &&& forall|i: int|
        0 <= i < answers.len() ==> create_follows(
            progress[i],
            #[trigger] answers[i],
            progress[i + 1],
        )
}

/// A new instance is pending, with an empty context and the arguments it was
/// asked for with; it is pinned to the latest revision of its template, and
/// belongs to the template's tenant. Its context and its arguments are stored
/// before its first revision, which has number zero.
pub proof fn law_new_instance_is_pending(
    template_id: EntityId<WorkflowTemplate>,
    args: CanonicalJson,
    progress: Seq<CreateProgress>,
    answers: Seq<Answer>,
    instance_id: EntityId<WorkflowInstance>,
)
    requires
        create_run(template_id, args, progress, answers),
        progress.last() == CreateProgress::Finished(Ok(instance_id)),
    ensures
        progress.len() == 6,
        canonical_bytes(JsonView::Object(Map::empty())) is Ok,
        ({
            let empty = canonical_bytes(JsonView::Object(Map::empty()))->Ok_0;
            &&& answers[0] matches Answer::Revision(Ok(Some(template)))
            &&& answers[1] matches Answer::Created(Ok(identity))
            &&& progress[4] matches CreateProgress::AppendRevision {
                instance_id: id,
                revision_seq: 0,
                revision,
                ..
            }
            &&& id == instance_id
            &&& instance_id.identity() == identity
            &&& revision@ == instance_value(
                sha256(empty),
                sha256(args@),
                EntityRefValue {
                    target_entity_id: template_id.spec_internal(),
                    target_revision_seq: Some(template.revision_seq),
                },
                template@.entity["tenant"@],
                InstanceStatus::Pending,
            )
            &&& holds(empty, JsonView::Object(Map::empty()))
            &&& progress[2] matches CreateProgress::PutContent { hash, bytes, .. } && bytes@
                == empty && hash == sha256(empty)
            &&& progress[3] matches CreateProgress::PutContent { hash, bytes, .. } && bytes@
                == args@ && hash == sha256(args@)
        }),
        answers[2] matches Answer::Stored(Ok(_)),
        answers[3] matches Answer::Stored(Ok(_)),
        answers[4] matches Answer::Stored(Ok(_)),
{
    assert(answers.len() > 0);
    assert(create_follows(progress[0], answers[0], progress[1]));
    assert(answers.len() > 1);
    assert(create_follows(progress[1], answers[1], progress[2]));
    assert(answers.len() > 2);
    assert(create_follows(progress[2], answers[2], progress[3]));
    assert(answers.len() > 3);
    assert(create_follows(progress[3], answers[3], progress[4]));
    assert(answers.len() > 4);
    assert(create_follows(progress[4], answers[4], progress[5]));
    if answers.len() > 5 {
        assert(create_follows(progress[5], answers[5], progress[6]));
    }
}

} // verus!
