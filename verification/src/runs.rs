//! Operations as a whole: the requests that follow one another, with the
//! answers that they get.

use crate::data::AwaitDataContent;
use crate::execute::{StepCall, StepContent, StepEntity, StepProgress, StepPut};
use crate::executor::StepExecutionError;
use crate::ids::Identity;
use crate::json::JsonValue;
use crate::lowerer::ConfigLoweringError;
use crate::store::{EntityRow, RevisionRow, StoreError};
use vstd::prelude::*;

verus! {

/// An answer to a request.
pub enum Answer {
    /// An entity, where there is one.
    Entity(Result<Option<EntityRow>, StoreError>),
    /// A revision, where there is one.
    Revision(Result<Option<RevisionRow>, StoreError>),
    /// Content, where there is some.
    Content(Result<Option<Vec<u8>>, StoreError>),
    /// An identity, where there is one.
    Identity(Result<Option<Identity>, StoreError>),
    /// The identity of what was created.
    Created(Result<Identity, StoreError>),
    /// Whether something was stored.
    Stored(Result<(), StoreError>),
    /// A concrete config.
    Lowered(Result<JsonValue, ConfigLoweringError>),
    /// A script's result.
    Executed(Result<JsonValue, StepExecutionError>),
}

/// From `p`, with this answer, a step goes on to `q`.
pub open spec fn step_follows(p: StepProgress, answer: Answer, q: StepProgress) -> bool {
    match (p, answer) {
        (StepProgress::GetEntity { then, .. }, Answer::Entity(found)) => then.followed_by(found, q),
        (StepProgress::GetInstanceRevision { then, .. }, Answer::Revision(found)) =>
            then.followed_by(found, q),
        (StepProgress::GetTemplateRevision { then, .. }, Answer::Revision(found)) =>
            then.followed_by(found, q),
        (StepProgress::GetDatasetRevision { then, .. }, Answer::Revision(found)) =>
            then.followed_by(found, q),
        (StepProgress::ResolvePublic { then, .. }, Answer::Identity(found)) => then.followed_by(
            found,
            q,
        ),
        (StepProgress::GetContent { then, .. }, Answer::Content(found)) => then.followed_by(
            found,
            q,
        ),
        (StepProgress::PutContent { then, .. }, Answer::Stored(stored)) => then.followed_by(
            stored,
            q,
        ),
        (StepProgress::Lower { then, .. }, Answer::Lowered(lowered)) => then.followed_by(
            lowered,
            q,
        ),
        (StepProgress::Execute { then, .. }, Answer::Executed(executed)) => then.followed_by(
            executed,
            q,
        ),
        (StepProgress::CreateRecord { then }, Answer::Created(created)) => then.followed_by(
            created,
            q,
        ),
        (StepProgress::AppendRecord { then, .. }, Answer::Stored(stored)) => then.followed_by(
            stored,
            q,
        ),
        (StepProgress::AppendInstance { then, .. }, Answer::Stored(stored)) => then.followed_by(
            stored,
            q,
        ),
        _ => false,
    }
}

/// How far a step has come.
pub open spec fn step_rank(p: StepProgress) -> int {
    match p {
        StepProgress::GetEntity { then, .. } => match then {
            StepEntity::Instance(_) => 0,
            StepEntity::Template(_) => 2,
            StepEntity::Dataset(_) => 11,
        },
        StepProgress::GetInstanceRevision { .. } => 1,
        StepProgress::GetTemplateRevision { .. } => 3,
        StepProgress::GetContent { then, .. } => match then {
            StepContent::Script(_) => 4,
            StepContent::Config(_) => 5,
            StepContent::Context(_) => 6,
            StepContent::Args(_) => 7,
            StepContent::Data(with) => if with.lookup is DataConfig {
                10
            } else {
                11
            },
        },
        StepProgress::PutContent { then, .. } => match then {
            StepPut::Input(_) => 8,
            StepPut::Subject(_) => 9,
            StepPut::Context(_) => 14,
            StepPut::Output(_) => 15,
            StepPut::Error(_) => 15,
        },
        StepProgress::ResolvePublic { .. } => 11,
        StepProgress::GetDatasetRevision { .. } => 11,
        StepProgress::Lower { .. } => 12,
        StepProgress::Execute { .. } => 13,
        StepProgress::CreateRecord { .. } => 16,
        StepProgress::AppendRecord { .. } => 17,
        StepProgress::AppendInstance { .. } => 18,
        StepProgress::Finished(_) => 19,
    }
}

/// How many requests the lookup of a step's data has left at most, while
/// datasets are looked up.
pub open spec fn lookups_left(p: StepProgress) -> nat {
    match p {
        StepProgress::ResolvePublic { then, .. } => 4 * then.lookup.binding.run@.rest.len() + 3,
        StepProgress::GetEntity { then: StepEntity::Dataset(with), .. } => 4
            * with.lookup.binding.run@.rest.len() + 2,
        StepProgress::GetDatasetRevision { then, .. } => 4
            * then.lookup.binding.run@.rest.len() + 1,
        StepProgress::GetContent { then: StepContent::Data(with), .. } => match with.lookup {
            AwaitDataContent::DataConfig(_) => 0,
            AwaitDataContent::Corpus(then) => 4 * then.binding.run@.rest.len(),
        },
        _ => 0,
    }
}

/// A step's first request.
pub open spec fn step_start(call: StepCall) -> StepProgress {
    StepProgress::GetEntity {
        entity_id: call.instance_id.spec_internal(),
        then: StepEntity::Instance(call),
    }
}

/// A run of a step, finished or not: from its first request, each answer leads
/// to the next.
pub open spec fn step_run(
    call: StepCall,
    progress: Seq<StepProgress>,
    answers: Seq<Answer>,
) -> bool {
    &&& progress.len() == answers.len() + 1
    &&& progress[0] == step_start(call)
    &&& forall|i: int|
        0 <= i < answers.len() ==> step_follows(
            progress[i],
            #[trigger] answers[i],
            progress[i + 1],
        )
}

/// Every answer takes a step further, or leaves fewer lookups: a step always
/// comes to an end.
pub proof fn law_every_answer_advances(p: StepProgress, answer: Answer, q: StepProgress)
    requires
        step_follows(p, answer, q),
    ensures
        step_rank(p) < step_rank(q) || (step_rank(p) == step_rank(q) && lookups_left(q)
            < lookups_left(p)),
{
}

} // verus!
