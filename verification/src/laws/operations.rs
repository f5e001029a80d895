//! What is said of runs holds of whatever is driven by the library's functions,
//! and what the library's small functions return, said of what they are given.

use crate::canonical::{
    canonical_to_json, json_parsed, round_trips, CanonError, CanonicalJson,
};
use crate::corpus::{
    corpus_decoded, corpus_items_to_json, corpus_view, decode_corpus, CorpusItem, CorpusItemView,
};
use crate::create::{
    AwaitNewContent, AwaitNewInstance, AwaitNewRevision, AwaitTemplate, CreateProgress,
};
use crate::data::{
    AwaitDataContent, AwaitDatasetEntity, AwaitDatasetRevision, AwaitIdentity, DataProgress,
};
use crate::engine::WorkflowEngine;
use crate::entities::{
    EntitySlot, ScalarSlot, ScalarType, StepRecord, WorkflowInstance, WorkflowTemplate,
};
use crate::error::{Utf8Error, WorkflowError};
use crate::execute::{
    AwaitExecuted, AwaitLowered, AwaitRecord, AwaitRecordStored, AwaitStepStored, StepBase,
    StepCall, StepContent, StepEntity, StepProgress, StepPut, WithData,
};
use crate::executor::StepExecutionError;
use crate::ids::{
    hex_digit, sha256, uuid_digit, EntityId, Identity, IdentityKindError, Sha256, Uuid,
};
use crate::instance::{instance_revision_input, step_record_revision};
use crate::json::{fields_model, lemma_items_model, number_contents, JsonValue, JsonView};
use crate::laws::data::data_follows;
use crate::laws::lifecycle::{create_follows, create_run, transition_follows, transition_run};
use crate::laws::outcomes::{audit_says, law_subjects_by_their_fields, subject_says};
use crate::laws::values::{
    all_numbers, entry_says, law_corpus_keeps_every_item, law_result_is_taken_by_its_fields,
    numbered, well_formed,
};
use crate::lowerer::ConfigLoweringError;
use crate::plan::{read_template_parts, StepPlan, TemplateParts};
use crate::runs::{step_follows, step_run, Answer};
use crate::status::InstanceStatus;
use crate::step::{
    parse_executor_result, ParsedExecutorResult, StepOutcome, StepRecordWrite, StepResult,
};
use crate::store::{
    attribute, attributes, EntityRefValue, RevisionInput, RevisionRow, ScalarValue, StoreError,
};
use crate::subject::{StepRecordSubject, SubjectContext};
use crate::transition::{
    AwaitEndedAppend, AwaitEndedEntity, AwaitEndedRevision, TransitionProgress,
};
use vstd::arithmetic::power::pow;
use vstd::prelude::*;
use vstd::std_specs::convert::FromSpec;

verus! {

/// Handing this answer to the step's continuation may give `q`.
pub open spec fn step_resumed(p: StepProgress, answer: Answer, q: StepProgress) -> bool {
    match (p, answer) {
        (StepProgress::GetEntity { then, .. }, Answer::Entity(found)) => call_ensures(
            StepEntity::resume,
            (then, found),
            q,
        ),
        (StepProgress::GetInstanceRevision { then, .. }, Answer::Revision(found)) => call_ensures(
            StepCall::resume,
            (then, found),
            q,
        ),
        (StepProgress::GetTemplateRevision { then, .. }, Answer::Revision(found)) => call_ensures(
            StepBase::resume,
            (then, found),
            q,
        ),
        (StepProgress::GetDatasetRevision { then, .. }, Answer::Revision(found)) => call_ensures(
            WithData::<AwaitDatasetRevision>::resume,
            (then, found),
            q,
        ),
        (StepProgress::ResolvePublic { then, .. }, Answer::Identity(found)) => call_ensures(
            WithData::<AwaitIdentity>::resume,
            (then, found),
            q,
        ),
        (StepProgress::GetContent { then, .. }, Answer::Content(found)) => call_ensures(
            StepContent::resume,
            (then, found),
            q,
        ),
        (StepProgress::PutContent { then, .. }, Answer::Stored(stored)) => call_ensures(
            StepPut::resume,
            (then, stored),
            q,
        ),
        (StepProgress::Lower { then, .. }, Answer::Lowered(lowered)) => call_ensures(
            AwaitLowered::resume,
            (then, lowered),
            q,
        ),
        (StepProgress::Execute { then, .. }, Answer::Executed(executed)) => call_ensures(
            AwaitExecuted::resume,
            (then, executed),
            q,
        ),
        (StepProgress::CreateRecord { then }, Answer::Created(created)) => call_ensures(
            AwaitRecord::resume,
            (then, created),
            q,
        ),
        (StepProgress::AppendRecord { then, .. }, Answer::Stored(stored)) => call_ensures(
            AwaitRecordStored::resume,
            (then, stored),
            q,
        ),
        (StepProgress::AppendInstance { then, .. }, Answer::Stored(stored)) => call_ensures(
            AwaitStepStored::resume,
            (then, stored),
            q,
        ),
        _ => false,
    }
}

/// Whoever starts a step at an engine, and hands each answer to the continuation
/// that asked for it, makes a run of that step.
pub proof fn law_a_driven_step_is_a_run<S, E, L>(
    engine: &WorkflowEngine<S, E, L>,
    instance_id: EntityId<WorkflowInstance>,
    input: CanonicalJson,
    subject: SubjectContext,
    progress: Seq<StepProgress>,
    answers: Seq<Answer>,
)
    requires
        progress.len() == answers.len() + 1,
        call_ensures(
            WorkflowEngine::<S, E, L>::execute_step,
            (engine, instance_id, input, subject),
            progress[0],
        ),
        forall|i: int|
            0 <= i < answers.len() ==> step_resumed(
                progress[i],
                #[trigger] answers[i],
                progress[i + 1],
            ),
    ensures
        step_run(StepCall { instance_id, input, subject }, progress, answers),
{
    assert forall|i: int| 0 <= i < answers.len() implies step_follows(
        progress[i],
        #[trigger] answers[i],
        progress[i + 1],
    ) by {
        assert(step_resumed(progress[i], answers[i], progress[i + 1]));
    }
}

/// Handing this answer to the creation's continuation may give `q`.
pub open spec fn create_resumed(p: CreateProgress, answer: Answer, q: CreateProgress) -> bool {
    match (p, answer) {
        (CreateProgress::GetLatestRevision { then, .. }, Answer::Revision(found)) => call_ensures(
            AwaitTemplate::resume,
            (then, found),
            q,
        ),
        (CreateProgress::CreateInstance { then }, Answer::Created(created)) => call_ensures(
            AwaitNewInstance::resume,
            (then, created),
            q,
        ),
        (CreateProgress::PutContent { then, .. }, Answer::Stored(stored)) => call_ensures(
            AwaitNewContent::resume,
            (then, stored),
            q,
        ),
        (CreateProgress::AppendRevision { then, .. }, Answer::Stored(stored)) => call_ensures(
            AwaitNewRevision::resume,
            (then, stored),
            q,
        ),
        _ => false,
    }
}

/// Whoever starts creating an instance at an engine, and hands each answer to the
/// continuation that asked for it, makes a run of that creation; who asks for it
/// does not matter.
pub proof fn law_a_driven_creation_is_a_run<S, E, L>(
    engine: &WorkflowEngine<S, E, L>,
    template_id: EntityId<WorkflowTemplate>,
    args: CanonicalJson,
    subject: SubjectContext,
    progress: Seq<CreateProgress>,
    answers: Seq<Answer>,
)
    requires
        progress.len() == answers.len() + 1,
        call_ensures(
            WorkflowEngine::<S, E, L>::create_instance,
            (engine, template_id, args, subject),
            progress[0],
        ),
        forall|i: int|
            0 <= i < answers.len() ==> create_resumed(
                progress[i],
                #[trigger] answers[i],
                progress[i + 1],
            ),
    ensures
        create_run(template_id, args, progress, answers),
{
    assert forall|i: int| 0 <= i < answers.len() implies create_follows(
        progress[i],
        #[trigger] answers[i],
        progress[i + 1],
    ) by {
        assert(create_resumed(progress[i], answers[i], progress[i + 1]));
    }
}

/// Handing this answer to the continuation of an instance's end may give `q`.
pub open spec fn transition_resumed(
    p: TransitionProgress,
    answer: Answer,
    q: TransitionProgress,
) -> bool {
    match (p, answer) {
        (TransitionProgress::GetEntity { then, .. }, Answer::Entity(found)) => call_ensures(
            AwaitEndedEntity::resume,
            (then, found),
            q,
        ),
        (TransitionProgress::GetLatestRevision { then, .. }, Answer::Revision(found)) =>
            call_ensures(AwaitEndedRevision::resume, (then, found), q),
        (TransitionProgress::AppendRevision { then, .. }, Answer::Stored(stored)) => call_ensures(
            AwaitEndedAppend::resume,
            (then, stored),
            q,
        ),
        _ => false,
    }
}

/// Whoever starts completing or cancelling an instance at an engine, and hands
/// each answer to the continuation that asked for it, makes a run towards that
/// status; who asks for it does not matter.
pub proof fn law_a_driven_ending_is_a_run<S, E, L>(
    engine: &WorkflowEngine<S, E, L>,
    instance_id: EntityId<WorkflowInstance>,
    subject: SubjectContext,
    progress: Seq<TransitionProgress>,
    answers: Seq<Answer>,
)
    requires
        progress.len() == answers.len() + 1,
        forall|i: int|
            0 <= i < answers.len() ==> transition_resumed(
                progress[i],
                #[trigger] answers[i],
                progress[i + 1],
            ),
    ensures
        call_ensures(
            WorkflowEngine::<S, E, L>::complete,
            (engine, instance_id, subject),
            progress[0],
        ) ==> transition_run(instance_id, InstanceStatus::Completed, progress, answers),
        call_ensures(
            WorkflowEngine::<S, E, L>::cancel,
            (engine, instance_id, subject),
            progress[0],
        ) ==> transition_run(instance_id, InstanceStatus::Cancelled, progress, answers),
{
    assert forall|i: int| 0 <= i < answers.len() implies transition_follows(
        progress[i],
        #[trigger] answers[i],
        progress[i + 1],
    ) by {
        assert(transition_resumed(progress[i], answers[i], progress[i + 1]));
    }
}

/// Handing this answer to the lookup's continuation may give `q`.
pub open spec fn data_resumed(p: DataProgress, answer: Answer, q: DataProgress) -> bool {
    match (p, answer) {
        (DataProgress::GetContent { then, .. }, Answer::Content(found)) => call_ensures(
            AwaitDataContent::resume,
            (then, found),
            q,
        ),
        (DataProgress::ResolvePublic { then, .. }, Answer::Identity(found)) => call_ensures(
            AwaitIdentity::resume,
            (then, found),
            q,
        ),
        (DataProgress::GetEntity { then, .. }, Answer::Entity(found)) => call_ensures(
            AwaitDatasetEntity::resume,
            (then, found),
            q,
        ),
        (DataProgress::GetLatestRevision { then, .. }, Answer::Revision(found)) => call_ensures(
            AwaitDatasetRevision::resume,
            (then, found),
            q,
        ),
        _ => false,
    }
}

/// A lookup of data that is driven by its continuations goes on as is said of
/// lookups.
pub proof fn law_a_driven_lookup_goes_on(p: DataProgress, answer: Answer, q: DataProgress)
    requires
        data_resumed(p, answer, q),
    ensures
        data_follows(p, answer, q),
{
}

/// An engine hands out the parts that it was made of.
pub proof fn law_engine_keeps_its_parts<S, E, L>(
    store: S,
    executor: E,
    lowerer: L,
    engine: WorkflowEngine<S, E, L>,
    r: &S,
    s: &E,
    t: &L,
)
    requires
        call_ensures(WorkflowEngine::<S, E, L>::new, (store, executor, lowerer), engine),
    ensures
        call_ensures(WorkflowEngine::<S, E, L>::store, (&engine,), r) ==> *r == store,
        call_ensures(WorkflowEngine::<S, E, L>::executor, (&engine,), s) ==> *s == executor,
        call_ensures(WorkflowEngine::<S, E, L>::lowerer, (&engine,), t) ==> *t == lowerer,
{
}

/// What the functions of a status return: its number, that it is terminal just
/// where the number is two or more, and that it leads just from the first two to
/// all but the first. A number is read as the status that it belongs to, and no
/// other number is read as one.
pub proof fn law_status_functions(
    status: InstanceStatus,
    next: InstanceStatus,
    n: i64,
    answer: bool,
    read: Option<InstanceStatus>,
    result: StepResult,
)
    requires
        numbered(n, status),
    ensures
        forall|number: i64|
            call_ensures(InstanceStatus::as_i64, (status,), number) ==> number == n,
        call_ensures(InstanceStatus::is_terminal, (status,), answer) ==> answer == (n >= 2),
        result.status == status && call_ensures(StepResult::is_terminal, (&result,), answer)
            ==> answer == (n >= 2),
        call_ensures(InstanceStatus::can_transition_to, (status, next), answer) ==> answer == (n
            < 2 && next != InstanceStatus::Pending),
        call_ensures(InstanceStatus::try_from_i64, (n,), read) ==> read == Some(status),
        forall|other: i64| #[trigger]
            call_ensures(InstanceStatus::try_from_i64, (other,), read) && !(0 <= other <= 4)
                ==> read is None,
{
}

/// An outcome is stored as zero where the step succeeded, and as one where it
/// failed.
pub proof fn law_outcome_numbers(n: i64)
    ensures
        call_ensures(StepOutcome::as_i64, (StepOutcome::Success,), n) ==> n == 0,
        call_ensures(StepOutcome::as_i64, (StepOutcome::Failure,), n) ==> n == 1,
{
}

/// Which failures are reported as ones that may pass: a lost race, a collision
/// of fresh identifiers, a backend that says so, a lowerer or an executor that
/// could not be reached; and no other.
pub proof fn law_retryable_functions(
    error: WorkflowError,
    store: StoreError,
    lowering: ConfigLoweringError,
    execution: StepExecutionError,
    answer: bool,
)
    ensures
        call_ensures(StoreError::is_retryable, (&store,), answer) ==> answer == {
            ||| store is RevisionConflict
            ||| store is IdentityCollision
            ||| store matches StoreError::Backend { retryable: true, .. }
        },
        call_ensures(ConfigLoweringError::is_retryable, (&lowering,), answer) ==> answer == (
        lowering is Backend),
        call_ensures(StepExecutionError::is_retryable, (&execution,), answer) ==> answer == (
        execution is Transport),
        call_ensures(WorkflowError::is_retryable, (&error,), answer) ==> answer == {
            ||| error matches WorkflowError::Store(StoreError::RevisionConflict { .. })
            ||| error matches WorkflowError::Store(StoreError::IdentityCollision { .. })
            ||| error matches WorkflowError::Store(StoreError::Backend { retryable: true, .. })
            ||| error matches WorkflowError::ConfigLowering(ConfigLoweringError::Backend(_))
            ||| error is ExecutorUnreachable
        },
{
}

/// A caller is turned into what a script sees of it, and, over what is kept of
/// it, into what a step record says of it.
pub proof fn law_subject_functions(
    subject: SubjectContext,
    kept: StepRecordSubject,
    seen: Result<JsonValue, serde_json::Error>,
    said: JsonValue,
)
    ensures
        call_ensures(SubjectContext::to_script_value, (&subject,), seen) ==> seen is Ok
            && subject_says(seen->Ok_0@, subject),
        call_ensures(SubjectContext::to_step_record_subject, (&subject,), kept) && call_ensures(
            StepRecordSubject::to_record_value,
            (&kept,),
            said,
        ) ==> audit_says(said@, subject),
{
    law_subjects_by_their_fields(subject);
}

/// An identity is taken for that of an entity just where its identifiers have
/// the versions seven and four, and is then kept as it is; otherwise the version
/// found is told, of the internal identifier first.
pub proof fn law_identity_functions<T>(
    identity: Identity,
    r: Result<EntityId<T>, IdentityKindError>,
    untyped: Identity,
    internal: Uuid,
    public: Uuid,
)
    requires
        call_ensures(Identity::typed::<T>, (identity,), r),
    ensures
        r is Ok <==> identity.internal.version() == 7 && identity.public.version() == 4,
        identity.internal.version() != 7 ==> r is Err && r->Err_0 == (IdentityKindError::Internal {
            expected: 7,
            actual: identity.internal.version() as usize,
        }),
        identity.internal.version() == 7 && identity.public.version() != 4 ==> r is Err
            && r->Err_0 == (IdentityKindError::Public {
            expected: 4,
            actual: identity.public.version() as usize,
        }),
        r matches Ok(id) ==> call_ensures(EntityId::<T>::untyped, (id,), untyped) ==> untyped
            == identity,
        r matches Ok(id) ==> call_ensures(EntityId::<T>::internal, (id,), internal) ==> internal
            == identity.internal,
        r matches Ok(id) ==> call_ensures(EntityId::<T>::public, (id,), public) ==> public
            == identity.public,
{
}

/// A revision gets the attribute that it is given, and keeps its others.
pub proof fn law_revision_functions(
    revision: RevisionInput,
    name: &str,
    other: Seq<char>,
    hash: Sha256,
    target: EntityRefValue,
    scalar: ScalarValue,
    r: RevisionInput,
)
    requires
        other != name@,
    ensures
        call_ensures(RevisionInput::with_content, (revision, name, hash), r) ==> {
            &&& r@.content_attr(name@) == Some(hash)
            &&& r@.content_attr(other) == revision@.content_attr(other)
            &&& r@.entity_attr(other) == revision@.entity_attr(other)
            &&& r@.scalar_attr(other) == revision@.scalar_attr(other)
            &&& r@.entity_attr(name@) == revision@.entity_attr(name@)
            &&& r@.scalar_attr(name@) == revision@.scalar_attr(name@)
        },
        call_ensures(RevisionInput::with_entity, (revision, name, target), r) ==> {
            &&& r@.entity_attr(name@) == Some(target)
            &&& r@.entity_attr(other) == revision@.entity_attr(other)
            &&& r@.content_attr(other) == revision@.content_attr(other)
            &&& r@.scalar_attr(other) == revision@.scalar_attr(other)
            &&& r@.content_attr(name@) == revision@.content_attr(name@)
            &&& r@.scalar_attr(name@) == revision@.scalar_attr(name@)
        },
        call_ensures(RevisionInput::with_scalar, (revision, name, scalar), r) ==> {
            &&& r@.scalar_attr(name@) == Some(scalar)
            &&& r@.scalar_attr(other) == revision@.scalar_attr(other)
            &&& r@.content_attr(other) == revision@.content_attr(other)
            &&& r@.entity_attr(other) == revision@.entity_attr(other)
            &&& r@.content_attr(name@) == revision@.content_attr(name@)
            &&& r@.entity_attr(name@) == revision@.entity_attr(name@)
        },
        call_ensures(RevisionInput::new, (), r) ==> {
            &&& r@.content_attr(other) is None
            &&& r@.entity_attr(other) is None
            &&& r@.scalar_attr(other) is None
        },
{
}

/// The last of a list's values that stands by a name is what an attribute of that
/// name holds.
pub open spec fn stands_last<T>(attrs: Seq<(String, T)>, at: int, name: Seq<char>) -> bool {
    &&& 0 <= at < attrs.len()
    &&& attrs[at].0@ == name
    &&& forall|i: int| at < i < attrs.len() ==> (#[trigger] attrs[i]).0@ != name
}

/// No value stands by this name.
pub open spec fn stands_nowhere<T>(attrs: Seq<(String, T)>, name: Seq<char>) -> bool {
    forall|i: int| 0 <= i < attrs.len() ==> (#[trigger] attrs[i]).0@ != name
}

proof fn lemma_last_counts<T>(attrs: Seq<(String, T)>, at: int, name: Seq<char>)
    ensures
        stands_last(attrs, at, name) ==> attribute(attributes(attrs), name) == Some(attrs[at].1),
        stands_nowhere(attrs, name) ==> attribute(attributes(attrs), name) is None,
    decreases attrs.len(),
{
    if attrs.len() > 0 {
        let before = attrs.drop_last();
        lemma_last_counts(before, at, name);
        assert(forall|i: int| 0 <= i < before.len() ==> #[trigger] before[i] == attrs[i]);
        if stands_last(attrs, at, name) && at < before.len() {
            assert(attrs[attrs.len() - 1].0@ != name);
            assert(stands_last(before, at, name));
        }
        if stands_nowhere(attrs, name) {
            assert(attrs[attrs.len() - 1].0@ != name);
            assert(stands_nowhere(before, name));
        }
    }
}

/// An attribute of a revision is read as what is listed last under its name, and
/// as absent where nothing is.
pub proof fn law_reading_attributes(
    row: RevisionRow,
    name: &str,
    at: int,
    content: Option<Sha256>,
    entity: Option<EntityRefValue>,
    scalar: Option<ScalarValue>,
)
    ensures
        call_ensures(RevisionRow::content_attr, (&row, name), content) ==> {
            &&& content == row@.content_attr(name@)
            &&& stands_last(row.content_attrs@, at, name@) ==> content == Some(
                row.content_attrs@[at].1,
            )
            &&& stands_nowhere(row.content_attrs@, name@) ==> content is None
        },
        call_ensures(RevisionRow::entity_attr, (&row, name), entity) ==> {
            &&& entity == row@.entity_attr(name@)
            &&& stands_last(row.entity_attrs@, at, name@) ==> entity == Some(
                row.entity_attrs@[at].1,
            )
            &&& stands_nowhere(row.entity_attrs@, name@) ==> entity is None
        },
        call_ensures(RevisionRow::scalar_attr, (&row, name), scalar) ==> {
            &&& scalar == row@.scalar_attr(name@)
            &&& stands_last(row.scalar_attrs@, at, name@) ==> scalar == Some(
                row.scalar_attrs@[at].1,
            )
            &&& stands_nowhere(row.scalar_attrs@, name@) ==> scalar is None
        },
{
    lemma_last_counts(row.content_attrs@, at, name@);
    lemma_last_counts(row.entity_attrs@, at, name@);
    lemma_last_counts(row.scalar_attrs@, at, name@);
}

proof fn lemma_last_field_counts(fields: Seq<(String, JsonValue)>, at: int, name: Seq<char>)
    ensures
        stands_last(fields, at, name) ==> JsonView::Object(fields_model(fields)).field(name)
            == Some(fields[at].1@),
        stands_nowhere(fields, name) ==> JsonView::Object(fields_model(fields)).field(
            name,
        ) is None,
    decreases fields.len(),
{
    if fields.len() > 0 {
        let before = fields.drop_last();
        lemma_last_field_counts(before, at, name);
        assert(forall|i: int| 0 <= i < before.len() ==> #[trigger] before[i] == fields[i]);
        if stands_last(fields, at, name) && at < before.len() {
            assert(fields[fields.len() - 1].0@ != name);
            assert(stands_last(before, at, name));
        }
        if stands_nowhere(fields, name) {
            assert(fields[fields.len() - 1].0@ != name);
            assert(stands_nowhere(before, name));
        }
    }
}

/// What JSON values are: an array is its items in order, and a field of an object
/// is read as what is listed last under its name, and as absent where nothing
/// is, or where the value is no object.
pub proof fn law_reading_values(
    value: JsonValue,
    name: &str,
    at: int,
    field: Option<&JsonValue>,
    same: JsonValue,
)
    ensures
        value matches JsonValue::Null ==> value@ is Null,
        value matches JsonValue::Bool(b) ==> value@ == JsonView::Bool(b),
        value matches JsonValue::String(text) ==> value@ == JsonView::String(text@),
        value matches JsonValue::Array(items) ==> (value@ matches JsonView::Array(seen) && {
            &&& seen.len() == items@.len()
            &&& 0 <= at < seen.len() ==> seen[at] == items@[at]@
        }),
        call_ensures(JsonValue::get, (&value, name), field) ==> {
            &&& value matches JsonValue::Object(fields) ==> stands_last(fields@, at, name@)
                ==> field is Some && field->Some_0@ == fields@[at].1@
            &&& value matches JsonValue::Object(fields) ==> stands_nowhere(fields@, name@)
                ==> field is None
            &&& !(value is Object) ==> field is None
        },
        call_ensures(JsonValue::duplicate, (&value,), same) ==> same@ == value@,
{
    if let JsonValue::Object(fields) = value {
        lemma_last_field_counts(fields@, at, name@);
    }
    if let JsonValue::Array(items) = value {
        lemma_items_model(items@);
    }
}

/// A JSON value that is handed over and taken back is the same value.
pub proof fn law_values_are_handed_over(
    value: JsonValue,
    outside: serde_json::Value,
    back: JsonValue,
)
    requires
        call_ensures(JsonValue::to_serde, (&value,), outside),
        call_ensures(JsonValue::from_serde, (outside,), back),
    ensures
        back@ == value@,
{
}

/// Canonical JSON: a value is always written; what is written is what is handed
/// out, and has the digest of those bytes; read and written again it is the same,
/// where it can be read; and where the value round-trips, it is read as that
/// value.
pub proof fn law_canonical_functions(
    value: JsonValue,
    written: Result<CanonicalJson, CanonError>,
    bytes: &[u8],
    owned: Vec<u8>,
    digest: Sha256,
    again: Result<CanonicalJson, CanonError>,
    read: Result<JsonValue, WorkflowError>,
)
    requires
        call_ensures(CanonicalJson::from_value, (&value,), written),
    ensures
        written is Ok,
        call_ensures(CanonicalJson::as_bytes, (&written->Ok_0,), bytes) && call_ensures(
            CanonicalJson::into_bytes,
            (written->Ok_0,),
            owned,
        ) ==> owned@ == bytes@,
        call_ensures(CanonicalJson::as_bytes, (&written->Ok_0,), bytes) && call_ensures(
            CanonicalJson::digest,
            (&written->Ok_0,),
            digest,
        ) ==> digest == sha256(bytes@),
        call_ensures(CanonicalJson::as_bytes, (&written->Ok_0,), bytes) && call_ensures(
            CanonicalJson::from_bytes,
            (bytes,),
            again,
        ) ==> (again is Ok <==> json_parsed(bytes@) is Ok) && (again is Ok ==> again->Ok_0@
            == bytes@),
        round_trips(value@) && call_ensures(canonical_to_json, (&written->Ok_0,), read) ==> read
            is Ok && read->Ok_0@ == value@,
{
}

/// A corpus item says what it holds: its name, its components in order, and its
/// payload just where it has one.
pub open spec fn item_says(item: CorpusItem, view: CorpusItemView) -> bool {
    &&& view.id == item.id@
    &&& view.vector.len() == item.vector@.len()
    &&& forall|k: int|
        0 <= k < view.vector.len() ==> (#[trigger] view.vector[k]) == match item.vector@[k] {
            None => None,
            Some(number) => Some(number_contents(number)),
        }
    &&& view.payload == match item.payload {
        None => None,
        Some(value) => Some(value@),
    }
}

/// An entry of a dataset says what this item holds.
pub open spec fn entered(item: CorpusItem, entry: JsonView) -> bool {
    exists|view: CorpusItemView| #[trigger] item_says(item, view) && entry_says(entry, view)
}

/// Decoding a corpus gives every item of it, in order, as it is; and a corpus
/// becomes an array with an entry for each of its items, in order, which says
/// what the item holds, just where all components are numbers.
pub proof fn law_corpus_functions(
    bytes: &[u8],
    decoded: Result<Vec<CorpusItem>, String>,
    items: &[CorpusItem],
    made: Result<JsonValue, WorkflowError>,
)
    ensures
        call_ensures(decode_corpus, (bytes,), decoded) ==> match corpus_decoded(bytes@) {
            Err(message) => decoded matches Err(text) && text@ == message,
            Ok(views) => decoded matches Ok(found) && found@.len() == views.len() && forall|i: int|
                0 <= i < views.len() ==> item_says(found@[i], #[trigger] views[i]),
        },
        call_ensures(corpus_items_to_json, (items,), made) && made is Ok ==> (made->Ok_0@
            matches JsonView::Array(entries) && entries.len() == items@.len() && forall|i: int|
            0 <= i < entries.len() ==> entered(items@[i], #[trigger] entries[i])),
        call_ensures(corpus_items_to_json, (items,), made) ==> (made is Ok <==> forall|
            i: int,
            k: int,
        |
            0 <= i < items@.len() && 0 <= k < items@[i].vector@.len() ==> (
            #[trigger] items@[i].vector@[k]) is Some),
{
    if call_ensures(decode_corpus, (bytes,), decoded) {
        if let Ok(views) = corpus_decoded(bytes@) {
            let found = decoded->Ok_0;
            assert(corpus_view(found@) == views);
            assert forall|i: int| 0 <= i < views.len() implies item_says(
                found@[i],
                #[trigger] views[i],
            ) by {
                assert(views[i] == found@[i]@);
            }
        }
    }
    let views = corpus_view(items@);
    law_corpus_keeps_every_item(views);
    assert forall|i: int| 0 <= i < items@.len() implies item_says(
        items@[i],
        #[trigger] views[i],
    ) by {}
    if forall|i: int, k: int|
        0 <= i < items@.len() && 0 <= k < items@[i].vector@.len() ==> (
        #[trigger] items@[i].vector@[k]) is Some {
        assert forall|i: int, k: int|
            0 <= i < views.len() && 0 <= k < views[i].vector.len() implies (
        #[trigger] views[i].vector[k]) is Some by {
            assert(items@[i].vector@[k] is Some);
        }
        assert(all_numbers(views));
    } else {
        let (i, k) = choose|i: int, k: int|
            0 <= i < items@.len() && 0 <= k < items@[i].vector@.len() && (
            #[trigger] items@[i].vector@[k]) is None;
        assert(views[i].vector[k] is None);
        assert(!all_numbers(views));
    }
    if call_ensures(corpus_items_to_json, (items,), made) && made is Ok {
        assert(all_numbers(views));
        let entries = made->Ok_0@->Array_0;
        assert forall|i: int| 0 <= i < entries.len() implies entered(
            items@[i],
            #[trigger] entries[i],
        ) by {
            assert(item_says(items@[i], views[i]) && entry_says(entries[i], views[i]));
        }
    }
}

/// A script's result is taken apart just where it is well formed, into what
/// stands in its fields.
pub proof fn law_taking_results_apart(
    value: JsonValue,
    r: Result<ParsedExecutorResult, String>,
)
    requires
        call_ensures(parse_executor_result, (&value,), r),
    ensures
        r is Ok <==> well_formed(value@),
        r matches Ok(parsed) ==> {
            &&& value@.field("output"@) == Some(parsed.output@)
            &&& value@.field("context"@) == Some(parsed.context@)
            &&& parsed.done <==> value@.field("done"@) == Some(JsonView::Bool(true))
        },
{
    law_result_is_taken_by_its_fields(value@);
}

/// What is read of a template for a planned step are the digests that stand in
/// its attributes `script` and `config`.
pub proof fn law_reading_templates(
    template: RevisionRow,
    plan: StepPlan,
    id: Uuid,
    r: Result<TemplateParts, WorkflowError>,
)
    requires
        call_ensures(read_template_parts, (&template, plan, id), r),
    ensures
        r is Ok <==> {
            &&& template@.entity_attr("tenant"@) matches Some(owner)
            &&& owner.target_entity_id == plan.tenant
            &&& template@.content_attr("script"@) is Some
            &&& template@.content_attr("config"@) is Some
        },
        r matches Ok(parts) ==> {
            &&& template@.content_attr("script"@) == Some(parts.script_hash)
            &&& template@.content_attr("config"@) == Some(parts.config_hash)
        },
{
}

/// A failure of another part is passed on as what it is.
pub proof fn law_failures_are_passed_on(
    store: StoreError,
    lowering: ConfigLoweringError,
    canonical: CanonError,
    utf8: Utf8Error,
)
    ensures
        <WorkflowError as FromSpec<StoreError>>::from_spec(store) == WorkflowError::Store(store),
        <WorkflowError as FromSpec<ConfigLoweringError>>::from_spec(lowering)
            == WorkflowError::ConfigLowering(lowering),
        <WorkflowError as FromSpec<CanonError>>::from_spec(canonical) == WorkflowError::Canonical(
            canonical,
        ),
        <WorkflowError as FromSpec<Utf8Error>>::from_spec(utf8) == WorkflowError::ScriptUtf8(utf8),
        <WorkflowError as FromSpec<StoreError>>::obeys_from_spec(),
        <WorkflowError as FromSpec<ConfigLoweringError>>::obeys_from_spec(),
        <WorkflowError as FromSpec<CanonError>>::obeys_from_spec(),
        <WorkflowError as FromSpec<Utf8Error>>::obeys_from_spec(),
{
}

/// The value of a lower-case hexadecimal digit; none for another character.
pub open spec fn hex_value(digit: char) -> Option<int> {
    if '0' <= digit <= '9' {
        Some(digit as int - '0' as int)
    } else if 'a' <= digit <= 'f' {
        Some(digit as int - 'a' as int + 10)
    } else {
        None
    }
}

proof fn lemma_hex_value(d: int)
    requires
        0 <= d < 16,
    ensures
        hex_value(hex_digit(d)) == Some(d),
{
}

/// A digest's text has two lower-case hexadecimal digits for each byte, which
/// stand for that byte; an identifier's text has them everywhere but at the
/// hyphens.
pub proof fn law_texts_are_hexadecimal(hash: Sha256, i: int, id: Uuid, k: int)
    ensures
        hash.text().len() == 64,
        0 <= i < 32 ==> {
            &&& hex_value(hash.text()[2 * i]) matches Some(high)
            &&& hex_value(hash.text()[2 * i + 1]) matches Some(low)
            &&& hash.bytes@[i] == 16 * high + low
        },
        0 <= k < 36 && k != 8 && k != 13 && k != 18 && k != 23 ==> hex_value(id.text()[k]) is Some,
{
    if 0 <= i < 32 {
        let byte = hash.bytes@[i] as int;
        lemma_hex_value(byte / 16);
        lemma_hex_value(byte % 16);
        assert((2 * i) % 2 == 0 && (2 * i) / 2 == i);
        assert((2 * i + 1) % 2 == 1 && (2 * i + 1) / 2 == i);
        assert(hash.text()[2 * i] == hex_digit(byte / 16));
        assert(hash.text()[2 * i + 1] == hex_digit(byte % 16));
    }
    if 0 <= k < 36 && k != 8 && k != 13 && k != 18 && k != 23 {
        let at = if k < 8 {
            k
        } else if k < 13 {
            k - 1
        } else if k < 18 {
            k - 2
        } else if k < 23 {
            k - 3
        } else {
            k - 4
        };
        assert(id.text()[k] == uuid_digit(id.value, at));
        lemma_hex_value((id.value as int / pow(16, (31 - at) as nat)) % 16);
    }
}

/// A copy says what its original says.
pub proof fn law_copies_say_the_same(
    result: StepResult,
    result_copy: StepResult,
    subject: SubjectContext,
    subject_copy: SubjectContext,
    kept: StepRecordSubject,
    kept_copy: StepRecordSubject,
    canonical: CanonicalJson,
    canonical_copy: CanonicalJson,
    value: JsonValue,
    value_copy: JsonValue,
)
    ensures
        call_ensures(StepResult::clone, (&result,), result_copy) ==> {
            &&& result_copy.output@ == result.output@
            &&& result_copy.context@ == result.context@
            &&& result_copy.status == result.status
            &&& result_copy.step_seq == result.step_seq
        },
        call_ensures(SubjectContext::clone, (&subject,), subject_copy) ==> {
            &&& subject_copy.kind == subject.kind
            &&& subject_copy.id@ == subject.id@
            &&& subject_copy.tenant_id == subject.tenant_id
            &&& subject_copy.authority_id == subject.authority_id
            &&& subject_copy.claims@ == subject.claims@
        },
        call_ensures(StepRecordSubject::clone, (&kept,), kept_copy) ==> kept_copy == kept,
        call_ensures(CanonicalJson::clone, (&canonical,), canonical_copy) ==> canonical_copy@
            == canonical@,
        call_ensures(CanonicalJson::duplicate, (&canonical,), canonical_copy) ==> canonical_copy@
            == canonical@,
        call_ensures(JsonValue::clone, (&value,), value_copy) ==> value_copy@ == value@,
{
}

/// A name is among those declared.
pub open spec fn declared(names: Seq<&'static str>, name: Seq<char>) -> bool {
    exists|i: int| 0 <= i < names.len() && (#[trigger] names[i])@ == name
}

/// A name is that of a declared reference, which is pinned.
pub open spec fn declared_entity(slots: Seq<EntitySlot>, name: Seq<char>) -> bool {
    exists|i: int| 0 <= i < slots.len() && (#[trigger] slots[i]).name@ == name && slots[i].pinned
}

/// A name is that of a declared number, by which entities are looked up.
pub open spec fn declared_scalar(slots: Seq<ScalarSlot>, name: Seq<char>) -> bool {
    exists|i: int|
        0 <= i < slots.len() && (#[trigger] slots[i]).name@ == name && slots[i].ty
            == ScalarType::I64 && slots[i].indexed
}

/// An instance's declared attributes are those that its revisions are written
/// with.
pub proof fn law_instance_slots_are_what_is_written(
    context: Sha256,
    args: Sha256,
    template: EntityRefValue,
    tenant: EntityRefValue,
    status: InstanceStatus,
    revision: RevisionInput,
    contents: Vec<&'static str>,
    entities: Vec<EntitySlot>,
    scalars: Vec<ScalarSlot>,
    name: Seq<char>,
)
    requires
        call_ensures(instance_revision_input, (context, args, template, tenant, status), revision),
        call_ensures(WorkflowInstance::content_slots, (), contents),
        call_ensures(WorkflowInstance::entity_slots, (), entities),
        call_ensures(WorkflowInstance::scalar_slots, (), scalars),
    ensures
        declared(contents@, name) <==> revision@.content_attr(name) is Some,
        declared_entity(entities@, name) <==> revision@.entity_attr(name) is Some,
        declared_scalar(scalars@, name) <==> revision@.scalar_attr(name) is Some,
{
    assert(contents@[0] == "context" && contents@[1] == "args");
    assert(entities@[0].name == "template" && entities@[1].name == "tenant");
    assert(scalars@[0].name == "status");
}

/// A step record's declared attributes are those that it is written with; it has
/// an output just where it is given one, and an error likewise.
pub proof fn law_record_slots_are_what_is_written(
    write: StepRecordWrite,
    revision: RevisionInput,
    contents: Vec<&'static str>,
    entities: Vec<EntitySlot>,
    scalars: Vec<ScalarSlot>,
    name: Seq<char>,
)
    requires
        write.step_seq <= i64::MAX,
        call_ensures(
            step_record_revision,
            (write,),
            Ok::<RevisionInput, WorkflowError>(revision),
        ),
        call_ensures(StepRecord::content_slots, (), contents),
        call_ensures(StepRecord::entity_slots, (), entities),
        call_ensures(StepRecord::scalar_slots, (), scalars),
    ensures
        revision@.content_attr(name) is Some ==> declared(contents@, name),
        write.output_hash is Some && write.error_hash is Some && declared(contents@, name)
            ==> revision@.content_attr(name) is Some,
        declared_entity(entities@, name) <==> revision@.entity_attr(name) is Some,
        declared_scalar(scalars@, name) <==> revision@.scalar_attr(name) is Some,
{
    assert(contents@[0] == "input" && contents@[1] == "output" && contents@[2] == "error"
        && contents@[3] == "subject");
    assert(entities@[0].name == "instance");
    assert(scalars@[0].name == "step_seq" && scalars@[1].name == "outcome");
}

/// The versions that an identity is judged by can be read off its identifiers'
/// texts: they are the first digit of the third group.
pub proof fn law_versions_stand_in_the_text(identity: Identity)
    ensures
        identity.versions() is Ok <==> identity.internal.text()[14] == '7'
            && identity.public.text()[14] == '4',
{
    lemma_version_digit(identity.internal);
    lemma_version_digit(identity.public);
}

proof fn lemma_version_digit(id: Uuid)
    ensures
        id.text()[14] == hex_digit(id.version()),
        0 <= id.version() < 16,
{
    assert(pow(16, 19) == 0x1000_0000_0000_0000_0000) by {
        reveal_with_fuel(pow, 20);
    }
    assert(id.text()[14] == uuid_digit(id.value, 12));
}

/// Digests and identifiers: a digest is that of all the bytes, an identifier's
/// text has hyphens at four places, and text that an identifier is written as is
/// read as that identifier.
pub proof fn law_identifier_functions(
    id: Uuid,
    written: String,
    read: Result<Uuid, String>,
    bits: u128,
    same: Uuid,
)
    ensures
        call_ensures(Uuid::to_text, (id,), written) ==> {
            &&& written@ == id.text()
            &&& written@.len() == 36
            &&& written@[8] == '-' && written@[13] == '-' && written@[18] == '-' && written@[23]
                == '-'
        },
        forall|text: &str| #[trigger]
            call_ensures(Uuid::parse, (text,), read) && text@ == id.text() ==> read is Ok
                && read->Ok_0 == id,
        call_ensures(Uuid::as_u128, (id,), bits) && call_ensures(Uuid::from_u128, (bits,), same)
            ==> same == id,
{
}

} // verus!
