//! When operations are refused, and why, said of what they are answered.

use crate::canonical::{faithful, json_parsed, CanonicalJson};
use crate::create::CreateProgress;
use crate::data::{AwaitDataConfig, AwaitDataContent, DataProgress};
use crate::entities::{WorkflowInstance, WorkflowTemplate};
use crate::error::WorkflowError;
use crate::execute::{StepCall, StepProgress};
use crate::executor::StepExecutionError;
use crate::ids::{EntityId, Sha256, Uuid};
use crate::instance::conversion_message;
use crate::json::JsonView;
use crate::laws::data::data_follows;
use crate::laws::lifecycle::{create_follows, create_run, transition_follows, transition_run};
use crate::laws::step::{lemma_rank_grows, lemma_run_fits};
use crate::laws::values::{bound, numbered};
use crate::runs::{step_follows, step_rank, step_run, Answer};
use crate::status::InstanceStatus;
use crate::store::{EntityRow, RevisionRow, RevisionView, ScalarValue, StoreError};
use crate::transition::TransitionProgress;
use vstd::prelude::*;
use vstd::utf8::valid_utf8;

verus! {

/// The failure of the store that an answer tells of.
pub open spec fn store_failure(answer: Answer) -> Option<StoreError> {
    match answer {
        Answer::Entity(Err(error)) => Some(error),
        Answer::Revision(Err(error)) => Some(error),
        Answer::Content(Err(error)) => Some(error),
        Answer::Identity(Err(error)) => Some(error),
        Answer::Created(Err(error)) => Some(error),
        Answer::Stored(Err(error)) => Some(error),
        _ => None,
    }
}

/// A failure of the store ends a step, and so do one of the lowerer and an
/// executor that cannot be reached; the step fails with that very failure.
pub proof fn law_step_fails_with_what_failed(p: StepProgress, answer: Answer, q: StepProgress)
    requires
        step_follows(p, answer, q),
    ensures
        store_failure(answer) matches Some(error) ==> q == StepProgress::Finished(
            Err(WorkflowError::Store(error)),
        ),
        answer matches Answer::Lowered(Err(error)) ==> q == StepProgress::Finished(
            Err(WorkflowError::ConfigLowering(error)),
        ),
        answer matches Answer::Executed(Err(StepExecutionError::Transport(detail))) ==> q
            == StepProgress::Finished(Err(WorkflowError::ExecutorUnreachable { detail })),
{
}

/// A failure of the store ends the creation of an instance with that failure.
pub proof fn law_creation_fails_with_what_failed(
    p: CreateProgress,
    answer: Answer,
    q: CreateProgress,
)
    requires
        create_follows(p, answer, q),
    ensures
        store_failure(answer) matches Some(error) ==> q == CreateProgress::Finished(
            Err(WorkflowError::Store(error)),
        ),
{
}

/// A failure of the store ends the end of an instance with that failure.
pub proof fn law_ending_fails_with_what_failed(
    p: TransitionProgress,
    answer: Answer,
    q: TransitionProgress,
)
    requires
        transition_follows(p, answer, q),
    ensures
        store_failure(answer) matches Some(error) ==> q == TransitionProgress::Finished(
            Err(WorkflowError::Store(error)),
        ),
{
}

/// What an entity that is no instance, or that is not there, is refused with.
pub open spec fn no_instance(found: Option<EntityRow>, id: Uuid, error: WorkflowError) -> bool {
    match found {
        None => error == (WorkflowError::InstanceNotFound { instance_id: id }),
        Some(entity) => entity.kind.value != WorkflowInstance::KIND && error == (
        WorkflowError::EntityKindMismatch {
            entity_name: "workflow_instance",
            expected: Uuid { value: WorkflowInstance::KIND },
            actual: entity.kind,
        }),
    }
}

/// What an entity that is no template, or that is not there, is refused with.
pub open spec fn no_template(found: Option<EntityRow>, id: Uuid, error: WorkflowError) -> bool {
    match found {
        None => error == (WorkflowError::TemplateNotFound { template_id: id }),
        Some(entity) => entity.kind.value != WorkflowTemplate::KIND && error == (
        WorkflowError::EntityKindMismatch {
            entity_name: "workflow_template",
            expected: Uuid { value: WorkflowTemplate::KIND },
            actual: entity.kind,
        }),
    }
}

/// What an instance that is neither pending nor running is refused with.
pub open spec fn not_live(latest: RevisionView, id: Uuid, error: WorkflowError) -> bool {
    match latest.scalar_attr("status"@) {
        None => error == (WorkflowError::MissingScalarAttribute {
            entity_name: "workflow_instance",
            attribute: "status",
        }),
        Some(ScalarValue::Bool(_)) => error == (WorkflowError::InvalidScalarType {
            entity_name: "workflow_instance",
            attribute: "status",
            expected: "i64",
            actual: "bool",
        }),
        Some(ScalarValue::I64(n)) => if 2 <= n <= 4 {
            error matches WorkflowError::InstanceTerminal { instance_id, status } && instance_id
                == id && numbered(n, status)
        } else {
            !(0 <= n <= 1) && error == (WorkflowError::InvalidInstanceStatusDiscriminant {
                value: n,
            })
        },
    }
}

/// The instance is pending or running.
pub open spec fn live(latest: RevisionView) -> bool {
    ||| latest.scalar_attr("status"@) == Some(ScalarValue::I64(0))
    ||| latest.scalar_attr("status"@) == Some(ScalarValue::I64(1))
}

/// The error for an instance without this content.
pub open spec fn lacks_content(attribute: &'static str) -> WorkflowError {
    WorkflowError::MissingContentAttribute { entity_name: "workflow_instance", attribute }
}

/// The error for an instance without this reference.
pub open spec fn lacks_entity(attribute: &'static str) -> WorkflowError {
    WorkflowError::MissingEntityAttribute { entity_name: "workflow_instance", attribute }
}

/// The error for a template without this content.
pub open spec fn template_lacks(attribute: &'static str) -> WorkflowError {
    WorkflowError::MissingContentAttribute { entity_name: "workflow_template", attribute }
}

/// What is refused before a step has its template: an entity that is no
/// instance, and an instance that has no revision, is not live, has no number
/// left, is not pinned to a revision of a template, or has no tenant. What is
/// found wrong first counts; what has none of these faults is not refused.
pub proof fn law_when_a_step_is_refused_for_its_instance(
    call: StepCall,
    progress: Seq<StepProgress>,
    answers: Seq<Answer>,
)
    requires
        step_run(call, progress, answers),
        answers.len() > 0,
    ensures
        answers[0] matches Answer::Entity(Ok(found)) ==> match found {
            Some(entity) if entity.kind.value == WorkflowInstance::KIND =>
                progress[1] !is Finished,
            _ => progress[1] matches StepProgress::Finished(Err(error)) && no_instance(
                found,
                call.instance_id.identity().internal,
                error,
            ),
        },
        answers.len() > 1 ==> answers[1] == Answer::Revision(Ok(None)) ==> progress[2]
            == StepProgress::Finished(
            Err(
                WorkflowError::InstanceRevisionMissing {
                    instance_id: call.instance_id.identity().internal,
                },
            ),
        ),
        answers.len() > 1 ==> (answers[1] matches Answer::Revision(Ok(Some(latest))) ==> {
            let template = latest@.entity_attr("template"@);
            let tenant = latest@.entity_attr("tenant"@);
            let numbered = latest.revision_seq < u64::MAX;
            let pinned = template is Some && template->Some_0.target_revision_seq is Some;
            &&& !live(latest@) ==> (progress[2] matches StepProgress::Finished(Err(error))
                && not_live(latest@, call.instance_id.identity().internal, error))
            &&& live(latest@) && !numbered ==> progress[2] == StepProgress::Finished(
                Err(WorkflowError::IntegerOverflow { field: "step_seq" }),
            )
            &&& live(latest@) && numbered && template is None ==> progress[2]
                == StepProgress::Finished(Err(lacks_entity("template")))
            &&& live(latest@) && numbered && template is Some && !pinned ==> progress[2]
                == StepProgress::Finished(
                Err(
                    WorkflowError::MissingPinnedReference {
                        entity_name: "workflow_instance",
                        attribute: "template",
                    },
                ),
            )
            &&& live(latest@) && numbered && pinned && tenant is None ==> progress[2]
                == StepProgress::Finished(Err(lacks_entity("tenant")))
            &&& live(latest@) && numbered && pinned && tenant is Some
                ==> progress[2] !is Finished
        }),
{
    assert(step_follows(progress[0], answers[0], progress[1]));
    if answers.len() > 1 {
        assert(step_follows(progress[1], answers[1], progress[2]));
    }
}

/// What is refused before a step has its script: an entity that is no template,
/// and a template that does not have the revision that the instance is pinned
/// to, or of which that revision has no tenant, another tenant, no script or no
/// config. What is found wrong first counts; what has none of these faults is
/// not refused.
pub proof fn law_when_a_step_is_refused_for_its_template(
    call: StepCall,
    progress: Seq<StepProgress>,
    answers: Seq<Answer>,
    latest: RevisionRow,
)
    requires
        step_run(call, progress, answers),
        answers.len() > 2,
        answers[1] == Answer::Revision(Ok(Some(latest))),
    ensures
        latest@.entity_attr("template"@) matches Some(pin) && {
            &&& answers[2] matches Answer::Entity(Ok(found)) ==> match found {
                Some(entity) if entity.kind.value == WorkflowTemplate::KIND =>
                    progress[3] !is Finished,
                _ => progress[3] matches StepProgress::Finished(Err(error)) && no_template(
                    found,
                    pin.target_entity_id,
                    error,
                ),
            }
            &&& answers.len() > 3 ==> answers[3] == Answer::Revision(Ok(None)) ==> progress[4]
                == StepProgress::Finished(
                Err(
                    WorkflowError::TemplateRevisionNotFound {
                        template_id: pin.target_entity_id,
                        revision_seq: pin.target_revision_seq->Some_0,
                    },
                ),
            )
            &&& answers.len() > 3 ==> (answers[3] matches Answer::Revision(Ok(Some(template))) ==> {
                let owner = template@.entity_attr("tenant"@);
                let tenant = latest@.entity_attr("tenant"@)->Some_0.target_entity_id;
                let owned = owner is Some && owner->Some_0.target_entity_id == tenant;
                let script = template@.content_attr("script"@);
                let config = template@.content_attr("config"@);
                &&& owner is None ==> progress[4] == StepProgress::Finished(
                    Err(
                        WorkflowError::MissingEntityAttribute {
                            entity_name: "workflow_template",
                            attribute: "tenant",
                        },
                    ),
                )
                &&& owner is Some && !owned ==> progress[4] == StepProgress::Finished(
                    Err(
                        WorkflowError::TemplateTenantMismatch {
                            template_id: pin.target_entity_id,
                            instance_id: call.instance_id.identity().internal,
                            template_tenant: owner->Some_0.target_entity_id,
                            instance_tenant: tenant,
                        },
                    ),
                )
                &&& owned && script is None ==> progress[4] == StepProgress::Finished(
                    Err(template_lacks("script")),
                )
                &&& owned && script is Some && config is None ==> progress[4]
                    == StepProgress::Finished(Err(template_lacks("config")))
                &&& owned && script is Some && config is Some ==> progress[4] !is Finished
            })
        },
{
    assert(step_follows(progress[0], answers[0], progress[1]));
    assert(step_follows(progress[1], answers[1], progress[2]));
    assert(step_follows(progress[2], answers[2], progress[3]));
    if answers.len() > 3 {
        assert(step_follows(progress[3], answers[3], progress[4]));
    }
}

/// Where content is missing, the step fails for that content; where it is no
/// JSON, it fails for that; otherwise it goes on.
pub open spec fn json_decides(
    answer: Answer,
    next: StepProgress,
    entity_name: &'static str,
    attribute: &'static str,
    hash: Sha256,
) -> bool {
    &&& answer == Answer::Content(Ok(None)) ==> next == StepProgress::Finished(
        Err(WorkflowError::MissingContentBlob { entity_name, attribute, hash }),
    )
    &&& answer matches Answer::Content(Ok(Some(bytes))) ==> json_parsed(bytes@) is Err ==> (
    next matches StepProgress::Finished(Err(error)) && (error is Json || (error
        matches WorkflowError::Store(StoreError::Decode { .. }))))
}

/// What is refused before a step writes anything: a script that is not stored or
/// is no text, a config, a context or arguments that are not stored or are no
/// JSON, and an instance without a context or arguments. What has none of these
/// faults is not refused.
pub proof fn law_when_a_step_is_refused_for_its_content(
    call: StepCall,
    progress: Seq<StepProgress>,
    answers: Seq<Answer>,
    latest: RevisionRow,
    template: RevisionRow,
)
    requires
        step_run(call, progress, answers),
        answers.len() > 4,
        answers[1] == Answer::Revision(Ok(Some(latest))),
        answers[3] == Answer::Revision(Ok(Some(template))),
    ensures
        template@.content_attr("script"@) matches Some(script) && {
            &&& answers[4] == Answer::Content(Ok(None)) ==> progress[5] == StepProgress::Finished(
                Err(
                    WorkflowError::MissingContentBlob {
                        entity_name: "workflow_template",
                        attribute: "script",
                        hash: script,
                    },
                ),
            )
            &&& answers[4] matches Answer::Content(Ok(Some(bytes))) ==> !valid_utf8(bytes@) ==> (
            progress[5] matches StepProgress::Finished(Err(WorkflowError::ScriptUtf8(error)))
                && valid_utf8(bytes@.take(error.valid_up_to as int)))
            &&& answers[4] matches Answer::Content(Ok(Some(bytes))) ==> valid_utf8(bytes@)
                ==> progress[5] !is Finished
        },
        answers.len() > 5 ==> {
            let context = latest@.content_attr("context"@);
            let args = latest@.content_attr("args"@);
            let config = template@.content_attr("config"@);
            &&& config is Some
            &&& json_decides(
                answers[5],
                progress[6],
                "workflow_template",
                "config",
                config->Some_0,
            )
            &&& answers[5] matches Answer::Content(Ok(Some(bytes))) ==> json_parsed(bytes@) is Ok
                ==> {
                &&& context is None ==> progress[6] == StepProgress::Finished(
                    Err(lacks_content("context")),
                )
                &&& context is Some && args is None ==> progress[6] == StepProgress::Finished(
                    Err(lacks_content("args")),
                )
                &&& context is Some && args is Some ==> progress[6] !is Finished
            }
        },
        answers.len() > 6 ==> {
            &&& json_decides(
                answers[6],
                progress[7],
                "workflow_instance",
                "context",
                latest@.content_attr("context"@)->Some_0,
            )
            &&& answers[6] matches Answer::Content(Ok(Some(bytes))) ==> json_parsed(bytes@) is Ok
                ==> progress[7] !is Finished
        },
        answers.len() > 7 ==> {
            &&& json_decides(
                answers[7],
                progress[8],
                "workflow_instance",
                "args",
                latest@.content_attr("args"@)->Some_0,
            )
            &&& answers[7] matches Answer::Content(Ok(Some(bytes))) ==> json_parsed(bytes@) is Ok
                ==> progress[8] !is Finished
        },
{
    assert(step_follows(progress[0], answers[0], progress[1]));
    assert(step_follows(progress[1], answers[1], progress[2]));
    assert(step_follows(progress[2], answers[2], progress[3]));
    assert(step_follows(progress[3], answers[3], progress[4]));
    assert(step_follows(progress[4], answers[4], progress[5]));
    if answers.len() > 5 {
        assert(step_follows(progress[5], answers[5], progress[6]));
    }
    if answers.len() > 6 {
        assert(step_follows(progress[6], answers[6], progress[7]));
    }
    if answers.len() > 7 {
        assert(step_follows(progress[7], answers[7], progress[8]));
    }
}

/// What is refused of a template's data bindings as a whole: bindings that are
/// not stored, are no JSON, are no object, or have something else than an object
/// under `embed_datasets`. Where there is nothing under that name, the data is
/// complete, and without datasets.
pub proof fn law_when_data_bindings_are_refused(
    tenant: Uuid,
    hash: Sha256,
    answer: Answer,
    next: DataProgress,
)
    requires
        data_follows(
            DataProgress::GetContent {
                hash,
                then: AwaitDataContent::DataConfig(AwaitDataConfig { tenant, hash }),
            },
            answer,
            next,
        ),
    ensures
        answer == Answer::Content(Ok(None)) ==> next == DataProgress::Finished(
            Err(
                WorkflowError::MissingContentBlob {
                    entity_name: "workflow_template",
                    attribute: "data_config",
                    hash,
                },
            ),
        ),
        answer matches Answer::Content(Ok(Some(bytes))) ==> json_parsed(bytes@) is Err ==> (
        next matches DataProgress::Finished(Err(error)) && (error is Json || (error
            matches WorkflowError::Store(StoreError::Decode { .. })))),
        answer matches Answer::Content(Ok(Some(bytes))) ==> faithful(bytes@) ==> {
            let config = json_parsed(bytes@)->Ok_0;
            &&& !(config is Object) ==> (next matches DataProgress::Finished(
                Err(WorkflowError::DataConfigInvalid { detail }),
            ) && detail@ == "data_config must be a JSON object"@)
            &&& config is Object ==> match config.field("embed_datasets"@) {
                None => next matches DataProgress::Finished(Ok(data)) && data@.field(
                    "embed_datasets"@,
                ) == Some(JsonView::Object(Map::empty())),
                Some(JsonView::Object(_)) => true,
                Some(_) => next matches DataProgress::Finished(
                    Err(WorkflowError::DataConfigInvalid { detail }),
                ) && detail@ == "data_config.embed_datasets must be a JSON object"@,
            }
        },
{
}

/// An input that is no JSON is refused once it is stored, in words that end in
/// what is wrong with it; and no step gets further without one that is.
pub proof fn law_when_a_step_is_refused_for_its_input(
    call: StepCall,
    progress: Seq<StepProgress>,
    answers: Seq<Answer>,
)
    requires
        step_run(call, progress, answers),
        answers.len() > 9,
    ensures
        answers[8] matches Answer::Stored(Ok(_)),
        answers[9] matches Answer::Stored(Ok(_)) ==> match json_parsed(call.input@) {
            Err(message) => progress[10] matches StepProgress::Finished(
                Err(WorkflowError::Json { detail }),
            ) && message == detail@.skip(detail@.len() - message.len()),
            Ok(_) => progress[10] !is Finished,
        },
{
    assert(step_follows(progress[0], answers[0], progress[1]));
    assert(step_follows(progress[1], answers[1], progress[2]));
    assert(step_follows(progress[2], answers[2], progress[3]));
    assert(step_follows(progress[3], answers[3], progress[4]));
    assert(step_follows(progress[4], answers[4], progress[5]));
    assert(step_follows(progress[5], answers[5], progress[6]));
    assert(step_follows(progress[6], answers[6], progress[7]));
    assert(step_follows(progress[7], answers[7], progress[8]));
    assert(step_follows(progress[8], answers[8], progress[9]));
    assert(step_follows(progress[9], answers[9], progress[10]));
    if let Err(message) = json_parsed(call.input@) {
        let words = "failed to parse canonical JSON: "@;
        assert((words + message).skip((words + message).len() - message.len()) =~= message);
    }
}

/// Once a step has read its instance's context, the instance has one, and all
/// that its next revision takes over.
proof fn lemma_has_content(
    call: StepCall,
    progress: Seq<StepProgress>,
    answers: Seq<Answer>,
    latest: RevisionRow,
    i: int,
)
    requires
        step_run(call, progress, answers),
        2 <= i < progress.len(),
        answers[1] == Answer::Revision(Ok(Some(latest))),
        step_rank(progress[i]) >= 6,
        progress[i] !is Finished,
    ensures
        latest@.content_attr("context"@) is Some,
        bound(latest@),
    decreases i,
{
    assert(step_follows(progress[0], answers[0], progress[1]));
    assert(step_follows(progress[1], answers[1], progress[2]));
    if i > 2 {
        assert(step_follows(progress[2], answers[2], progress[3]));
        assert(step_follows(progress[i - 1], answers[i - 1], progress[i]));
        lemma_run_fits(call, progress, answers, i - 1);
        if step_rank(progress[i - 1]) >= 6 {
            lemma_has_content(call, progress, answers, latest, i - 1);
        }
    }
}

/// After its first ten answers a step stores no more of what it was asked for
/// with.
proof fn lemma_late_content(
    call: StepCall,
    progress: Seq<StepProgress>,
    answers: Seq<Answer>,
    i: int,
)
    requires
        step_run(call, progress, answers),
        9 < i < answers.len(),
    ensures
        step_rank(progress[i]) > 9,
{
    lemma_rank_grows(call, progress, answers, 9, i);
    lemma_first_ranks(call, progress, answers);
}

/// A step that gets ten answers has then stored its input and who asks for it.
proof fn lemma_first_ranks(call: StepCall, progress: Seq<StepProgress>, answers: Seq<Answer>)
    requires
        step_run(call, progress, answers),
        answers.len() > 9,
    ensures
        step_rank(progress[9]) == 9,
{
    assert(step_follows(progress[0], answers[0], progress[1]));
    assert(step_follows(progress[1], answers[1], progress[2]));
    assert(step_follows(progress[2], answers[2], progress[3]));
    assert(step_follows(progress[3], answers[3], progress[4]));
    assert(step_follows(progress[4], answers[4], progress[5]));
    assert(step_follows(progress[5], answers[5], progress[6]));
    assert(step_follows(progress[6], answers[6], progress[7]));
    assert(step_follows(progress[7], answers[7], progress[8]));
    assert(step_follows(progress[8], answers[8], progress[9]));
    assert(step_follows(progress[9], answers[9], progress[10]));
}

/// Once the script's result is conclusive, a step fails only for the store, for
/// an unsound identity of its record, or for a number that does not fit its
/// record; it is written down otherwise.
pub proof fn law_when_a_conclusive_step_is_refused(
    call: StepCall,
    progress: Seq<StepProgress>,
    answers: Seq<Answer>,
    latest: RevisionRow,
    i: int,
)
    requires
        step_run(call, progress, answers),
        2 <= i < answers.len(),
        answers[1] == Answer::Revision(Ok(Some(latest))),
    ensures
        answers[i] matches Answer::Executed(Ok(_)) ==> progress[i + 1] is PutContent,
        answers[i] matches Answer::Executed(Err(StepExecutionError::ScriptError(_))) ==> progress[i
            + 1] is PutContent,
        progress[i] is PutContent && i > 9 ==> (answers[i] matches Answer::Stored(Ok(_))
            ==> progress[i + 1] !is Finished),
        progress[i] is CreateRecord ==> (answers[i] matches Answer::Created(Ok(identity)) ==> {
            &&& identity.versions() is Err ==> (progress[i + 1] matches StepProgress::Finished(
                Err(WorkflowError::Store(StoreError::IdentityKind { .. })),
            ))
            &&& identity.versions() is Ok && latest.revision_seq >= i64::MAX ==> (progress[i + 1]
                matches StepProgress::Finished(
                Err(WorkflowError::IntegerConversion { field, detail }),
            ) && field == "step_seq" && detail@ == conversion_message(
                (latest.revision_seq + 1) as u64,
            ))
            &&& identity.versions() is Ok && latest.revision_seq < i64::MAX ==> progress[i
                + 1] is AppendRecord
        }),
        progress[i] is AppendRecord ==> (answers[i] matches Answer::Stored(Ok(_)) ==> progress[i
            + 1] is AppendInstance),
        progress[i] is AppendInstance ==> (answers[i] matches Answer::Stored(Ok(_)) ==> {
            ||| progress[i + 1] matches StepProgress::Finished(Ok(_))
            ||| progress[i + 1] matches StepProgress::Finished(
                Err(WorkflowError::StepExecutionFailed { .. }),
            )
        }),
{
    lemma_run_fits(call, progress, answers, i);
    assert(step_follows(progress[i], answers[i], progress[i + 1]));
    if progress[i] is AppendRecord {
        lemma_has_content(call, progress, answers, latest, i);
    }
    if progress[i] is PutContent && i > 9 {
        lemma_late_content(call, progress, answers, i);
    }
}

/// What is refused when an instance is to be created: a template that has no
/// revision, or no tenant, and an identity with the wrong versions. What has
/// none of these faults is not refused.
pub proof fn law_when_a_creation_is_refused(
    template_id: EntityId<WorkflowTemplate>,
    args: CanonicalJson,
    progress: Seq<CreateProgress>,
    answers: Seq<Answer>,
)
    requires
        create_run(template_id, args, progress, answers),
        answers.len() > 0,
    ensures
        answers[0] == Answer::Revision(Ok(None)) ==> progress[1] == CreateProgress::Finished(
            Err(WorkflowError::TemplateNotFound { template_id: template_id.identity().internal }),
        ),
        answers[0] matches Answer::Revision(Ok(Some(template))) ==> match template@.entity_attr(
            "tenant"@,
        ) {
            None => progress[1] == CreateProgress::Finished(
                Err(
                    WorkflowError::MissingEntityAttribute {
                        entity_name: "workflow_template",
                        attribute: "tenant",
                    },
                ),
            ),
            Some(_) => progress[1] is CreateInstance,
        },
        answers.len() > 1 ==> (answers[1] matches Answer::Created(Ok(identity)) ==> (
        identity.versions() is Err ==> (progress[2] matches CreateProgress::Finished(
            Err(WorkflowError::Store(StoreError::IdentityKind { .. })),
        )))),
{
    assert(create_follows(progress[0], answers[0], progress[1]));
    if answers.len() > 1 {
        assert(create_follows(progress[1], answers[1], progress[2]));
    }
}

/// What is refused when an instance is to be completed or cancelled: an entity
/// that is no instance, and an instance that has no revision, is not live, may
/// not get the status, lacks its context or something that is taken over, or has
/// no number left. What is found wrong first counts; what has none of these
/// faults is not refused.
pub proof fn law_when_an_ending_is_refused(
    instance_id: EntityId<WorkflowInstance>,
    next_status: InstanceStatus,
    progress: Seq<TransitionProgress>,
    answers: Seq<Answer>,
)
    requires
        transition_run(instance_id, next_status, progress, answers),
        answers.len() > 0,
    ensures
        answers[0] matches Answer::Entity(Ok(found)) ==> match found {
            Some(entity) if entity.kind.value == WorkflowInstance::KIND =>
                progress[1] is GetLatestRevision,
            _ => progress[1] matches TransitionProgress::Finished(Err(error)) && no_instance(
                found,
                instance_id.identity().internal,
                error,
            ),
        },
        answers.len() > 1 ==> answers[1] == Answer::Revision(Ok(None)) ==> progress[2]
            == TransitionProgress::Finished(
            Err(
                WorkflowError::InstanceRevisionMissing {
                    instance_id: instance_id.identity().internal,
                },
            ),
        ),
        answers.len() > 1 ==> (answers[1] matches Answer::Revision(Ok(Some(latest))) ==> {
            let allowed = live(latest@) && next_status != InstanceStatus::Pending;
            let context = latest@.content_attr("context"@) is Some;
            let args = latest@.content_attr("args"@) is Some;
            let template = latest@.entity_attr("template"@) is Some;
            let tenant = latest@.entity_attr("tenant"@) is Some;
            let left = latest.revision_seq < u64::MAX;
            &&& !live(latest@) ==> (progress[2] matches TransitionProgress::Finished(Err(error))
                && not_live(latest@, instance_id.identity().internal, error))
            &&& live(latest@) && !allowed ==> (progress[2] matches TransitionProgress::Finished(
                Err(WorkflowError::InvalidTransition { instance_id: id, from, to }),
            ) && id == instance_id.identity().internal && to == InstanceStatus::Pending
                && latest@.scalar_attr("status"@) == Some(
                ScalarValue::I64(
                    if from == InstanceStatus::Pending {
                        0
                    } else {
                        1
                    },
                ),
            ))
            &&& allowed && !context ==> progress[2] == TransitionProgress::Finished(
                Err(lacks_content("context")),
            )
            &&& allowed && context && !args ==> progress[2] == TransitionProgress::Finished(
                Err(lacks_content("args")),
            )
            &&& allowed && context && args && !template ==> progress[2]
                == TransitionProgress::Finished(Err(lacks_entity("template")))
            &&& allowed && context && args && template && !tenant ==> progress[2]
                == TransitionProgress::Finished(Err(lacks_entity("tenant")))
            &&& allowed && context && args && template && tenant && !left ==> progress[2]
                == TransitionProgress::Finished(
                Err(WorkflowError::IntegerOverflow { field: "instance_revision_seq" }),
            )
            &&& allowed && context && args && template && tenant && left
                ==> progress[2] is AppendRevision
        }),
{
    assert(transition_follows(progress[0], answers[0], progress[1]));
    if answers.len() > 1 {
        assert(transition_follows(progress[1], answers[1], progress[2]));
    }
}

} // verus!
