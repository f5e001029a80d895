//! When operations must succeed, said of what the store has and of what they are
//! answered.

use crate::canonical::{canonical_bytes, json_parsed, CanonicalJson};
use crate::create::CreateProgress;
use crate::data::DataProgress;
use crate::entities::{WorkflowInstance, WorkflowTemplate};
use crate::error::WorkflowError;
use crate::execute::{StepCall, StepProgress, StepPut};
use crate::executor::StepExecutionError;
use crate::ids::{sha256, EntityId, Sha256, Uuid};
use crate::json::JsonView;
use crate::laws::argument::{
    answered_by, data_request, lemma_run_stored, progress_stored, template_read,
};
use crate::laws::bindings::{
    bindings_in_order, law_config_comes_to_what_it_names, stored_bindings,
};
use crate::laws::data::{config_outcome, data_follows, lemma_on_its_way, Catalogue};
use crate::laws::lifecycle::{create_follows, create_run, transition_follows, transition_run};
use crate::laws::outcomes::{
    failed_for, law_failure_is_what_the_executor_answered,
    law_result_is_what_the_executor_answered, wrote_failure, wrote_success,
};
use crate::laws::pinning::{answered_in, run_answered_in, StoreState};
use crate::laws::step::{instance_read, progress_fits};
use crate::laws::values::{
    bound, follows_with, law_result_is_taken_by_its_fields, lemma_instance_names_differ, numbered,
    well_formed,
};
use crate::runs::{step_follows, step_run, Answer};
use crate::status::InstanceStatus;
use crate::store::{EntityRefValue, RevisionRow, ScalarValue};
use crate::transition::TransitionProgress;
use vstd::prelude::*;
use vstd::utf8::valid_utf8;

verus! {

/// Creating an instance must succeed where the template's latest revision is
/// found, whatever its number, and has a tenant, and the store makes a sound
/// identity and stores what it is asked to. The instance has that identity; it
/// is pending, with the canonical form of an empty object as its context and the
/// arguments given, pinned to the template at the revision found, and of the
/// template's tenant.
pub proof fn law_creation_must_succeed(
    template_id: EntityId<WorkflowTemplate>,
    args: CanonicalJson,
    progress: Seq<CreateProgress>,
    answers: Seq<Answer>,
    template: RevisionRow,
)
    requires
        create_run(template_id, args, progress, answers),
        progress.last() is Finished,
        answers.len() > 0 ==> answers[0] == Answer::Revision(Ok(Some(template))),
        template@.entity_attr("tenant"@) is Some,
        answers.len() > 1 ==> (answers[1] matches Answer::Created(Ok(identity))
            && identity.versions() is Ok),
        forall|i: int|
            2 <= i < answers.len() ==> ((#[trigger] answers[i]) matches Answer::Stored(Ok(_))),
    ensures
        progress.len() == 6,
        progress[5] matches CreateProgress::Finished(Ok(instance_id)) && {
            &&& answers[1] matches Answer::Created(Ok(identity))
            &&& instance_id.identity() == identity
            &&& canonical_bytes(JsonView::Object(Map::empty())) matches Ok(empty)
            &&& progress[2] matches CreateProgress::PutContent { hash, bytes, .. }
            &&& bytes@ == empty
            &&& hash == sha256(empty)
            &&& progress[3] matches CreateProgress::PutContent { hash: given, bytes: kept, .. }
            &&& kept@ == args@
            &&& given == sha256(args@)
            &&& progress[4] matches CreateProgress::AppendRevision {
                instance_id: id,
                revision_seq: 0,
                revision,
                ..
            }
            &&& id == instance_id
            &&& revision@.content_attr("context"@) == Some(sha256(empty))
            &&& revision@.content_attr("args"@) == Some(sha256(args@))
            &&& revision@.entity_attr("template"@) == Some(
                EntityRefValue {
                    target_entity_id: template_id.identity().internal,
                    target_revision_seq: Some(template.revision_seq),
                },
            )
            &&& revision@.entity_attr("tenant"@) == template@.entity_attr("tenant"@)
            &&& revision@.scalar_attr("status"@) == Some(ScalarValue::I64(0))
        },
{
    assert(answers.len() > 0);
    assert(create_follows(progress[0], answers[0], progress[1]));
    assert(answers.len() > 1);
    assert(create_follows(progress[1], answers[1], progress[2]));
    assert(answers.len() > 2);
    assert(create_follows(progress[2], answers[2], progress[3]));
    assert(answers.len() > 3);
    assert(create_follows(progress[3], answers[3], progress[4]));
    assert(answers.len() > 4);
    assert(create_follows(progress[4], answers[4], progress[5]));
    if answers.len() > 5 {
        assert(create_follows(progress[5], answers[5], progress[6]));
    }
    lemma_instance_names_differ();
}

/// Completing or cancelling an instance must succeed where the instance is found
/// and its latest revision, whatever its number as long as one is left, is
/// pending or running, has a context, and has all that is taken over, and the
/// store stores the next revision. That revision has the next number, the
/// context as it was, and the new status.
pub proof fn law_ending_must_succeed(
    instance_id: EntityId<WorkflowInstance>,
    next_status: InstanceStatus,
    n: i64,
    progress: Seq<TransitionProgress>,
    answers: Seq<Answer>,
    latest: RevisionRow,
)
    requires
        transition_run(instance_id, next_status, progress, answers),
        progress.last() is Finished,
        numbered(n, next_status),
        n != 0,
        answers.len() > 0 ==> (answers[0] matches Answer::Entity(Ok(Some(entity)))
            && entity.kind.value == WorkflowInstance::KIND),
        answers.len() > 1 ==> answers[1] == Answer::Revision(Ok(Some(latest))),
        latest@.scalar_attr("status"@) == Some(ScalarValue::I64(0)) || latest@.scalar_attr(
            "status"@,
        ) == Some(ScalarValue::I64(1)),
        latest@.content_attr("context"@) is Some,
        bound(latest@),
        latest.revision_seq < u64::MAX,
        answers.len() > 2 ==> (answers[2] matches Answer::Stored(Ok(_))),
    ensures
        progress.len() == 4,
        progress[2] matches TransitionProgress::AppendRevision {
            instance_id: id,
            revision_seq,
            revision,
            ..
        } && id == instance_id && revision_seq == latest.revision_seq + 1 && follows_with(
            revision@,
            latest@,
            latest@.content_attr("context"@)->Some_0,
            n,
        ),
        progress[3] matches TransitionProgress::Finished(Ok(_)),
{
    assert(answers.len() > 0);
    assert(transition_follows(progress[0], answers[0], progress[1]));
    assert(answers.len() > 1);
    assert(transition_follows(progress[1], answers[1], progress[2]));
    assert(answers.len() > 2);
    assert(transition_follows(progress[2], answers[2], progress[3]));
    if answers.len() > 3 {
        assert(transition_follows(progress[3], answers[3], progress[4]));
    }
    lemma_instance_names_differ();
}

/// The store as it looks to the lookup of data.
pub open spec fn catalogue(s: StoreState) -> Catalogue {
    Catalogue { identity: s.identity, entity: s.entity, latest: s.dataset, content: s.content }
}

/// The store has content under this digest, and it is JSON.
pub open spec fn has_json(s: StoreState, hash: Sha256) -> bool {
    (s.content)(hash) matches Some(bytes) && json_parsed(bytes) is Ok
}

/// The instance is pending or running, has a number left for a step, and has all
/// its attributes, of which the context and the arguments are stored as JSON.
pub open spec fn instance_in_order(s: StoreState, latest: RevisionRow) -> bool {
    &&& latest@.scalar_attr("status"@) == Some(ScalarValue::I64(0)) || latest@.scalar_attr(
        "status"@,
    ) == Some(ScalarValue::I64(1))
    &&& latest.revision_seq < i64::MAX
    &&& bound(latest@)
    &&& latest@.entity_attr("template"@)->Some_0.target_revision_seq is Some
    &&& latest@.content_attr("context"@) matches Some(context)
    &&& has_json(s, context)
    &&& has_json(s, latest@.content_attr("args"@)->Some_0)
}

/// The template belongs to the tenant and has a script, stored as text, a config,
/// stored as JSON, and where it binds data, bindings that are in order.
pub open spec fn template_in_order(s: StoreState, template: RevisionRow, tenant: Uuid) -> bool {
    &&& template@.entity_attr("tenant"@) matches Some(owner)
    &&& owner.target_entity_id == tenant
    &&& template@.content_attr("script"@) matches Some(script)
    &&& (s.content)(script) matches Some(bytes)
    &&& valid_utf8(bytes)
    &&& template@.content_attr("config"@) matches Some(config)
    &&& has_json(s, config)
    &&& template@.content_attr("data_config"@) matches Some(hash) ==> exists|
        bindings: Option<Map<Seq<char>, JsonView>>,
    | #[trigger]
        stored_bindings(catalogue(s), hash, bindings) && (bindings matches Some(fields)
            ==> fields.dom().finite() && bindings_in_order(catalogue(s), tenant, fields))
}

/// The store has all that a step of this instance needs, and the step's input is
/// JSON.
pub open spec fn step_in_order(
    s: StoreState,
    call: StepCall,
    latest: RevisionRow,
    template: RevisionRow,
) -> bool {
    let id = call.instance_id.identity().internal;
    let pin = latest@.entity_attr("template"@)->Some_0;
    &&& (s.entity)(id) matches Some(entity)
    &&& entity.kind.value == WorkflowInstance::KIND
    &&& (s.instance)(id) == Some(latest)
    &&& instance_in_order(s, latest)
    &&& (s.entity)(pin.target_entity_id) matches Some(found)
    &&& found.kind.value == WorkflowTemplate::KIND
    &&& (s.template)((pin.target_entity_id, pin.target_revision_seq->Some_0)) == Some(template)
    &&& template_in_order(
        s,
        template,
        latest@.entity_attr("tenant"@)->Some_0.target_entity_id,
    )
    &&& json_parsed(call.input@) is Ok
}

/// What is not read is answered in order: the store stores and makes sound
/// identities, the config is lowered, and the script is run, with a well-formed
/// result or not.
pub open spec fn answer_in_order(answer: Answer, good: bool) -> bool {
    match answer {
        Answer::Stored(stored) => stored is Ok,
        Answer::Created(created) => created matches Ok(identity) && identity.versions() is Ok,
        Answer::Lowered(lowered) => lowered is Ok,
        Answer::Executed(executed) => match executed {
            Ok(value) => well_formed(value@) == good,
            Err(StepExecutionError::ScriptError(_)) => !good,
            Err(StepExecutionError::Transport(_)) => false,
        },
        _ => true,
    }
}

/// Where a step stands, it is on its way to the end that the script's result
/// asks for.
pub open spec fn on_course(p: StepProgress, good: bool) -> bool {
    match p {
        StepProgress::PutContent { then, .. } => match then {
            StepPut::Error(_) => !good,
            StepPut::Context(_) => good,
            StepPut::Output(_) => good,
            _ => true,
        },
        StepProgress::CreateRecord { then } => (then.ending is Succeeded) == good,
        StepProgress::AppendRecord { then, .. } => (then.ending is Succeeded) == good,
        StepProgress::AppendInstance { then, .. } => (then.ending is Succeeded) == good,
        StepProgress::Finished(Ok(_)) => good,
        StepProgress::Finished(Err(error)) => !good && error is StepExecutionFailed,
        _ => true,
    }
}

/// The first answers of a step that is in order do not end it.
proof fn lemma_start_on_course(
    call: StepCall,
    progress: Seq<StepProgress>,
    answers: Seq<Answer>,
    s: StoreState,
    latest: RevisionRow,
    template: RevisionRow,
    good: bool,
    i: int,
)
    requires
        step_run(call, progress, answers),
        run_answered_in(s, progress, answers),
        step_in_order(s, call, latest, template),
        0 <= i < progress.len(),
        i <= 4,
    ensures
        on_course(progress[i], good),
        progress[i] !is Finished,
        i >= 2 ==> instance_read(answers) == Some(latest),
        i >= 4 ==> template_read(answers) == Some(template),
{
    if i >= 1 {
        assert(step_follows(progress[0], answers[0], progress[1]));
        assert(answered_in(s, progress[0], answers[0]));
    }
    if i >= 2 {
        assert(step_follows(progress[1], answers[1], progress[2]));
        assert(answered_in(s, progress[1], answers[1]));
    }
    if i >= 3 {
        assert(step_follows(progress[2], answers[2], progress[3]));
        assert(answered_in(s, progress[2], answers[2]));
    }
    if i >= 4 {
        assert(step_follows(progress[3], answers[3], progress[4]));
        assert(answered_in(s, progress[3], answers[3]));
    }
}

/// A step's reads do not end it.
proof fn lemma_read_on_course(
    p: StepProgress,
    answer: Answer,
    q: StepProgress,
    call: StepCall,
    latest: RevisionRow,
    template: RevisionRow,
    s: StoreState,
    good: bool,
)
    requires
        p is GetContent,
        data_request(p) is None,
        progress_fits(p, call, latest),
        progress_stored(p, call, latest, template, catalogue(s)),
        step_follows(p, answer, q),
        answered_in(s, p, answer),
        step_in_order(s, call, latest, template),
    ensures
        on_course(q, good),
{
}

/// A step's lookup of data does not end it.
proof fn lemma_lookup_on_course(
    p: StepProgress,
    answer: Answer,
    q: StepProgress,
    call: StepCall,
    latest: RevisionRow,
    template: RevisionRow,
    s: StoreState,
    good: bool,
)
    requires
        data_request(p) is Some,
        progress_fits(p, call, latest),
        progress_stored(p, call, latest, template, catalogue(s)),
        step_follows(p, answer, q),
        answered_in(s, p, answer),
        step_in_order(s, call, latest, template),
    ensures
        on_course(q, good),
{
    let c = catalogue(s);
    let (ready, request) = data_request(p)->Some_0;
    let hash = template@.content_attr("data_config"@)->Some_0;
    let tenant = latest@.entity_attr("tenant"@)->Some_0.target_entity_id;
    let bindings = choose|bindings: Option<Map<Seq<char>, JsonView>>| #[trigger]
        stored_bindings(c, hash, bindings) && (bindings matches Some(fields)
            ==> fields.dom().finite() && bindings_in_order(c, tenant, fields));
    law_config_comes_to_what_it_names(c, tenant, hash, bindings);
    assert(ready.material.base.plan.tenant == tenant);
    let inner = choose|inner: DataProgress|
        data_follows(request, answer, inner) && ready.followed_by(inner, q);
    assert(data_follows(request, answer, inner) && ready.followed_by(inner, q));
    lemma_on_its_way(c, request, answer, inner, config_outcome(c, tenant, hash));
}

/// A step's writes, its config and its script end it only as they should.
proof fn lemma_rest_on_course(
    p: StepProgress,
    answer: Answer,
    q: StepProgress,
    call: StepCall,
    latest: RevisionRow,
    template: RevisionRow,
    s: StoreState,
    good: bool,
)
    requires
        p !is GetContent,
        data_request(p) is None,
        progress_fits(p, call, latest),
        progress_stored(p, call, latest, template, catalogue(s)),
        on_course(p, good),
        step_follows(p, answer, q),
        answer_in_order(answer, good),
        step_in_order(s, call, latest, template),
    ensures
        on_course(q, good),
{
    if let Answer::Executed(Ok(value)) = answer {
        law_result_is_taken_by_its_fields(value@);
    }
}

/// Where the store has all that a step needs, a run of the step goes on to the
/// end that the script's result asks for.
proof fn lemma_run_on_course(
    call: StepCall,
    progress: Seq<StepProgress>,
    answers: Seq<Answer>,
    s: StoreState,
    latest: RevisionRow,
    template: RevisionRow,
    good: bool,
    i: int,
)
    requires
        step_run(call, progress, answers),
        run_answered_in(s, progress, answers),
        step_in_order(s, call, latest, template),
        forall|k: int|
            0 <= k < answers.len() ==> answer_in_order(#[trigger] answers[k], good),
        0 <= i < progress.len(),
    ensures
        on_course(progress[i], good),
    decreases i,
{
    let c = catalogue(s);
    if i <= 4 {
        lemma_start_on_course(call, progress, answers, s, latest, template, good, i);
    } else {
        lemma_start_on_course(call, progress, answers, s, latest, template, good, 4);
        lemma_run_on_course(call, progress, answers, s, latest, template, good, i - 1);
        assert(step_follows(progress[i - 1], answers[i - 1], progress[i]));
        assert(answered_in(s, progress[i - 1], answers[i - 1]));
        assert(answer_in_order(answers[i - 1], good));
        assert forall|k: int| 0 <= k < answers.len() implies answered_by(
            c,
            progress[k],
            #[trigger] answers[k],
        ) by {
            assert(answered_in(s, progress[k], answers[k]));
        }
        lemma_run_stored(call, progress, answers, i - 1, c);
        let p = progress[i - 1];
        if data_request(p) is Some {
            lemma_lookup_on_course(
                p,
                answers[i - 1],
                progress[i],
                call,
                latest,
                template,
                s,
                good,
            );
        } else if p is GetContent {
            lemma_read_on_course(
                p,
                answers[i - 1],
                progress[i],
                call,
                latest,
                template,
                s,
                good,
            );
        } else {
            lemma_rest_on_course(
                p,
                answers[i - 1],
                progress[i],
                call,
                latest,
                template,
                s,
                good,
            );
        }
    }
}

/// A step must succeed where the store has all that it needs, the store stores
/// what it is asked to and makes a sound identity, the config is lowered, and the
/// script returns a well-formed result: it ends with the fields of that result,
/// and is written down.
pub proof fn law_step_must_succeed(
    call: StepCall,
    progress: Seq<StepProgress>,
    answers: Seq<Answer>,
    s: StoreState,
    latest: RevisionRow,
    template: RevisionRow,
)
    requires
        step_run(call, progress, answers),
        progress.last() is Finished,
        run_answered_in(s, progress, answers),
        step_in_order(s, call, latest, template),
        forall|i: int|
            0 <= i < answers.len() ==> answer_in_order(#[trigger] answers[i], true),
    ensures
        progress.last() matches StepProgress::Finished(Ok(result)) && {
            &&& instance_read(answers) == Some(latest)
            &&& wrote_success(call, progress, answers, result)
            &&& answers[progress.len() - 7] matches Answer::Executed(Ok(value))
            &&& value@.field("output"@) == Some(result.output@)
            &&& value@.field("context"@) == Some(result.context@)
            &&& result.status == InstanceStatus::Completed <==> value@.field("done"@) == Some(
                JsonView::Bool(true),
            )
            &&& result.step_seq == latest.revision_seq + 1
        },
{
    lemma_run_on_course(
        call,
        progress,
        answers,
        s,
        latest,
        template,
        true,
        progress.len() - 1,
    );
    if let StepProgress::Finished(Ok(result)) = progress.last() {
        law_result_is_what_the_executor_answered(call, progress, answers, result);
        lemma_start_on_course(call, progress, answers, s, latest, template, true, 2);
    }
}

/// A step must be written down as failed, and reported so, where the store has
/// all that it needs, stores what it is asked to and makes a sound identity, the
/// config is lowered, and the script fails or returns a malformed result.
pub proof fn law_failure_must_be_written_down(
    call: StepCall,
    progress: Seq<StepProgress>,
    answers: Seq<Answer>,
    s: StoreState,
    latest: RevisionRow,
    template: RevisionRow,
)
    requires
        step_run(call, progress, answers),
        progress.last() is Finished,
        run_answered_in(s, progress, answers),
        step_in_order(s, call, latest, template),
        forall|i: int|
            0 <= i < answers.len() ==> answer_in_order(#[trigger] answers[i], false),
    ensures
        progress.last() matches StepProgress::Finished(
            Err(WorkflowError::StepExecutionFailed { detail }),
        ) && wrote_failure(call, progress, answers, detail@) && failed_for(
            answers[progress.len() - 6],
            detail@,
        ),
{
    lemma_run_on_course(
        call,
        progress,
        answers,
        s,
        latest,
        template,
        false,
        progress.len() - 1,
    );
    if let StepProgress::Finished(Err(WorkflowError::StepExecutionFailed { detail })) =
        progress.last() {
        law_failure_is_what_the_executor_answered(call, progress, answers, detail);
    }
}

} // verus!
