//! What a step ends with, and what it leaves behind, said of what it was asked
//! for with and of what it was answered.

use crate::canonical::{canonical_bytes, holds};
use crate::error::WorkflowError;
use crate::execute::{StepCall, StepEnding, StepProgress, StepPut, StepReady};
use crate::executor::StepExecutionError;
use crate::finish::error_value;
use crate::ids::{sha256, Sha256};
use crate::json::{JsonView, NumberView};
use crate::laws::argument::{
    law_script_gets_what_is_stored, pinned_template_read, readies, run_answered_by, step_data,
    stored_as, template_read,
};
use crate::laws::bindings::{data_says, law_config_comes_to_what_it_names, stored_bindings};
use crate::laws::data::Catalogue;
use crate::laws::records::{
    law_record_keeps_subject, law_record_never_keeps_claims, law_record_reads_back,
    law_script_argument_fields, law_script_sees_public_identifiers, named,
};
use crate::laws::step::{
    instance_read, law_failure_is_written_down, law_success_is_written_down, lemma_run_fits,
    step_record,
};
use crate::laws::values::{
    follows_with, law_result_is_taken_by_its_fields, law_small_values, lemma_instance_names_differ,
};
use crate::runs::{step_follows, step_run, Answer};
use crate::status::InstanceStatus;
use crate::step::StepResult;
use crate::store::{EntityRefValue, RevisionRow, RevisionView, ScalarValue};
use crate::subject::{SubjectContext, SubjectKind};
use vstd::prelude::*;
use vstd::utf8::encode_utf8;

verus! {

/// The value says which kind of caller this is.
pub open spec fn says_kind(value: Option<JsonView>, subject: SubjectContext) -> bool {
    match subject.kind {
        SubjectKind::Principal => value == Some(JsonView::String("principal"@)),
        SubjectKind::Ephemeral => value == Some(JsonView::String("ephemeral"@)),
    }
}

/// What a step record keeps of a caller: the kind, the identifier, and both
/// identifiers of the authority, where there is one; and nothing else.
pub open spec fn audit_says(value: JsonView, subject: SubjectContext) -> bool {
    &&& says_kind(value.field("kind"@), subject)
    &&& value.field("id"@) == Some(JsonView::String(subject.id@))
    &&& value.field("authority_id"@) matches Some(authority)
    &&& match subject.authority_id {
        None => authority is Null,
        Some(id) => {
            &&& authority.field("internal"@) == Some(
                JsonView::String(id.identity().internal.text()),
            )
            &&& authority.field("public"@) == Some(JsonView::String(id.identity().public.text()))
            &&& forall|name: Seq<char>|
                name != "internal"@ && name != "public"@ ==> (#[trigger] authority.field(
                    name,
                )) is None
        },
    }
    &&& forall|name: Seq<char>|
        name != "kind"@ && name != "id"@ && name != "authority_id"@ ==> (#[trigger] value.field(
            name,
        )) is None
}

/// What a script sees of a caller: the kind, the identifier, the tenant and the
/// authority by their public identifiers, and the claims as they are; and
/// nothing else.
pub open spec fn subject_says(value: JsonView, subject: SubjectContext) -> bool {
    &&& says_kind(value.field("kind"@), subject)
    &&& value.field("id"@) == Some(JsonView::String(subject.id@))
    &&& value.field("tenant_id"@) == Some(
        JsonView::String(subject.tenant_id.identity().public.text()),
    )
    &&& value.field("authority_id"@) == Some(
        match subject.authority_id {
            None => JsonView::Null,
            Some(id) => JsonView::String(id.identity().public.text()),
        },
    )
    &&& value.field("claims"@) == Some(subject.claims@)
    &&& forall|name: Seq<char>|
        name != "kind"@ && name != "id"@ && name != "tenant_id"@ && name != "authority_id"@ && name
            != "claims"@ ==> (#[trigger] value.field(name)) is None
}

/// What callers become.
pub proof fn law_subjects_by_their_fields(subject: SubjectContext)
    ensures
        audit_says(subject.audit_value(), subject),
        subject_says(subject.script_value(), subject),
{
    law_record_keeps_subject(subject);
    law_record_never_keeps_claims(subject, subject);
    law_script_sees_public_identifiers(subject);
    if let Some(id) = subject.authority_id {
        law_small_values(Map::empty(), Seq::empty(), id.identity());
    }
}

/// The digest is that of the canonical form of a value for which this holds.
pub open spec fn digest_of_audit(hash: Option<Sha256>, subject: SubjectContext) -> bool {
    exists|value: JsonView| #[trigger]
        audit_says(value, subject) && canonical_bytes(value) is Ok && hash == Some(
            sha256(canonical_bytes(value)->Ok_0),
        )
}

/// The digest is that of the canonical form of an error with this message, and
/// nothing else.
pub open spec fn digest_of_error(hash: Option<Sha256>, text: Seq<char>) -> bool {
    exists|value: JsonView|
        (#[trigger] value.field("message"@)) == Some(JsonView::String(text)) && (forall|
            name: Seq<char>,
        |
            name != "message"@ ==> (#[trigger] value.field(name)) is None) && canonical_bytes(
            value,
        ) is Ok && hash == Some(sha256(canonical_bytes(value)->Ok_0))
}

/// What every step record says: the digests of the input and of the caller, the
/// instance at its revision before the step, and the number of the next one.
pub open spec fn record_says(record: RevisionView, call: StepCall, latest: RevisionRow) -> bool {
    &&& record.content_attr("input"@) == Some(sha256(call.input@))
    &&& digest_of_audit(record.content_attr("subject"@), call.subject)
    &&& record.entity_attr("instance"@) == Some(
        EntityRefValue {
            target_entity_id: call.instance_id.identity().internal,
            target_revision_seq: Some(latest.revision_seq),
        },
    )
    &&& record.scalar_attr("step_seq"@) == Some(
        ScalarValue::I64((latest.revision_seq + 1) as i64),
    )
}

/// A run ended in writing down a step that succeeded with this result: the
/// script ran, and then came six requests, for the context, the output, the
/// record's identity, the record and the instance.
pub open spec fn wrote_success(
    call: StepCall,
    progress: Seq<StepProgress>,
    answers: Seq<Answer>,
    result: StepResult,
) -> bool {
    let n = progress.len();
    &&& n >= 7
    &&& instance_read(answers) matches Some(latest)
    &&& progress[n - 7] is Execute
    &&& canonical_bytes(result.context@) matches Ok(context)
    &&& canonical_bytes(result.output@) matches Ok(output)
    &&& progress[n - 6] matches StepProgress::PutContent { hash: context_hash, bytes: stored, .. }
    &&& stored@ == context
    &&& context_hash == sha256(context)
    &&& progress[n - 5] matches StepProgress::PutContent { hash: output_hash, bytes: kept, .. }
    &&& kept@ == output
    &&& output_hash == sha256(output)
    &&& progress[n - 4] is CreateRecord
    &&& progress[n - 3] matches StepProgress::AppendRecord {
        revision_seq: 0,
        revision: record,
        record_id,
        ..
    }
    &&& answers[n - 4] matches Answer::Created(Ok(identity))
    &&& record_id.identity() == identity
    &&& record_says(record@, call, latest)
    &&& record@.scalar_attr("outcome"@) == Some(ScalarValue::I64(0))
    &&& record@.content_attr("output"@) == Some(sha256(output))
    &&& record@.content_attr("error"@) is None
    &&& progress[n - 2] matches StepProgress::AppendInstance {
        instance_id,
        revision_seq,
        revision: change,
        ..
    }
    &&& instance_id == call.instance_id
    &&& revision_seq == latest.revision_seq + 1
    &&& result.step_seq == revision_seq
    &&& result.status == InstanceStatus::Completed || result.status == InstanceStatus::Running
    &&& follows_with(
        change@,
        latest@,
        sha256(context),
        if result.status == InstanceStatus::Completed {
            2
        } else {
            1
        },
    )
}

/// The request is to store the context for the next step.
pub open spec fn puts_context(p: StepProgress) -> bool {
    p matches StepProgress::PutContent { then: StepPut::Context(_), .. }
}

/// The request is to store the script's output.
pub open spec fn puts_output(p: StepProgress) -> bool {
    p matches StepProgress::PutContent { then: StepPut::Output(_), .. }
}

/// The request is to store the script's error.
pub open spec fn puts_error(p: StepProgress) -> bool {
    p matches StepProgress::PutContent { then: StepPut::Error(_), .. }
}

/// What the requests that write a step down come after.
proof fn lemma_before_writing(p: StepProgress, answer: Answer, q: StepProgress)
    requires
        step_follows(p, answer, q),
    ensures
        q is AppendInstance ==> p is AppendRecord,
        q is AppendRecord ==> p is CreateRecord,
        q is CreateRecord ==> puts_output(p) || puts_error(p),
        puts_output(q) ==> puts_context(p),
        puts_context(q) ==> p is Execute,
        puts_error(q) ==> p is Execute,
{
}

/// Where a step succeeds, the executor answered with a well-formed value, and the
/// result is made of its fields: the output and the context as they are, and
/// completed just where the value says that it is done. The step is written down
/// with these.
pub proof fn law_result_is_what_the_executor_answered(
    call: StepCall,
    progress: Seq<StepProgress>,
    answers: Seq<Answer>,
    result: StepResult,
)
    requires
        step_run(call, progress, answers),
        progress.last() == StepProgress::Finished(Ok(result)),
    ensures
        wrote_success(call, progress, answers, result),
        answers[progress.len() - 7] matches Answer::Executed(Ok(value)) && {
            &&& value@.field("output"@) == Some(result.output@)
            &&& value@.field("context"@) == Some(result.context@)
            &&& value@.field("done"@) matches Some(done) ==> done is Bool
            &&& value@.field("done"@) == Some(JsonView::Bool(true)) ==> result.status
                == InstanceStatus::Completed
            &&& value@.field("done"@) != Some(JsonView::Bool(true)) ==> result.status
                == InstanceStatus::Running
        },
{
    law_success_is_written_down(call, progress, answers, result);
    let n = progress.len();
    let latest = instance_read(answers)->Some_0;
    assert(step_follows(progress[n - 2], answers[n - 2], progress[n - 1]));
    assert(step_follows(progress[n - 3], answers[n - 3], progress[n - 2]));
    lemma_before_writing(progress[n - 3], answers[n - 3], progress[n - 2]);
    assert(step_follows(progress[n - 4], answers[n - 4], progress[n - 3]));
    lemma_before_writing(progress[n - 4], answers[n - 4], progress[n - 3]);
    assert(step_follows(progress[n - 5], answers[n - 5], progress[n - 4]));
    lemma_before_writing(progress[n - 5], answers[n - 5], progress[n - 4]);
    assert(puts_output(progress[n - 5]));
    assert(n >= 6);
    assert(step_follows(progress[n - 6], answers[n - 6], progress[n - 5]));
    lemma_before_writing(progress[n - 6], answers[n - 6], progress[n - 5]);
    assert(n >= 7);
    assert(step_follows(progress[n - 7], answers[n - 7], progress[n - 6]));
    lemma_before_writing(progress[n - 7], answers[n - 7], progress[n - 6]);
    if let Answer::Executed(Ok(value)) = answers[n - 7] {
        law_result_is_taken_by_its_fields(value@);
    }
    let context_hash = sha256(canonical_bytes(result.context@)->Ok_0);
    lemma_run_fits(call, progress, answers, n - 3);
    let write = step_record(call, latest, StepEnding::Succeeded { context_hash, result });
    law_record_reads_back(write);
    law_subjects_by_their_fields(call.subject);
    lemma_instance_names_differ();
}

/// Why a script failed: it said so, or its result has no context, or no output,
/// or says of being done what is no truth value.
pub open spec fn failed_for(executed: Answer, text: Seq<char>) -> bool {
    match executed {
        Answer::Executed(Err(StepExecutionError::ScriptError(detail))) => detail@ == text,
        Answer::Executed(Ok(value)) => if value@.field("context"@) is None {
            text == "executor result missing required field 'context'"@
        } else if value@.field("output"@) is None {
            text == "executor result missing required field 'output'"@
        } else {
            &&& value@.field("done"@) matches Some(done)
            &&& !(done is Bool)
            &&& text == "executor result field 'done' must be boolean"@
        },
        _ => false,
    }
}

/// A run ended in writing down a step that failed with these words: the script
/// ran, and then came five requests, for the error, the record's identity, the
/// record and the instance, which fails with its context as it was.
pub open spec fn wrote_failure(
    call: StepCall,
    progress: Seq<StepProgress>,
    answers: Seq<Answer>,
    text: Seq<char>,
) -> bool {
    let n = progress.len();
    &&& n >= 6
    &&& instance_read(answers) matches Some(latest)
    &&& progress[n - 6] is Execute
    &&& progress[n - 5] matches StepProgress::PutContent { hash: error_hash, bytes, .. }
    &&& error_hash == sha256(bytes@)
    &&& progress[n - 4] is CreateRecord
    &&& progress[n - 3] matches StepProgress::AppendRecord {
        revision_seq: 0,
        revision: record,
        record_id,
        ..
    }
    &&& answers[n - 4] matches Answer::Created(Ok(identity))
    &&& record_id.identity() == identity
    &&& record_says(record@, call, latest)
    &&& record@.scalar_attr("outcome"@) == Some(ScalarValue::I64(1))
    &&& record@.content_attr("output"@) is None
    &&& record@.content_attr("error"@) == Some(error_hash)
    &&& digest_of_error(record@.content_attr("error"@), text)
    &&& progress[n - 2] matches StepProgress::AppendInstance {
        instance_id,
        revision_seq,
        revision: change,
        ..
    }
    &&& instance_id == call.instance_id
    &&& revision_seq == latest.revision_seq + 1
    &&& latest@.content_attr("context"@) matches Some(context)
    &&& follows_with(change@, latest@, context, 3)
}

/// Where a step is reported to have failed, the executor answered that the script
/// failed, or with a malformed value; the words are the script's own, or say
/// what is wrong with the value, and the step is written down with them.
pub proof fn law_failure_is_what_the_executor_answered(
    call: StepCall,
    progress: Seq<StepProgress>,
    answers: Seq<Answer>,
    detail: String,
)
    requires
        step_run(call, progress, answers),
        progress.last() == StepProgress::Finished(
            Err(WorkflowError::StepExecutionFailed { detail }),
        ),
    ensures
        wrote_failure(call, progress, answers, detail@),
        failed_for(answers[progress.len() - 6], detail@),
{
    law_failure_is_written_down(call, progress, answers, detail);
    let n = progress.len();
    let latest = instance_read(answers)->Some_0;
    assert(step_follows(progress[n - 2], answers[n - 2], progress[n - 1]));
    assert(step_follows(progress[n - 3], answers[n - 3], progress[n - 2]));
    lemma_before_writing(progress[n - 3], answers[n - 3], progress[n - 2]);
    assert(step_follows(progress[n - 4], answers[n - 4], progress[n - 3]));
    lemma_before_writing(progress[n - 4], answers[n - 4], progress[n - 3]);
    assert(step_follows(progress[n - 5], answers[n - 5], progress[n - 4]));
    lemma_before_writing(progress[n - 5], answers[n - 5], progress[n - 4]);
    assert(puts_error(progress[n - 5]));
    assert(n >= 6);
    assert(step_follows(progress[n - 6], answers[n - 6], progress[n - 5]));
    lemma_before_writing(progress[n - 6], answers[n - 6], progress[n - 5]);
    if let Answer::Executed(Ok(value)) = answers[n - 6] {
        law_result_is_taken_by_its_fields(value@);
    }
    lemma_run_fits(call, progress, answers, n - 3);
    lemma_run_fits(call, progress, answers, n - 5);
    let write = step_record(call, latest, StepEnding::Failed { detail });
    law_record_reads_back(write);
    law_subjects_by_their_fields(call.subject);
    law_small_values(Map::empty(), detail@, call.instance_id.identity());
    assert(error_value(detail@).field("message"@) == Some(JsonView::String(detail@)));
    lemma_instance_names_differ();
}

/// What a script runs with, field by field.
pub open spec fn argument_says(
    c: Catalogue,
    arg: JsonView,
    call: StepCall,
    latest: RevisionRow,
    template: RevisionRow,
) -> bool {
    &&& latest@.content_attr("context"@) matches Some(context_hash)
    &&& arg.field("context"@) matches Some(context)
    &&& stored_as(c, context_hash, context)
    &&& latest@.content_attr("args"@) matches Some(args_hash)
    &&& arg.field("args"@) matches Some(args)
    &&& stored_as(c, args_hash, args)
    &&& arg.field("input"@) matches Some(input)
    &&& holds(call.input@, input)
    &&& arg.field("subject"@) matches Some(subject)
    &&& subject_says(subject, call.subject)
    &&& arg.field("data"@) matches Some(data)
    &&& template@.content_attr("data_config"@) is None ==> data == JsonView::Object(Map::empty())
    &&& latest@.entity_attr("tenant"@) matches Some(tenant)
    &&& template@.content_attr("data_config"@) matches Some(hash) ==> forall|
        bindings: Option<Map<Seq<char>, JsonView>>,
    |
        #[trigger] stored_bindings(c, hash, bindings) && (bindings matches Some(fields)
            ==> fields.dom().finite()) ==> data_says(
            c,
            tenant.target_entity_id,
            bindings,
            data,
        )
    &&& arg.field("instance"@) matches Some(instance)
    &&& instance.field("id"@) == Some(
        JsonView::String(call.instance_id.identity().public.text()),
    )
    &&& instance.field("step"@) == Some(
        JsonView::Number(NumberView::Unsigned((latest.revision_seq + 1) as u64)),
    )
    &&& forall|name: Seq<char>|
        name != "id"@ && name != "step"@ ==> (#[trigger] instance.field(name)) is None
    &&& forall|name: Seq<char>|
        !named(seq!["context", "args", "input", "subject", "data", "instance"], name) ==> (
        #[trigger] arg.field(name)) is None
}

/// What a script runs with: the text stored as the attribute `script` of the
/// template revision that the instance is pinned to, which belongs to the
/// instance's tenant; an argument that says, field by field, what is stored as
/// the instance's context and arguments, what the input holds, who asks for the
/// step, which instance and which step it is, and the datasets that the template
/// binds; and the config that the lowerer answered when it was asked to lower
/// what is stored as the template's attribute `config`, for this instance, this
/// step and this caller.
pub proof fn law_what_a_script_runs_with(
    call: StepCall,
    progress: Seq<StepProgress>,
    answers: Seq<Answer>,
    i: int,
    c: Catalogue,
)
    requires
        step_run(call, progress, answers),
        run_answered_by(c, progress, answers),
        0 <= i < progress.len(),
        progress[i] is Execute,
    ensures
        i > 5,
        pinned_template_read(call, progress, answers),
        ({
            let latest = instance_read(answers)->Some_0;
            let template = template_read(answers)->Some_0;
            &&& progress[i] matches StepProgress::Execute { script, arg, config, .. }
            &&& template@.content_attr("script"@) matches Some(script_hash)
            &&& (c.content)(script_hash) == Some(encode_utf8(script@))
            &&& template@.entity_attr("tenant"@) matches Some(owner)
            &&& latest@.entity_attr("tenant"@) matches Some(tenant)
            &&& owner.target_entity_id == tenant.target_entity_id
            &&& argument_says(c, arg@, call, latest, template)
            &&& progress[i - 1] matches StepProgress::Lower {
                abstract_config,
                instance_id,
                step_seq,
                subject,
                ..
            }
            &&& answers[i - 1] == Answer::Lowered(Ok(config))
            &&& template@.content_attr("config"@) matches Some(config_hash)
            &&& stored_as(c, config_hash, abstract_config@)
            &&& instance_id == call.instance_id
            &&& step_seq == latest.revision_seq + 1
            &&& subject == call.subject
        }),
{
    law_script_gets_what_is_stored(call, progress, answers, i, c);
    assert(step_follows(progress[i - 1], answers[i - 1], progress[i]));
    lemma_before_execute(progress[i - 1], answers[i - 1], progress[i]);
    law_script_gets_what_is_stored(call, progress, answers, i - 1, c);
    let latest = instance_read(answers)->Some_0;
    let template = template_read(answers)->Some_0;
    if let StepProgress::Execute { script, arg, config, .. } = progress[i] {
        if let StepProgress::Lower { abstract_config, then, .. } = progress[i - 1] {
            let ready = choose|ready: StepReady| #[trigger]
                readies(c, template, ready, then.script, then.arg, call, latest)
                    && ready.material.config == abstract_config;
            let tenant = ready.material.base.plan.tenant;
            let data = step_data(c, template, tenant)->Some_0;
            law_subjects_by_their_fields(call.subject);
            assert(arg@ == ready.argument(data));
            assert forall|name: Seq<char>|
                !named(
                    seq!["context", "args", "input", "subject", "data", "instance"],
                    name,
                ) implies (#[trigger] arg@.field(name)) is None by {
                law_script_argument_fields(
                    ready.material.context@,
                    ready.material.args@,
                    ready.input@,
                    call.subject.script_value(),
                    data,
                    call.instance_id.spec_public(),
                    ready.material.base.plan.step_seq,
                    name,
                );
            }
            law_script_argument_fields(
                ready.material.context@,
                ready.material.args@,
                ready.input@,
                call.subject.script_value(),
                data,
                call.instance_id.spec_public(),
                ready.material.base.plan.step_seq,
                Seq::empty(),
            );
            if let Some(hash) = template@.content_attr("data_config"@) {
                assert forall|bindings: Option<Map<Seq<char>, JsonView>>|
                    #[trigger] stored_bindings(c, hash, bindings) && (bindings matches Some(fields)
                        ==> fields.dom().finite()) implies data_says(
                    c,
                    tenant,
                    bindings,
                    data,
                ) by {
                    law_config_comes_to_what_it_names(c, tenant, hash, bindings);
                }
            }
        }
    }
}

/// A script runs when its config has been lowered.
proof fn lemma_before_execute(p: StepProgress, answer: Answer, q: StepProgress)
    requires
        step_follows(p, answer, q),
        q is Execute,
    ensures
        p is Lower,
{
}

} // verus!
