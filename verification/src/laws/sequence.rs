//! Operations one after the other: what one writes, the next reads.

use crate::canonical::{
    canonical_bytes, is_canonical, json_parsed, round_trips, CanonicalJson,
};
use crate::create::CreateProgress;
use crate::entities::{WorkflowInstance, WorkflowTemplate};
use crate::execute::{StepCall, StepProgress, StepReady};
use crate::ids::{sha256, EntityId};
use crate::json::{JsonView, NumberView};
use crate::laws::argument::{
    law_script_gets_what_is_stored, readies, run_answered_by, step_data, stored_json,
    template_read,
};
use crate::laws::data::Catalogue;
use crate::laws::lifecycle::{create_run, law_new_instance_is_pending};
use crate::laws::records::{law_instance_reads_back, law_script_argument_fields};
use crate::laws::step::{instance_read, law_success_is_written_down};
use crate::runs::{step_run, Answer};
use crate::status::InstanceStatus;
use crate::step::StepResult;
use crate::store::{EntityRefValue, RevisionRow};
use vstd::prelude::*;

verus! {

/// The revision that a run appended to its instance, as it is read later.
pub open spec fn appended(progress: Seq<StepProgress>, next: RevisionRow) -> bool {
    progress[progress.len() - 2] matches StepProgress::AppendInstance {
        revision_seq,
        revision,
        ..
    } && next.revision_seq == revision_seq && next@ == revision@
}

/// What a step returns as its context the next step's script gets: what the
/// canonical form of it holds, which for a context that round-trips is that
/// context itself. It also gets the arguments that the instance had, and a step
/// number that is one higher.
pub proof fn law_next_step_continues(
    call: StepCall,
    progress: Seq<StepProgress>,
    answers: Seq<Answer>,
    result: StepResult,
    next: RevisionRow,
    next_call: StepCall,
    next_progress: Seq<StepProgress>,
    next_answers: Seq<Answer>,
    i: int,
    c: Catalogue,
)
    requires
        step_run(call, progress, answers),
        progress.last() == StepProgress::Finished(Ok(result)),
        appended(progress, next),
        next_call.instance_id == call.instance_id,
        step_run(next_call, next_progress, next_answers),
        run_answered_by(c, next_progress, next_answers),
        instance_read(next_answers) == Some(next),
        (c.content)(sha256(canonical_bytes(result.context@)->Ok_0)) == Some(
            canonical_bytes(result.context@)->Ok_0,
        ),
        0 <= i < next_progress.len(),
        next_progress[i] is Execute,
    ensures
        next_progress[i] matches StepProgress::Execute { arg, .. } && {
            &&& canonical_bytes(result.context@) is Ok
            &&& json_parsed(canonical_bytes(result.context@)->Ok_0) matches Ok(context)
            &&& arg@.field("context"@) == Some(context)
            &&& round_trips(result.context@) ==> context == result.context@
            &&& arg@.field("instance"@) is Some
            &&& arg@.field("instance"@)->Some_0.field("step"@) == Some(
                JsonView::Number(NumberView::Unsigned((result.step_seq + 1) as u64)),
            )
            &&& arg@.field("instance"@)->Some_0.field("id"@) == Some(
                JsonView::String(call.instance_id.spec_public().text()),
            )
            &&& arg@.field("args"@) == stored_json(
                c,
                instance_read(answers)->Some_0@.content["args"@],
            )
            &&& arg@.field("subject"@) == Some(next_call.subject.script_value())
        },
{
    law_success_is_written_down(call, progress, answers, result);
    assert(is_canonical(canonical_bytes(result.context@)->Ok_0));
    let latest = instance_read(answers)->Some_0;
    law_instance_reads_back(
        sha256(canonical_bytes(result.context@)->Ok_0),
        latest@.content["args"@],
        latest@.entity["template"@],
        latest@.entity["tenant"@],
        result.status,
    );
    law_script_gets_what_is_stored(next_call, next_progress, next_answers, i, c);
    if let StepProgress::Execute { script, arg, .. } = next_progress[i] {
        let ready = choose|ready: StepReady| #[trigger]
            readies(c, template_read(next_answers)->Some_0, ready, script, arg, next_call, next);
        let data = step_data(c, ready.material.template, ready.material.base.plan.tenant)->Some_0;
        law_script_argument_fields(
            ready.material.context@,
            ready.material.args@,
            ready.input@,
            next_call.subject.script_value(),
            data,
            next_call.instance_id.spec_public(),
            ready.material.base.plan.step_seq,
            Seq::empty(),
        );
    }
}

/// The first step of a new instance gets what the arguments hold that the
/// instance was created with, and an empty context.
pub proof fn law_first_step_gets_arguments(
    template_id: EntityId<WorkflowTemplate>,
    args: CanonicalJson,
    progress: Seq<CreateProgress>,
    answers: Seq<Answer>,
    instance_id: EntityId<WorkflowInstance>,
    first: RevisionRow,
    call: StepCall,
    step_progress: Seq<StepProgress>,
    step_answers: Seq<Answer>,
    i: int,
    c: Catalogue,
)
    requires
        is_canonical(args@),
        create_run(template_id, args, progress, answers),
        progress.last() == CreateProgress::Finished(Ok(instance_id)),
        progress[4] matches CreateProgress::AppendRevision { revision_seq, revision, .. }
            && first.revision_seq == revision_seq && first@ == revision@,
        call.instance_id == instance_id,
        step_run(call, step_progress, step_answers),
        run_answered_by(c, step_progress, step_answers),
        instance_read(step_answers) == Some(first),
        (c.content)(sha256(args@)) == Some(args@),
        (c.content)(sha256(canonical_bytes(JsonView::Object(Map::empty()))->Ok_0)) == Some(
            canonical_bytes(JsonView::Object(Map::empty()))->Ok_0,
        ),
        0 <= i < step_progress.len(),
        step_progress[i] is Execute,
    ensures
        step_progress[i] matches StepProgress::Execute { arg, .. } && {
            &&& json_parsed(args@) matches Ok(value)
            &&& arg@.field("args"@) == Some(value)
            &&& arg@.field("context"@) == Some(JsonView::Object(Map::empty()))
            &&& arg@.field("instance"@) is Some
            &&& arg@.field("instance"@)->Some_0.field("step"@) == Some(
                JsonView::Number(NumberView::Unsigned(1)),
            )
        },
{
    law_new_instance_is_pending(template_id, args, progress, answers, instance_id);
    if let Answer::Revision(Ok(Some(template))) = answers[0] {
        law_instance_reads_back(
            sha256(canonical_bytes(JsonView::Object(Map::empty()))->Ok_0),
            sha256(args@),
            EntityRefValue {
                target_entity_id: template_id.spec_internal(),
                target_revision_seq: Some(template.revision_seq),
            },
            template@.entity["tenant"@],
            InstanceStatus::Pending,
        );
    }
    law_script_gets_what_is_stored(call, step_progress, step_answers, i, c);
    if let StepProgress::Execute { script, arg, .. } = step_progress[i] {
        let ready = choose|ready: StepReady| #[trigger]
            readies(c, template_read(step_answers)->Some_0, ready, script, arg, call, first);
        let data = step_data(c, ready.material.template, ready.material.base.plan.tenant)->Some_0;
        law_script_argument_fields(
            ready.material.context@,
            ready.material.args@,
            ready.input@,
            call.subject.script_value(),
            data,
            call.instance_id.spec_public(),
            ready.material.base.plan.step_seq,
            Seq::empty(),
        );
    }
}

} // verus!
