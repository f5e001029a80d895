//! An instance runs the template that it was created from, whatever becomes of
//! the template later.

use crate::canonical::CanonicalJson;
use crate::create::CreateProgress;
use crate::entities::{WorkflowInstance, WorkflowTemplate};
use crate::execute::{StepCall, StepProgress};
use crate::ids::{EntityId, Identity, Sha256, Uuid};
use crate::laws::argument::{
    argument_stored, config_and_argument_stored, law_script_gets_what_is_stored, run_answered_by,
    template_read,
};
use crate::laws::data::Catalogue;
use crate::laws::lifecycle::{create_run, law_new_instance_is_pending};
use crate::laws::step::{instance_read, lemma_run_fits};
use crate::runs::{step_follows, step_run, Answer};
use crate::store::{EntityRefValue, EntityRow, RevisionRow};
use vstd::prelude::*;

verus! {

/// What a store has while a step reads from it.
pub struct StoreState {
    /// The entity with this internal identifier.
    pub entity: spec_fn(Uuid) -> Option<EntityRow>,
    /// The latest revision of the instance with this internal identifier.
    pub instance: spec_fn(Uuid) -> Option<RevisionRow>,
    /// The revision of the template with this internal identifier that has this
    /// number.
    pub template: spec_fn((Uuid, u64)) -> Option<RevisionRow>,
    /// The latest revision of the dataset with this internal identifier.
    pub dataset: spec_fn(Uuid) -> Option<RevisionRow>,
    /// Whose public identifier is this?
    pub identity: spec_fn(Uuid) -> Option<Identity>,
    /// The content with this digest.
    pub content: spec_fn(Sha256) -> Option<Seq<u8>>,
}

/// Where the request asks the store for something, the answer is what the store
/// has.
pub open spec fn answered_in(s: StoreState, p: StepProgress, answer: Answer) -> bool {
    match p {
        StepProgress::GetEntity { entity_id, .. } => answer matches Answer::Entity(Ok(found))
            && found == (s.entity)(entity_id),
        StepProgress::GetInstanceRevision { instance_id, .. } => answer matches Answer::Revision(
            Ok(found),
        ) && found == (s.instance)(instance_id.spec_internal()),
        StepProgress::GetTemplateRevision { template_id, revision_seq, .. } => answer
            matches Answer::Revision(Ok(found)) && found == (s.template)(
            (template_id, revision_seq),
        ),
        StepProgress::GetDatasetRevision { dataset_id, .. } => answer matches Answer::Revision(
            Ok(found),
        ) && found == (s.dataset)(dataset_id.spec_internal()),
        StepProgress::ResolvePublic { public_id, .. } => answer matches Answer::Identity(
            Ok(found),
        ) && found == (s.identity)(public_id),
        StepProgress::GetContent { hash, .. } => answer matches Answer::Content(Ok(found))
            && match found {
            None => (s.content)(hash) is None,
            Some(bytes) => (s.content)(hash) == Some(bytes@),
        },
        _ => true,
    }
}

/// Every request of a run that asks the store for something is answered with
/// what the store has.
pub open spec fn run_answered_in(
    s: StoreState,
    progress: Seq<StepProgress>,
    answers: Seq<Answer>,
) -> bool {
    forall|i: int| 0 <= i < answers.len() ==> answered_in(s, progress[i], #[trigger] answers[i])
}

/// The two stores differ in revisions of templates only, and not in the one that
/// this instance's revision is pinned to.
pub open spec fn same_but_for_other_templates(
    s: StoreState,
    t: StoreState,
    latest: RevisionRow,
) -> bool {
    &&& s.entity == t.entity
    &&& s.instance == t.instance
    &&& s.dataset == t.dataset
    &&& s.identity == t.identity
    &&& s.content == t.content
    &&& latest@.entity_attr("template"@) matches Some(pin) ==> pin.target_revision_seq
        matches Some(seq) ==> (s.template)((pin.target_entity_id, seq)) == (t.template)(
        (pin.target_entity_id, seq),
    )
}

/// Later revisions of a template do not matter to its instances: a run of a step
/// in one store is a run of it, request by request and answer by answer, in any
/// store that differs only in other revisions of templates than the one that
/// the instance is pinned to.
pub proof fn law_later_template_revisions_do_not_matter(
    call: StepCall,
    progress: Seq<StepProgress>,
    answers: Seq<Answer>,
    s: StoreState,
    t: StoreState,
)
    requires
        step_run(call, progress, answers),
        run_answered_in(s, progress, answers),
        (s.instance)(call.instance_id.spec_internal()) matches Some(latest)
            ==> same_but_for_other_templates(s, t, latest),
        (s.instance)(call.instance_id.spec_internal()) is None ==> (StoreState {
            template: t.template,
            ..s
        }) == t,
    ensures
        run_answered_in(t, progress, answers),
{
    assert forall|i: int| 0 <= i < answers.len() implies answered_in(
        t,
        progress[i],
        #[trigger] answers[i],
    ) by {
        assert(answered_in(s, progress[i], answers[i]));
        assert(step_follows(progress[i], answers[i], progress[i + 1]));
        if i >= 1 {
            assert(step_follows(progress[0], answers[0], progress[1]));
            assert(answered_in(s, progress[0], answers[0]));
        }
        if i >= 2 {
            assert(step_follows(progress[1], answers[1], progress[2]));
            assert(answered_in(s, progress[1], answers[1]));
            assert(progress[i] !is Finished);
            lemma_run_fits(call, progress, answers, i);
        }
    }
}

/// An instance runs the template revision that was the latest when it was
/// created, as long as it is bound as it was then: a step asks for that very
/// revision, the script, its data and its config come from it, and the
/// instance's next revision is bound to it again.
pub proof fn law_template_stays_pinned(
    template_id: EntityId<WorkflowTemplate>,
    args: CanonicalJson,
    progress: Seq<CreateProgress>,
    answers: Seq<Answer>,
    instance_id: EntityId<WorkflowInstance>,
    template: RevisionRow,
    latest: RevisionRow,
    call: StepCall,
    step_progress: Seq<StepProgress>,
    step_answers: Seq<Answer>,
    i: int,
    c: Catalogue,
)
    requires
        create_run(template_id, args, progress, answers),
        progress.last() == CreateProgress::Finished(Ok(instance_id)),
        answers[0] == Answer::Revision(Ok(Some(template))),
        progress[4] matches CreateProgress::AppendRevision { revision, .. }
            && latest@.entity_attr("template"@) == revision@.entity_attr("template"@),
        call.instance_id == instance_id,
        step_run(call, step_progress, step_answers),
        run_answered_by(c, step_progress, step_answers),
        instance_read(step_answers) == Some(latest),
        template_read(step_answers) is Some ==> template_read(step_answers) == Some(template),
        0 <= i < step_progress.len(),
    ensures
        latest@.entity_attr("template"@) == Some(
            EntityRefValue {
                target_entity_id: template_id.spec_internal(),
                target_revision_seq: Some(template.revision_seq),
            },
        ),
        step_progress[i] is Lower || step_progress[i] is Execute ==> {
            &&& step_progress[3] matches StepProgress::GetTemplateRevision {
                template_id: id,
                revision_seq,
                ..
            }
            &&& id == template_id.spec_internal()
            &&& revision_seq == template.revision_seq
        },
        step_progress[i] matches StepProgress::Lower { abstract_config, then, .. }
            ==> config_and_argument_stored(
            c,
            template,
            abstract_config,
            then.script,
            then.arg,
            call,
            latest,
        ),
        step_progress[i] matches StepProgress::Execute { script, arg, .. } ==> argument_stored(
            c,
            template,
            script,
            arg,
            call,
            latest,
        ),
        step_progress[i] matches StepProgress::AppendInstance { revision, .. }
            ==> revision@.entity_attr("template"@) == latest@.entity_attr("template"@),
{
    law_new_instance_is_pending(template_id, args, progress, answers, instance_id);
    let pin = EntityRefValue {
        target_entity_id: template_id.spec_internal(),
        target_revision_seq: Some(template.revision_seq),
    };
    if let CreateProgress::AppendRevision { revision, .. } = progress[4] {
        assert(revision@.entity_attr("template"@) == Some(pin)) by {
            reveal_strlit("template");
            reveal_strlit("tenant");
            assert("template"@.len() == 8 && "tenant"@.len() == 6);
        }
    }
    law_script_gets_what_is_stored(call, step_progress, step_answers, i, c);
    if let StepProgress::AppendInstance { revision, .. } = step_progress[i] {
        assert(i >= 2) by {
            if i == 1 {
                assert(step_follows(step_progress[0], step_answers[0], step_progress[1]));
            }
        }
        lemma_run_fits(call, step_progress, step_answers, i);
        reveal_strlit("template");
        reveal_strlit("tenant");
        assert("template"@.len() == 8 && "tenant"@.len() == 6);
    }
}

} // verus!
