//! What a script gets to see: what the store has, and who asks.

use crate::canonical::{content_json, faithful, holds, json_parsed, ContentView};
use crate::data::{datasets_value, AwaitDataConfig, AwaitDataContent, DataProgress};
use crate::execute::{
    StepBase, StepCall, StepContent, StepEntity, StepMaterial, StepProgress, StepPut, StepReady,
};
use crate::ids::{Sha256, Uuid};
use crate::json::{JsonValue, JsonView};
use crate::laws::data::{
    comes_to, config_outcome, data_follows, from_catalogue, lemma_on_its_way, Catalogue,
};
use crate::laws::step::{instance_read, lemma_run_fits, progress_fits, ready_fits};
use crate::plan::{template_parts, TemplateParts};
use crate::runs::{step_follows, step_run, Answer};
use crate::store::RevisionRow;
use vstd::prelude::*;
use vstd::utf8::encode_utf8;

verus! {

/// The JSON value stored under a digest, where one is.
pub open spec fn stored_json(c: Catalogue, hash: Sha256) -> Option<JsonView> {
    match (c.content)(hash) {
        None => None,
        Some(bytes) => match content_json(bytes) {
            ContentView::Json(value) => Some(value),
            _ => None,
        },
    }
}

/// The value is what is stored under a digest: of bytes in canonical form, what
/// they hold.
pub open spec fn stored_as(c: Catalogue, hash: Sha256, value: JsonView) -> bool {
    &&& stored_json(c, hash) == Some(value)
    &&& (c.content)(hash) matches Some(bytes) ==> faithful(bytes) ==> holds(bytes, value)
}

/// Where a step looks up its data, the lookup's own request.
pub open spec fn data_request(p: StepProgress) -> Option<(StepReady, DataProgress)> {
    match p {
        StepProgress::GetContent { hash, then: StepContent::Data(with) } => Some(
            (with.ready, DataProgress::GetContent { hash, then: with.lookup }),
        ),
        StepProgress::ResolvePublic { public_id, then } => Some(
            (then.ready, DataProgress::ResolvePublic { public_id, then: then.lookup }),
        ),
        StepProgress::GetEntity { entity_id, then: StepEntity::Dataset(with) } => Some(
            (with.ready, DataProgress::GetEntity { entity_id, then: with.lookup }),
        ),
        StepProgress::GetDatasetRevision { dataset_id, then } => Some(
            (then.ready, DataProgress::GetLatestRevision { dataset_id, then: then.lookup }),
        ),
        _ => None,
    }
}

/// The store failed to answer.
pub open spec fn failed(answer: Answer) -> bool {
    match answer {
        Answer::Entity(Err(_)) => true,
        Answer::Revision(Err(_)) => true,
        Answer::Content(Err(_)) => true,
        Answer::Identity(Err(_)) => true,
        _ => false,
    }
}

/// Where the store answers a request for content or data, the answer is what
/// the catalogue has.
pub open spec fn answered_by(c: Catalogue, p: StepProgress, answer: Answer) -> bool {
    match data_request(p) {
        Some((_, request)) => failed(answer) || from_catalogue(c, request, answer),
        None => match (p, answer) {
            (StepProgress::GetContent { hash, .. }, Answer::Content(Ok(Some(bytes)))) => (
            c.content)(hash) == Some(bytes@),
            _ => true,
        },
    }
}

/// Every request for content or data in a run is answered with what the
/// catalogue has, or not at all.
pub open spec fn run_answered_by(
    c: Catalogue,
    progress: Seq<StepProgress>,
    answers: Seq<Answer>,
) -> bool {
    forall|i: int| 0 <= i < answers.len() ==> answered_by(c, progress[i], #[trigger] answers[i])
}

/// The data that a script gets: an empty object for a template without data
/// bindings, otherwise the datasets that they come to; nothing where a binding
/// is rejected.
pub open spec fn step_data(c: Catalogue, template: RevisionRow, tenant: Uuid) -> Option<JsonView> {
    match template@.content_attr("data_config"@) {
        None => Some(JsonView::Object(Map::empty())),
        Some(hash) => match config_outcome(c, tenant, hash) {
            Err(_) => None,
            Ok(datasets) => Some(datasets_value(datasets)),
        },
    }
}

/// The template's revision can be used for the step, and belongs to the tenant of
/// the instance.
pub open spec fn template_fits(template: RevisionRow, base: StepBase) -> bool {
    &&& template_parts(template, base.plan, base.call.instance_id.spec_internal()) is Ok
    &&& template@.entity_attr("tenant"@) matches Some(owner)
    &&& base.latest@.entity_attr("tenant"@) matches Some(tenant)
    &&& owner.target_entity_id == tenant.target_entity_id
}

/// What the template's revision names for the step.
pub open spec fn parts_of(template: RevisionRow, base: StepBase) -> TemplateParts {
    template_parts(template, base.plan, base.call.instance_id.spec_internal())->Ok_0
}

/// The script is what is stored as the template's script.
pub open spec fn script_stored(
    script: String,
    template: RevisionRow,
    base: StepBase,
    c: Catalogue,
) -> bool {
    &&& template_fits(template, base)
    &&& template@.content_attr("script"@) matches Some(hash)
    &&& parts_of(template, base).script_hash == hash
    &&& (c.content)(hash) == Some(encode_utf8(script@))
}

/// The config is what is stored as the template's config.
pub open spec fn config_stored(
    config: JsonValue,
    template: RevisionRow,
    base: StepBase,
    c: Catalogue,
) -> bool {
    &&& template_fits(template, base)
    &&& template@.content_attr("config"@) matches Some(hash)
    &&& parts_of(template, base).config_hash == hash
    &&& stored_as(c, hash, config@)
}

/// The value is what is stored as this attribute of the instance.
pub open spec fn attr_stored(
    value: JsonView,
    latest: RevisionRow,
    name: Seq<char>,
    c: Catalogue,
) -> bool {
    latest@.content_attr(name) matches Some(hash) && stored_as(c, hash, value)
}

/// What the step works with is what is stored.
pub open spec fn material_stored(material: StepMaterial, c: Catalogue) -> bool {
    &&& script_stored(material.script, material.template, material.base, c)
    &&& config_stored(material.config, material.template, material.base, c)
    &&& attr_stored(material.context@, material.base.latest, "context"@, c)
    &&& attr_stored(material.args@, material.base.latest, "args"@, c)
}

/// What the step is ready with is what is stored, and what it was asked for
/// with.
pub open spec fn ready_stored(ready: StepReady, c: Catalogue) -> bool {
    &&& material_stored(ready.material, c)
    &&& json_parsed(ready.material.base.call.input@) matches Ok(input) && input == ready.input@
}

/// The step is ready with what is stored and with this revision of the template,
/// runs this script, and gives it this argument.
pub open spec fn readies(
    c: Catalogue,
    template: RevisionRow,
    ready: StepReady,
    script: String,
    arg: JsonValue,
    call: StepCall,
    latest: RevisionRow,
) -> bool {
    &&& ready_fits(ready, call, latest)
    &&& ready_stored(ready, c)
    &&& ready.material.template == template
    &&& ready.material.script == script
    &&& step_data(c, ready.material.template, ready.material.base.plan.tenant) matches Some(data)
        && arg@ == ready.argument(data)
}

/// The script and its argument are made of what is stored: the script is that
/// of this revision of the template, the context and the arguments are the
/// instance's, the input is the step's, the subject is who
/// asks for it, and the data is what the template's bindings come to.
pub open spec fn argument_stored(
    c: Catalogue,
    template: RevisionRow,
    script: String,
    arg: JsonValue,
    call: StepCall,
    latest: RevisionRow,
) -> bool {
    exists|ready: StepReady| #[trigger] readies(c, template, ready, script, arg, call, latest)
}

/// As `argument_stored`, and the config is that of the same template.
pub open spec fn config_and_argument_stored(
    c: Catalogue,
    template: RevisionRow,
    config: JsonValue,
    script: String,
    arg: JsonValue,
    call: StepCall,
    latest: RevisionRow,
) -> bool {
    exists|ready: StepReady| #[trigger]
        readies(c, template, ready, script, arg, call, latest) && ready.material.config == config
}

/// Where a step looks up its data, it is ready with what is stored, and the
/// lookup is on its way to what the bindings come to.
pub open spec fn lookup_stored(c: Catalogue, template: RevisionRow, p: StepProgress) -> bool {
    data_request(p) matches Some((ready, request)) ==> {
        &&& ready_stored(ready, c)
        &&& ready.material.template == template
        &&& ready.material.template@.content_attr("data_config"@) matches Some(hash) && comes_to(
            c,
            request,
            config_outcome(c, ready.material.base.plan.tenant, hash),
        )
    }
}

/// A step has read its template, and what it has read so far is what is stored.
pub open spec fn progress_stored(
    p: StepProgress,
    call: StepCall,
    latest: RevisionRow,
    template: RevisionRow,
    c: Catalogue,
) -> bool {
    match p {
        StepProgress::GetInstanceRevision { .. } => false,
        StepProgress::GetTemplateRevision { .. } => false,
        StepProgress::GetEntity { .. } => data_request(p) is Some && lookup_stored(c, template, p),
        StepProgress::GetDatasetRevision { .. } => lookup_stored(c, template, p),
        StepProgress::ResolvePublic { .. } => lookup_stored(c, template, p),
        StepProgress::GetContent { then, hash } => match then {
            StepContent::Script(then) => {
                &&& then.template == template
                &&& template_fits(then.template, then.base)
                &&& template@.content_attr("script"@) == Some(hash)
                &&& template@.content_attr("config"@) == Some(then.config_hash)
            },
            StepContent::Config(then) => {
                &&& then.template == template
                &&& script_stored(then.script, then.template, then.base, c)
                &&& template@.content_attr("config"@) == Some(hash)
            },
            StepContent::Context(then) => {
                &&& then.template == template
                &&& script_stored(then.script, then.template, then.base, c)
                &&& config_stored(then.config, then.template, then.base, c)
                &&& latest@.content_attr("context"@) == Some(hash)
                &&& latest@.content_attr("args"@) == Some(then.args_hash)
            },
            StepContent::Args(then) => {
                &&& then.template == template
                &&& script_stored(then.script, then.template, then.base, c)
                &&& config_stored(then.config, then.template, then.base, c)
                &&& attr_stored(then.context@, latest, "context"@, c)
                &&& latest@.content_attr("args"@) == Some(hash)
            },
            StepContent::Data(_) => lookup_stored(c, template, p),
        },
        StepProgress::PutContent { then, .. } => match then {
            StepPut::Input(then) => then.material.template == template && material_stored(
                then.material,
                c,
            ),
            StepPut::Subject(then) => then.material.template == template && material_stored(
                then.material,
                c,
            ),
            _ => true,
        },
        StepProgress::Lower { abstract_config, then, .. } => config_and_argument_stored(
            c,
            template,
            abstract_config,
            then.script,
            then.arg,
            call,
            latest,
        ),
        StepProgress::Execute { script, arg, .. } => argument_stored(
            c,
            template,
            script,
            arg,
            call,
            latest,
        ),
        _ => true,
    }
}

/// Where the lookup of a step's data goes on, what was read stays what is
/// stored.
proof fn lemma_ready_goes_on(
    c: Catalogue,
    ready: StepReady,
    inner: DataProgress,
    q: StepProgress,
    call: StepCall,
    latest: RevisionRow,
    template: RevisionRow,
)
    requires
        ready_fits(ready, call, latest),
        ready_stored(ready, c),
        ready.material.template == template,
        ready.followed_by(inner, q),
        match ready.material.template@.content_attr("data_config"@) {
            None => inner.yields(JsonView::Object(Map::empty())),
            Some(hash) => comes_to(
                c,
                inner,
                config_outcome(c, ready.material.base.plan.tenant, hash),
            ),
        },
    ensures
        progress_stored(q, call, latest, template, c),
{
    if let StepProgress::Lower { abstract_config, then, .. } = q {
        assert(readies(c, template, ready, then.script, then.arg, call, latest));
    }
}

proof fn lemma_lookup_stored(
    p: StepProgress,
    answer: Answer,
    q: StepProgress,
    call: StepCall,
    latest: RevisionRow,
    template: RevisionRow,
    c: Catalogue,
)
    requires
        data_request(p) is Some,
        progress_fits(p, call, latest),
        progress_stored(p, call, latest, template, c),
        step_follows(p, answer, q),
        answered_by(c, p, answer),
    ensures
        progress_stored(q, call, latest, template, c),
{
    let (ready, request) = data_request(p)->Some_0;
    let inner = choose|inner: DataProgress|
        data_follows(request, answer, inner) && ready.followed_by(inner, q);
    assert(data_follows(request, answer, inner) && ready.followed_by(inner, q));
    if !failed(answer) {
        let hash = ready.material.template@.content_attr("data_config"@)->Some_0;
        lemma_on_its_way(
            c,
            request,
            answer,
            inner,
            config_outcome(c, ready.material.base.plan.tenant, hash),
        );
        lemma_ready_goes_on(c, ready, inner, q, call, latest, template);
    }
}

proof fn lemma_content_stored(
    p: StepProgress,
    answer: Answer,
    q: StepProgress,
    call: StepCall,
    latest: RevisionRow,
    template: RevisionRow,
    c: Catalogue,
)
    requires
        p is GetContent,
        data_request(p) is None,
        progress_fits(p, call, latest),
        progress_stored(p, call, latest, template, c),
        step_follows(p, answer, q),
        answered_by(c, p, answer),
    ensures
        progress_stored(q, call, latest, template, c),
{
}

proof fn lemma_subject_stored(
    p: StepProgress,
    answer: Answer,
    q: StepProgress,
    call: StepCall,
    latest: RevisionRow,
    template: RevisionRow,
    c: Catalogue,
)
    requires
        p matches StepProgress::PutContent { then, .. } && then is Subject,
        progress_fits(p, call, latest),
        progress_stored(p, call, latest, template, c),
        step_follows(p, answer, q),
    ensures
        progress_stored(q, call, latest, template, c),
{
    if let StepProgress::PutContent { then: StepPut::Subject(then), .. } = p {
        if q !is Finished {
            let input = json_parsed(then.material.base.call.input@)->Ok_0;
            let (ready, inner) = choose|ready: StepReady, inner: DataProgress|
                {
                    &&& #[trigger] ready.followed_by(inner, q)
                    &&& ready.material == then.material
                    &&& ready.input_hash == then.input_hash
                    &&& ready.subject_hash == then.subject_hash
                    &&& ready.input@ == input
                    &&& match then.material.template@.content_attr("data_config"@) {
                        None => inner.yields(JsonView::Object(Map::empty())),
                        Some(hash) => inner == (DataProgress::GetContent {
                            hash,
                            then: AwaitDataContent::DataConfig(
                                AwaitDataConfig { tenant: then.material.base.plan.tenant, hash },
                            ),
                        }),
                    }
                };
            lemma_ready_goes_on(c, ready, inner, q, call, latest, template);
        }
    }
}

proof fn lemma_other_stored(
    p: StepProgress,
    answer: Answer,
    q: StepProgress,
    call: StepCall,
    latest: RevisionRow,
    template: RevisionRow,
    c: Catalogue,
)
    requires
        p !is GetContent,
        data_request(p) is None,
        !(p matches StepProgress::PutContent { then: StepPut::Subject(_), .. }),
        progress_fits(p, call, latest),
        progress_stored(p, call, latest, template, c),
        step_follows(p, answer, q),
    ensures
        progress_stored(q, call, latest, template, c),
{
    if let StepProgress::Lower { abstract_config, then, .. } = p {
        let ready = choose|ready: StepReady| #[trigger]
            readies(c, template, ready, then.script, then.arg, call, latest)
                && ready.material.config == abstract_config;
        assert(readies(c, template, ready, then.script, then.arg, call, latest));
    }
}

/// Each answer leaves what was read what is stored.
proof fn lemma_stored_kept(
    p: StepProgress,
    answer: Answer,
    q: StepProgress,
    call: StepCall,
    latest: RevisionRow,
    template: RevisionRow,
    c: Catalogue,
)
    requires
        progress_fits(p, call, latest),
        progress_stored(p, call, latest, template, c),
        step_follows(p, answer, q),
        answered_by(c, p, answer),
    ensures
        progress_stored(q, call, latest, template, c),
{
    if data_request(p) is Some {
        lemma_lookup_stored(p, answer, q, call, latest, template, c);
    } else if p is GetContent {
        lemma_content_stored(p, answer, q, call, latest, template, c);
    } else if p matches StepProgress::PutContent { then: StepPut::Subject(_), .. } {
        lemma_subject_stored(p, answer, q, call, latest, template, c);
    } else {
        lemma_other_stored(p, answer, q, call, latest, template, c);
    }
}

/// The template's revision, as a run was answered it.
pub open spec fn template_read(answers: Seq<Answer>) -> Option<RevisionRow> {
    match answers[3] {
        Answer::Revision(Ok(Some(template))) if answers.len() > 3 => Some(template),
        _ => None,
    }
}

/// A run read its template at the revision that its instance is pinned to: that
/// was its fourth request.
pub open spec fn pinned_template_read(
    call: StepCall,
    progress: Seq<StepProgress>,
    answers: Seq<Answer>,
) -> bool {
    &&& instance_read(answers) matches Some(latest)
    &&& latest@.entity_attr("template"@) matches Some(pin)
    &&& template_read(answers) is Some
    &&& progress[3] matches StepProgress::GetTemplateRevision { template_id, revision_seq, .. }
    &&& template_id == pin.target_entity_id
    &&& pin.target_revision_seq == Some(revision_seq)
}

/// The first requests of a run: the instance and the template are read before
/// anything else.
proof fn lemma_template_read(
    call: StepCall,
    progress: Seq<StepProgress>,
    answers: Seq<Answer>,
    i: int,
    c: Catalogue,
)
    requires
        step_run(call, progress, answers),
        0 <= i < progress.len(),
        i <= 4,
        progress[i] !is Finished,
    ensures
        i < 4 ==> progress[i] !is Lower && progress[i] !is Execute,
        i == 4 ==> pinned_template_read(call, progress, answers),
        i == 4 ==> progress_stored(
            progress[4],
            call,
            instance_read(answers)->Some_0,
            template_read(answers)->Some_0,
            c,
        ),
{
    if i >= 1 {
        assert(step_follows(progress[0], answers[0], progress[1]));
    }
    if i >= 2 {
        assert(step_follows(progress[1], answers[1], progress[2]));
    }
    if i >= 3 {
        assert(step_follows(progress[2], answers[2], progress[3]));
    }
    if i >= 4 {
        assert(step_follows(progress[3], answers[3], progress[4]));
    }
}

/// Whatever a run has read, once it has read the template, is what is stored.
pub proof fn lemma_run_stored(
    call: StepCall,
    progress: Seq<StepProgress>,
    answers: Seq<Answer>,
    i: int,
    c: Catalogue,
)
    requires
        step_run(call, progress, answers),
        run_answered_by(c, progress, answers),
        4 <= i < progress.len(),
        progress[i] !is Finished,
    ensures
        pinned_template_read(call, progress, answers),
        progress_fits(progress[i], call, instance_read(answers)->Some_0),
        progress_stored(
            progress[i],
            call,
            instance_read(answers)->Some_0,
            template_read(answers)->Some_0,
            c,
        ),
    decreases i,
{
    lemma_run_fits(call, progress, answers, i);
    if i == 4 {
        lemma_template_read(call, progress, answers, i, c);
    } else {
        assert(step_follows(progress[i - 1], answers[i - 1], progress[i]));
        lemma_run_stored(call, progress, answers, i - 1, c);
        assert(answered_by(c, progress[i - 1], answers[i - 1]));
        lemma_stored_kept(
            progress[i - 1],
            answers[i - 1],
            progress[i],
            call,
            instance_read(answers)->Some_0,
            template_read(answers)->Some_0,
            c,
        );
    }
}

/// A script runs with what is stored, and with what the step was asked for
/// with: it is the script of the template revision that the instance is pinned
/// to, which belongs to the instance's tenant; its argument holds the
/// instance's context and arguments, the step's input, who asks for the step,
/// and the data that the bindings of that template revision come to. The config
/// is lowered from that of the same template revision.
pub proof fn law_script_gets_what_is_stored(
    call: StepCall,
    progress: Seq<StepProgress>,
    answers: Seq<Answer>,
    i: int,
    c: Catalogue,
)
    requires
        step_run(call, progress, answers),
        run_answered_by(c, progress, answers),
        0 <= i < progress.len(),
    ensures
        progress[i] is Execute || progress[i] is Lower ==> i > 4 && pinned_template_read(
            call,
            progress,
            answers,
        ),
        progress[i] matches StepProgress::Execute { script, arg, .. } ==> argument_stored(
            c,
            template_read(answers)->Some_0,
            script,
            arg,
            call,
            instance_read(answers)->Some_0,
        ),
        progress[i] matches StepProgress::Lower {
            abstract_config,
            instance_id,
            step_seq,
            subject,
            then,
        } ==> {
            &&& instance_id == call.instance_id
            &&& step_seq == instance_read(answers)->Some_0.revision_seq + 1
            &&& subject == call.subject
            &&& config_and_argument_stored(
                c,
                template_read(answers)->Some_0,
                abstract_config,
                then.script,
                then.arg,
                call,
                instance_read(answers)->Some_0,
            )
        },
{
    if progress[i] !is Finished {
        if i >= 4 {
            lemma_run_stored(call, progress, answers, i, c);
            assert(step_follows(progress[3], answers[3], progress[4]));
        } else {
            lemma_template_read(call, progress, answers, i, c);
        }
    }
}

} // verus!
