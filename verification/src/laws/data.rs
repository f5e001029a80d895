//! The data that a script gets: just the datasets that its template's bindings
//! name and that it may have.

use crate::canonical::{content_json, ContentView};
use crate::corpus::{corpus_decoded, corpus_json};
use crate::data::{
    datasets_value, AwaitDataConfig, AwaitDataContent, Binding, DataProgress, DataRunView,
};
use crate::entities::{EmbeddingDataset, WorkflowTemplate};
use crate::error::WorkflowError;
use crate::ids::{Identity, Sha256, Uuid};
use crate::json::{lemma_precedes_irreflexive, listing, lists, precedes, JsonView};
use crate::laws::listing::law_fields_can_be_listed;
use crate::runs::Answer;
use crate::store::{EntityRow, RevisionRow};
use vstd::prelude::*;

verus! {

/// A store that does not change while data is looked up in it.
pub struct Catalogue {
    /// Whose public identifier is this?
    pub identity: spec_fn(Uuid) -> Option<Identity>,
    /// The entity with this internal identifier.
    pub entity: spec_fn(Uuid) -> Option<EntityRow>,
    /// The latest revision of the entity with this internal identifier.
    pub latest: spec_fn(Uuid) -> Option<RevisionRow>,
    /// The content with this digest.
    pub content: spec_fn(Sha256) -> Option<Seq<u8>>,
}

/// The answer is what the catalogue has.
pub open spec fn from_catalogue(c: Catalogue, p: DataProgress, answer: Answer) -> bool {
    match (p, answer) {
        (DataProgress::GetContent { hash, .. }, Answer::Content(Ok(found))) => match found {
            None => (c.content)(hash) is None,
            Some(bytes) => (c.content)(hash) == Some(bytes@),
        },
        (DataProgress::ResolvePublic { public_id, .. }, Answer::Identity(Ok(found))) => found == (
        c.identity)(public_id),
        (DataProgress::GetEntity { entity_id, .. }, Answer::Entity(Ok(found))) => found == (
        c.entity)(entity_id),
        (DataProgress::GetLatestRevision { dataset_id, .. }, Answer::Revision(Ok(found))) => found
            == (c.latest)(dataset_id.spec_internal()),
        _ => false,
    }
}

/// From `p`, with this answer, the lookup of data goes on to `q`.
pub open spec fn data_follows(p: DataProgress, answer: Answer, q: DataProgress) -> bool {
    match (p, answer) {
        (DataProgress::GetContent { then, .. }, Answer::Content(found)) => then.followed_by(
            found,
            q,
        ),
        (DataProgress::ResolvePublic { then, .. }, Answer::Identity(found)) => then.followed_by(
            found,
            q,
        ),
        (DataProgress::GetEntity { then, .. }, Answer::Entity(found)) => then.followed_by(found, q),
        (DataProgress::GetLatestRevision { then, .. }, Answer::Revision(found)) =>
            then.followed_by(found, q),
        _ => false,
    }
}

/// Why a lookup fails.
pub enum Refusal {
    /// The data bindings are bad, in the way said.
    Invalid(Seq<char>),
    /// The content that should hold the bindings does not decode.
    Undecodable(Seq<char>),
    /// The content that should hold the bindings does not parse.
    Unparsable(Seq<char>),
    /// Something else is missing or has the wrong type.
    Other(WorkflowError),
}

/// The error says why.
pub open spec fn says(error: WorkflowError, refusal: Refusal) -> bool {
    match refusal {
        Refusal::Invalid(text) => error.is_data_config_error(text),
        Refusal::Undecodable(text) => error.is_decode_error(text),
        Refusal::Unparsable(text) => error.is_json_error(text),
        Refusal::Other(other) => error == other,
    }
}

/// What a binding comes to.
pub enum BindingOutcome {
    /// A dataset, as JSON.
    Found(JsonView),
    /// Nothing, and the lookup goes on.
    Skipped,
    /// Nothing, and the lookup fails.
    Rejected(Refusal),
}

/// What a corpus with this digest comes to: it must be there and decode to
/// finite vectors.
pub open spec fn corpus_outcome(c: Catalogue, id: Uuid, hash: Sha256) -> BindingOutcome {
    match (c.content)(hash) {
        None => BindingOutcome::Rejected(
            Refusal::Other(
                WorkflowError::MissingContentBlob {
                    entity_name: EmbeddingDataset::NAME,
                    attribute: "corpus",
                    hash,
                },
            ),
        ),
        Some(bytes) => match corpus_decoded(bytes) {
            Err(message) => BindingOutcome::Rejected(
                Refusal::Invalid("failed to decode corpus for "@ + id.text() + ": "@ + message),
            ),
            Ok(items) => match corpus_json(items) {
                Err(text) => BindingOutcome::Rejected(Refusal::Invalid(text)),
                Ok(value) => BindingOutcome::Found(value),
            },
        },
    }
}

/// What a dataset with this latest revision comes to: it must belong to the
/// tenant; a retired one, and one without a corpus, is passed over.
pub open spec fn revision_outcome(
    c: Catalogue,
    tenant: Uuid,
    id: Uuid,
    found: Option<RevisionRow>,
) -> BindingOutcome {
    match found {
        None => BindingOutcome::Rejected(
            Refusal::Invalid("embedding dataset "@ + id.text() + " has no revisions"@),
        ),
        Some(latest) => match latest@.required_entity(EmbeddingDataset::NAME, "tenant") {
            Err(error) => BindingOutcome::Rejected(Refusal::Other(error)),
            Ok(owner) => if owner.target_entity_id != tenant {
                BindingOutcome::Rejected(
                    Refusal::Invalid(
                        "embedding dataset "@ + id.text() + " belongs to another tenant"@,
                    ),
                )
            } else {
                match latest@.required_bool(EmbeddingDataset::NAME, "is_retired") {
                    Err(error) => BindingOutcome::Rejected(Refusal::Other(error)),
                    Ok(true) => BindingOutcome::Skipped,
                    Ok(false) => match latest@.content_attr("corpus"@) {
                        None => BindingOutcome::Skipped,
                        Some(hash) => corpus_outcome(c, id, hash),
                    },
                }
            },
        },
    }
}

/// What this entity comes to: it must be a dataset.
pub open spec fn entity_outcome(
    c: Catalogue,
    tenant: Uuid,
    id: Uuid,
    internal: Uuid,
    found: Option<EntityRow>,
) -> BindingOutcome {
    match found {
        None => BindingOutcome::Rejected(
            Refusal::Invalid("embedding dataset "@ + id.text() + " entity row is missing"@),
        ),
        Some(entity) => if entity.kind.value != EmbeddingDataset::KIND {
            BindingOutcome::Rejected(
                Refusal::Invalid(
                    id.text() + " kind mismatch: expected "@ + (Uuid {
                        value: EmbeddingDataset::KIND,
                    }).text() + ", found "@ + entity.kind.text(),
                ),
            )
        } else {
            revision_outcome(c, tenant, id, (c.latest)(internal))
        },
    }
}

/// What a public identifier comes to: one that is nobody's is passed over.
pub open spec fn identifier_outcome(
    c: Catalogue,
    tenant: Uuid,
    id: Uuid,
    found: Option<Identity>,
) -> BindingOutcome {
    match found {
        None => BindingOutcome::Skipped,
        Some(identity) => match identity.versions() {
            Err(error) => BindingOutcome::Rejected(
                Refusal::Invalid(
                    id.text() + " is not an embedding dataset identity: "@ + error.spec_message(),
                ),
            ),
            Ok(()) => entity_outcome(
                c,
                tenant,
                id,
                identity.internal,
                (c.entity)(identity.internal),
            ),
        },
    }
}

/// What a binding of this name comes to: its value must be the text of an
/// identifier.
pub open spec fn binding_outcome(
    c: Catalogue,
    tenant: Uuid,
    name: Seq<char>,
    value: JsonView,
) -> BindingOutcome {
    match value {
        JsonView::String(text) => match Uuid::parsed(text) {
            Err(message) => BindingOutcome::Rejected(
                Refusal::Invalid(
                    "data_config.embed_datasets."@ + name + " is not a valid UUID: "@ + message,
                ),
            ),
            Ok(id) => identifier_outcome(c, tenant, id, (c.identity)(id)),
        },
        _ => BindingOutcome::Rejected(
            Refusal::Invalid(
                "data_config.embed_datasets."@ + name + " must be a UUID string"@,
            ),
        ),
    }
}

/// The datasets that a lookup comes to: those found, under the names they are
/// bound to; where a binding is rejected, why the first that is rejected is.
pub open spec fn assembled(c: Catalogue, run: DataRunView) -> Result<
    Map<Seq<char>, JsonView>,
    Refusal,
>
    decreases run.rest.len(),
{
    if run.rest.len() == 0 {
        Ok(run.datasets)
    } else {
        let rest = run.rest.drop_first();
        match binding_outcome(c, run.tenant, run.rest[0].0, run.rest[0].1) {
            BindingOutcome::Rejected(refusal) => Err(refusal),
            BindingOutcome::Skipped => assembled(c, DataRunView { rest, ..run }),
            BindingOutcome::Found(value) => assembled(
                c,
                DataRunView { rest, datasets: run.datasets.insert(run.rest[0].0, value), ..run },
            ),
        }
    }
}

/// What a lookup comes to when the binding under lookup comes to this.
pub open spec fn after_binding(
    c: Catalogue,
    binding: Binding,
    outcome: BindingOutcome,
) -> Result<Map<Seq<char>, JsonView>, Refusal> {
    match outcome {
        BindingOutcome::Rejected(refusal) => Err(refusal),
        BindingOutcome::Skipped => assembled(c, binding.run@),
        BindingOutcome::Found(value) => assembled(
            c,
            DataRunView {
                datasets: binding.run@.datasets.insert(binding.name@, value),
                ..binding.run@
            },
        ),
    }
}

/// What the template's bindings come to.
pub open spec fn config_outcome(c: Catalogue, tenant: Uuid, hash: Sha256) -> Result<
    Map<Seq<char>, JsonView>,
    Refusal,
> {
    match (c.content)(hash) {
        None => Err(
            Refusal::Other(
                WorkflowError::MissingContentBlob {
                    entity_name: WorkflowTemplate::NAME,
                    attribute: "data_config",
                    hash,
                },
            ),
        ),
        Some(bytes) => match content_json(bytes) {
            ContentView::Undecodable(message) => Err(
                Refusal::Undecodable("content bytes are not valid JSON: "@ + message),
            ),
            ContentView::Unparsable(message) => Err(
                Refusal::Unparsable("failed to parse canonical JSON: "@ + message),
            ),
            ContentView::Json(config) => match config {
                JsonView::Object(_) => match config.field("embed_datasets"@) {
                    None => Ok(Map::empty()),
                    Some(JsonView::Object(bindings)) => assembled(
                        c,
                        DataRunView { tenant, rest: listing(bindings), datasets: Map::empty() },
                    ),
                    Some(_) => Err(
                        Refusal::Invalid("data_config.embed_datasets must be a JSON object"@),
                    ),
                },
                _ => Err(Refusal::Invalid("data_config must be a JSON object"@)),
            },
        },
    }
}

/// A lookup that stands at `p` is on its way to these datasets, or to fail for
/// this reason.
pub open spec fn comes_to(
    c: Catalogue,
    p: DataProgress,
    datasets: Result<Map<Seq<char>, JsonView>, Refusal>,
) -> bool {
    match p {
        DataProgress::GetContent { hash, then } => match then {
            AwaitDataContent::DataConfig(then) => hash == then.hash && datasets == config_outcome(
                c,
                then.tenant,
                hash,
            ),
            AwaitDataContent::Corpus(then) => hash == then.hash && datasets == after_binding(
                c,
                then.binding,
                corpus_outcome(c, then.binding.public_id, hash),
            ),
        },
        DataProgress::ResolvePublic { public_id, then } => {
            &&& public_id == then.binding.public_id
            &&& datasets == after_binding(
                c,
                then.binding,
                identifier_outcome(
                    c,
                    then.binding.run.tenant,
                    public_id,
                    (c.identity)(public_id),
                ),
            )
        },
        DataProgress::GetEntity { entity_id, then } => {
            &&& entity_id == then.dataset_id.spec_internal()
            &&& datasets == after_binding(
                c,
                then.binding,
                entity_outcome(
                    c,
                    then.binding.run.tenant,
                    then.binding.public_id,
                    entity_id,
                    (c.entity)(entity_id),
                ),
            )
        },
        DataProgress::GetLatestRevision { dataset_id, then } => datasets == after_binding(
            c,
            then.binding,
            revision_outcome(
                c,
                then.binding.run.tenant,
                then.binding.public_id,
                (c.latest)(dataset_id.spec_internal()),
            ),
        ),
        DataProgress::Finished(Ok(value)) => datasets is Ok && value@ == datasets_value(
            datasets->Ok_0,
        ),
        DataProgress::Finished(Err(error)) => datasets is Err && says(error, datasets->Err_0),
    }
}

/// Where a lookup goes on with its bindings, it is on its way to what they come
/// to.
proof fn lemma_goes_on(c: Catalogue, p: DataProgress, run: DataRunView)
    requires
        p.goes_on(run),
    ensures
        comes_to(c, p, assembled(c, run)),
{
}

/// Each answer leaves a lookup on its way.
pub proof fn lemma_on_its_way(
    c: Catalogue,
    p: DataProgress,
    answer: Answer,
    q: DataProgress,
    datasets: Result<Map<Seq<char>, JsonView>, Refusal>,
)
    requires
        comes_to(c, p, datasets),
        data_follows(p, answer, q),
        from_catalogue(c, p, answer),
    ensures
        comes_to(c, q, datasets),
{
    assert forall|run: DataRunView| q.goes_on(run) implies comes_to(c, q, assembled(c, run)) by {
        lemma_goes_on(c, q, run);
    }
}

/// A lookup of a template's data, finished or not, in a store that does not
/// change.
pub open spec fn data_run(
    c: Catalogue,
    tenant: Uuid,
    hash: Sha256,
    progress: Seq<DataProgress>,
    answers: Seq<Answer>,
) -> bool {
    &&& progress.len() == answers.len() + 1
    &&& progress[0] == (DataProgress::GetContent {
        hash,
        then: AwaitDataContent::DataConfig(AwaitDataConfig { tenant, hash }),
    })
    &&& forall|i: int|
        0 <= i < answers.len() ==> data_follows(
            progress[i],
            #[trigger] answers[i],
            progress[i + 1],
        ) && from_catalogue(c, progress[i], answers[i])
}

proof fn lemma_run_on_its_way(
    c: Catalogue,
    tenant: Uuid,
    hash: Sha256,
    progress: Seq<DataProgress>,
    answers: Seq<Answer>,
    i: int,
)
    requires
        data_run(c, tenant, hash, progress, answers),
        0 <= i < progress.len(),
    ensures
        comes_to(c, progress[i], config_outcome(c, tenant, hash)),
    decreases i,
{
    if i > 0 {
        lemma_run_on_its_way(c, tenant, hash, progress, answers, i - 1);
        assert(data_follows(progress[i - 1], answers[i - 1], progress[i]));
        lemma_on_its_way(
            c,
            progress[i - 1],
            answers[i - 1],
            progress[i],
            config_outcome(c, tenant, hash),
        );
    }
}

/// The data that a script gets is just what its template's bindings come to:
/// each dataset that is found, belongs to the tenant, is not retired and has a
/// corpus, under the name it is bound to. Where a binding is rejected, the
/// lookup fails, and its error says why the first that is rejected is: that the
/// bindings are invalid, and how, or what is missing.
pub proof fn law_data_is_what_bindings_come_to(
    c: Catalogue,
    tenant: Uuid,
    hash: Sha256,
    progress: Seq<DataProgress>,
    answers: Seq<Answer>,
)
    requires
        data_run(c, tenant, hash, progress, answers),
        progress.last() is Finished,
    ensures
        match config_outcome(c, tenant, hash) {
            Ok(datasets) => progress.last().yields(datasets_value(datasets)),
            Err(refusal) => progress.last() matches DataProgress::Finished(Err(error)) && says(
                error,
                refusal,
            ),
        },
{
    lemma_run_on_its_way(c, tenant, hash, progress, answers, progress.len() - 1);
}

/// No dataset of another tenant ever reaches a script: a binding to one, which
/// is there and belongs to somebody else, makes the whole lookup fail. Where no
/// binding before it is rejected, it fails because the bindings are invalid,
/// and for a sound dataset because that belongs to another tenant.
pub proof fn law_foreign_dataset_is_rejected(
    c: Catalogue,
    run: DataRunView,
    at: int,
    id: Uuid,
    text: Seq<char>,
    latest: RevisionRow,
)
    requires
        0 <= at < run.rest.len(),
        run.rest[at].1 == JsonView::String(text),
        Uuid::parsed(text) == Ok::<Uuid, Seq<char>>(id),
        (c.identity)(id) is Some,
        (c.latest)((c.identity)(id)->Some_0.internal) == Some(latest),
        latest@.entity_attr("tenant"@) is Some,
        latest@.entity_attr("tenant"@)->Some_0.target_entity_id != run.tenant,
    ensures
        assembled(c, run) is Err,
        (forall|j: int|
            0 <= j < at ==> binding_outcome(
                c,
                run.tenant,
                (#[trigger] run.rest[j]).0,
                run.rest[j].1,
            ) !is Rejected) ==> {
            &&& assembled(c, run)->Err_0 is Invalid
            &&& is_dataset(c, (c.identity)(id)->Some_0) ==> assembled(c, run)->Err_0
                == Refusal::Invalid(
                "embedding dataset "@ + id.text() + " belongs to another tenant"@,
            )
        },
    decreases run.rest.len(),
{
    if at > 0 {
        let rest = run.rest.drop_first();
        let next = match binding_outcome(c, run.tenant, run.rest[0].0, run.rest[0].1) {
            BindingOutcome::Found(value) => DataRunView {
                rest,
                datasets: run.datasets.insert(run.rest[0].0, value),
                ..run
            },
            _ => DataRunView { rest, ..run },
        };
        law_foreign_dataset_is_rejected(c, next, at - 1, id, text, latest);
        if forall|j: int|
            0 <= j < at ==> binding_outcome(
                c,
                run.tenant,
                (#[trigger] run.rest[j]).0,
                run.rest[j].1,
            ) !is Rejected {
            assert(binding_outcome(c, run.tenant, run.rest[0].0, run.rest[0].1) !is Rejected);
            assert forall|j: int| 0 <= j < at - 1 implies binding_outcome(
                c,
                next.tenant,
                (#[trigger] next.rest[j]).0,
                next.rest[j].1,
            ) !is Rejected by {
                assert(next.rest[j] == run.rest[j + 1]);
            }
        }
    }
}

/// The identity is sound, and that of a dataset.
pub open spec fn is_dataset(c: Catalogue, identity: Identity) -> bool {
    &&& identity.versions() is Ok
    &&& (c.entity)(identity.internal) matches Some(entity)
    &&& entity.kind.value == EmbeddingDataset::KIND
}

/// Each binding counts for itself: the lookup succeeds where none is rejected,
/// and then has a dataset under a name just where the binding of that name
/// comes to one.
pub proof fn law_each_binding_counts(
    c: Catalogue,
    tenant: Uuid,
    bindings: Map<Seq<char>, JsonView>,
    name: Seq<char>,
)
    requires
        bindings.dom().finite(),
    ensures
        ({
            let came_to = assembled(
                c,
                DataRunView { tenant, rest: listing(bindings), datasets: Map::empty() },
            );
            &&& came_to is Ok <==> forall|k: Seq<char>| #[trigger]
                bindings.contains_key(k) ==> binding_outcome(c, tenant, k, bindings[k]) !is Rejected
            &&& came_to is Ok ==> (came_to->Ok_0.contains_key(name) <==> {
                &&& bindings.contains_key(name)
                &&& binding_outcome(c, tenant, name, bindings[name]) is Found
            })
            &&& came_to is Ok && came_to->Ok_0.contains_key(name) ==> binding_outcome(
                c,
                tenant,
                name,
                bindings[name],
            ) == BindingOutcome::Found(came_to->Ok_0[name])
        }),
{
    law_fields_can_be_listed(bindings);
    let entries = listing(bindings);
    let run = DataRunView { tenant, rest: entries, datasets: Map::empty() };
    lemma_rejected_anywhere(c, run);
    if forall|k: Seq<char>| #[trigger]
        bindings.contains_key(k) ==> binding_outcome(c, tenant, k, bindings[k]) !is Rejected {
        assert forall|i: int| 0 <= i < entries.len() implies binding_outcome(
            c,
            tenant,
            (#[trigger] entries[i]).0,
            entries[i].1,
        ) !is Rejected by {
            assert(bindings.contains_key(entries[i].0));
        }
    } else {
        let k = choose|k: Seq<char>| #[trigger]
            bindings.contains_key(k) && binding_outcome(c, tenant, k, bindings[k]) is Rejected;
        let i = choose|i: int| 0 <= i < entries.len() && (#[trigger] entries[i]).0 == k;
        assert(binding_outcome(c, tenant, entries[i].0, entries[i].1) is Rejected);
    }
    if assembled(c, run) is Ok {
        if bindings.contains_key(name) {
            let i = choose|i: int| 0 <= i < entries.len() && (#[trigger] entries[i]).0 == name;
            lemma_names_once(entries, bindings);
            lemma_assembled_name(c, run, i);
        } else {
            assert forall|i: int| 0 <= i < entries.len() implies (#[trigger] entries[i]).0
                != name by {
                assert(bindings.contains_key(entries[i].0));
            }
            lemma_assembled_other(c, run, name);
        }
    }
}

proof fn lemma_names_once(
    entries: Seq<(Seq<char>, JsonView)>,
    bindings: Map<Seq<char>, JsonView>,
)
    requires
        lists(entries, bindings),
    ensures
        forall|i: int, j: int|
            0 <= i < j < entries.len() ==> (#[trigger] entries[i]).0 != (#[trigger] entries[j]).0,
{
    let names = Seq::new(entries.len(), |i: int| entries[i].0);
    assert forall|i: int, j: int| 0 <= i < j < entries.len() implies (#[trigger] entries[i]).0 != (
    #[trigger] entries[j]).0 by {
        assert(precedes(names[i], names[j]));
        lemma_precedes_irreflexive(names[i]);
    }
}

proof fn lemma_rejected_anywhere(c: Catalogue, run: DataRunView)
    ensures
        assembled(c, run) is Ok <==> forall|i: int|
            0 <= i < run.rest.len() ==> binding_outcome(
                c,
                run.tenant,
                (#[trigger] run.rest[i]).0,
                run.rest[i].1,
            ) !is Rejected,
    decreases run.rest.len(),
{
    if run.rest.len() > 0 {
        let rest = run.rest.drop_first();
        let next = match binding_outcome(c, run.tenant, run.rest[0].0, run.rest[0].1) {
            BindingOutcome::Found(value) => DataRunView {
                rest,
                datasets: run.datasets.insert(run.rest[0].0, value),
                ..run
            },
            _ => DataRunView { rest, ..run },
        };
        lemma_rejected_anywhere(c, next);
        assert forall|i: int| 0 < i < run.rest.len() implies (#[trigger] run.rest[i])
            == rest[i - 1] by {}
        assert forall|i: int| 0 <= i < rest.len() implies (#[trigger] rest[i]) == run.rest[i
            + 1] by {}
    }
}

proof fn lemma_assembled_other(c: Catalogue, run: DataRunView, name: Seq<char>)
    requires
        assembled(c, run) is Ok,
        forall|i: int| 0 <= i < run.rest.len() ==> (#[trigger] run.rest[i]).0 != name,
    ensures
        assembled(c, run)->Ok_0.contains_key(name) == run.datasets.contains_key(name),
        run.datasets.contains_key(name) ==> assembled(c, run)->Ok_0[name]
            == run.datasets[name],
    decreases run.rest.len(),
{
    if run.rest.len() > 0 {
        let rest = run.rest.drop_first();
        assert forall|i: int| 0 <= i < rest.len() implies (#[trigger] rest[i]).0 != name by {
            assert(rest[i] == run.rest[i + 1]);
        }
        assert(run.rest[0].0 != name);
        let next = match binding_outcome(c, run.tenant, run.rest[0].0, run.rest[0].1) {
            BindingOutcome::Found(value) => DataRunView {
                rest,
                datasets: run.datasets.insert(run.rest[0].0, value),
                ..run
            },
            _ => DataRunView { rest, ..run },
        };
        lemma_assembled_other(c, next, name);
    }
}

proof fn lemma_assembled_name(c: Catalogue, run: DataRunView, at: int)
    requires
        assembled(c, run) is Ok,
        0 <= at < run.rest.len(),
        forall|i: int, j: int|
            0 <= i < j < run.rest.len() ==> (#[trigger] run.rest[i]).0 != (
            #[trigger] run.rest[j]).0,
        !run.datasets.contains_key(run.rest[at].0),
    ensures
        match binding_outcome(c, run.tenant, run.rest[at].0, run.rest[at].1) {
            BindingOutcome::Found(value) => assembled(c, run)->Ok_0.contains_key(run.rest[at].0)
                && assembled(c, run)->Ok_0[run.rest[at].0] == value,
            _ => !assembled(c, run)->Ok_0.contains_key(run.rest[at].0),
        },
    decreases run.rest.len(),
{
    let rest = run.rest.drop_first();
    let next = match binding_outcome(c, run.tenant, run.rest[0].0, run.rest[0].1) {
        BindingOutcome::Found(value) => DataRunView {
            rest,
            datasets: run.datasets.insert(run.rest[0].0, value),
            ..run
        },
        _ => DataRunView { rest, ..run },
    };
    assert forall|i: int, j: int| 0 <= i < j < rest.len() implies (#[trigger] rest[i]).0 != (
    #[trigger] rest[j]).0 by {
        assert(rest[i] == run.rest[i + 1] && rest[j] == run.rest[j + 1]);
    }
    if at == 0 {
        assert forall|i: int| 0 <= i < rest.len() implies (#[trigger] rest[i]).0
            != run.rest[0].0 by {
            assert(rest[i] == run.rest[i + 1]);
        }
        lemma_assembled_other(c, next, run.rest[0].0);
    } else {
        assert(rest[at - 1] == run.rest[at]);
        assert(run.rest[0].0 != run.rest[at].0);
        lemma_assembled_name(c, next, at - 1);
    }
}

} // verus!
