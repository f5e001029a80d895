//! The datasets that a template binds, said of what the store has.

use crate::canonical::{content_json, ContentView};
use crate::corpus::{corpus_decoded, corpus_json, CorpusItemView};
use crate::data::{datasets_value, DataProgress, DataRunView};
use crate::entities::EmbeddingDataset;
use crate::error::WorkflowError;
use crate::ids::{Identity, Sha256, Uuid};
use crate::json::{listing, JsonView};
use crate::laws::data::{
    assembled, binding_outcome, config_outcome, data_run, law_data_is_what_bindings_come_to,
    law_each_binding_counts, BindingOutcome, Catalogue, Refusal,
};
use crate::laws::values::{all_numbers, dataset_says, law_corpus_keeps_every_item};
use crate::runs::Answer;
use crate::store::{RevisionRow, ScalarValue};
use vstd::prelude::*;

verus! {

/// The value names the public identifier `id`.
pub open spec fn names(value: JsonView, id: Uuid) -> bool {
    &&& value matches JsonView::String(text)
    &&& Uuid::parsed(text) matches Ok(parsed)
    &&& parsed == id
}

/// The store has a dataset of this tenant under the public identifier `id`, and
/// this is its latest revision.
pub open spec fn has_dataset(c: Catalogue, tenant: Uuid, id: Uuid, latest: RevisionRow) -> bool {
    &&& (c.identity)(id) matches Some(identity)
    &&& identity.versions() is Ok
    &&& (c.entity)(identity.internal) matches Some(entity)
    &&& entity.kind.value == EmbeddingDataset::KIND
    &&& (c.latest)(identity.internal) == Some(latest)
    &&& latest@.entity_attr("tenant"@) matches Some(owner)
    &&& owner.target_entity_id == tenant
}

/// The dataset is in use, and its corpus has these items, all of numbers.
pub open spec fn has_items(
    c: Catalogue,
    latest: RevisionRow,
    items: Seq<CorpusItemView>,
) -> bool {
    &&& latest@.scalar_attr("is_retired"@) == Some(ScalarValue::Bool(false))
    &&& latest@.content_attr("corpus"@) matches Some(hash)
    &&& (c.content)(hash) matches Some(bytes)
    &&& corpus_decoded(bytes) matches Ok(decoded)
    &&& decoded == items
    &&& all_numbers(items)
}

/// The dataset is retired, or has no corpus yet.
pub open spec fn has_nothing(latest: RevisionRow) -> bool {
    ||| latest@.scalar_attr("is_retired"@) == Some(ScalarValue::Bool(true))
    ||| latest@.scalar_attr("is_retired"@) == Some(ScalarValue::Bool(false))
        && latest@.content_attr("corpus"@) is None
}

/// The binding is to a dataset in use with these items.
pub open spec fn binds_items(
    c: Catalogue,
    tenant: Uuid,
    value: JsonView,
    items: Seq<CorpusItemView>,
) -> bool {
    exists|id: Uuid, latest: RevisionRow|
        names(value, id) && #[trigger] has_dataset(c, tenant, id, latest) && has_items(
            c,
            latest,
            items,
        )
}

/// The binding is to nobody, or to a dataset that has nothing to give.
pub open spec fn binds_nothing(c: Catalogue, tenant: Uuid, value: JsonView) -> bool {
    ||| exists|id: Uuid| #[trigger] names(value, id) && (c.identity)(id) is None
    ||| exists|id: Uuid, latest: RevisionRow|
        names(value, id) && #[trigger] has_dataset(c, tenant, id, latest) && has_nothing(latest)
}

/// What a binding comes to: to a dataset in use, what its corpus becomes; to
/// nobody or to one that has nothing to give, nothing; and to anything else, a
/// refusal.
proof fn lemma_binding_by_the_store(
    c: Catalogue,
    tenant: Uuid,
    name: Seq<char>,
    value: JsonView,
    items: Seq<CorpusItemView>,
)
    ensures
        binds_items(c, tenant, value, items) ==> binding_outcome(c, tenant, name, value)
            == BindingOutcome::Found(corpus_json(items)->Ok_0) && dataset_says(
            corpus_json(items)->Ok_0,
            items,
        ),
        binds_nothing(c, tenant, value) ==> binding_outcome(c, tenant, name, value) is Skipped,
        binding_outcome(c, tenant, name, value) is Skipped ==> binds_nothing(c, tenant, value),
        binding_outcome(c, tenant, name, value) matches BindingOutcome::Found(dataset) ==> exists|
            found: Seq<CorpusItemView>,
        | #[trigger]
            binds_items(c, tenant, value, found) && dataset_says(dataset, found),
{
    law_corpus_keeps_every_item(items);
    if let JsonView::String(text) = value {
        if let Ok(id) = Uuid::parsed(text) {
            assert(names(value, id));
            if let Some(identity) = (c.identity)(id) {
                if let Some(latest) = (c.latest)(identity.internal) {
                    if let Some(hash) = latest@.content_attr("corpus"@) {
                        if let Some(bytes) = (c.content)(hash) {
                            if let Ok(found) = corpus_decoded(bytes) {
                                law_corpus_keeps_every_item(found);
                                if binding_outcome(c, tenant, name, value) is Found {
                                    assert(has_dataset(c, tenant, id, latest));
                                    if !all_numbers(found) {
                                        assert(corpus_json(found) is Err);
                                    }
                                    assert(has_items(c, latest, found));
                                    assert(binds_items(c, tenant, value, found));
                                }
                            }
                        }
                    }
                    if binding_outcome(c, tenant, name, value) is Skipped {
                        assert(has_dataset(c, tenant, id, latest));
                    }
                }
            }
        }
    }
}

/// The datasets are those that the bindings name: under a name that is bound to
/// a dataset in use, all of its items in order; under any other name, nothing.
pub open spec fn datasets_say(
    c: Catalogue,
    tenant: Uuid,
    bindings: Map<Seq<char>, JsonView>,
    datasets: Map<Seq<char>, JsonView>,
) -> bool {
    &&& forall|name: Seq<char>, items: Seq<CorpusItemView>|
        bindings.contains_key(name) && #[trigger] binds_items(c, tenant, bindings[name], items)
            ==> datasets.contains_key(name) && dataset_says(datasets[name], items)
    &&& forall|name: Seq<char>| #[trigger]
        datasets.contains_key(name) ==> bindings.contains_key(name) && !binds_nothing(
            c,
            tenant,
            bindings[name],
        ) && exists|items: Seq<CorpusItemView>| #[trigger]
            binds_items(c, tenant, bindings[name], items)
}

/// Every binding is to a dataset in use, to one that has nothing to give, or to
/// nobody.
pub open spec fn bindings_in_order(
    c: Catalogue,
    tenant: Uuid,
    bindings: Map<Seq<char>, JsonView>,
) -> bool {
    forall|name: Seq<char>| #[trigger]
        bindings.contains_key(name) ==> binds_nothing(c, tenant, bindings[name]) || exists|
            items: Seq<CorpusItemView>,
        | #[trigger]
            binds_items(c, tenant, bindings[name], items)
}

/// Bindings that are in order, and only they, come to datasets, and these are
/// just the datasets that they name.
pub proof fn law_bindings_come_to_what_they_name(
    c: Catalogue,
    tenant: Uuid,
    bindings: Map<Seq<char>, JsonView>,
)
    requires
        bindings.dom().finite(),
    ensures
        ({
            let came_to = assembled(
                c,
                DataRunView { tenant, rest: listing(bindings), datasets: Map::empty() },
            );
            &&& came_to is Ok <==> bindings_in_order(c, tenant, bindings)
            &&& came_to is Ok ==> datasets_say(c, tenant, bindings, came_to->Ok_0)
        }),
{
    let came_to = assembled(
        c,
        DataRunView { tenant, rest: listing(bindings), datasets: Map::empty() },
    );
    law_each_binding_counts(c, tenant, bindings, Seq::empty());
    assert forall|name: Seq<char>| #[trigger] bindings.contains_key(name) implies (binding_outcome(
        c,
        tenant,
        name,
        bindings[name],
    ) !is Rejected <==> binds_nothing(c, tenant, bindings[name]) || exists|
        items: Seq<CorpusItemView>,
    | #[trigger]
        binds_items(c, tenant, bindings[name], items)) by {
        lemma_binding_by_the_store(c, tenant, name, bindings[name], Seq::empty());
        if exists|items: Seq<CorpusItemView>| #[trigger]
            binds_items(c, tenant, bindings[name], items) {
            let items = choose|items: Seq<CorpusItemView>| #[trigger]
                binds_items(c, tenant, bindings[name], items);
            lemma_binding_by_the_store(c, tenant, name, bindings[name], items);
        }
    }
    if came_to is Ok {
        let datasets = came_to->Ok_0;
        assert forall|name: Seq<char>, items: Seq<CorpusItemView>|
            bindings.contains_key(name) && #[trigger] binds_items(
                c,
                tenant,
                bindings[name],
                items,
            ) implies datasets.contains_key(name) && dataset_says(datasets[name], items) by {
            law_each_binding_counts(c, tenant, bindings, name);
            lemma_binding_by_the_store(c, tenant, name, bindings[name], items);
        }
        assert forall|name: Seq<char>| #[trigger]
            datasets.contains_key(name) implies bindings.contains_key(name) && !binds_nothing(
            c,
            tenant,
            bindings[name],
        ) && exists|items: Seq<CorpusItemView>| #[trigger]
            binds_items(c, tenant, bindings[name], items) by {
            law_each_binding_counts(c, tenant, bindings, name);
            lemma_binding_by_the_store(c, tenant, name, bindings[name], Seq::empty());
        }
    }
}

/// The data bindings stored under this digest are an object, and what they bind
/// to datasets, where they say anything of it, are these.
pub open spec fn stored_bindings(
    c: Catalogue,
    hash: Sha256,
    bindings: Option<Map<Seq<char>, JsonView>>,
) -> bool {
    &&& (c.content)(hash) matches Some(bytes)
    &&& content_json(bytes) matches ContentView::Json(config)
    &&& config is Object
    &&& match config.field("embed_datasets"@) {
        None => bindings is None,
        Some(JsonView::Object(fields)) => bindings == Some(fields),
        Some(_) => false,
    }
}

/// The data is what the bindings name: under `embed_datasets` the datasets, and
/// nothing else.
pub open spec fn data_says(
    c: Catalogue,
    tenant: Uuid,
    bindings: Option<Map<Seq<char>, JsonView>>,
    data: JsonView,
) -> bool {
    &&& data.field("embed_datasets"@) matches Some(JsonView::Object(datasets))
    &&& match bindings {
        None => datasets == Map::<Seq<char>, JsonView>::empty(),
        Some(fields) => datasets_say(c, tenant, fields, datasets),
    }
    &&& forall|name: Seq<char>|
        name != "embed_datasets"@ ==> (#[trigger] data.field(name)) is None
}

/// What stored data bindings come to: where they are in order, the data that
/// they name.
pub proof fn law_config_comes_to_what_it_names(
    c: Catalogue,
    tenant: Uuid,
    hash: Sha256,
    bindings: Option<Map<Seq<char>, JsonView>>,
)
    requires
        stored_bindings(c, hash, bindings),
        bindings matches Some(fields) ==> fields.dom().finite(),
    ensures
        config_outcome(c, tenant, hash) is Ok <==> (bindings matches Some(fields)
            ==> bindings_in_order(c, tenant, fields)),
        config_outcome(c, tenant, hash) matches Ok(datasets) ==> data_says(
            c,
            tenant,
            bindings,
            datasets_value(datasets),
        ),
{
    if let Some(fields) = bindings {
        law_bindings_come_to_what_they_name(c, tenant, fields);
    }
}

/// A lookup of data ends with what the stored bindings name, where they are in
/// order; otherwise it fails.
pub proof fn law_lookup_ends_with_what_is_bound(
    c: Catalogue,
    tenant: Uuid,
    hash: Sha256,
    bindings: Option<Map<Seq<char>, JsonView>>,
    progress: Seq<DataProgress>,
    answers: Seq<Answer>,
)
    requires
        data_run(c, tenant, hash, progress, answers),
        progress.last() is Finished,
        stored_bindings(c, hash, bindings),
        bindings matches Some(fields) ==> fields.dom().finite(),
    ensures
        (bindings matches Some(fields) ==> bindings_in_order(c, tenant, fields)) ==> (
        progress.last() matches DataProgress::Finished(Ok(data)) && data_says(
            c,
            tenant,
            bindings,
            data@,
        )),
        bindings matches Some(fields) ==> !bindings_in_order(c, tenant, fields)
            ==> progress.last() matches DataProgress::Finished(Err(_)),
{
    law_data_is_what_bindings_come_to(c, tenant, hash, progress, answers);
    law_config_comes_to_what_it_names(c, tenant, hash, bindings);
}

/// Why a lone binding is refused, said of what the store has: the bindings are
/// invalid where it is no identifier, where the identity behind it is unsound,
/// where its entity is missing or of another kind, where the dataset has no
/// revisions or another tenant, where its corpus does not decode or has a
/// component that is no number; otherwise the attribute or the content that is
/// missing or of another type is named.
pub proof fn law_why_a_binding_is_refused(
    c: Catalogue,
    tenant: Uuid,
    name: Seq<char>,
    value: JsonView,
    id: Uuid,
    identity: Identity,
    latest: RevisionRow,
    hash: Sha256,
    bytes: Seq<u8>,
)
    ensures
        !(value is String) ==> binding_outcome(c, tenant, name, value) == BindingOutcome::Rejected(
            Refusal::Invalid(
                "data_config.embed_datasets."@ + name + " must be a UUID string"@,
            ),
        ),
        value matches JsonView::String(text) ==> Uuid::parsed(text) matches Err(message)
            ==> binding_outcome(c, tenant, name, value) == BindingOutcome::Rejected(
            Refusal::Invalid(
                "data_config.embed_datasets."@ + name + " is not a valid UUID: "@ + message,
            ),
        ),
        names(value, id) && (c.identity)(id) == Some(identity) ==> (identity.versions()
            matches Err(error) ==> binding_outcome(c, tenant, name, value)
            == BindingOutcome::Rejected(
            Refusal::Invalid(
                id.text() + " is not an embedding dataset identity: "@ + error.spec_message(),
            ),
        )),
        names(value, id) && (c.identity)(id) == Some(identity) && identity.versions() is Ok ==> {
            &&& (c.entity)(identity.internal) is None ==> binding_outcome(c, tenant, name, value)
                == BindingOutcome::Rejected(
                Refusal::Invalid("embedding dataset "@ + id.text() + " entity row is missing"@),
            )
            &&& (c.entity)(identity.internal) matches Some(entity) ==> entity.kind.value
                != EmbeddingDataset::KIND ==> binding_outcome(c, tenant, name, value)
                == BindingOutcome::Rejected(
                Refusal::Invalid(
                    id.text() + " kind mismatch: expected "@ + (Uuid {
                        value: EmbeddingDataset::KIND,
                    }).text() + ", found "@ + entity.kind.text(),
                ),
            )
            &&& (c.entity)(identity.internal) matches Some(entity) ==> entity.kind.value
                == EmbeddingDataset::KIND && (c.latest)(identity.internal) is None
                ==> binding_outcome(c, tenant, name, value) == BindingOutcome::Rejected(
                Refusal::Invalid("embedding dataset "@ + id.text() + " has no revisions"@),
            )
            &&& (c.entity)(identity.internal) matches Some(entity) ==> entity.kind.value
                == EmbeddingDataset::KIND && (c.latest)(identity.internal) == Some(latest) ==> {
                &&& latest@.entity_attr("tenant"@) is None ==> binding_outcome(
                    c,
                    tenant,
                    name,
                    value,
                ) == BindingOutcome::Rejected(
                    Refusal::Other(
                        WorkflowError::MissingEntityAttribute {
                            entity_name: "embedding_dataset",
                            attribute: "tenant",
                        },
                    ),
                )
                &&& latest@.entity_attr("tenant"@) matches Some(owner) ==> owner.target_entity_id
                    != tenant ==> binding_outcome(c, tenant, name, value)
                    == BindingOutcome::Rejected(
                    Refusal::Invalid(
                        "embedding dataset "@ + id.text() + " belongs to another tenant"@,
                    ),
                )
            }
        },
        names(value, id) && has_dataset(c, tenant, id, latest) ==> {
            &&& latest@.scalar_attr("is_retired"@) is None ==> binding_outcome(
                c,
                tenant,
                name,
                value,
            ) == BindingOutcome::Rejected(
                Refusal::Other(
                    WorkflowError::MissingScalarAttribute {
                        entity_name: "embedding_dataset",
                        attribute: "is_retired",
                    },
                ),
            )
            &&& latest@.scalar_attr("is_retired"@) matches Some(ScalarValue::I64(_))
                ==> binding_outcome(c, tenant, name, value) == BindingOutcome::Rejected(
                Refusal::Other(
                    WorkflowError::InvalidScalarType {
                        entity_name: "embedding_dataset",
                        attribute: "is_retired",
                        expected: "bool",
                        actual: "i64",
                    },
                ),
            )
        },
        names(value, id) && has_dataset(c, tenant, id, latest) && latest@.scalar_attr(
            "is_retired"@,
        ) == Some(ScalarValue::Bool(false)) && latest@.content_attr("corpus"@) == Some(hash) ==> {
            &&& (c.content)(hash) is None ==> binding_outcome(c, tenant, name, value)
                == BindingOutcome::Rejected(
                Refusal::Other(
                    WorkflowError::MissingContentBlob {
                        entity_name: "embedding_dataset",
                        attribute: "corpus",
                        hash,
                    },
                ),
            )
            &&& (c.content)(hash) == Some(bytes) ==> (corpus_decoded(bytes) matches Err(message)
                ==> binding_outcome(c, tenant, name, value) == BindingOutcome::Rejected(
                Refusal::Invalid("failed to decode corpus for "@ + id.text() + ": "@ + message),
            ))
        },
{
}

/// The first binding that is refused decides why a lookup fails; those after it
/// have no part in it.
pub proof fn law_first_refused_binding_decides(c: Catalogue, run: DataRunView, at: int)
    requires
        0 <= at < run.rest.len(),
        forall|j: int|
            0 <= j < at ==> binding_outcome(
                c,
                run.tenant,
                (#[trigger] run.rest[j]).0,
                run.rest[j].1,
            ) !is Rejected,
        binding_outcome(c, run.tenant, run.rest[at].0, run.rest[at].1) is Rejected,
    ensures
        assembled(c, run) is Err,
        binding_outcome(c, run.tenant, run.rest[at].0, run.rest[at].1) == BindingOutcome::Rejected(
            assembled(c, run)->Err_0,
        ),
    decreases run.rest.len(),
{
    if at > 0 {
        let rest = run.rest.drop_first();
        assert(binding_outcome(c, run.tenant, run.rest[0].0, run.rest[0].1) !is Rejected);
        let next = match binding_outcome(c, run.tenant, run.rest[0].0, run.rest[0].1) {
            BindingOutcome::Found(value) => DataRunView {
                rest,
                datasets: run.datasets.insert(run.rest[0].0, value),
                ..run
            },
            _ => DataRunView { rest, ..run },
        };
        assert forall|j: int| 0 <= j < at - 1 implies binding_outcome(
            c,
            next.tenant,
            (#[trigger] next.rest[j]).0,
            next.rest[j].1,
        ) !is Rejected by {
            assert(next.rest[j] == run.rest[j + 1]);
        }
        law_first_refused_binding_decides(c, next, at - 1);
    }
}

} // verus!
