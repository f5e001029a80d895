//! The `data` argument of a script: what a template's data bindings name,
//! looked up in the store dataset by dataset.
//!
//! The lookup alternates with the store. Each function here returns a
//! [`DataProgress`]: either a question for the store, with what to do with the
//! answer, or the finished value.

use crate::attributes::{bool_attr, optional_content_attr, required_entity_attr};
use crate::canonical::{
    content_json, faithful, json_parsed, load_json_content, ContentView,
};
use crate::corpus::{corpus_decoded, corpus_items_to_json, corpus_json, decode_corpus};
use crate::entities::{EmbeddingDataset, WorkflowTemplate};
use crate::error::WorkflowError;
use crate::ids::{EntityId, Identity, Sha256, Uuid};
use crate::json::{
    duplicate_fields, entries_of, fields_model, lemma_ordered_fields_are_listed, listing,
    push_field, JsonValue, JsonView,
};
use crate::store::{EntityRow, RevisionRow, StoreError};
use crate::text::{join3, join4, join5};
use vstd::prelude::*;

verus! {

/// Where the lookup of datasets stands.
#[derive(Debug)]
pub struct DataRun {
    /// The tenant that datasets must belong to.
    pub tenant: Uuid,
    /// The bindings still to be looked up, in order.
    pub rest: Vec<(String, JsonValue)>,
    /// The datasets found so far, by the names they are bound to.
    pub datasets: Vec<(String, JsonValue)>,
}

/// Where the lookup of datasets stands.
pub struct DataRunView {
    /// The tenant that datasets must belong to.
    pub tenant: Uuid,
    /// The bindings still to be looked up, in order.
    pub rest: Seq<(Seq<char>, JsonView)>,
    /// The datasets found so far, by the names they are bound to.
    pub datasets: Map<Seq<char>, JsonView>,
}

impl View for DataRun {
    type V = DataRunView;

    open spec fn view(&self) -> DataRunView {
        DataRunView {
            tenant: self.tenant,
            rest: entries_of(self.rest@),
            datasets: fields_model(self.datasets@),
        }
    }
}

/// One binding under lookup.
#[derive(Debug)]
pub struct Binding {
    /// Where the lookup stands, this binding taken out.
    pub run: DataRun,
    /// The name bound.
    pub name: String,
    /// The dataset's public identifier.
    pub public_id: Uuid,
}

/// Awaits the template's data bindings.
#[derive(Debug)]
pub struct AwaitDataConfig {
    /// The tenant that datasets must belong to.
    pub tenant: Uuid,
    /// The digest asked for.
    pub hash: Sha256,
}

/// Awaits the identity behind a public identifier.
#[derive(Debug)]
pub struct AwaitIdentity {
    /// The binding under lookup.
    pub binding: Binding,
}

/// Awaits the entity of a dataset.
#[derive(Debug)]
pub struct AwaitDatasetEntity {
    /// The binding under lookup.
    pub binding: Binding,
    /// The dataset's identity.
    pub dataset_id: EntityId<EmbeddingDataset>,
}

/// Awaits the latest revision of a dataset.
#[derive(Debug)]
pub struct AwaitDatasetRevision {
    /// The binding under lookup.
    pub binding: Binding,
}

/// Awaits the bytes of a dataset's corpus.
#[derive(Debug)]
pub struct AwaitCorpus {
    /// The binding under lookup.
    pub binding: Binding,
    /// The digest asked for.
    pub hash: Sha256,
}

/// What to do with content asked for.
#[derive(Debug)]
pub enum AwaitDataContent {
    /// It holds the data bindings.
    DataConfig(AwaitDataConfig),
    /// It is a corpus.
    Corpus(AwaitCorpus),
}

/// A question for the store, or the script's `data` argument.
#[derive(Debug)]
pub enum DataProgress {
    /// Asks for the content with a digest.
    GetContent {
        /// The digest.
        hash: Sha256,
        /// Takes the answer.
        then: AwaitDataContent,
    },
    /// Asks whose public identifier this is.
    ResolvePublic {
        /// The public identifier.
        public_id: Uuid,
        /// Takes the answer.
        then: AwaitIdentity,
    },
    /// Asks for an entity.
    GetEntity {
        /// The entity's internal identifier.
        entity_id: Uuid,
        /// Takes the answer.
        then: AwaitDatasetEntity,
    },
    /// Asks for the latest revision of a dataset.
    GetLatestRevision {
        /// The dataset.
        dataset_id: EntityId<EmbeddingDataset>,
        /// Takes the answer.
        then: AwaitDatasetRevision,
    },
    /// The script's `data` argument, or why there is none.
    Finished(Result<JsonValue, WorkflowError>),
}

impl DataProgress {
    /// The lookup failed with this error.
    pub open spec fn fails(self, error: WorkflowError) -> bool {
        self == DataProgress::Finished(Err(error))
    }

    /// The lookup failed because the bindings are bad in the way said.
    pub open spec fn rejects(self, text: Seq<char>) -> bool {
        self matches DataProgress::Finished(Err(error)) && error.is_data_config_error(text)
    }

    /// The lookup came to this value.
    pub open spec fn yields(self, value: JsonView) -> bool {
        self matches DataProgress::Finished(Ok(json)) && json@ == value
    }

    /// The lookup goes on with the next binding of `run`; when none is left,
    /// the datasets found are the result.
    pub open spec fn goes_on(self, run: DataRunView) -> bool {
        if run.rest.len() == 0 {
            self.yields(datasets_value(run.datasets))
        } else {
            let (name, value) = run.rest[0];
            match value {
                JsonView::String(text) => match Uuid::parsed(text) {
                    Err(message) => self.rejects(
                        "data_config.embed_datasets."@ + name + " is not a valid UUID: "@ + message,
                    ),
                    Ok(id) => {
                        &&& self matches DataProgress::ResolvePublic { public_id, then }
                        &&& public_id == id
                        &&& then.binding.public_id == id
                        &&& then.binding.name@ == name
                        &&& then.binding.run@ == (DataRunView {
                            rest: run.rest.drop_first(),
                            ..run
                        })
                    },
                },
                _ => self.rejects(
                    "data_config.embed_datasets."@ + name + " must be a UUID string"@,
                ),
            }
        }
    }
}

/// The `data` argument with these datasets.
pub open spec fn datasets_value(datasets: Map<Seq<char>, JsonView>) -> JsonView {
    JsonView::Object(map!["embed_datasets"@ => JsonView::Object(datasets)])
}

/// Rejects the data bindings.
fn reject(detail: String) -> (r: DataProgress)
    ensures
        r.rejects(detail@),
{
    DataProgress::Finished(Err(WorkflowError::DataConfigInvalid { detail }))
}

/// Gives up with an error.
fn fail(error: WorkflowError) -> (r: DataProgress)
    ensures
        r.fails(error),
{
    DataProgress::Finished(Err(error))
}

/// Turns to the next binding.
fn next_binding(run: DataRun) -> (r: DataProgress)
    ensures
        r.goes_on(run@),
{
    let mut run = run;
    if run.rest.len() == 0 {
        let mut data: Vec<(String, JsonValue)> = Vec::new();
        push_field(&mut data, "embed_datasets", JsonValue::Object(run.datasets));
        return DataProgress::Finished(Ok(JsonValue::Object(data)));
    }
    let ghost before = run.rest@;
    let (name, value) = run.rest.remove(0);
    proof {
        assert(entries_of(before)[0] == (name@, value@));
        assert(entries_of(run.rest@) =~= entries_of(before).drop_first());
    }
    match value {
        JsonValue::String(text) => match Uuid::parse(text.as_str()) {
            Ok(public_id) => DataProgress::ResolvePublic {
                public_id,
                then: AwaitIdentity { binding: Binding { run, name, public_id } },
            },
            Err(message) => reject(
                join4(
                    "data_config.embed_datasets.",
                    name.as_str(),
                    " is not a valid UUID: ",
                    message.as_str(),
                ),
            ),
        },
        _ => reject(join3("data_config.embed_datasets.", name.as_str(), " must be a UUID string")),
    }
}

/// Starts putting together the `data` argument of a script: an empty object for
/// a template without data bindings, otherwise what the bindings name.
pub fn build_script_data(template_revision: &RevisionRow, tenant: Uuid) -> (r: DataProgress)
    ensures
        match template_revision@.content_attr("data_config"@) {
            None => r.yields(JsonView::Object(Map::empty())),
            Some(hash) => r == (DataProgress::GetContent {
                hash,
                then: AwaitDataContent::DataConfig(AwaitDataConfig { tenant, hash }),
            }),
        },
{
    match optional_content_attr(template_revision, "data_config") {
        None => DataProgress::Finished(Ok(JsonValue::Object(Vec::new()))),
        Some(hash) => DataProgress::GetContent {
            hash,
            then: AwaitDataContent::DataConfig(AwaitDataConfig { tenant, hash }),
        },
    }
}

impl AwaitDataConfig {
    /// What follows from the answer: content that is there must be an object,
    /// whose `embed_datasets`, where it has one, is an object of bindings; they
    /// are looked up by ascending name. Content in canonical form is read as what
    /// it holds.
    pub open spec fn followed_by(
        self,
        found: Result<Option<Vec<u8>>, StoreError>,
        next: DataProgress,
    ) -> bool {
        &&& match found {
            Err(error) => next.fails(WorkflowError::Store(error)),
            Ok(None) => next.fails(
                WorkflowError::MissingContentBlob {
                    entity_name: WorkflowTemplate::NAME,
                    attribute: "data_config",
                    hash: self.hash,
                },
            ),
            Ok(Some(bytes)) => match content_json(bytes@) {
                ContentView::Undecodable(message) => next matches DataProgress::Finished(Err(error))
                    && error.is_decode_error("content bytes are not valid JSON: "@ + message),
                ContentView::Unparsable(message) => next matches DataProgress::Finished(Err(error))
                    && error.is_json_error("failed to parse canonical JSON: "@ + message),
                ContentView::Json(config) => match config {
                    JsonView::Object(fields) => match config.field("embed_datasets"@) {
                        None => next.yields(datasets_value(Map::empty())),
                        Some(JsonView::Object(bindings)) => next.goes_on(
                            DataRunView {
                                tenant: self.tenant,
                                rest: listing(bindings),
                                datasets: Map::empty(),
                            },
                        ),
                        Some(_) => next.rejects(
                            "data_config.embed_datasets must be a JSON object"@,
                        ),
                    },
                    _ => next.rejects("data_config must be a JSON object"@),
                },
            },
        }
        &&& found matches Ok(Some(bytes)) ==> faithful(bytes@) ==> content_json(bytes@)
            == ContentView::Json(json_parsed(bytes@)->Ok_0)
    }

    /// Takes the template's data bindings.
    pub fn resume(self, found: Result<Option<Vec<u8>>, StoreError>) -> (next: DataProgress)
        ensures
            self.followed_by(found, next),
    {
        let config = match load_json_content(
            found,
            self.hash,
            WorkflowTemplate::NAME,
            "data_config",
        ) {
            Err(error) => {
                return fail(error);
            },
            Ok(config) => config,
        };
        if !matches!(config, JsonValue::Object(_)) {
            return reject("data_config must be a JSON object".to_owned());
        }
        let mut fields: Vec<(String, JsonValue)> = Vec::new();
        match config.get("embed_datasets") {
            None => {
                push_field(&mut fields, "embed_datasets", JsonValue::Object(Vec::new()));
                DataProgress::Finished(Ok(JsonValue::Object(fields)))
            },
            Some(JsonValue::Object(bindings)) => {
                let rest = duplicate_fields(bindings);
                proof {
                    lemma_ordered_fields_are_listed(bindings@);
                }
                next_binding(DataRun { tenant: self.tenant, rest, datasets: fields })
            },
            Some(_) => reject("data_config.embed_datasets must be a JSON object".to_owned()),
        }
    }
}

impl AwaitIdentity {
    /// What follows from the answer: a public identifier that is nobody's is
    /// passed over, and one that is somebody's must be that of an entity.
    pub open spec fn followed_by(
        self,
        found: Result<Option<Identity>, StoreError>,
        next: DataProgress,
    ) -> bool {
        match found {
            Err(error) => next.fails(WorkflowError::Store(error)),
            Ok(None) => next.goes_on(self.binding.run@),
            Ok(Some(identity)) => match identity.versions() {
                Err(error) => next.rejects(
                    self.binding.public_id.text() + " is not an embedding dataset identity: "@
                        + error.spec_message(),
                ),
                Ok(()) => {
                    &&& next matches DataProgress::GetEntity { entity_id, then }
                    &&& entity_id == identity.internal
                    &&& then.dataset_id.identity() == identity
                    &&& then.binding == self.binding
                },
            },
        }
    }

    /// Takes the identity behind a public identifier.
    pub fn resume(self, found: Result<Option<Identity>, StoreError>) -> (next: DataProgress)
        ensures
            self.followed_by(found, next),
    {
        let identity = match found {
            Err(error) => {
                return fail(WorkflowError::Store(error));
            },
            Ok(None) => {
                return next_binding(self.binding.run);
            },
            Ok(Some(identity)) => identity,
        };
        match identity.typed::<EmbeddingDataset>() {
            Err(error) => reject(
                join3(
                    self.binding.public_id.to_text().as_str(),
                    " is not an embedding dataset identity: ",
                    error.message().as_str(),
                ),
            ),
            Ok(dataset_id) => DataProgress::GetEntity {
                entity_id: dataset_id.internal(),
                then: AwaitDatasetEntity { binding: self.binding, dataset_id },
            },
        }
    }
}

impl AwaitDatasetEntity {
    /// What follows from the answer: the entity must be there and be a dataset.
    pub open spec fn followed_by(
        self,
        found: Result<Option<EntityRow>, StoreError>,
        next: DataProgress,
    ) -> bool {
        match found {
            Err(error) => next.fails(WorkflowError::Store(error)),
            Ok(None) => next.rejects(
                "embedding dataset "@ + self.binding.public_id.text() + " entity row is missing"@,
            ),
            Ok(Some(entity)) => if entity.kind.value != EmbeddingDataset::KIND {
                next.rejects(
                    self.binding.public_id.text() + " kind mismatch: expected "@ + (Uuid {
                        value: EmbeddingDataset::KIND,
                    }).text() + ", found "@ + entity.kind.text(),
                )
            } else {
                next == (DataProgress::GetLatestRevision {
                    dataset_id: self.dataset_id,
                    then: AwaitDatasetRevision { binding: self.binding },
                })
            },
        }
    }

    /// Takes the entity of a dataset.
    pub fn resume(self, found: Result<Option<EntityRow>, StoreError>) -> (next: DataProgress)
        ensures
            self.followed_by(found, next),
    {
        let entity = match found {
            Err(error) => {
                return fail(WorkflowError::Store(error));
            },
            Ok(None) => {
                return reject(
                    join3(
                        "embedding dataset ",
                        self.binding.public_id.to_text().as_str(),
                        " entity row is missing",
                    ),
                );
            },
            Ok(Some(entity)) => entity,
        };
        if entity.kind.value != EmbeddingDataset::KIND {
            return reject(
                join5(
                    self.binding.public_id.to_text().as_str(),
                    " kind mismatch: expected ",
                    Uuid::from_u128(EmbeddingDataset::KIND).to_text().as_str(),
                    ", found ",
                    entity.kind.to_text().as_str(),
                ),
            );
        }
        DataProgress::GetLatestRevision {
            dataset_id: self.dataset_id,
            then: AwaitDatasetRevision { binding: self.binding },
        }
    }
}

impl AwaitDatasetRevision {
    /// What follows from the answer: the dataset must belong to the tenant; a
    /// retired one, and one without a corpus, is passed over.
    pub open spec fn followed_by(
        self,
        found: Result<Option<RevisionRow>, StoreError>,
        next: DataProgress,
    ) -> bool {
        match found {
            Err(error) => next.fails(WorkflowError::Store(error)),
            Ok(None) => next.rejects(
                "embedding dataset "@ + self.binding.public_id.text() + " has no revisions"@,
            ),
            Ok(Some(latest)) => match latest@.required_entity(EmbeddingDataset::NAME, "tenant") {
                Err(error) => next.fails(error),
                Ok(owner) => if owner.target_entity_id != self.binding.run.tenant {
                    next.rejects(
                        "embedding dataset "@ + self.binding.public_id.text()
                            + " belongs to another tenant"@,
                    )
                } else {
                    match latest@.required_bool(EmbeddingDataset::NAME, "is_retired") {
                        Err(error) => next.fails(error),
                        Ok(true) => next.goes_on(self.binding.run@),
                        Ok(false) => match latest@.content_attr("corpus"@) {
                            None => next.goes_on(self.binding.run@),
                            Some(hash) => next == (DataProgress::GetContent {
                                hash,
                                then: AwaitDataContent::Corpus(
                                    AwaitCorpus { binding: self.binding, hash },
                                ),
                            }),
                        },
                    }
                },
            },
        }
    }

    /// Takes the latest revision of a dataset.
    pub fn resume(self, found: Result<Option<RevisionRow>, StoreError>) -> (next: DataProgress)
        ensures
            self.followed_by(found, next),
    {
        let latest = match found {
            Err(error) => {
                return fail(WorkflowError::Store(error));
            },
            Ok(None) => {
                return reject(
                    join3(
                        "embedding dataset ",
                        self.binding.public_id.to_text().as_str(),
                        " has no revisions",
                    ),
                );
            },
            Ok(Some(latest)) => latest,
        };
        let owner = match required_entity_attr(&latest, EmbeddingDataset::NAME, "tenant") {
            Err(error) => {
                return fail(error);
            },
            Ok(owner) => owner,
        };
        if owner.target_entity_id != self.binding.run.tenant {
            return reject(
                join3(
                    "embedding dataset ",
                    self.binding.public_id.to_text().as_str(),
                    " belongs to another tenant",
                ),
            );
        }
        match bool_attr(&latest, EmbeddingDataset::NAME, "is_retired") {
            Err(error) => {
                return fail(error);
            },
            Ok(retired) => {
                if retired {
                    return next_binding(self.binding.run);
                }
            },
        }
        match optional_content_attr(&latest, "corpus") {
            None => next_binding(self.binding.run),
            Some(hash) => DataProgress::GetContent {
                hash,
                then: AwaitDataContent::Corpus(AwaitCorpus { binding: self.binding, hash }),
            },
        }
    }
}

impl AwaitCorpus {
    /// What follows from the answer: the corpus joins the datasets found, under
    /// the name it is bound to.
    pub open spec fn followed_by(
        self,
        found: Result<Option<Vec<u8>>, StoreError>,
        next: DataProgress,
    ) -> bool {
        match found {
            Err(error) => next.fails(WorkflowError::Store(error)),
            Ok(None) => next.fails(
                WorkflowError::MissingContentBlob {
                    entity_name: EmbeddingDataset::NAME,
                    attribute: "corpus",
                    hash: self.hash,
                },
            ),
            Ok(Some(bytes)) => match corpus_decoded(bytes@) {
                Err(message) => next.rejects(
                    "failed to decode corpus for "@ + self.binding.public_id.text() + ": "@
                        + message,
                ),
                Ok(items) => match corpus_json(items) {
                    Err(text) => next.rejects(text),
                    Ok(value) => next.goes_on(
                        DataRunView {
                            datasets: self.binding.run@.datasets.insert(self.binding.name@, value),
                            ..self.binding.run@
                        },
                    ),
                },
            },
        }
    }

    /// Takes the bytes of a dataset's corpus.
    pub fn resume(self, found: Result<Option<Vec<u8>>, StoreError>) -> (next: DataProgress)
        ensures
            self.followed_by(found, next),
    {
        let bytes = match found {
            Err(error) => {
                return fail(WorkflowError::Store(error));
            },
            Ok(None) => {
                return fail(
                    WorkflowError::MissingContentBlob {
                        entity_name: EmbeddingDataset::NAME,
                        attribute: "corpus",
                        hash: self.hash,
                    },
                );
            },
            Ok(Some(bytes)) => bytes,
        };
        let items = match decode_corpus(bytes.as_slice()) {
            Err(message) => {
                return reject(
                    join4(
                        "failed to decode corpus for ",
                        self.binding.public_id.to_text().as_str(),
                        ": ",
                        message.as_str(),
                    ),
                );
            },
            Ok(items) => items,
        };
        match corpus_items_to_json(items.as_slice()) {
            Err(error) => fail(error),
            Ok(value) => {
                let mut run = self.binding.run;
                push_field(&mut run.datasets, self.binding.name.as_str(), value);
                next_binding(run)
            },
        }
    }
}

impl AwaitDataContent {
    /// What follows from the answer.
    pub open spec fn followed_by(
        self,
        found: Result<Option<Vec<u8>>, StoreError>,
        next: DataProgress,
    ) -> bool {
        match self {
            AwaitDataContent::DataConfig(then) => then.followed_by(found, next),
            AwaitDataContent::Corpus(then) => then.followed_by(found, next),
        }
    }

    /// Takes the content asked for.
    pub fn resume(self, found: Result<Option<Vec<u8>>, StoreError>) -> (next: DataProgress)
        ensures
            self.followed_by(found, next),
    {
        match self {
            AwaitDataContent::DataConfig(then) => then.resume(found),
            AwaitDataContent::Corpus(then) => then.resume(found),
        }
    }
}

} // verus!
