use philharmonic_policy::{
    encode_corpus, encode_source_items, CorpusItem, EmbeddingDatasetStatus, SourceItem,
};
use philharmonic_workflow::execute::{StepEntity, StepPut};
use philharmonic_workflow::{
    CanonicalJson, ConfigLoweringError, CreateProgress, EmbeddingDataset, EntityId,
    EntityRefValue, EntityRow, Identity, InstanceStatus, JsonValue, MintingAuthority,
    RevisionInput, RevisionRow, ScalarValue, Sha256, StepExecutionError, StepProgress, StepRecord,
    StepResult, StoreError, SubjectContext, SubjectKind, Tenant, TransitionProgress, Uuid,
    WorkflowEngine, WorkflowError, WorkflowInstance, WorkflowTemplate,
};
use serde_json::Value;
use std::cell::RefCell;
use std::collections::{HashMap, VecDeque};

const SCRIPT: &str = "export default async function main() {}";

fn json(text: &str) -> Value {
    serde_json::from_str(text).unwrap()
}

fn canonical(text: &str) -> CanonicalJson {
    CanonicalJson::from_value(&JsonValue::from_serde(json(text))).unwrap()
}

#[derive(Clone, Debug)]
enum StoreCall {
    PutContent,
    CreateEntity { kind: u128 },
    AppendRevision { kind: u128, revision_seq: u64 },
}

#[derive(Clone, Debug)]
struct ExecutorCall {
    script: String,
    arg: Value,
    config: Value,
}

#[derive(Clone, Debug)]
struct LowererCall {
    abstract_config: Value,
    instance_id: Uuid,
    step_seq: u64,
    subject_id: String,
}

#[derive(Default)]
struct World {
    content: HashMap<[u8; 32], Vec<u8>>,
    public: HashMap<u128, Identity>,
    entities: HashMap<u128, EntityRow>,
    revisions: HashMap<u128, Vec<RevisionRow>>,
    calls: Vec<StoreCall>,
    seed: u128,
    lowered: VecDeque<Result<Value, ConfigLoweringError>>,
    executed: VecDeque<Result<Value, StepExecutionError>>,
    lowerer_calls: Vec<LowererCall>,
    executor_calls: Vec<ExecutorCall>,
    fail_appends_to: Option<u128>,
    fail_puts: bool,
}

struct Fixture {
    world: RefCell<World>,
    engine: WorkflowEngine<(), (), ()>,
}

fn backend_error() -> StoreError {
    StoreError::Backend { message: "disk full".to_string(), retryable: true }
}

impl World {
    fn mint(&mut self) -> Identity {
        self.seed += 1;
        let identity = Identity {
            internal: Uuid::from_u128((self.seed << 80) | (7 << 76) | (2 << 62) | 1),
            public: Uuid::from_u128((self.seed << 80) | (4 << 76) | (2 << 62) | 2),
        };
        self.public.insert(identity.public.as_u128(), identity);
        identity
    }

    fn create(&mut self, kind: u128) -> Identity {
        let identity = self.mint();
        self.entities.insert(
            identity.internal.as_u128(),
            EntityRow { identity, kind: Uuid::from_u128(kind) },
        );
        self.calls.push(StoreCall::CreateEntity { kind });
        identity
    }

    fn put(&mut self, hash: Sha256, bytes: Vec<u8>) -> Result<(), StoreError> {
        if self.fail_puts {
            return Err(backend_error());
        }
        assert_eq!(Sha256::of(&bytes), hash);
        self.content.insert(hash.bytes, bytes);
        self.calls.push(StoreCall::PutContent);
        Ok(())
    }

    fn put_bytes(&mut self, bytes: &[u8]) -> Sha256 {
        let hash = Sha256::of(bytes);
        self.put(hash, bytes.to_vec()).unwrap();
        hash
    }

    fn put_json(&mut self, text: &str) -> Sha256 {
        let value = canonical(text);
        self.put_bytes(value.as_bytes())
    }

    fn append(&mut self, id: Identity, seq: u64, input: RevisionInput) -> Result<(), StoreError> {
        let entity_id = id.internal;
        let kind = match self.entities.get(&entity_id.as_u128()) {
            None => return Err(StoreError::EntityNotFound { entity_id }),
            Some(row) => row.kind.as_u128(),
        };
        if self.fail_appends_to == Some(kind) {
            return Err(backend_error());
        }
        let log = self.revisions.entry(entity_id.as_u128()).or_default();
        if log.iter().any(|row| row.revision_seq == seq) {
            return Err(StoreError::RevisionConflict { entity_id, revision_seq: seq });
        }
        log.push(RevisionRow {
            revision_seq: seq,
            content_attrs: input.content_attrs,
            entity_attrs: input.entity_attrs,
            scalar_attrs: input.scalar_attrs,
        });
        self.calls.push(StoreCall::AppendRevision { kind, revision_seq: seq });
        Ok(())
    }

    fn latest(&self, entity_id: Uuid) -> Option<RevisionRow> {
        self.revisions
            .get(&entity_id.as_u128())
            .and_then(|log| log.iter().max_by_key(|row| row.revision_seq))
            .cloned()
    }

    fn revision(&self, entity_id: Uuid, seq: u64) -> Option<RevisionRow> {
        self.revisions
            .get(&entity_id.as_u128())
            .and_then(|log| log.iter().find(|row| row.revision_seq == seq))
            .cloned()
    }

    fn latest_of_kind(&self, id: Identity, kind: u128) -> Result<Option<RevisionRow>, StoreError> {
        match self.entities.get(&id.internal.as_u128()) {
            None => Ok(None),
            Some(row) if row.kind.as_u128() != kind => Err(StoreError::KindMismatch {
                expected: Uuid::from_u128(kind),
                actual: row.kind,
            }),
            Some(_) => Ok(self.latest(id.internal)),
        }
    }

    fn get(&self, hash: Sha256) -> Option<Vec<u8>> {
        self.content.get(&hash.bytes).cloned()
    }

    fn get_json(&self, hash: Sha256) -> Value {
        serde_json::from_slice(&self.get(hash).unwrap()).unwrap()
    }

    fn step_records(&self, instance: EntityId<WorkflowInstance>) -> Vec<RevisionRow> {
        let mut rows: Vec<RevisionRow> = self
            .revisions
            .values()
            .flatten()
            .filter(|row| match row.entity_attr("instance") {
                Some(target) => target.target_entity_id == instance.internal(),
                None => false,
            })
            .cloned()
            .collect();
        rows.sort_by_key(step_seq);
        rows
    }
}

impl Fixture {
    fn new() -> Fixture {
        Fixture { world: RefCell::new(World::default()), engine: WorkflowEngine::new((), (), ()) }
    }

    fn push_lowered(&self, text: &str) {
        self.world.borrow_mut().lowered.push_back(Ok(json(text)));
    }

    fn push_executed(&self, text: &str) {
        self.world.borrow_mut().executed.push_back(Ok(json(text)));
    }

    fn push_execution_error(&self, error: StepExecutionError) {
        self.world.borrow_mut().executed.push_back(Err(error));
    }

    fn create_instance(
        &self,
        template_id: EntityId<WorkflowTemplate>,
        args: CanonicalJson,
        subject: SubjectContext,
    ) -> Result<EntityId<WorkflowInstance>, WorkflowError> {
        let mut world = self.world.borrow_mut();
        let mut progress = self.engine.create_instance(template_id, args, subject);
        loop {
            progress = match progress {
                CreateProgress::GetLatestRevision { template_id, then } => then.resume(
                    world.latest_of_kind(template_id.untyped(), WorkflowTemplate::KIND),
                ),
                CreateProgress::CreateInstance { then } => {
                    then.resume(Ok(world.create(WorkflowInstance::KIND)))
                }
                CreateProgress::PutContent { hash, bytes, then } => {
                    then.resume(world.put(hash, bytes))
                }
                CreateProgress::AppendRevision { instance_id, revision_seq, revision, then } => {
                    then.resume(world.append(instance_id.untyped(), revision_seq, revision))
                }
                CreateProgress::Finished(result) => return result,
            };
        }
    }

    fn transition(&self, start: TransitionProgress) -> Result<(), WorkflowError> {
        let mut world = self.world.borrow_mut();
        let mut progress = start;
        loop {
            progress = match progress {
                TransitionProgress::GetEntity { entity_id, then } => {
                    then.resume(Ok(world.entities.get(&entity_id.as_u128()).copied()))
                }
                TransitionProgress::GetLatestRevision { instance_id, then } => then.resume(
                    world.latest_of_kind(instance_id.untyped(), WorkflowInstance::KIND),
                ),
                TransitionProgress::AppendRevision {
                    instance_id,
                    revision_seq,
                    revision,
                    then,
                } => then.resume(world.append(instance_id.untyped(), revision_seq, revision)),
                TransitionProgress::Finished(result) => return result,
            };
        }
    }

    fn complete(
        &self,
        id: EntityId<WorkflowInstance>,
        subject: SubjectContext,
    ) -> Result<(), WorkflowError> {
        self.transition(self.engine.complete(id, subject))
    }

    fn cancel(
        &self,
        id: EntityId<WorkflowInstance>,
        subject: SubjectContext,
    ) -> Result<(), WorkflowError> {
        self.transition(self.engine.cancel(id, subject))
    }

    fn execute_step(
        &self,
        instance_id: EntityId<WorkflowInstance>,
        input: CanonicalJson,
        subject: SubjectContext,
    ) -> Result<StepResult, WorkflowError> {
        let mut world = self.world.borrow_mut();
        let mut progress = self.engine.execute_step(instance_id, input, subject);
        loop {
            progress = match progress {
                StepProgress::GetEntity { entity_id, then } => {
                    then.resume(Ok(world.entities.get(&entity_id.as_u128()).copied()))
                }
                StepProgress::GetInstanceRevision { instance_id, then } => then.resume(
                    world.latest_of_kind(instance_id.untyped(), WorkflowInstance::KIND),
                ),
                StepProgress::GetTemplateRevision { template_id, revision_seq, then } => {
                    then.resume(Ok(world.revision(template_id, revision_seq)))
                }
                StepProgress::GetDatasetRevision { dataset_id, then } => then.resume(
                    world.latest_of_kind(dataset_id.untyped(), EmbeddingDataset::KIND),
                ),
                StepProgress::ResolvePublic { public_id, then } => {
                    then.resume(Ok(world.public.get(&public_id.as_u128()).copied()))
                }
                StepProgress::GetContent { hash, then } => then.resume(Ok(world.get(hash))),
                StepProgress::PutContent { hash, bytes, then } => {
                    then.resume(world.put(hash, bytes))
                }
                StepProgress::Lower { abstract_config, instance_id, step_seq, subject, then } => {
                    world.lowerer_calls.push(LowererCall {
                        abstract_config: abstract_config.to_serde(),
                        instance_id: instance_id.internal(),
                        step_seq,
                        subject_id: subject.id,
                    });
                    let reply = world.lowered.pop_front().unwrap_or_else(|| {
                        Err(ConfigLoweringError::Backend("no lowerer response".to_string()))
                    });
                    then.resume(reply.map(JsonValue::from_serde))
                }
                StepProgress::Execute { script, arg, config, then } => {
                    world.executor_calls.push(ExecutorCall {
                        script,
                        arg: arg.to_serde(),
                        config: config.to_serde(),
                    });
                    let reply = world.executed.pop_front().unwrap_or_else(|| {
                        Err(StepExecutionError::Transport("no executor response".to_string()))
                    });
                    then.resume(reply.map(JsonValue::from_serde))
                }
                StepProgress::CreateRecord { then } => {
                    then.resume(Ok(world.create(StepRecord::KIND)))
                }
                StepProgress::AppendRecord { record_id, revision_seq, revision, then } => {
                    then.resume(world.append(record_id.untyped(), revision_seq, revision))
                }
                StepProgress::AppendInstance { instance_id, revision_seq, revision, then } => {
                    then.resume(world.append(instance_id.untyped(), revision_seq, revision))
                }
                StepProgress::Finished(result) => return result,
            };
        }
    }

    fn seed_tenant(&self, display_name: &str) -> EntityId<Tenant> {
        let mut world = self.world.borrow_mut();
        let tenant: EntityId<Tenant> = world.create(Tenant::KIND).typed().unwrap();
        let name_hash = world.put_json(&format!(r#"{{"display_name": "{display_name}"}}"#));
        let settings_hash = world.put_json(r#"{"settings": {}}"#);
        let revision = RevisionInput::new()
            .with_content("display_name", name_hash)
            .with_content("settings", settings_hash)
            .with_scalar("status", ScalarValue::I64(0));
        world.append(tenant.untyped(), 0, revision).unwrap();
        tenant
    }

    fn seed_template_with(
        &self,
        tenant: EntityId<Tenant>,
        config: &str,
        data_config: Option<&str>,
    ) -> EntityId<WorkflowTemplate> {
        let mut world = self.world.borrow_mut();
        let template: EntityId<WorkflowTemplate> =
            world.create(WorkflowTemplate::KIND).typed().unwrap();
        let script_hash = world.put_bytes(SCRIPT.as_bytes());
        let config_hash = world.put_json(config);
        let mut revision = RevisionInput::new()
            .with_content("script", script_hash)
            .with_content("config", config_hash)
            .with_entity("tenant", pinned(tenant.internal(), 0))
            .with_scalar("is_retired", ScalarValue::Bool(false));
        if let Some(text) = data_config {
            let hash = world.put_json(text);
            revision = revision.with_content("data_config", hash);
        }
        world.append(template.untyped(), 0, revision).unwrap();
        template
    }

    fn seed_template(&self, tenant: EntityId<Tenant>, config: &str) -> EntityId<WorkflowTemplate> {
        self.seed_template_with(tenant, config, None)
    }

    fn seed_dataset(
        &self,
        tenant: EntityId<Tenant>,
        is_retired: bool,
        corpus: Option<Vec<CorpusItem>>,
    ) -> EntityId<EmbeddingDataset> {
        let mut world = self.world.borrow_mut();
        let dataset: EntityId<EmbeddingDataset> =
            world.create(EmbeddingDataset::KIND).typed().unwrap();
        let name_hash = world.put_json(r#""Knowledge base""#);
        let source = SourceItem {
            id: "doc-1".to_string(),
            text: "Example".to_string(),
            payload: Some(json(r#"{"title": "Example"}"#)),
        };
        let source_hash = world.put_bytes(&encode_source_items(&[source]).unwrap());
        let endpoint_hash = world.put_json(r#""6f1e2d3c-4b5a-4697-8877-665544332211""#);
        let mut revision = RevisionInput::new()
            .with_content("display_name", name_hash)
            .with_content("source_items", source_hash)
            .with_content("embed_endpoint_id", endpoint_hash)
            .with_entity("tenant", pinned(tenant.internal(), 0))
            .with_scalar("status", ScalarValue::I64(EmbeddingDatasetStatus::Ready.as_i64()))
            .with_scalar("is_retired", ScalarValue::Bool(is_retired))
            .with_scalar("item_count", ScalarValue::I64(1));
        if let Some(corpus) = corpus {
            let hash = world.put_bytes(&encode_corpus(&corpus).unwrap());
            revision = revision.with_content("corpus", hash);
        }
        world.append(dataset.untyped(), 0, revision).unwrap();
        dataset
    }

    fn ephemeral(&self, tenant_id: EntityId<Tenant>, id: &str, claims: &str) -> SubjectContext {
        let authority: EntityId<MintingAuthority> =
            self.world.borrow_mut().mint().typed().unwrap();
        SubjectContext {
            kind: SubjectKind::Ephemeral,
            id: id.to_string(),
            tenant_id,
            authority_id: Some(authority),
            claims: JsonValue::from_serde(json(claims)),
        }
    }

    fn latest(&self, id: EntityId<WorkflowInstance>) -> RevisionRow {
        self.world.borrow().latest(id.internal()).unwrap()
    }

    fn status(&self, id: EntityId<WorkflowInstance>) -> InstanceStatus {
        philharmonic_workflow::attributes::read_status(&self.latest(id)).unwrap()
    }

    fn records(&self, id: EntityId<WorkflowInstance>) -> Vec<RevisionRow> {
        self.world.borrow().step_records(id)
    }

    fn arg(&self, call: usize) -> Value {
        self.world.borrow().executor_calls[call].arg.clone()
    }

    fn execute_and_capture_arg(
        &self,
        template: EntityId<WorkflowTemplate>,
        tenant: EntityId<Tenant>,
    ) -> Value {
        self.push_lowered("{}");
        self.push_executed(r#"{"context": {}, "output": {"ok": true}}"#);
        let instance =
            self.create_instance(template, canonical("{}"), principal(tenant)).unwrap();
        self.execute_step(instance, canonical("{}"), principal(tenant)).unwrap();
        self.arg(0)
    }
}

fn pinned(target_entity_id: Uuid, seq: u64) -> EntityRefValue {
    EntityRefValue { target_entity_id, target_revision_seq: Some(seq) }
}

fn principal(tenant_id: EntityId<Tenant>) -> SubjectContext {
    SubjectContext {
        kind: SubjectKind::Principal,
        id: "principal-subject".to_string(),
        tenant_id,
        authority_id: None,
        claims: JsonValue::from_serde(json("{}")),
    }
}

fn scalar(row: &RevisionRow, name: &str) -> i64 {
    match row.scalar_attr(name) {
        Some(ScalarValue::I64(value)) => value,
        other => panic!("{name} must be i64, got {other:?}"),
    }
}

fn step_seq(row: &RevisionRow) -> i64 {
    scalar(row, "step_seq")
}

fn outcome(row: &RevisionRow) -> i64 {
    scalar(row, "outcome")
}

fn object<'a>(arg: &'a Value, field: &str) -> &'a serde_json::Map<String, Value> {
    arg.get(field).and_then(Value::as_object).unwrap()
}

fn corpus_item(vector: Vec<f32>, payload: Option<Value>) -> CorpusItem {
    CorpusItem { id: "doc-1".to_string(), vector, payload }
}

fn bind(dataset: EntityId<EmbeddingDataset>) -> String {
    format!(r#"{{"embed_datasets": {{"kb": "{}"}}}}"#, dataset.public().to_text())
}

#[test]
fn execute_step_writes_step_record_before_instance_revision() {
    let fx = Fixture::new();
    let tenant = fx.seed_tenant("tenant-order");
    let template = fx.seed_template(tenant, r#"{"endpoint": "cfg-a"}"#);
    fx.push_lowered(r#"{"config": "resolved"}"#);
    fx.push_executed(r#"{"context": {"step": 1}, "output": {"ok": true}}"#);
    let instance =
        fx.create_instance(template, canonical(r#"{"arg": 1}"#), principal(tenant)).unwrap();
    fx.world.borrow_mut().calls.clear();

    let actor = fx.ephemeral(tenant, "ephemeral-a", r#"{"trace": "x"}"#);
    fx.execute_step(instance, canonical(r#"{"input": 1}"#), actor).unwrap();

    let calls = fx.world.borrow().calls.clone();
    let step_append_idx = calls
        .iter()
        .position(|call| {
            matches!(call, StoreCall::AppendRevision { kind, revision_seq: 0 }
                if *kind == StepRecord::KIND)
        })
        .expect("step-record append revision call");
    let instance_append_idx = calls
        .iter()
        .position(|call| {
            matches!(call, StoreCall::AppendRevision { kind, revision_seq: 1 }
                if *kind == WorkflowInstance::KIND)
        })
        .expect("instance append revision call");
    assert!(step_append_idx < instance_append_idx);
}

#[test]
fn subject_from_execute_step_is_recorded_on_step_not_creator_subject() {
    let fx = Fixture::new();
    let tenant = fx.seed_tenant("tenant-subject");
    let template = fx.seed_template(tenant, r#"{"endpoint": "cfg-b"}"#);
    let creator = principal(tenant);
    let instance = fx
        .create_instance(template, canonical(r#"{"arg": "value"}"#), creator.clone())
        .unwrap();
    let subject =
        fx.ephemeral(tenant, "ephemeral-user-42", r#"{"user_id": "u42", "locale": "ja-JP"}"#);
    fx.push_lowered(r#"{"config": "resolved"}"#);
    fx.push_executed(r#"{"context": {"state": "next"}, "output": {"ok": true}}"#);
    fx.execute_step(instance, canonical(r#"{"input": "go"}"#), subject.clone()).unwrap();

    let rows = fx.records(instance);
    assert_eq!(rows.len(), 1);
    let persisted = fx.world.borrow().get_json(rows[0].content_attr("subject").unwrap());
    let wanted = subject.to_step_record_subject();
    assert_eq!(persisted, wanted.to_record_value().to_serde());
    assert_eq!(persisted["kind"], "ephemeral");
    assert_eq!(persisted["id"], "ephemeral-user-42");
    let authority = subject.authority_id.unwrap();
    assert_eq!(persisted["authority_id"]["internal"], authority.internal().to_text());
    assert_eq!(persisted["authority_id"]["public"], authority.public().to_text());
    assert_ne!(persisted["id"], creator.id);
}

#[test]
fn step_record_subject_never_persists_claims() {
    let fx = Fixture::new();
    let tenant = fx.seed_tenant("tenant-audit");
    let template = fx.seed_template(tenant, r#"{"endpoint": "cfg-c"}"#);
    let instance =
        fx.create_instance(template, canonical(r#"{"arg": true}"#), principal(tenant)).unwrap();
    let subject = fx.ephemeral(
        tenant,
        "ephemeral-claims",
        r#"{"marker": "SHOULD_NOT_PERSIST", "nested": {"plan": "enterprise", "locale": "en-US"}}"#,
    );
    fx.push_lowered(r#"{"config": "resolved"}"#);
    fx.push_executed(r#"{"context": {"n": 1}, "output": {"ok": 1}}"#);
    fx.execute_step(instance, canonical(r#"{"input": 1}"#), subject).unwrap();

    let rows = fx.records(instance);
    assert_eq!(rows.len(), 1);
    let persisted = fx.world.borrow().get_json(rows[0].content_attr("subject").unwrap());
    let object = persisted.as_object().expect("subject object");
    assert!(!object.contains_key("claims"));
    assert!(!object.contains_key("tenant_id"));
    assert_eq!(object.len(), 3);
    let stored = fx.world.borrow();
    assert!(stored
        .content
        .values()
        .all(|bytes| !String::from_utf8_lossy(bytes).contains("SHOULD_NOT_PERSIST")));
}

#[test]
fn script_arg_includes_public_instance_and_flat_principal_subject() {
    let fx = Fixture::new();
    let tenant = fx.seed_tenant("tenant-script-arg-principal");
    let template = fx.seed_template(tenant, r#"{"endpoint": "cfg-script-arg-principal"}"#);
    let instance = fx
        .create_instance(template, canonical(r#"{"arg": "value"}"#), principal(tenant))
        .unwrap();

    fx.push_lowered(r#"{"config": "first"}"#);
    fx.push_executed(r#"{"context": {"step": 1}, "output": {"ok": 1}}"#);
    let first = fx
        .execute_step(instance, canonical(r#"{"input": "first"}"#), principal(tenant))
        .unwrap();
    fx.push_lowered(r#"{"config": "second"}"#);
    fx.push_executed(r#"{"context": {"step": 2}, "output": {"ok": 2}}"#);
    let second = fx
        .execute_step(instance, canonical(r#"{"input": "second"}"#), principal(tenant))
        .unwrap();

    assert_eq!(fx.world.borrow().executor_calls.len(), 2);
    let public_instance = instance.public().to_text();
    let internal_instance = instance.internal().to_text();
    let public_tenant = tenant.public().to_text();
    let internal_tenant = tenant.internal().to_text();

    let first_arg = fx.arg(0);
    assert!(first_arg.get("context").is_some());
    assert!(first_arg.get("args").is_some());
    assert!(first_arg.get("input").is_some());
    assert!(first_arg.get("data").is_some());
    assert_eq!(first_arg["context"], json("{}"));
    assert_eq!(first_arg["args"], json(r#"{"arg": "value"}"#));
    assert_eq!(first_arg["input"], json(r#"{"input": "first"}"#));
    assert_eq!(first_arg["data"], json("{}"));

    let first_instance = object(&first_arg, "instance");
    assert_eq!(first_instance.len(), 2);
    assert_eq!(
        first_instance.get("id").and_then(Value::as_str),
        Some(public_instance.as_str())
    );
    assert_ne!(
        first_instance.get("id").and_then(Value::as_str),
        Some(internal_instance.as_str())
    );
    assert_eq!(first_instance.get("step").and_then(Value::as_u64), Some(first.step_seq));
    assert_eq!(first.step_seq, 1);

    let second_arg = fx.arg(1);
    let second_instance = object(&second_arg, "instance");
    assert_eq!(
        second_instance.get("id").and_then(Value::as_str),
        Some(public_instance.as_str())
    );
    assert_eq!(second_instance.get("step").and_then(Value::as_u64), Some(second.step_seq));
    assert_eq!(second.step_seq, first.step_seq + 1);

    let records = fx.records(instance);
    assert_eq!(records.len(), 2);
    let first_record_seq = i64::try_from(first.step_seq).expect("step seq fits i64");
    let second_record_seq = i64::try_from(second.step_seq).expect("step seq fits i64");
    assert!(records.iter().any(|row| step_seq(row) == first_record_seq));
    assert!(records.iter().any(|row| step_seq(row) == second_record_seq));

    let subject = object(&first_arg, "subject");
    assert_eq!(subject.len(), 5);
    assert_eq!(subject.get("kind"), Some(&json(r#""principal""#)));
    assert_eq!(subject.get("id"), Some(&json(r#""principal-subject""#)));
    assert_eq!(
        subject.get("tenant_id").and_then(Value::as_str),
        Some(public_tenant.as_str())
    );
    assert_ne!(
        subject.get("tenant_id").and_then(Value::as_str),
        Some(internal_tenant.as_str())
    );
    assert!(subject.get("authority_id").is_some_and(Value::is_null));
    assert_eq!(subject.get("claims"), Some(&json("{}")));

    assert_eq!(second_arg["context"], json(r#"{"step": 1}"#));
    assert_eq!(second_arg["args"], json(r#"{"arg": "value"}"#));
}

#[test]
fn script_arg_flattens_ephemeral_subject() {
    let fx = Fixture::new();
    let tenant = fx.seed_tenant("tenant-script-arg-ephemeral");
    let template = fx.seed_template(tenant, r#"{"endpoint": "cfg-script-arg-ephemeral"}"#);
    let instance = fx.create_instance(template, canonical("{}"), principal(tenant)).unwrap();
    let claims = r#"{"user_id": "u42", "locale": "ja-JP"}"#;
    let step_subject = fx.ephemeral(tenant, "ephemeral-user-42", claims);
    let authority = step_subject.authority_id.expect("ephemeral authority");

    fx.push_lowered(r#"{"config": "resolved"}"#);
    fx.push_executed(r#"{"context": {}, "output": {"ok": true}}"#);
    fx.execute_step(instance, canonical(r#"{"input": "go"}"#), step_subject).unwrap();

    assert_eq!(fx.world.borrow().executor_calls.len(), 1);
    let arg = fx.arg(0);
    let subject = object(&arg, "subject");
    assert_eq!(subject.len(), 5);
    assert_eq!(subject.get("kind"), Some(&json(r#""ephemeral""#)));
    assert_eq!(subject.get("id"), Some(&json(r#""ephemeral-user-42""#)));
    assert_eq!(subject.get("claims"), Some(&json(claims)));

    let public_tenant = tenant.public().to_text();
    let internal_tenant = tenant.internal().to_text();
    assert_eq!(
        subject.get("tenant_id").and_then(Value::as_str),
        Some(public_tenant.as_str())
    );
    assert_ne!(
        subject.get("tenant_id").and_then(Value::as_str),
        Some(internal_tenant.as_str())
    );
    let public_authority = authority.public().to_text();
    let internal_authority = authority.internal().to_text();
    assert_eq!(
        subject.get("authority_id").and_then(Value::as_str),
        Some(public_authority.as_str())
    );
    assert_ne!(
        subject.get("authority_id").and_then(Value::as_str),
        Some(internal_authority.as_str())
    );
}

#[test]
fn malformed_result_is_recorded_as_script_failure() {
    let fx = Fixture::new();
    let tenant = fx.seed_tenant("tenant-malformed");
    let template = fx.seed_template(tenant, r#"{"endpoint": "cfg-d"}"#);
    let instance =
        fx.create_instance(template, canonical(r#"{"arg": "x"}"#), principal(tenant)).unwrap();
    let subject = fx.ephemeral(tenant, "ephemeral-malformed", "{}");

    fx.push_lowered(r#"{"config": "resolved"}"#);
    fx.push_executed(r#"{"context": {"step": 1}, "output": {"first": true}}"#);
    fx.execute_step(instance, canonical(r#"{"input": "first"}"#), subject.clone()).unwrap();
    let context_before = fx.latest(instance).content_attr("context").unwrap();

    fx.push_lowered(r#"{"config": "resolved"}"#);
    fx.push_executed(r#"{"output": "missing-context"}"#);
    let error = fx
        .execute_step(instance, canonical(r#"{"input": "second"}"#), subject)
        .unwrap_err();
    match error {
        WorkflowError::StepExecutionFailed { detail } => {
            assert_eq!(detail, "executor result missing required field 'context'");
        }
        other => panic!("expected StepExecutionFailed, got {other:?}"),
    }

    assert_eq!(fx.status(instance), InstanceStatus::Failed);
    assert_eq!(fx.latest(instance).content_attr("context"), Some(context_before));
    let rows = fx.records(instance);
    assert_eq!(rows.len(), 2);
    let failed_row = rows.iter().find(|row| step_seq(row) == 2).expect("step 2 record");
    assert_eq!(outcome(failed_row), 1);
    assert!(failed_row.content_attr("error").is_some());
    assert!(failed_row.content_attr("output").is_none());
    let payload = fx.world.borrow().get_json(failed_row.content_attr("error").unwrap());
    assert_eq!(
        payload,
        json(r#"{"message": "executor result missing required field 'context'"}"#)
    );
}

#[test]
fn transport_failure_creates_no_step_record_or_instance_revision() {
    let fx = Fixture::new();
    let tenant = fx.seed_tenant("tenant-transport");
    let template = fx.seed_template(tenant, r#"{"endpoint": "cfg-e"}"#);
    let instance =
        fx.create_instance(template, canonical(r#"{"arg": 3}"#), principal(tenant)).unwrap();
    let subject = fx.ephemeral(tenant, "ephemeral-transport", "{}");
    fx.world.borrow_mut().calls.clear();
    fx.push_lowered(r#"{"config": "resolved"}"#);
    fx.push_execution_error(StepExecutionError::Transport("dial timeout".to_string()));

    let error =
        fx.execute_step(instance, canonical(r#"{"input": "x"}"#), subject).unwrap_err();
    match &error {
        WorkflowError::ExecutorUnreachable { detail } => assert_eq!(detail, "dial timeout"),
        other => panic!("expected ExecutorUnreachable, got {other:?}"),
    }
    assert!(error.is_retryable());

    assert!(fx.records(instance).is_empty());
    assert_eq!(fx.latest(instance).revision_seq, 0);
    assert_eq!(fx.status(instance), InstanceStatus::Pending);
    let calls = fx.world.borrow().calls.clone();
    assert_eq!(calls.len(), 2);
    assert!(calls.iter().all(|call| matches!(call, StoreCall::PutContent)));
}

#[test]
fn done_true_transitions_instance_to_completed() {
    let fx = Fixture::new();
    let tenant = fx.seed_tenant("tenant-done");
    let template = fx.seed_template(tenant, r#"{"endpoint": "cfg-f"}"#);
    let instance =
        fx.create_instance(template, canonical(r#"{"arg": 5}"#), principal(tenant)).unwrap();
    let subject = fx.ephemeral(tenant, "ephemeral-done", "{}");
    fx.push_lowered(r#"{"config": "resolved"}"#);
    fx.push_executed(r#"{"context": {"step": 1}, "output": {"ok": true}, "done": true}"#);

    let result =
        fx.execute_step(instance, canonical(r#"{"input": "go"}"#), subject).unwrap();
    assert_eq!(result.status, InstanceStatus::Completed);
    assert!(result.is_terminal());
    assert_eq!(result.output.to_serde(), json(r#"{"ok": true}"#));
    assert_eq!(result.context.to_serde(), json(r#"{"step": 1}"#));
    assert_eq!(fx.status(instance), InstanceStatus::Completed);
}

#[test]
fn complete_and_cancel_handle_pending_running_and_terminal_states() {
    let fx = Fixture::new();
    let tenant = fx.seed_tenant("tenant-terminal");
    let template = fx.seed_template(tenant, r#"{"endpoint": "cfg-g"}"#);

    let pending_complete = fx
        .create_instance(template, canonical(r#"{"arg": "pending-complete"}"#), principal(tenant))
        .unwrap();
    fx.complete(pending_complete, principal(tenant)).unwrap();
    assert_eq!(fx.status(pending_complete), InstanceStatus::Completed);
    let execute_on_completed = fx
        .execute_step(
            pending_complete,
            canonical(r#"{"input": "after-complete"}"#),
            principal(tenant),
        )
        .unwrap_err();
    assert!(matches!(
        execute_on_completed,
        WorkflowError::InstanceTerminal { status: InstanceStatus::Completed, .. }
    ));

    let pending_cancel = fx
        .create_instance(template, canonical(r#"{"arg": "pending-cancel"}"#), principal(tenant))
        .unwrap();
    fx.cancel(pending_cancel, principal(tenant)).unwrap();
    assert_eq!(fx.status(pending_cancel), InstanceStatus::Cancelled);
    let execute_on_cancelled = fx
        .execute_step(
            pending_cancel,
            canonical(r#"{"input": "after-cancel"}"#),
            principal(tenant),
        )
        .unwrap_err();
    assert!(matches!(
        execute_on_cancelled,
        WorkflowError::InstanceTerminal { status: InstanceStatus::Cancelled, .. }
    ));

    let running_complete = fx
        .create_instance(template, canonical(r#"{"arg": "running-complete"}"#), principal(tenant))
        .unwrap();
    fx.push_lowered(r#"{"config": "resolved"}"#);
    fx.push_executed(r#"{"context": {"running": true}, "output": {"ok": true}}"#);
    fx.execute_step(running_complete, canonical(r#"{"input": "run"}"#), principal(tenant))
        .unwrap();
    fx.complete(running_complete, principal(tenant)).unwrap();
    let complete_again = fx.complete(running_complete, principal(tenant)).unwrap_err();
    assert!(matches!(
        complete_again,
        WorkflowError::InstanceTerminal { status: InstanceStatus::Completed, .. }
    ));

    let running_cancel = fx
        .create_instance(template, canonical(r#"{"arg": "running-cancel"}"#), principal(tenant))
        .unwrap();
    fx.push_lowered(r#"{"config": "resolved"}"#);
    fx.push_executed(r#"{"context": {"running": true}, "output": {"ok": true}}"#);
    fx.execute_step(running_cancel, canonical(r#"{"input": "run"}"#), principal(tenant)).unwrap();
    fx.cancel(running_cancel, principal(tenant)).unwrap();
    let cancel_again = fx.cancel(running_cancel, principal(tenant)).unwrap_err();
    assert!(matches!(
        cancel_again,
        WorkflowError::InstanceTerminal { status: InstanceStatus::Cancelled, .. }
    ));
}

#[test]
fn execute_step_on_failed_instance_returns_instance_terminal() {
    let fx = Fixture::new();
    let tenant = fx.seed_tenant("tenant-failed");
    let template = fx.seed_template(tenant, r#"{"endpoint": "cfg-h"}"#);
    let instance = fx
        .create_instance(template, canonical(r#"{"arg": "running"}"#), principal(tenant))
        .unwrap();
    let subject = fx.ephemeral(tenant, "ephemeral-fail", "{}");
    fx.push_lowered(r#"{"config": "resolved"}"#);
    fx.push_executed(r#"{"context": {"running": true}, "output": {"ok": true}}"#);
    fx.execute_step(instance, canonical(r#"{"input": "step-1"}"#), subject.clone()).unwrap();

    fx.push_lowered(r#"{"config": "resolved"}"#);
    fx.push_execution_error(StepExecutionError::ScriptError("step failed".to_string()));
    let failed = fx
        .execute_step(instance, canonical(r#"{"input": "step-2"}"#), subject.clone())
        .unwrap_err();
    assert!(matches!(failed, WorkflowError::StepExecutionFailed { .. }));

    let execute_again =
        fx.execute_step(instance, canonical(r#"{"input": "step-3"}"#), subject).unwrap_err();
    assert!(matches!(
        execute_again,
        WorkflowError::InstanceTerminal { status: InstanceStatus::Failed, .. }
    ));
}

#[test]
fn mysql_end_to_end_create_execute_complete() {
    let fx = Fixture::new();
    let tenant = fx.seed_tenant("tenant-mysql-e2e");
    let template = fx.seed_template(tenant, r#"{"endpoint": "cfg-mysql-1"}"#);
    let instance =
        fx.create_instance(template, canonical(r#"{"arg": "x"}"#), principal(tenant)).unwrap();

    fx.push_lowered(r#"{"config": "resolved"}"#);
    fx.push_executed(r#"{"context": {"step": 1}, "output": {"ok": 1}}"#);
    let first = fx
        .execute_step(instance, canonical(r#"{"input": "first"}"#), principal(tenant))
        .unwrap();
    assert_eq!(first.status, InstanceStatus::Running);

    fx.push_lowered(r#"{"config": "resolved"}"#);
    fx.push_executed(r#"{"context": {"step": 2}, "output": {"ok": 2}, "done": true}"#);
    let second = fx
        .execute_step(instance, canonical(r#"{"input": "second"}"#), principal(tenant))
        .unwrap();
    assert_eq!(second.status, InstanceStatus::Completed);
    assert!(second.is_terminal());

    let latest = fx.latest(instance);
    assert_eq!(latest.revision_seq, 2);
    assert_eq!(fx.status(instance), InstanceStatus::Completed);
    assert_eq!(fx.records(instance).len(), 2);
}

#[test]
fn mysql_step_records_pin_pre_step_instance_revisions() {
    let fx = Fixture::new();
    let tenant = fx.seed_tenant("tenant-mysql-pinning");
    let template = fx.seed_template(tenant, r#"{"endpoint": "cfg-mysql-2"}"#);
    let instance =
        fx.create_instance(template, canonical(r#"{"arg": "x"}"#), principal(tenant)).unwrap();
    fx.push_lowered(r#"{"config": "resolved"}"#);
    fx.push_executed(r#"{"context": {"step": 1}, "output": {"ok": 1}}"#);
    fx.execute_step(instance, canonical(r#"{"input": "first"}"#), principal(tenant)).unwrap();
    fx.push_lowered(r#"{"config": "resolved"}"#);
    fx.push_executed(r#"{"context": {"step": 2}, "output": {"ok": 2}}"#);
    fx.execute_step(instance, canonical(r#"{"input": "second"}"#), principal(tenant)).unwrap();

    let steps = fx.records(instance);
    assert_eq!(steps.len(), 2);
    assert_eq!(steps[0].entity_attr("instance").unwrap().target_revision_seq, Some(0));
    assert_eq!(steps[1].entity_attr("instance").unwrap().target_revision_seq, Some(1));
}

#[test]
fn mysql_terminal_instance_rejects_execute_step() {
    let fx = Fixture::new();
    let tenant = fx.seed_tenant("tenant-mysql-terminal");
    let template = fx.seed_template(tenant, r#"{"endpoint": "cfg-mysql-3"}"#);
    let instance =
        fx.create_instance(template, canonical(r#"{"arg": "x"}"#), principal(tenant)).unwrap();
    fx.complete(instance, principal(tenant)).unwrap();
    let error = fx
        .execute_step(instance, canonical(r#"{"input": "after-complete"}"#), principal(tenant))
        .unwrap_err();
    assert!(matches!(
        error,
        WorkflowError::InstanceTerminal { status: InstanceStatus::Completed, .. }
    ));
}

#[test]
fn execute_step_includes_ready_embedding_dataset_corpus() {
    let fx = Fixture::new();
    let tenant = fx.seed_tenant("tenant-data");
    let corpus = vec![corpus_item(vec![1.0, 2.0], Some(json(r#"{"title": "Example"}"#)))];
    let dataset = fx.seed_dataset(tenant, false, Some(corpus));
    let template = fx.seed_template_with(tenant, "{}", Some(&bind(dataset)));
    let arg = fx.execute_and_capture_arg(template, tenant);
    assert_eq!(
        arg["data"]["embed_datasets"]["kb"][0]["id"],
        Value::String("doc-1".to_string())
    );
    assert_eq!(arg["data"]["embed_datasets"]["kb"][0]["vector"], json("[1.0, 2.0]"));
    assert_eq!(
        arg["data"]["embed_datasets"]["kb"][0]["payload"],
        json(r#"{"title": "Example"}"#)
    );
}

#[test]
fn execute_step_omits_retired_dataset() {
    let fx = Fixture::new();
    let tenant = fx.seed_tenant("tenant-retired");
    let dataset = fx.seed_dataset(tenant, true, Some(vec![corpus_item(vec![1.0], None)]));
    let template = fx.seed_template_with(tenant, "{}", Some(&bind(dataset)));
    let arg = fx.execute_and_capture_arg(template, tenant);
    assert!(arg["data"]["embed_datasets"].get("kb").is_none());
    assert_eq!(arg["data"], json(r#"{"embed_datasets": {}}"#));
}

#[test]
fn execute_step_omits_dataset_without_corpus() {
    let fx = Fixture::new();
    let tenant = fx.seed_tenant("tenant-no-corpus");
    let dataset = fx.seed_dataset(tenant, false, None);
    let template = fx.seed_template_with(tenant, "{}", Some(&bind(dataset)));
    let arg = fx.execute_and_capture_arg(template, tenant);
    assert!(arg["data"]["embed_datasets"].get("kb").is_none());
}

#[test]
fn execute_step_rejects_cross_tenant_dataset_binding() {
    let fx = Fixture::new();
    let tenant = fx.seed_tenant("tenant-a");
    let other = fx.seed_tenant("tenant-b");
    let dataset = fx.seed_dataset(other, false, Some(vec![corpus_item(vec![1.0], None)]));
    let template = fx.seed_template_with(tenant, "{}", Some(&bind(dataset)));
    let instance = fx.create_instance(template, canonical("{}"), principal(tenant)).unwrap();
    let error =
        fx.execute_step(instance, canonical("{}"), principal(tenant)).unwrap_err();
    let text = format!(
        "embedding dataset {} belongs to another tenant",
        dataset.public().to_text()
    );
    assert!(matches!(error, WorkflowError::DataConfigInvalid { detail } if detail == text));
}

#[test]
fn execute_step_omits_missing_public_dataset_reference() {
    let fx = Fixture::new();
    let tenant = fx.seed_tenant("tenant-missing");
    let missing = r#"{"embed_datasets": {"kb": "0f1e2d3c-4b5a-4697-8877-665544332211"}}"#;
    let template = fx.seed_template_with(tenant, "{}", Some(missing));
    let arg = fx.execute_and_capture_arg(template, tenant);
    assert!(arg["data"]["embed_datasets"].get("kb").is_none());
}

#[test]
fn execute_step_without_data_config_includes_empty_data_object() {
    let fx = Fixture::new();
    let tenant = fx.seed_tenant("tenant-empty");
    let template = fx.seed_template_with(tenant, "{}", None);
    let arg = fx.execute_and_capture_arg(template, tenant);
    assert_eq!(arg["data"], json("{}"));
}

fn data_error(data_config: &str) -> String {
    let fx = Fixture::new();
    let tenant = fx.seed_tenant("tenant");
    let template = fx.seed_template_with(tenant, "{}", Some(data_config));
    let instance = fx.create_instance(template, canonical("{}"), principal(tenant)).unwrap();
    match fx.execute_step(instance, canonical("{}"), principal(tenant)) {
        Err(WorkflowError::DataConfigInvalid { detail }) => detail,
        other => panic!("expected DataConfigInvalid, got {other:?}"),
    }
}

#[test]
fn malformed_data_bindings_are_rejected() {
    assert_eq!(data_error("[1]"), "data_config must be a JSON object");
    assert_eq!(
        data_error(r#"{"embed_datasets": 3}"#),
        "data_config.embed_datasets must be a JSON object"
    );
    assert_eq!(
        data_error(r#"{"embed_datasets": {"kb": 3}}"#),
        "data_config.embed_datasets.kb must be a UUID string"
    );
    let parse_error = "nonsense".parse::<philharmonic_types::Uuid>().unwrap_err();
    assert_eq!(
        data_error(r#"{"embed_datasets": {"kb": "nonsense"}}"#),
        format!("data_config.embed_datasets.kb is not a valid UUID: {parse_error}")
    );
}

#[test]
fn bindings_are_looked_up_by_ascending_name() {
    assert_eq!(
        data_error(r#"{"embed_datasets": {"b": 1, "a": 2, "c": 3}}"#),
        "data_config.embed_datasets.a must be a UUID string"
    );
}

#[test]
fn data_config_without_datasets_gives_none() {
    let fx = Fixture::new();
    let tenant = fx.seed_tenant("tenant");
    let template = fx.seed_template_with(tenant, "{}", Some(r#"{"other": 1}"#));
    let arg = fx.execute_and_capture_arg(template, tenant);
    assert_eq!(arg["data"], json(r#"{"embed_datasets": {}}"#));
}

#[test]
fn bindings_count_each_for_itself() {
    let fx = Fixture::new();
    let tenant = fx.seed_tenant("tenant");
    let ready = fx.seed_dataset(tenant, false, Some(vec![corpus_item(vec![0.5], None)]));
    let retired = fx.seed_dataset(tenant, true, Some(vec![corpus_item(vec![1.0], None)]));
    let text = format!(
        r#"{{"embed_datasets": {{"x": "{}", "a": "{}", "z": "{}"}}}}"#,
        ready.public().to_text(),
        retired.public().to_text(),
        ready.public().to_text(),
    );
    let template = fx.seed_template_with(tenant, "{}", Some(&text));
    let arg = fx.execute_and_capture_arg(template, tenant);
    let one = r#"[{"id": "doc-1", "vector": [0.5]}]"#;
    assert_eq!(
        arg["data"],
        json(&format!(r#"{{"embed_datasets": {{"x": {one}, "z": {one}}}}}"#))
    );
}

fn dataset_error(change: impl FnOnce(&mut World, EntityId<EmbeddingDataset>)) -> WorkflowError {
    let fx = Fixture::new();
    let tenant = fx.seed_tenant("tenant");
    let dataset = fx.seed_dataset(tenant, false, Some(vec![corpus_item(vec![1.0], None)]));
    let template = fx.seed_template_with(tenant, "{}", Some(&bind(dataset)));
    let instance = fx.create_instance(template, canonical("{}"), principal(tenant)).unwrap();
    change(&mut fx.world.borrow_mut(), dataset);
    fx.execute_step(instance, canonical("{}"), principal(tenant)).unwrap_err()
}

#[test]
fn datasets_that_are_not_what_they_should_be_are_rejected() {
    let detail = |error: WorkflowError| match error {
        WorkflowError::DataConfigInvalid { detail } => detail,
        other => panic!("expected DataConfigInvalid, got {other:?}"),
    };
    let mut public = String::new();
    let missing = dataset_error(|world, id| {
        public = id.public().to_text();
        world.entities.remove(&id.internal().as_u128());
    });
    assert_eq!(
        detail(missing),
        format!("embedding dataset {public} entity row is missing")
    );
    let other_kind = dataset_error(|world, id| {
        let row = world.entities.get_mut(&id.internal().as_u128()).unwrap();
        row.kind = Uuid::from_u128(Tenant::KIND);
    });
    assert_eq!(
        detail(other_kind),
        format!(
            "{public} kind mismatch: expected 37aaccf5-a760-457d-879f-a48f6617ef33, \
             found 6a79e7a2-ea05-46d8-a578-b24c3b62c860"
        )
    );
    let no_revision = dataset_error(|world, id| {
        world.revisions.remove(&id.internal().as_u128());
    });
    assert_eq!(
        detail(no_revision),
        format!("embedding dataset {public} has no revisions")
    );
    let wrong_version = dataset_error(|world, id| {
        let entry = world.public.get_mut(&id.public().as_u128()).unwrap();
        entry.internal = id.public();
    });
    assert_eq!(
        detail(wrong_version),
        format!(
            "{public} is not an embedding dataset identity: internal ID is not UUIDv7: \
             UUID version mismatch: expected v7, got v4"
        )
    );
    let garbage = dataset_error(|world, id| {
        let hash = world.put_bytes(b"not a corpus");
        let log = world.revisions.get_mut(&id.internal().as_u128()).unwrap();
        log[0].content_attrs.push(("corpus".to_string(), hash));
    });
    let text = philharmonic_policy::decode_corpus(b"not a corpus").unwrap_err().to_string();
    assert_eq!(detail(garbage), format!("failed to decode corpus for {public}: {text}"));
}

#[test]
fn dataset_attributes_must_be_there() {
    let no_tenant = dataset_error(|world, id| {
        world.revisions.get_mut(&id.internal().as_u128()).unwrap()[0].entity_attrs.clear();
    });
    assert!(matches!(
        no_tenant,
        WorkflowError::MissingEntityAttribute {
            entity_name: "embedding_dataset",
            attribute: "tenant"
        }
    ));
    let no_flag = dataset_error(|world, id| {
        world.revisions.get_mut(&id.internal().as_u128()).unwrap()[0].scalar_attrs.clear();
    });
    assert!(matches!(
        no_flag,
        WorkflowError::MissingScalarAttribute {
            entity_name: "embedding_dataset",
            attribute: "is_retired"
        }
    ));
    let wrong_flag = dataset_error(|world, id| {
        world.revisions.get_mut(&id.internal().as_u128()).unwrap()[0]
            .scalar_attrs
            .push(("is_retired".to_string(), ScalarValue::I64(0)));
    });
    assert!(matches!(
        wrong_flag,
        WorkflowError::InvalidScalarType { expected: "bool", actual: "i64", .. }
    ));
    let no_blob = dataset_error(|world, id| {
        let hash = world.revisions[&id.internal().as_u128()][0].content_attr("corpus").unwrap();
        world.content.remove(&hash.bytes);
    });
    assert!(matches!(
        no_blob,
        WorkflowError::MissingContentBlob {
            entity_name: "embedding_dataset",
            attribute: "corpus",
            ..
        }
    ));
}

#[test]
fn new_instance_is_pending_and_pinned_to_its_template() {
    let fx = Fixture::new();
    let tenant = fx.seed_tenant("tenant");
    let template = fx.seed_template(tenant, "{}");
    let instance =
        fx.create_instance(template, canonical(r#"{"b": 1, "a": 2}"#), principal(tenant)).unwrap();
    let row = fx.latest(instance);
    assert_eq!(row.revision_seq, 0);
    assert_eq!(scalar(&row, "status"), 0);
    assert_eq!(row.entity_attr("template"), Some(pinned(template.internal(), 0)));
    assert_eq!(row.entity_attr("tenant"), Some(pinned(tenant.internal(), 0)));
    let world = fx.world.borrow();
    assert_eq!(world.get(row.content_attr("context").unwrap()).unwrap(), b"{}");
    assert_eq!(world.get(row.content_attr("args").unwrap()).unwrap(), br#"{"a":2,"b":1}"#);
}

#[test]
fn creating_from_a_missing_template_fails() {
    let fx = Fixture::new();
    let tenant = fx.seed_tenant("tenant");
    let nobody: EntityId<WorkflowTemplate> = fx.world.borrow_mut().mint().typed().unwrap();
    let error = fx.create_instance(nobody, canonical("{}"), principal(tenant)).unwrap_err();
    assert!(matches!(error, WorkflowError::TemplateNotFound { template_id }
        if template_id == nobody.internal()));
    assert!(!error.is_retryable());

    let no_tenant = fx.seed_template(tenant, "{}");
    fx.world.borrow_mut().revisions.get_mut(&no_tenant.internal().as_u128()).unwrap()[0]
        .entity_attrs
        .clear();
    let before = fx.world.borrow().calls.len();
    let error = fx.create_instance(no_tenant, canonical("{}"), principal(tenant)).unwrap_err();
    assert!(matches!(
        error,
        WorkflowError::MissingEntityAttribute {
            entity_name: "workflow_template",
            attribute: "tenant"
        }
    ));
    assert_eq!(fx.world.borrow().calls.len(), before);

    let as_template: EntityId<WorkflowTemplate> = tenant.untyped().typed().unwrap();
    let error = fx.create_instance(as_template, canonical("{}"), principal(tenant)).unwrap_err();
    assert!(matches!(error, WorkflowError::Store(StoreError::KindMismatch { .. })));
}

#[test]
fn store_failures_are_passed_on() {
    let fx = Fixture::new();
    let tenant = fx.seed_tenant("tenant");
    let template = fx.seed_template(tenant, "{}");
    fx.world.borrow_mut().fail_puts = true;
    let error = fx.create_instance(template, canonical("{}"), principal(tenant)).unwrap_err();
    assert!(matches!(&error, WorkflowError::Store(StoreError::Backend { .. })));
    assert!(error.is_retryable());
    assert_eq!(error.message(), "store error: backend error: disk full");
}

#[test]
fn instance_is_unchanged_where_its_record_is_not_stored() {
    let fx = Fixture::new();
    let tenant = fx.seed_tenant("tenant");
    let template = fx.seed_template(tenant, "{}");
    let instance = fx.create_instance(template, canonical("{}"), principal(tenant)).unwrap();
    fx.world.borrow_mut().fail_appends_to = Some(StepRecord::KIND);
    fx.push_lowered("{}");
    fx.push_executed(r#"{"context": {}, "output": 1}"#);
    let error = fx.execute_step(instance, canonical("{}"), principal(tenant)).unwrap_err();
    assert!(matches!(error, WorkflowError::Store(_)));
    assert_eq!(fx.latest(instance).revision_seq, 0);
    assert!(fx.records(instance).is_empty());
}

#[test]
fn record_stays_where_the_instance_is_not_stored() {
    let fx = Fixture::new();
    let tenant = fx.seed_tenant("tenant");
    let template = fx.seed_template(tenant, "{}");
    let instance = fx.create_instance(template, canonical("{}"), principal(tenant)).unwrap();
    fx.world.borrow_mut().fail_appends_to = Some(WorkflowInstance::KIND);
    fx.push_lowered("{}");
    fx.push_execution_error(StepExecutionError::ScriptError("boom".to_string()));
    let error = fx.execute_step(instance, canonical("{}"), principal(tenant)).unwrap_err();
    assert!(matches!(error, WorkflowError::Store(_)));
    assert_eq!(fx.latest(instance).revision_seq, 0);
    assert_eq!(fx.records(instance).len(), 1);
}

#[test]
fn successful_step_is_written_down() {
    let fx = Fixture::new();
    let tenant = fx.seed_tenant("tenant");
    let template = fx.seed_template(tenant, r#"{"endpoint": "cfg"}"#);
    let instance =
        fx.create_instance(template, canonical(r#"{"a": 1}"#), principal(tenant)).unwrap();
    let before = fx.latest(instance);
    fx.push_lowered(r#"{"config": "resolved"}"#);
    fx.push_executed(r#"{"context": {"n": 1}, "output": [true, null], "done": false}"#);
    let result =
        fx.execute_step(instance, canonical(r#"{"in": 7}"#), principal(tenant)).unwrap();
    assert_eq!(result.step_seq, 1);
    assert_eq!(result.status, InstanceStatus::Running);
    assert!(!result.is_terminal());

    let world = fx.world.borrow();
    assert_eq!(world.executor_calls[0].script, SCRIPT);
    assert_eq!(world.executor_calls[0].config, json(r#"{"config": "resolved"}"#));
    assert_eq!(world.lowerer_calls[0].abstract_config, json(r#"{"endpoint": "cfg"}"#));
    assert_eq!(world.lowerer_calls[0].instance_id, instance.internal());
    assert_eq!(world.lowerer_calls[0].step_seq, 1);
    assert_eq!(world.lowerer_calls[0].subject_id, "principal-subject");

    let after = fx.latest(instance);
    assert_eq!(after.revision_seq, 1);
    assert_eq!(after.content_attr("args"), before.content_attr("args"));
    assert_eq!(after.entity_attr("template"), before.entity_attr("template"));
    assert_eq!(after.entity_attr("tenant"), before.entity_attr("tenant"));
    assert_eq!(
        world.get(after.content_attr("context").unwrap()).unwrap(),
        br#"{"n":1}"#
    );
    let rows = world.step_records(instance);
    assert_eq!(rows[0].revision_seq, 0);
    assert_eq!(step_seq(&rows[0]), 1);
    assert_eq!(outcome(&rows[0]), 0);
    assert_eq!(rows[0].entity_attr("instance"), Some(pinned(instance.internal(), 0)));
    assert_eq!(
        world.get(rows[0].content_attr("output").unwrap()).unwrap(),
        b"[true,null]"
    );
    assert_eq!(world.get(rows[0].content_attr("input").unwrap()).unwrap(), br#"{"in":7}"#);
    assert!(rows[0].content_attr("error").is_none());
}

#[test]
fn lowering_failure_ends_the_step() {
    let fx = Fixture::new();
    let tenant = fx.seed_tenant("tenant");
    let template = fx.seed_template(tenant, "{}");
    let instance = fx.create_instance(template, canonical("{}"), principal(tenant)).unwrap();
    let error = fx.execute_step(instance, canonical("{}"), principal(tenant)).unwrap_err();
    assert!(matches!(
        &error,
        WorkflowError::ConfigLowering(ConfigLoweringError::Backend(_))
    ));
    assert!(error.is_retryable());
    fx.world
        .borrow_mut()
        .lowered
        .push_back(Err(ConfigLoweringError::InvalidConfig("no endpoint".to_string())));
    let error = fx.execute_step(instance, canonical("{}"), principal(tenant)).unwrap_err();
    assert!(!error.is_retryable());
    assert_eq!(
        error.message(),
        "config lowering failed: invalid abstract config: no endpoint"
    );
    assert!(fx.world.borrow().executor_calls.is_empty());
}

fn step_error(
    change: impl FnOnce(&mut World, EntityId<WorkflowTemplate>, EntityId<WorkflowInstance>),
) -> WorkflowError {
    let fx = Fixture::new();
    let tenant = fx.seed_tenant("tenant");
    let template = fx.seed_template(tenant, "{}");
    let instance = fx.create_instance(template, canonical("{}"), principal(tenant)).unwrap();
    change(&mut fx.world.borrow_mut(), template, instance);
    fx.push_lowered("{}");
    fx.push_executed(r#"{"context": {}, "output": {}}"#);
    fx.execute_step(instance, canonical("{}"), principal(tenant)).unwrap_err()
}

fn row(world: &mut World, id: Uuid) -> &mut RevisionRow {
    &mut world.revisions.get_mut(&id.as_u128()).unwrap()[0]
}

#[test]
fn instances_that_cannot_be_read_are_reported() {
    let error = step_error(|world, _, id| {
        world.entities.remove(&id.internal().as_u128());
    });
    assert!(matches!(error, WorkflowError::InstanceNotFound { .. }));
    let error = step_error(|world, _, id| {
        world.entities.get_mut(&id.internal().as_u128()).unwrap().kind = Uuid::from_u128(9);
    });
    assert!(matches!(
        error,
        WorkflowError::EntityKindMismatch { entity_name: "workflow_instance", actual, .. }
            if actual == Uuid::from_u128(9)
    ));
    let error = step_error(|world, _, id| {
        world.revisions.remove(&id.internal().as_u128());
    });
    assert!(matches!(error, WorkflowError::InstanceRevisionMissing { .. }));
    let error = step_error(|world, _, id| {
        row(world, id.internal()).scalar_attrs.clear();
    });
    assert!(matches!(
        error,
        WorkflowError::MissingScalarAttribute { attribute: "status", .. }
    ));
    let error = step_error(|world, _, id| {
        row(world, id.internal())
            .scalar_attrs
            .push(("status".to_string(), ScalarValue::Bool(true)));
    });
    assert!(matches!(
        error,
        WorkflowError::InvalidScalarType { expected: "i64", actual: "bool", .. }
    ));
    let error = step_error(|world, _, id| {
        row(world, id.internal())
            .scalar_attrs
            .push(("status".to_string(), ScalarValue::I64(17)));
    });
    assert!(matches!(
        error,
        WorkflowError::InvalidInstanceStatusDiscriminant { value: 17 }
    ));
    let error = step_error(|world, _, id| {
        row(world, id.internal()).revision_seq = u64::MAX;
    });
    assert!(matches!(error, WorkflowError::IntegerOverflow { field: "step_seq" }));
    let error = step_error(|world, _, id| {
        row(world, id.internal()).entity_attrs.retain(|(name, _)| name != "template");
    });
    assert!(matches!(
        error,
        WorkflowError::MissingEntityAttribute { attribute: "template", .. }
    ));
    let error = step_error(|world, template, id| {
        let target = EntityRefValue {
            target_entity_id: template.internal(),
            target_revision_seq: None,
        };
        row(world, id.internal()).entity_attrs.push(("template".to_string(), target));
    });
    assert!(matches!(
        error,
        WorkflowError::MissingPinnedReference { attribute: "template", .. }
    ));
    let error = step_error(|world, _, id| {
        row(world, id.internal()).entity_attrs.retain(|(name, _)| name != "tenant");
    });
    assert!(matches!(
        error,
        WorkflowError::MissingEntityAttribute {
            entity_name: "workflow_instance",
            attribute: "tenant"
        }
    ));
    let error = step_error(|world, _, id| {
        row(world, id.internal()).content_attrs.retain(|(name, _)| name != "args");
    });
    assert!(matches!(
        error,
        WorkflowError::MissingContentAttribute {
            entity_name: "workflow_instance",
            attribute: "args"
        }
    ));
}

#[test]
fn templates_that_cannot_be_used_are_reported() {
    let error = step_error(|world, template, _| {
        world.entities.remove(&template.internal().as_u128());
    });
    assert!(matches!(error, WorkflowError::TemplateNotFound { .. }));
    let error = step_error(|world, template, _| {
        world.entities.get_mut(&template.internal().as_u128()).unwrap().kind = Uuid::from_u128(9);
    });
    assert!(matches!(
        error,
        WorkflowError::EntityKindMismatch { entity_name: "workflow_template", .. }
    ));
    let error = step_error(|world, template, _| {
        world.revisions.remove(&template.internal().as_u128());
    });
    assert!(matches!(
        error,
        WorkflowError::TemplateRevisionNotFound { revision_seq: 0, .. }
    ));
    let error = step_error(|world, template, _| {
        row(world, template.internal())
            .entity_attrs
            .push(("tenant".to_string(), pinned(Uuid::from_u128(5), 0)));
    });
    assert!(matches!(
        error,
        WorkflowError::TemplateTenantMismatch { template_tenant, .. }
            if template_tenant == Uuid::from_u128(5)
    ));
    let error = step_error(|world, template, _| {
        row(world, template.internal()).content_attrs.retain(|(name, _)| name != "config");
    });
    assert!(matches!(
        error,
        WorkflowError::MissingContentAttribute {
            entity_name: "workflow_template",
            attribute: "config"
        }
    ));
    let error = step_error(|world, template, _| {
        let hash = row(world, template.internal()).content_attr("script").unwrap();
        world.content.remove(&hash.bytes);
    });
    assert!(matches!(
        error,
        WorkflowError::MissingContentBlob { attribute: "script", .. }
    ));
    let error = step_error(|world, template, _| {
        let hash = world.put_bytes(b"ab\xffcd");
        row(world, template.internal()).content_attrs.push(("script".to_string(), hash));
    });
    assert!(matches!(
        &error,
        WorkflowError::ScriptUtf8(e) if e.valid_up_to == 2 && e.error_len == Some(1)
    ));
    assert_eq!(error.message(), "invalid UTF-8 in script content");
    let error = step_error(|world, template, _| {
        let hash = world.put_bytes(b"{oops");
        row(world, template.internal()).content_attrs.push(("config".to_string(), hash));
    });
    let inner = serde_json::from_slice::<Value>(b"{oops").unwrap_err();
    assert!(matches!(
        &error,
        WorkflowError::Store(StoreError::Decode { detail })
            if *detail == format!("content bytes are not valid JSON: {inner}")
    ));
    assert!(!error.is_retryable());
}

#[test]
fn step_number_must_fit_its_record() {
    let error = step_error(|world, _, id| {
        row(world, id.internal()).revision_seq = i64::MAX as u64;
    });
    let text = i64::try_from(1_u64 << 63).unwrap_err().to_string();
    assert!(matches!(
        error,
        WorkflowError::IntegerConversion { field: "step_seq", detail } if detail == text
    ));
}

#[test]
fn input_that_does_not_parse_is_reported_after_it_is_stored() {
    let fx = Fixture::new();
    let tenant = fx.seed_tenant("tenant");
    let template = fx.seed_template(tenant, "{}");
    let instance = fx.create_instance(template, canonical("{}"), principal(tenant)).unwrap();
    let before = fx.world.borrow().calls.len();
    let mut deep = JsonValue::Null;
    for _ in 0..128 {
        deep = JsonValue::Array(vec![deep]);
    }
    let input = CanonicalJson::from_value(&deep).unwrap();
    let inner = serde_json::from_slice::<Value>(input.as_bytes()).unwrap_err();
    let error = fx.execute_step(instance, input, principal(tenant)).unwrap_err();
    assert!(matches!(
        &error,
        WorkflowError::Json { detail }
            if *detail == format!("failed to parse canonical JSON: {inner}")
    ));
    assert_eq!(fx.world.borrow().calls.len(), before + 2);
}

#[test]
fn fresh_identities_must_have_the_right_versions() {
    let fx = Fixture::new();
    let tenant = fx.seed_tenant("tenant");
    let template = fx.seed_template(tenant, "{}");
    let start = fx.engine.create_instance(template, canonical("{}"), principal(tenant));
    let CreateProgress::GetLatestRevision { then, .. } = start else {
        panic!("expected the template to be asked for")
    };
    let found = fx.world.borrow().latest(template.internal());
    let CreateProgress::CreateInstance { then } = then.resume(Ok(found)) else {
        panic!("expected an instance to be created")
    };
    let swapped = Identity { internal: tenant.public(), public: tenant.internal() };
    match then.resume(Ok(swapped)) {
        CreateProgress::Finished(Err(WorkflowError::Store(StoreError::IdentityKind {
            detail,
        }))) => assert_eq!(
            detail,
            "internal ID is not UUIDv7: UUID version mismatch: expected v7, got v4"
        ),
        other => panic!("expected an identity error, got {other:?}"),
    }
}

#[test]
fn requests_come_in_order() {
    let fx = Fixture::new();
    let tenant = fx.seed_tenant("tenant");
    let template = fx.seed_template(tenant, "{}");
    let instance = fx.create_instance(template, canonical("{}"), principal(tenant)).unwrap();
    let start = fx.engine.execute_step(instance, canonical("{}"), principal(tenant));
    let StepProgress::GetEntity { entity_id, then } = start else {
        panic!("expected the instance to be asked for")
    };
    assert_eq!(entity_id, instance.internal());
    assert!(matches!(then, StepEntity::Instance(_)));
    let world = fx.world.borrow();
    let next = then.resume(Ok(world.entities.get(&entity_id.as_u128()).copied()));
    let StepProgress::GetInstanceRevision { then, .. } = next else {
        panic!("expected the instance's revision to be asked for")
    };
    let next = then.resume(Err(backend_error()));
    assert!(matches!(
        next,
        StepProgress::Finished(Err(WorkflowError::Store(StoreError::Backend { .. })))
    ));
    let puts = |put: &StepPut| matches!(put, StepPut::Input(_));
    let start = fx.engine.execute_step(instance, canonical(r#"{"k": 1}"#), principal(tenant));
    let mut progress = start;
    let first_put = loop {
        progress = match progress {
            StepProgress::GetEntity { entity_id, then } => {
                then.resume(Ok(world.entities.get(&entity_id.as_u128()).copied()))
            }
            StepProgress::GetInstanceRevision { instance_id, then } => {
                then.resume(Ok(world.latest(instance_id.internal())))
            }
            StepProgress::GetTemplateRevision { template_id, revision_seq, then } => {
                then.resume(Ok(world.revision(template_id, revision_seq)))
            }
            StepProgress::GetContent { hash, then } => then.resume(Ok(world.get(hash))),
            StepProgress::PutContent { hash, bytes, then } => break (hash, bytes, then),
            other => panic!("unexpected request {other:?}"),
        };
    };
    assert_eq!(first_put.1, br#"{"k":1}"#);
    assert_eq!(first_put.0, Sha256::of(br#"{"k":1}"#));
    assert!(puts(&first_put.2));
}

/// Runs a step and lets the store fail at its request number `fail_at`.
fn step_with_failure(fx: &Fixture, start: StepProgress, fail_at: usize) -> (usize, StepProgress) {
    let mut world = fx.world.borrow_mut();
    let mut progress = start;
    let mut asked = 0;
    loop {
        let failing = asked == fail_at;
        asked += 1;
        progress = match progress {
            StepProgress::GetEntity { entity_id, then } => then.resume(if failing {
                Err(backend_error())
            } else {
                Ok(world.entities.get(&entity_id.as_u128()).copied())
            }),
            StepProgress::GetInstanceRevision { instance_id, then } => then.resume(if failing {
                Err(backend_error())
            } else {
                Ok(world.latest(instance_id.internal()))
            }),
            StepProgress::GetTemplateRevision { template_id, revision_seq, then } => {
                then.resume(if failing {
                    Err(backend_error())
                } else {
                    Ok(world.revision(template_id, revision_seq))
                })
            }
            StepProgress::GetDatasetRevision { dataset_id, then } => then.resume(if failing {
                Err(backend_error())
            } else {
                Ok(world.latest(dataset_id.internal()))
            }),
            StepProgress::ResolvePublic { public_id, then } => then.resume(if failing {
                Err(backend_error())
            } else {
                Ok(world.public.get(&public_id.as_u128()).copied())
            }),
            StepProgress::GetContent { hash, then } => then.resume(if failing {
                Err(backend_error())
            } else {
                Ok(world.get(hash))
            }),
            StepProgress::PutContent { hash, bytes, then } => then.resume(if failing {
                Err(backend_error())
            } else {
                world.put(hash, bytes)
            }),
            StepProgress::Lower { then, .. } => {
                if failing {
                    return (asked, then.resume(Err(ConfigLoweringError::Backend(String::new()))));
                }
                then.resume(Ok(JsonValue::Null))
            }
            StepProgress::Execute { then, .. } => {
                let executed = world.executed.pop_front().unwrap();
                if failing {
                    return (
                        asked,
                        then.resume(Err(StepExecutionError::Transport(String::new()))),
                    );
                }
                then.resume(executed.map(JsonValue::from_serde))
            }
            StepProgress::CreateRecord { then } => then.resume(if failing {
                Err(backend_error())
            } else {
                Ok(world.create(StepRecord::KIND))
            }),
            StepProgress::AppendRecord { record_id, revision_seq, revision, then } => {
                then.resume(if failing {
                    Err(backend_error())
                } else {
                    world.append(record_id.untyped(), revision_seq, revision)
                })
            }
            StepProgress::AppendInstance { instance_id, revision_seq, revision, then } => {
                then.resume(if failing {
                    Err(backend_error())
                } else {
                    world.append(instance_id.untyped(), revision_seq, revision)
                })
            }
            StepProgress::Finished(_) => return (asked, progress),
        };
    }
}

fn failures_at_every_request(result: Result<Value, StepExecutionError>) -> Vec<String> {
    let mut messages = Vec::new();
    for fail_at in 0..100 {
        let fx = Fixture::new();
        let tenant = fx.seed_tenant("tenant");
        let dataset = fx.seed_dataset(tenant, false, Some(vec![corpus_item(vec![1.0], None)]));
        let template = fx.seed_template_with(tenant, "{}", Some(&bind(dataset)));
        let instance = fx.create_instance(template, canonical("{}"), principal(tenant)).unwrap();
        fx.world.borrow_mut().executed.push_back(result.clone());
        let start = fx.engine.execute_step(instance, canonical("{}"), principal(tenant));
        match step_with_failure(&fx, start, fail_at) {
            (_, StepProgress::Finished(Ok(_))) => return messages,
            (_, StepProgress::Finished(Err(error))) => {
                let done = matches!(error, WorkflowError::StepExecutionFailed { .. });
                messages.push(error.message());
                if done {
                    return messages;
                }
            }
            (_, other) => panic!("unfinished step {other:?}"),
        }
    }
    panic!("the step never ended")
}

#[test]
fn failures_end_a_successful_step_wherever_they_come() {
    let result = Ok(json(r#"{"context": {}, "output": 1}"#));
    let messages = failures_at_every_request(result);
    let mut wanted = vec!["store error: backend error: disk full"; 15];
    wanted.push("config lowering failed: lowerer backend failure: ");
    wanted.push("executor unreachable: ");
    wanted.extend(["store error: backend error: disk full"; 5]);
    assert_eq!(messages, wanted);
}

#[test]
fn failures_end_a_failed_step_wherever_they_come() {
    let result = Err(StepExecutionError::ScriptError("boom".to_string()));
    let messages = failures_at_every_request(result);
    let mut wanted = vec!["store error: backend error: disk full"; 15];
    wanted.push("config lowering failed: lowerer backend failure: ");
    wanted.push("executor unreachable: ");
    wanted.extend(["store error: backend error: disk full"; 4]);
    wanted.push("step execution failed: boom");
    assert_eq!(messages, wanted);
}

#[test]
fn failures_end_a_transition_wherever_they_come() {
    for fail_at in 0..3 {
        let fx = Fixture::new();
        let tenant = fx.seed_tenant("tenant");
        let template = fx.seed_template(tenant, "{}");
        let instance = fx.create_instance(template, canonical("{}"), principal(tenant)).unwrap();
        let world = fx.world.borrow();
        let mut progress = fx.engine.complete(instance, principal(tenant));
        let mut asked = 0;
        let result = loop {
            let failing = asked == fail_at;
            asked += 1;
            progress = match progress {
                TransitionProgress::GetEntity { entity_id, then } => then.resume(if failing {
                    Err(backend_error())
                } else {
                    Ok(world.entities.get(&entity_id.as_u128()).copied())
                }),
                TransitionProgress::GetLatestRevision { instance_id, then } => {
                    then.resume(if failing {
                        Err(backend_error())
                    } else {
                        Ok(world.latest(instance_id.internal()))
                    })
                }
                TransitionProgress::AppendRevision { then, .. } => {
                    then.resume(if failing { Err(backend_error()) } else { Ok(()) })
                }
                TransitionProgress::Finished(result) => break result,
            };
        };
        assert_eq!(result.unwrap_err().message(), "store error: backend error: disk full");
    }
}

#[test]
fn failures_end_a_creation_wherever_they_come() {
    for fail_at in 0..5 {
        let fx = Fixture::new();
        let tenant = fx.seed_tenant("tenant");
        let template = fx.seed_template(tenant, "{}");
        let mut world = fx.world.borrow_mut();
        let mut progress = fx.engine.create_instance(template, canonical("{}"), principal(tenant));
        let mut asked = 0;
        let result = loop {
            let failing = asked == fail_at;
            asked += 1;
            progress = match progress {
                CreateProgress::GetLatestRevision { template_id, then } => {
                    then.resume(if failing {
                        Err(backend_error())
                    } else {
                        Ok(world.latest(template_id.internal()))
                    })
                }
                CreateProgress::CreateInstance { then } => then.resume(if failing {
                    Err(backend_error())
                } else {
                    Ok(world.create(WorkflowInstance::KIND))
                }),
                CreateProgress::PutContent { then, .. } => {
                    then.resume(if failing { Err(backend_error()) } else { Ok(()) })
                }
                CreateProgress::AppendRevision { then, .. } => {
                    then.resume(if failing { Err(backend_error()) } else { Ok(()) })
                }
                CreateProgress::Finished(result) => break result,
            };
        };
        assert_eq!(result.unwrap_err().message(), "store error: backend error: disk full");
    }
}

#[test]
fn completing_changes_only_the_status() {
    let fx = Fixture::new();
    let tenant = fx.seed_tenant("tenant");
    let template = fx.seed_template(tenant, "{}");
    let instance =
        fx.create_instance(template, canonical(r#"{"a": 1}"#), principal(tenant)).unwrap();
    let before = fx.latest(instance);
    fx.cancel(instance, principal(tenant)).unwrap();
    let after = fx.latest(instance);
    assert_eq!(after.revision_seq, before.revision_seq + 1);
    assert_eq!(after.content_attr("context"), before.content_attr("context"));
    assert_eq!(after.content_attr("args"), before.content_attr("args"));
    assert_eq!(after.entity_attr("template"), before.entity_attr("template"));
    assert_eq!(after.entity_attr("tenant"), before.entity_attr("tenant"));
    assert_eq!(scalar(&after, "status"), 4);
}

#[test]
fn only_declared_attributes_are_written() {
    let fx = Fixture::new();
    let tenant = fx.seed_tenant("tenant");
    let template = fx.seed_template(tenant, "{}");
    let instance = fx.create_instance(template, canonical("{}"), principal(tenant)).unwrap();
    fx.push_lowered("{}");
    fx.push_executed(r#"{"context": {}, "output": 1}"#);
    fx.execute_step(instance, canonical("{}"), principal(tenant)).unwrap();
    fx.push_lowered("{}");
    fx.push_execution_error(StepExecutionError::ScriptError("boom".to_string()));
    fx.execute_step(instance, canonical("{}"), principal(tenant)).unwrap_err();
    let records = fx.records(instance);
    assert_eq!(records.len(), 2);
    for row in &records {
        for (name, _) in &row.content_attrs {
            assert!(StepRecord::content_slots().contains(&name.as_str()));
        }
        for (name, _) in &row.entity_attrs {
            assert!(StepRecord::entity_slots().iter().any(|slot| slot.name == name));
        }
        for (name, _) in &row.scalar_attrs {
            assert!(StepRecord::scalar_slots().iter().any(|slot| slot.name == name));
        }
    }
    let row = fx.latest(instance);
    for (name, _) in &row.content_attrs {
        assert!(WorkflowInstance::content_slots().contains(&name.as_str()));
    }
    for (name, _) in &row.scalar_attrs {
        assert!(WorkflowInstance::scalar_slots().iter().any(|slot| slot.name == name));
    }
}

#[test]
fn later_template_revisions_do_not_matter() {
    let fx = Fixture::new();
    let tenant = fx.seed_tenant("tenant");
    let template = fx.seed_template(tenant, r#"{"endpoint": "old"}"#);
    let instance = fx.create_instance(template, canonical("{}"), principal(tenant)).unwrap();
    {
        let mut world = fx.world.borrow_mut();
        let script_hash = world.put_bytes(b"another script");
        let config_hash = world.put_json(r#"{"endpoint": "new"}"#);
        let data_hash = world.put_json(r#"{"embed_datasets": 3}"#);
        let revision = RevisionInput::new()
            .with_content("script", script_hash)
            .with_content("config", config_hash)
            .with_content("data_config", data_hash)
            .with_entity("tenant", pinned(tenant.internal(), 0))
            .with_scalar("is_retired", ScalarValue::Bool(false));
        world.append(template.untyped(), 1, revision).unwrap();
    }
    fx.push_lowered("{}");
    fx.push_executed(r#"{"context": {}, "output": 1}"#);
    fx.execute_step(instance, canonical("{}"), principal(tenant)).unwrap();
    let world = fx.world.borrow();
    assert_eq!(world.executor_calls[0].script, SCRIPT);
    assert_eq!(world.lowerer_calls[0].abstract_config, json(r#"{"endpoint": "old"}"#));
    assert_eq!(world.executor_calls[0].arg["data"], json("{}"));
    assert_eq!(
        fx.latest(instance).entity_attr("template"),
        Some(pinned(template.internal(), 0))
    );
}

#[test]
fn status_tells_history() {
    let fx = Fixture::new();
    let tenant = fx.seed_tenant("tenant");
    let template = fx.seed_template(tenant, "{}");
    let instance = fx.create_instance(template, canonical("{}"), principal(tenant)).unwrap();
    assert_eq!(fx.status(instance), InstanceStatus::Pending);
    assert_eq!(fx.latest(instance).revision_seq, 0);
    fx.push_lowered("{}");
    fx.push_execution_error(StepExecutionError::Transport("down".to_string()));
    fx.execute_step(instance, canonical("{}"), principal(tenant)).unwrap_err();
    assert_eq!(fx.status(instance), InstanceStatus::Pending);
    for step in 1..=3 {
        fx.push_lowered("{}");
        fx.push_executed(r#"{"context": {}, "output": 1}"#);
        fx.execute_step(instance, canonical("{}"), principal(tenant)).unwrap();
        assert_eq!(fx.status(instance), InstanceStatus::Running);
        assert_eq!(fx.latest(instance).revision_seq, step);
        let records = fx.records(instance);
        assert_eq!(records.len() as u64, step);
        assert!(records.iter().all(|row| outcome(row) == 0));
        for (k, row) in records.iter().enumerate() {
            let target = row.entity_attr("instance").unwrap();
            assert_eq!(target.target_revision_seq, Some(k as u64));
        }
    }
}
