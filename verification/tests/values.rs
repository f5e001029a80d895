use philharmonic_workflow::attributes::{
    bool_attr, ensure_transition, optional_content_attr, read_status, required_content_attr,
    required_entity_attr,
};
use philharmonic_workflow::canonical::{canonical_to_json, decode_json_content, parse_json};
use philharmonic_workflow::corpus::{corpus_items_to_json, decode_corpus, CorpusItem};
use philharmonic_workflow::data::{build_script_data, DataProgress};
use philharmonic_workflow::entities::{EntitySlot, ScalarSlot, ScalarType};
use philharmonic_workflow::error::Utf8Error;
use philharmonic_workflow::ids::IdentityKindError;
use philharmonic_workflow::instance::{
    instance_revision_input, next_instance_revision, step_record_revision,
};
use philharmonic_workflow::plan::{make_script_argument, plan_step};
use philharmonic_workflow::step::{parse_executor_result, StepRecordWrite};
use philharmonic_workflow::text::{decimal, signed_decimal};
use philharmonic_workflow::{
    CanonError, CanonicalJson, ConfigLoweringError, EntityId, EntityRefValue, Identity,
    InstanceStatus, JsonValue, RevisionRow, ScalarValue, Sha256, StepExecutionError, StepOutcome,
    StepRecord, StoreError, Tenant, Uuid, WorkflowError, WorkflowInstance, WorkflowTemplate,
};
use serde_json::Value;

fn json(text: &str) -> Value {
    serde_json::from_str(text).unwrap()
}

fn value(text: &str) -> JsonValue {
    JsonValue::from_serde(json(text))
}

fn hash(byte: u8) -> Sha256 {
    Sha256 { bytes: [byte; 32] }
}

fn identity(seed: u128) -> Identity {
    Identity {
        internal: Uuid::from_u128((7 << 76) | seed),
        public: Uuid::from_u128((4 << 76) | seed),
    }
}

#[test]
fn json_crosses_to_serde_and_back() {
    let text = r#"{"z": [1, -2, 2.5, 18446744073709551615], "a": {"n": null, "t": true}, "s": "é"}"#;
    let inside = value(text);
    assert_eq!(inside.to_serde(), json(text));
    assert_eq!(inside.clone().to_serde(), json(text));
    match &inside {
        JsonValue::Object(fields) => {
            let names: Vec<&str> = fields.iter().map(|(name, _)| name.as_str()).collect();
            assert_eq!(names, ["a", "s", "z"]);
        }
        other => panic!("expected an object, got {other:?}"),
    }
}

#[test]
fn json_fields_are_found_by_name() {
    let object = value(r#"{"a": 1, "b": {"c": "d"}}"#);
    assert_eq!(object.get("a").unwrap().to_serde(), json("1"));
    assert_eq!(object.get("b").unwrap().get("c").unwrap().to_serde(), json(r#""d""#));
    assert!(object.get("c").is_none());
    assert!(value("[1]").get("0").is_none());
    assert!(value("null").get("a").is_none());
}

#[test]
fn later_json_field_counts() {
    let twice = JsonValue::Object(vec![
        ("a".to_string(), JsonValue::integer(1)),
        ("b".to_string(), JsonValue::Null),
        ("a".to_string(), JsonValue::integer(2)),
    ]);
    assert_eq!(twice.get("a").unwrap().to_serde(), json("2"));
    assert_eq!(twice.to_serde(), json(r#"{"a": 2, "b": null}"#));
}

#[test]
fn canonical_form_sorts_and_strips() {
    let canonical = CanonicalJson::from_value(&value(r#"{ "b": [1, 2.0], "a": "x" }"#)).unwrap();
    assert_eq!(canonical.as_bytes(), br#"{"a":"x","b":[1,2]}"#);
    let again = CanonicalJson::from_bytes(br#" {"b":[1,2.0],"a":"x"} "#).unwrap();
    assert_eq!(again.as_bytes(), canonical.as_bytes());
    assert_eq!(canonical.digest(), Sha256::of(br#"{"a":"x","b":[1,2]}"#));
    assert_eq!(canonical.duplicate().into_bytes(), br#"{"a":"x","b":[1,2]}"#);
    let outside = philharmonic_types::CanonicalJson::from_bytes(b"[ 1, 2.50 ]").unwrap();
    assert_eq!(CanonicalJson::from_outside(outside).as_bytes(), b"[1,2.5]");
}

#[test]
fn bad_json_is_reported_in_serde_words() {
    let inner = serde_json::from_slice::<Value>(b"[1,").unwrap_err().to_string();
    assert_eq!(parse_json(b"[1,").unwrap_err(), inner);
    let error = CanonicalJson::from_bytes(b"[1,").unwrap_err();
    assert_eq!(error, CanonError { detail: inner.clone() });
    assert_eq!(error.message(), format!("invalid JSON: {inner}"));
    let mut deep = JsonValue::Null;
    for _ in 0..128 {
        deep = JsonValue::Array(vec![deep]);
    }
    let deep = CanonicalJson::from_value(&deep).unwrap();
    let limit = serde_json::from_slice::<Value>(deep.as_bytes()).unwrap_err();
    assert_eq!(
        canonical_to_json(&deep).unwrap_err().message(),
        format!("json error: failed to parse canonical JSON: {limit}")
    );
    assert_eq!(
        decode_json_content(b"[1,").unwrap_err().message(),
        format!("store error: content decode failed: content bytes are not valid JSON: {inner}")
    );
    assert_eq!(decode_json_content(b"[ 1 ]").unwrap().to_serde(), json("[1]"));
    assert_eq!(parse_json(b"{\"k\": [1]}").unwrap().to_serde(), json(r#"{"k": [1]}"#));
}

#[test]
fn digests_are_sha256() {
    assert_eq!(
        Sha256::of(b"abc").to_text(),
        "ba7816bf8f01cfea414140de5dae2223b00361a396177a9cb410ff61f20015ad"
    );
}

#[test]
fn identifiers_have_text() {
    let id = Uuid::from_u128(WorkflowTemplate::KIND);
    assert_eq!(id.to_text(), "bf6b3627-572b-4727-9355-67304ab8a0e9");
    assert_eq!(Uuid::parse("bf6b3627-572b-4727-9355-67304ab8a0e9"), Ok(id));
    assert_eq!(Uuid::parse("BF6B3627572B4727935567304AB8A0E9"), Ok(id));
    let error = "bf6b".parse::<philharmonic_types::Uuid>().unwrap_err();
    assert_eq!(Uuid::parse("bf6b"), Err(error.to_string()));
    assert_eq!(
        Uuid::from_u128(WorkflowInstance::KIND).to_text(),
        "ec5459ac-44db-4551-9464-e6c6dad8f58f"
    );
    assert_eq!(
        Uuid::from_u128(StepRecord::KIND).to_text(),
        "586f37e3-43a7-4f66-b7ab-d4e9b7ac123a"
    );
}

#[test]
fn identities_are_checked_internal_first() {
    let good: EntityId<Tenant> = identity(1).typed().unwrap();
    assert_eq!(good.untyped(), identity(1));
    assert_eq!(good.internal(), identity(1).internal);
    assert_eq!(good.public(), identity(1).public);
    let both = Identity { internal: Uuid::from_u128(0), public: Uuid::from_u128(0) };
    let error = both.typed::<Tenant>().unwrap_err();
    assert_eq!(error, IdentityKindError::Internal { expected: 7, actual: 0 });
    let public = Identity { internal: identity(1).internal, public: Uuid::from_u128(15 << 76) };
    let error = public.typed::<Tenant>().unwrap_err();
    assert_eq!(error, IdentityKindError::Public { expected: 4, actual: 15 });
    assert_eq!(
        error.message(),
        "public ID is not UUIDv4: UUID version mismatch: expected v4, got v15"
    );
}

#[test]
fn numbers_are_written_in_decimal() {
    assert_eq!(decimal(0), "0");
    assert_eq!(decimal(90210), "90210");
    assert_eq!(decimal(u64::MAX), u64::MAX.to_string());
    assert_eq!(signed_decimal(i64::MIN), i64::MIN.to_string());
    assert_eq!(signed_decimal(-7), "-7");
    assert_eq!(signed_decimal(42), "42");
}

#[test]
fn executor_results_are_taken_apart() {
    let parsed =
        parse_executor_result(&value(r#"{"context": {"a": 1}, "output": 2, "done": true}"#));
    let parsed = parsed.unwrap();
    assert_eq!(parsed.context.to_serde(), json(r#"{"a": 1}"#));
    assert_eq!(parsed.output.to_serde(), json("2"));
    assert!(parsed.done);
    let parsed = parse_executor_result(&value(r#"{"context": null, "output": null}"#)).unwrap();
    assert!(!parsed.done);
    for (text, wanted) in [
        ("{}", "executor result missing required field 'context'"),
        ("[1]", "executor result missing required field 'context'"),
        (r#"{"output": 1}"#, "executor result missing required field 'context'"),
        (r#"{"context": 1}"#, "executor result missing required field 'output'"),
        (
            r#"{"context": 1, "output": 1, "done": "yes"}"#,
            "executor result field 'done' must be boolean",
        ),
        (
            r#"{"context": 1, "output": 1, "done": null}"#,
            "executor result field 'done' must be boolean",
        ),
    ] {
        assert_eq!(parse_executor_result(&value(text)).unwrap_err(), wanted);
    }
}

#[test]
fn corpora_become_json() {
    let bytes = philharmonic_policy::encode_corpus(&[philharmonic_policy::CorpusItem {
        id: "doc".to_string(),
        vector: vec![0.25, -3.0],
        payload: Some(json(r#"{"k": [1]}"#)),
    }])
    .unwrap();
    let items = decode_corpus(&bytes).unwrap();
    assert_eq!(items.len(), 1);
    assert_eq!(items[0].id, "doc");
    assert_eq!(
        corpus_items_to_json(&items).unwrap().to_serde(),
        json(r#"[{"id": "doc", "vector": [0.25, -3.0], "payload": {"k": [1]}}]"#)
    );
    let text = philharmonic_policy::decode_corpus(b"??").unwrap_err().to_string();
    assert_eq!(decode_corpus(b"??").unwrap_err(), text);
}

#[test]
fn infinite_corpus_vectors_are_rejected() {
    let number = serde_json::Number::from_f64(1.0);
    assert!(serde_json::Number::from_f64(f64::NAN).is_none());
    let items = vec![
        CorpusItem { id: "fine".to_string(), vector: vec![number.clone()], payload: None },
        CorpusItem { id: "bad".to_string(), vector: vec![number, None], payload: None },
        CorpusItem { id: "worse".to_string(), vector: vec![None], payload: None },
    ];
    match corpus_items_to_json(&items) {
        Err(WorkflowError::DataConfigInvalid { detail }) => {
            assert_eq!(detail, "corpus item bad contains a non-finite vector value");
        }
        other => panic!("expected DataConfigInvalid, got {other:?}"),
    }
}

fn instance_row() -> RevisionRow {
    let template = EntityRefValue {
        target_entity_id: Uuid::from_u128(3),
        target_revision_seq: Some(9),
    };
    let tenant = EntityRefValue { target_entity_id: Uuid::from_u128(4), target_revision_seq: None };
    let input =
        instance_revision_input(hash(1), hash(2), template, tenant, InstanceStatus::Running);
    RevisionRow {
        revision_seq: 6,
        content_attrs: input.content_attrs,
        entity_attrs: input.entity_attrs,
        scalar_attrs: input.scalar_attrs,
    }
}

#[test]
fn instance_revisions_read_back() {
    let row = instance_row();
    assert_eq!(read_status(&row).unwrap(), InstanceStatus::Running);
    assert_eq!(required_content_attr(&row, "x", "context").unwrap(), hash(1));
    assert_eq!(required_content_attr(&row, "x", "args").unwrap(), hash(2));
    assert_eq!(optional_content_attr(&row, "args"), Some(hash(2)));
    assert_eq!(optional_content_attr(&row, "data_config"), None);
    let template = required_entity_attr(&row, "x", "template").unwrap();
    assert_eq!(template.target_revision_seq, Some(9));
    assert!(matches!(
        bool_attr(&row, "x", "status"),
        Err(WorkflowError::InvalidScalarType { entity_name: "x", attribute: "status", .. })
    ));
    let plan = plan_step(&row, Uuid::from_u128(1)).unwrap();
    assert_eq!(plan.step_seq, 7);
    assert_eq!(plan.template_id, Uuid::from_u128(3));
    assert_eq!(plan.template_seq, 9);
    assert_eq!(plan.tenant, Uuid::from_u128(4));
}

#[test]
fn successors_change_context_and_status_only() {
    let row = instance_row();
    let (seq, input) = next_instance_revision(&row, hash(8), InstanceStatus::Cancelled).unwrap();
    assert_eq!(seq, 7);
    let next = RevisionRow {
        revision_seq: seq,
        content_attrs: input.content_attrs,
        entity_attrs: input.entity_attrs,
        scalar_attrs: input.scalar_attrs,
    };
    assert_eq!(next.content_attr("context"), Some(hash(8)));
    assert_eq!(next.content_attr("args"), row.content_attr("args"));
    assert_eq!(next.entity_attr("template"), row.entity_attr("template"));
    assert_eq!(next.entity_attr("tenant"), row.entity_attr("tenant"));
    assert!(matches!(
        plan_step(&next, Uuid::from_u128(1)),
        Err(WorkflowError::InstanceTerminal { status: InstanceStatus::Cancelled, .. })
    ));
    let mut last = instance_row();
    last.revision_seq = u64::MAX;
    assert!(matches!(
        next_instance_revision(&last, hash(8), InstanceStatus::Running),
        Err(WorkflowError::IntegerOverflow { field: "instance_revision_seq" })
    ));
}

#[test]
fn step_records_read_back() {
    let write = StepRecordWrite {
        instance_id: identity(5).typed().unwrap(),
        instance_revision_seq: 2,
        step_seq: 3,
        input_hash: hash(1),
        subject_hash: hash(2),
        outcome: StepOutcome::Failure,
        output_hash: None,
        error_hash: Some(hash(3)),
    };
    let input = step_record_revision(write).unwrap();
    let row = RevisionRow {
        revision_seq: 0,
        content_attrs: input.content_attrs,
        entity_attrs: input.entity_attrs,
        scalar_attrs: input.scalar_attrs,
    };
    assert_eq!(row.content_attr("input"), Some(hash(1)));
    assert_eq!(row.content_attr("subject"), Some(hash(2)));
    assert_eq!(row.content_attr("error"), Some(hash(3)));
    assert_eq!(row.content_attr("output"), None);
    assert_eq!(row.scalar_attr("step_seq"), Some(ScalarValue::I64(3)));
    assert_eq!(row.scalar_attr("outcome"), Some(ScalarValue::I64(1)));
    let instance = row.entity_attr("instance").unwrap();
    assert_eq!(instance.target_entity_id, identity(5).internal);
    assert_eq!(instance.target_revision_seq, Some(2));
}

#[test]
fn transitions_outside_the_lifecycle_are_refused() {
    let id = Uuid::from_u128(6);
    assert!(ensure_transition(InstanceStatus::Running, InstanceStatus::Failed, id).is_ok());
    let error = ensure_transition(InstanceStatus::Failed, InstanceStatus::Running, id).unwrap_err();
    assert_eq!(
        error.message(),
        "invalid workflow transition for 00000000-0000-0000-0000-000000000006: Failed -> Running"
    );
    assert!(!error.is_retryable());
}

#[test]
fn script_arguments_have_six_fields() {
    let arg = make_script_argument(
        value("1"),
        value("2"),
        value("3"),
        value("4"),
        value("5"),
        Uuid::from_u128(1),
        9,
    );
    assert_eq!(
        arg.to_serde(),
        json(
            r#"{"context": 1, "args": 2, "input": 3, "subject": 4, "data": 5,
                "instance": {"id": "00000000-0000-0000-0000-000000000001", "step": 9}}"#
        )
    );
}

#[test]
fn data_of_a_template_without_bindings_is_empty() {
    match build_script_data(&instance_row(), Uuid::from_u128(1)) {
        DataProgress::Finished(Ok(data)) => assert_eq!(data.to_serde(), json("{}")),
        other => panic!("expected data, got {other:?}"),
    }
}

#[test]
fn entities_declare_their_attributes() {
    assert_eq!(WorkflowTemplate::content_slots(), ["script", "config", "data_config"]);
    assert_eq!(WorkflowInstance::content_slots(), ["context", "args"]);
    assert_eq!(StepRecord::content_slots(), ["input", "output", "error", "subject"]);
    let tenant =
        EntitySlot { name: "tenant", target: Uuid::from_u128(Tenant::KIND), pinned: true };
    assert_eq!(WorkflowTemplate::entity_slots(), [tenant]);
    assert_eq!(WorkflowInstance::entity_slots()[1], tenant);
    assert_eq!(StepRecord::entity_slots()[0].target, Uuid::from_u128(WorkflowInstance::KIND));
    assert_eq!(
        WorkflowTemplate::scalar_slots(),
        [ScalarSlot { name: "is_retired", ty: ScalarType::Bool, indexed: true }]
    );
    assert_eq!(WorkflowInstance::scalar_slots()[0].name, "status");
    assert_eq!(StepRecord::scalar_slots().len(), 2);
}

#[test]
fn errors_have_messages() {
    let id = Uuid::from_u128(1);
    let text = "00000000-0000-0000-0000-000000000001";
    let cases = vec![
        (WorkflowError::TemplateNotFound { template_id: id }, format!("workflow template not found: {text}")),
        (
            WorkflowError::TemplateRevisionNotFound { template_id: id, revision_seq: 12 },
            format!("workflow template revision not found: {text}@12"),
        ),
        (WorkflowError::InstanceNotFound { instance_id: id }, format!("workflow instance not found: {text}")),
        (
            WorkflowError::InstanceRevisionMissing { instance_id: id },
            format!("workflow instance has no revisions: {text}"),
        ),
        (
            WorkflowError::MissingContentAttribute { entity_name: "e", attribute: "a" },
            "missing content attribute 'a' on e".to_string(),
        ),
        (
            WorkflowError::MissingEntityAttribute { entity_name: "e", attribute: "a" },
            "missing entity attribute 'a' on e".to_string(),
        ),
        (
            WorkflowError::MissingScalarAttribute { entity_name: "e", attribute: "a" },
            "missing scalar attribute 'a' on e".to_string(),
        ),
        (
            WorkflowError::MissingContentBlob { entity_name: "e", attribute: "a", hash: hash(0xab) },
            format!("missing content blob for e.a: {}", "ab".repeat(32)),
        ),
        (
            WorkflowError::InvalidScalarType {
                entity_name: "e",
                attribute: "a",
                expected: "i64",
                actual: "bool",
            },
            "invalid scalar type for 'a' on e: expected i64, found bool".to_string(),
        ),
        (
            WorkflowError::InvalidInstanceStatusDiscriminant { value: -3 },
            "invalid instance status discriminant: -3".to_string(),
        ),
        (
            WorkflowError::InstanceTerminal { instance_id: id, status: InstanceStatus::Completed },
            format!("workflow instance is terminal: {text} (Completed)"),
        ),
        (
            WorkflowError::TemplateTenantMismatch {
                template_id: id,
                instance_id: id,
                template_tenant: id,
                instance_tenant: id,
            },
            format!(
                "template tenant mismatch for instance {text}: template {text} has tenant {text}, instance has tenant {text}"
            ),
        ),
        (
            WorkflowError::MissingPinnedReference { entity_name: "e", attribute: "a" },
            "expected pinned entity reference for e.a".to_string(),
        ),
        (
            WorkflowError::EntityKindMismatch { entity_name: "e", expected: id, actual: id },
            format!("entity kind mismatch for e: expected {text}, found {text}"),
        ),
        (
            WorkflowError::ScriptUtf8(Utf8Error { valid_up_to: 3, error_len: None }),
            "invalid UTF-8 in script content".to_string(),
        ),
        (WorkflowError::Json { detail: "d".to_string() }, "json error: d".to_string()),
        (
            WorkflowError::Canonical(CanonError { detail: "d".to_string() }),
            "canonical JSON error: invalid JSON: d".to_string(),
        ),
        (
            WorkflowError::StepExecutionFailed { detail: "d".to_string() },
            "step execution failed: d".to_string(),
        ),
        (
            WorkflowError::IntegerOverflow { field: "f" },
            "integer overflow while computing f".to_string(),
        ),
        (
            WorkflowError::IntegerConversion { field: "f", detail: "d".to_string() },
            "integer conversion failed for f: d".to_string(),
        ),
    ];
    for (error, wanted) in cases {
        assert_eq!(error.message(), wanted);
        assert!(!error.is_retryable());
    }
    let invalid = WorkflowError::DataConfigInvalid { detail: "d".to_string() };
    assert!(invalid.message().ends_with(": d"));
    assert!(!invalid.is_retryable());
    let unreachable = WorkflowError::ExecutorUnreachable { detail: "d".to_string() };
    assert_eq!(unreachable.message(), "executor unreachable: d");
    assert!(unreachable.is_retryable());
}

#[test]
fn execution_and_lowering_errors_say_whether_to_retry() {
    let transport = StepExecutionError::Transport("t".to_string());
    assert!(transport.is_retryable());
    assert_eq!(transport.message(), "executor transport failure: t");
    let script = StepExecutionError::ScriptError("s".to_string());
    assert!(!script.is_retryable());
    assert_eq!(script.message(), "script execution failed: s");
    let backend = ConfigLoweringError::Backend("b".to_string());
    assert!(backend.is_retryable());
    assert_eq!(backend.message(), "lowerer backend failure: b");
    let invalid = ConfigLoweringError::InvalidConfig("i".to_string());
    assert!(!invalid.is_retryable());
    assert_eq!(invalid.message(), "invalid abstract config: i");
}

#[test]
fn store_errors_agree_with_the_store() {
    let id = Uuid::from_u128(1);
    let outside = philharmonic_types::Uuid::from_u128(1);
    let cases = vec![
        (
            StoreError::KindMismatch { expected: id, actual: id },
            philharmonic_store::StoreError::KindMismatch { expected: outside, actual: outside },
        ),
        (
            StoreError::ScalarTypeMismatch {
                attribute_name: "a".to_string(),
                detail: "d".to_string(),
            },
            philharmonic_store::StoreError::ScalarTypeMismatch {
                attribute_name: "a".to_string(),
                detail: "d".to_string(),
            },
        ),
        (
            StoreError::RevisionConflict { entity_id: id, revision_seq: 44 },
            philharmonic_store::StoreError::RevisionConflict {
                entity_id: outside,
                revision_seq: 44,
            },
        ),
        (
            StoreError::IdentityCollision { uuid: id },
            philharmonic_store::StoreError::IdentityCollision { uuid: outside },
        ),
        (
            StoreError::EntityNotFound { entity_id: id },
            philharmonic_store::StoreError::EntityNotFound { entity_id: outside },
        ),
    ];
    for (inside, outside) in cases {
        assert_eq!(inside.message(), outside.to_string());
        assert_eq!(inside.is_retryable(), outside.is_retryable());
    }
    let backend = StoreError::Backend { message: "m".to_string(), retryable: false };
    let outside: philharmonic_store::StoreError =
        philharmonic_store::BackendError::new("m", false).into();
    assert_eq!(backend.message(), outside.to_string());
    assert_eq!(backend.message(), "backend error: m");
    assert!(!backend.is_retryable());
    let decode = StoreError::Decode { detail: "d".to_string() };
    assert_eq!(decode.message(), "content decode failed: d");
    assert!(!decode.is_retryable());
    let pair = StoreError::IdentityKind { detail: "d".to_string() };
    assert_eq!(pair.message(), "identity version mismatch in storage: d");
    let one = StoreError::IdKind { detail: "d".to_string() };
    assert_eq!(one.message(), "UUID version mismatch in storage: d");
}

#[test]
fn errors_convert_into_workflow_errors() {
    let error: WorkflowError = StoreError::IdentityCollision { uuid: Uuid::from_u128(1) }.into();
    assert!(matches!(error, WorkflowError::Store(_)));
    let error: WorkflowError = ConfigLoweringError::Backend("b".to_string()).into();
    assert!(matches!(error, WorkflowError::ConfigLowering(_)));
    let error: WorkflowError = CanonError { detail: "d".to_string() }.into();
    assert!(matches!(error, WorkflowError::Canonical(_)));
    let error: WorkflowError = Utf8Error { valid_up_to: 1, error_len: Some(1) }.into();
    assert!(matches!(error, WorkflowError::ScriptUtf8(_)));
}

#[test]
fn plain_json_reads_back_as_written() {
    for text in [
        "{}",
        "null",
        r#"{"b": [true, null, "\u0001\n\"\\ \u00e9 \ud83d\ude00"], "a": {"": 0}}"#,
        "[9007199254740991, -9007199254740991, 7]",
    ] {
        let canonical = CanonicalJson::from_value(&value(text)).unwrap();
        assert_eq!(parse_json(canonical.as_bytes()).unwrap().to_serde(), json(text));
        assert_eq!(decode_json_content(canonical.as_bytes()).unwrap().to_serde(), json(text));
        let again = CanonicalJson::from_bytes(canonical.as_bytes()).unwrap();
        assert_eq!(again, canonical);
    }
    let mut deepest = JsonValue::Null;
    for _ in 0..127 {
        deepest = JsonValue::Array(vec![deepest]);
    }
    let canonical = CanonicalJson::from_value(&deepest).unwrap();
    assert_eq!(
        decode_json_content(canonical.as_bytes()).unwrap().to_serde(),
        deepest.to_serde()
    );
    let too_deep = CanonicalJson::from_value(&JsonValue::Array(vec![deepest])).unwrap();
    assert!(decode_json_content(too_deep.as_bytes()).is_err());
}

#[test]
fn canonical_forms_stay_as_they_are() {
    for text in [
        "[0.1, 1.5e300, 5e-324, 1e21, 123456789012345680000, -0.0, 2.0]",
        "[9007199254740993, 18446744073709551615, -9223372036854775808, 9223372036854775809]",
        "[0.30000000000000004, 2.2250738585072014e-308, 1.7976931348623157e308, 4.35]",
        r#"{"\ufb33": 1, "\ud83d\ude00": 2, "a": -1e-7}"#,
    ] {
        let canonical = CanonicalJson::from_value(&value(text)).unwrap();
        let again = CanonicalJson::from_bytes(canonical.as_bytes()).unwrap();
        assert_eq!(again, canonical);
        let held = serde_json::from_slice::<Value>(canonical.as_bytes()).unwrap();
        assert_eq!(decode_json_content(canonical.as_bytes()).unwrap().to_serde(), held);
    }
}
