//! What a step works with: what the instance's latest revision and its template
//! say.

use crate::attributes::{required_content_attr, required_entity_attr};
use crate::entities::{WorkflowInstance, WorkflowTemplate};
use crate::error::{Utf8Error, WorkflowError};
use crate::ids::{Sha256, Uuid};
use crate::instance::{live_status, read_live_status};
use crate::json::{push_field, JsonValue, JsonView, NumberView};
use crate::status::InstanceStatus;
use crate::store::{EntityRow, RevisionRow, StoreError};
use vstd::prelude::*;
use vstd::utf8::{encode_utf8, valid_utf8};

verus! {

/// What an instance's latest revision says of its next step.
#[derive(Clone, Copy, Debug)]
pub struct StepPlan {
    /// The instance's status before the step.
    pub status: InstanceStatus,
    /// The step's number.
    pub step_seq: u64,
    /// The template.
    pub template_id: Uuid,
    /// The revision of the template that the instance is pinned to.
    pub template_seq: u64,
    /// The instance's tenant.
    pub tenant: Uuid,
}

/// The plan for the next step of an instance: it must be live, be pinned to a
/// revision of a template, and have a tenant. A step has the number of the
/// revision that it is to make.
pub open spec fn step_plan(latest: RevisionRow, instance_id: Uuid) -> Result<
    StepPlan,
    WorkflowError,
> {
    match live_status(latest, instance_id) {
        Err(error) => Err(error),
        Ok(status) => if latest.revision_seq == u64::MAX {
            Err(WorkflowError::IntegerOverflow { field: "step_seq" })
        } else {
            match latest@.required_entity(WorkflowInstance::NAME, "template") {
                Err(error) => Err(error),
                Ok(template) => match template.target_revision_seq {
                    None => Err(
                        WorkflowError::MissingPinnedReference {
                            entity_name: WorkflowInstance::NAME,
                            attribute: "template",
                        },
                    ),
                    Some(template_seq) => match latest@.required_entity(
                        WorkflowInstance::NAME,
                        "tenant",
                    ) {
                        Err(error) => Err(error),
                        Ok(tenant) => Ok(
                            StepPlan {
                                status,
                                step_seq: (latest.revision_seq + 1) as u64,
                                template_id: template.target_entity_id,
                                template_seq,
                                tenant: tenant.target_entity_id,
                            },
                        ),
                    },
                },
            }
        },
    }
}

/// Plans the next step of an instance.
pub fn plan_step(latest: &RevisionRow, instance_id: Uuid) -> (r: Result<StepPlan, WorkflowError>)
    ensures
        r == step_plan(*latest, instance_id),
{
    let status = match read_live_status(latest, instance_id) {
        Err(error) => {
            return Err(error);
        },
        Ok(status) => status,
    };
    let step_seq: u64 = match latest.revision_seq.checked_add(1) {
        None => {
            return Err(WorkflowError::IntegerOverflow { field: "step_seq" });
        },
        Some(step_seq) => step_seq,
    };
    let template = match required_entity_attr(latest, WorkflowInstance::NAME, "template") {
        Err(error) => {
            return Err(error);
        },
        Ok(template) => template,
    };
    let template_seq: u64 = match template.target_revision_seq {
        None => {
            return Err(
                WorkflowError::MissingPinnedReference {
                    entity_name: WorkflowInstance::NAME,
                    attribute: "template",
                },
            );
        },
        Some(template_seq) => template_seq,
    };
    match required_entity_attr(latest, WorkflowInstance::NAME, "tenant") {
        Err(error) => Err(error),
        Ok(tenant) => Ok(
            StepPlan {
                status,
                step_seq,
                template_id: template.target_entity_id,
                template_seq,
                tenant: tenant.target_entity_id,
            },
        ),
    }
}

/// Whether the entity found is a template, or the error for what it is.
pub open spec fn template_entity(
    found: Result<Option<EntityRow>, StoreError>,
    template_id: Uuid,
) -> Result<(), WorkflowError> {
    match found {
        Err(error) => Err(WorkflowError::Store(error)),
        Ok(None) => Err(WorkflowError::TemplateNotFound { template_id }),
        Ok(Some(entity)) => if entity.kind.value != WorkflowTemplate::KIND {
            Err(
                WorkflowError::EntityKindMismatch {
                    entity_name: WorkflowTemplate::NAME,
                    expected: Uuid { value: WorkflowTemplate::KIND },
                    actual: entity.kind,
                },
            )
        } else {
            Ok(())
        },
    }
}

/// Checks that the entity found is a template.
pub fn check_template_entity(
    found: Result<Option<EntityRow>, StoreError>,
    template_id: Uuid,
) -> (r: Result<(), WorkflowError>)
    ensures
        r == template_entity(found, template_id),
{
    match found {
        Err(error) => Err(WorkflowError::Store(error)),
        Ok(None) => Err(WorkflowError::TemplateNotFound { template_id }),
        Ok(Some(entity)) => {
            if entity.kind.value != WorkflowTemplate::KIND {
                Err(
                    WorkflowError::EntityKindMismatch {
                        entity_name: WorkflowTemplate::NAME,
                        expected: Uuid::from_u128(WorkflowTemplate::KIND),
                        actual: entity.kind,
                    },
                )
            } else {
                Ok(())
            }
        },
    }
}

/// What a template's revision names for a step.
#[derive(Clone, Copy, Debug)]
pub struct TemplateParts {
    /// Digest of the script.
    pub script_hash: Sha256,
    /// Digest of the abstract config.
    pub config_hash: Sha256,
}

/// What a template's revision names for a step of an instance: it must belong
/// to the instance's tenant, and have a script and a config.
pub open spec fn template_parts(template: RevisionRow, plan: StepPlan, instance_id: Uuid) -> Result<
    TemplateParts,
    WorkflowError,
> {
    match template@.required_entity(WorkflowTemplate::NAME, "tenant") {
        Err(error) => Err(error),
        Ok(owner) => if owner.target_entity_id != plan.tenant {
            Err(
                WorkflowError::TemplateTenantMismatch {
                    template_id: plan.template_id,
                    instance_id,
                    template_tenant: owner.target_entity_id,
                    instance_tenant: plan.tenant,
                },
            )
        } else {
            match (
                template@.required_content(WorkflowTemplate::NAME, "script"),
                template@.required_content(WorkflowTemplate::NAME, "config"),
            ) {
                (Err(error), _) => Err(error),
                (_, Err(error)) => Err(error),
                (Ok(script_hash), Ok(config_hash)) => Ok(
                    TemplateParts { script_hash, config_hash },
                ),
            }
        },
    }
}

/// Reads what a template's revision names for a step of an instance.
pub fn read_template_parts(template: &RevisionRow, plan: StepPlan, instance_id: Uuid) -> (r: Result<
    TemplateParts,
    WorkflowError,
>)
    ensures
        r == template_parts(*template, plan, instance_id),
{
    let owner = match required_entity_attr(template, WorkflowTemplate::NAME, "tenant") {
        Err(error) => {
            return Err(error);
        },
        Ok(owner) => owner,
    };
    if owner.target_entity_id != plan.tenant {
        return Err(
            WorkflowError::TemplateTenantMismatch {
                template_id: plan.template_id,
                instance_id,
                template_tenant: owner.target_entity_id,
                instance_tenant: plan.tenant,
            },
        );
    }
    let script_hash = match required_content_attr(template, WorkflowTemplate::NAME, "script") {
        Err(error) => {
            return Err(error);
        },
        Ok(hash) => hash,
    };
    match required_content_attr(template, WorkflowTemplate::NAME, "config") {
        Err(error) => Err(error),
        Ok(config_hash) => Ok(TemplateParts { script_hash, config_hash }),
    }
}

/// The number of bytes up to which `bytes` are valid UTF-8: no longer run of
/// them from the first is.
pub open spec fn is_valid_up_to(bytes: Seq<u8>, count: int) -> bool {
    &&& 0 <= count <= bytes.len()
    &&& valid_utf8(bytes.take(count))
    &&& forall|longer: int|
        count < longer <= bytes.len() ==> !valid_utf8(#[trigger] bytes.take(longer))
}

/// How long the invalid part is at which reading bytes as UTF-8 stops.
pub uninterp spec fn utf8_error_len(bytes: Seq<u8>) -> Option<usize>;

/// `std::str::from_utf8`: the text that the bytes encode, where they are valid
/// UTF-8, otherwise how many of them are, and the length that its error gives
/// of the invalid part, which hangs on the bytes alone.
#[verifier::external_body]
fn text_from_utf8(bytes: &[u8]) -> (r: Result<String, Utf8Error>)
    ensures
        r is Ok <==> valid_utf8(bytes@),
        r matches Ok(text) ==> encode_utf8(text@) == bytes@,
        r matches Err(error) ==> is_valid_up_to(bytes@, error.valid_up_to as int),
        r matches Err(error) ==> error.error_len == utf8_error_len(bytes@),
{
    match std::str::from_utf8(bytes) {
        Ok(text) => Ok(text.to_owned()),
        Err(e) => Err(Utf8Error { valid_up_to: e.valid_up_to(), error_len: e.error_len() }),
    }
}

/// A script read, against the content found: it must be there, and be UTF-8.
pub open spec fn script_read(
    found: Result<Option<Vec<u8>>, StoreError>,
    hash: Sha256,
    r: Result<String, WorkflowError>,
) -> bool {
    match found {
        Err(error) => r is Err && r->Err_0 == WorkflowError::Store(error),
        Ok(None) => r is Err && r->Err_0 == (WorkflowError::MissingContentBlob {
            entity_name: WorkflowTemplate::NAME,
            attribute: "script",
            hash,
        }),
        Ok(Some(bytes)) => if valid_utf8(bytes@) {
            r is Ok && encode_utf8(r->Ok_0@) == bytes@
        } else {
            r matches Err(WorkflowError::ScriptUtf8(error)) && is_valid_up_to(
                bytes@,
                error.valid_up_to as int,
            ) && error.error_len == utf8_error_len(bytes@)
        },
    }
}

/// Reads a script from the content found.
pub fn read_script(found: Result<Option<Vec<u8>>, StoreError>, hash: Sha256) -> (r: Result<
    String,
    WorkflowError,
>)
    ensures
        script_read(found, hash, r),
{
    match found {
        Err(error) => Err(WorkflowError::Store(error)),
        Ok(None) => Err(
            WorkflowError::MissingContentBlob {
                entity_name: WorkflowTemplate::NAME,
                attribute: "script",
                hash,
            },
        ),
        Ok(Some(bytes)) => match text_from_utf8(bytes.as_slice()) {
            Ok(script) => Ok(script),
            Err(error) => Err(WorkflowError::ScriptUtf8(error)),
        },
    }
}

/// The argument of a script: the instance's context and arguments, the step's
/// input, who asks for it, the data, and the instance's public identifier with
/// the step's number.
pub open spec fn script_argument(
    context: JsonView,
    args: JsonView,
    input: JsonView,
    subject: JsonView,
    data: JsonView,
    instance: Uuid,
    step: u64,
) -> JsonView {
    JsonView::Object(
        map![
            "context"@ => context,
            "args"@ => args,
            "input"@ => input,
            "subject"@ => subject,
            "data"@ => data,
            "instance"@ => JsonView::Object(
                map![
                    "id"@ => JsonView::String(instance.text()),
                    "step"@ => JsonView::Number(NumberView::Unsigned(step)),
                ],
            ),
        ],
    )
}

/// Makes the argument of a script.
pub fn make_script_argument(
    context: JsonValue,
    args: JsonValue,
    input: JsonValue,
    subject: JsonValue,
    data: JsonValue,
    instance: Uuid,
    step: u64,
) -> (r: JsonValue)
    ensures
        r@ == script_argument(context@, args@, input@, subject@, data@, instance, step),
{
    let mut running: Vec<(String, JsonValue)> = Vec::new();
    push_field(&mut running, "id", JsonValue::String(instance.to_text()));
    push_field(&mut running, "step", JsonValue::integer(step));
    let mut fields: Vec<(String, JsonValue)> = Vec::new();
    push_field(&mut fields, "context", context);
    push_field(&mut fields, "args", args);
    push_field(&mut fields, "input", input);
    push_field(&mut fields, "subject", subject);
    push_field(&mut fields, "data", data);
    push_field(&mut fields, "instance", JsonValue::Object(running));
    JsonValue::Object(fields)
}

} // verus!
