//! Instances and step records as revisions in the store.

use crate::attributes::{read_status, required_content_attr, required_entity_attr};
use crate::entities::WorkflowInstance;
use crate::error::WorkflowError;
use crate::ids::{Sha256, Uuid};
use crate::status::InstanceStatus;
use crate::step::StepRecordWrite;
use crate::store::{
    EntityRefValue, EntityRow, RevisionInput, RevisionRow, RevisionView, ScalarValue, StoreError,
};
use vstd::prelude::*;

verus! {

/// Whether the entity found is an instance, or the error for what it is.
pub open spec fn instance_entity(
    found: Result<Option<EntityRow>, StoreError>,
    instance_id: Uuid,
) -> Result<(), WorkflowError> {
    match found {
        Err(error) => Err(WorkflowError::Store(error)),
        Ok(None) => Err(WorkflowError::InstanceNotFound { instance_id }),
        Ok(Some(entity)) => if entity.kind.value != WorkflowInstance::KIND {
            Err(
                WorkflowError::EntityKindMismatch {
                    entity_name: WorkflowInstance::NAME,
                    expected: Uuid { value: WorkflowInstance::KIND },
                    actual: entity.kind,
                },
            )
        } else {
            Ok(())
        },
    }
}

/// Checks that the entity found is an instance.
pub fn check_instance_entity(
    found: Result<Option<EntityRow>, StoreError>,
    instance_id: Uuid,
) -> (r: Result<(), WorkflowError>)
    ensures
        r == instance_entity(found, instance_id),
{
    match found {
        Err(error) => Err(WorkflowError::Store(error)),
        Ok(None) => Err(WorkflowError::InstanceNotFound { instance_id }),
        Ok(Some(entity)) => {
            if entity.kind.value != WorkflowInstance::KIND {
                Err(
                    WorkflowError::EntityKindMismatch {
                        entity_name: WorkflowInstance::NAME,
                        expected: Uuid::from_u128(WorkflowInstance::KIND),
                        actual: entity.kind,
                    },
                )
            } else {
                Ok(())
            }
        },
    }
}

/// The instance's latest revision, or the error for its absence.
pub open spec fn instance_revision(
    found: Result<Option<RevisionRow>, StoreError>,
    instance_id: Uuid,
) -> Result<RevisionRow, WorkflowError> {
    match found {
        Err(error) => Err(WorkflowError::Store(error)),
        Ok(None) => Err(WorkflowError::InstanceRevisionMissing { instance_id }),
        Ok(Some(latest)) => Ok(latest),
    }
}

/// The revision of an instance with this context, these arguments, bound to
/// this template and this tenant, in this status.
pub open spec fn instance_value(
    context: Sha256,
    args: Sha256,
    template: EntityRefValue,
    tenant: EntityRefValue,
    status: InstanceStatus,
) -> RevisionView {
    RevisionView {
        content: map!["context"@ => context, "args"@ => args],
        entity: map!["template"@ => template, "tenant"@ => tenant],
        scalar: map!["status"@ => ScalarValue::I64(status.discriminant())],
    }
}

/// Makes the revision of an instance.
pub fn instance_revision_input(
    context: Sha256,
    args: Sha256,
    template: EntityRefValue,
    tenant: EntityRefValue,
    status: InstanceStatus,
) -> (r: RevisionInput)
    ensures
        r@ == instance_value(context, args, template, tenant, status),
{
    RevisionInput::new()
        .with_content("context", context)
        .with_content("args", args)
        .with_entity("template", template)
        .with_entity("tenant", tenant)
        .with_scalar("status", ScalarValue::I64(status.as_i64()))
}

/// The revision that follows an instance's latest one, and its sequence number:
/// with a context and a status of its own, and the arguments, the template and
/// the tenant as they were.
pub open spec fn instance_successor(
    latest: RevisionRow,
    context: Sha256,
    status: InstanceStatus,
) -> Result<(u64, RevisionView), WorkflowError> {
    match (
        latest@.required_content(WorkflowInstance::NAME, "args"),
        latest@.required_entity(WorkflowInstance::NAME, "template"),
        latest@.required_entity(WorkflowInstance::NAME, "tenant"),
    ) {
        (Err(error), _, _) => Err(error),
        (_, Err(error), _) => Err(error),
        (_, _, Err(error)) => Err(error),
        (Ok(args), Ok(template), Ok(tenant)) => if latest.revision_seq == u64::MAX {
            Err(WorkflowError::IntegerOverflow { field: "instance_revision_seq" })
        } else {
            Ok(
                (
                    (latest.revision_seq + 1) as u64,
                    instance_value(context, args, template, tenant, status),
                ),
            )
        },
    }
}

/// A successor made, against the one that had to be made.
pub open spec fn successor_made(
    r: Result<(u64, RevisionInput), WorkflowError>,
    wanted: Result<(u64, RevisionView), WorkflowError>,
) -> bool {
    match wanted {
        Err(error) => r is Err && r->Err_0 == error,
        Ok((seq, view)) => r is Ok && r->Ok_0.0 == seq && r->Ok_0.1@ == view,
    }
}

/// Makes the revision that follows an instance's latest one.
pub fn next_instance_revision(
    latest: &RevisionRow,
    context: Sha256,
    status: InstanceStatus,
) -> (r: Result<(u64, RevisionInput), WorkflowError>)
    ensures
        successor_made(r, instance_successor(*latest, context, status)),
{
    let args = match required_content_attr(latest, WorkflowInstance::NAME, "args") {
        Err(error) => {
            return Err(error);
        },
        Ok(args) => args,
    };
    let template = match required_entity_attr(latest, WorkflowInstance::NAME, "template") {
        Err(error) => {
            return Err(error);
        },
        Ok(template) => template,
    };
    let tenant = match required_entity_attr(latest, WorkflowInstance::NAME, "tenant") {
        Err(error) => {
            return Err(error);
        },
        Ok(tenant) => tenant,
    };
    match latest.revision_seq.checked_add(1) {
        None => Err(WorkflowError::IntegerOverflow { field: "instance_revision_seq" }),
        Some(seq) => Ok((seq, instance_revision_input(context, args, template, tenant, status))),
    }
}

/// The status of an instance that is still live, or the error for one that is
/// not, or whose status cannot be told.
pub open spec fn live_status(
    latest: RevisionRow,
    instance_id: Uuid,
) -> Result<InstanceStatus, WorkflowError> {
    match latest@.status() {
        Err(error) => Err(error),
        Ok(status) => if status.terminal() {
            Err(WorkflowError::InstanceTerminal { instance_id, status })
        } else {
            Ok(status)
        },
    }
}

/// Reads the status of an instance that must still be live.
pub fn read_live_status(latest: &RevisionRow, instance_id: Uuid) -> (r: Result<
    InstanceStatus,
    WorkflowError,
>)
    ensures
        r == live_status(*latest, instance_id),
{
    match read_status(latest) {
        Err(error) => Err(error),
        Ok(status) => {
            if status.is_terminal() {
                Err(WorkflowError::InstanceTerminal { instance_id, status })
            } else {
                Ok(status)
            }
        },
    }
}

/// The message for a number that is too large for 64 bits with a sign.
pub uninterp spec fn conversion_message(value: u64) -> Seq<char>;

/// `i64::try_from` of a `u64`: the same number where it fits, otherwise an
/// error, whose message hangs on the number alone.
#[verifier::external_body]
fn convert_to_i64(value: u64) -> (r: Result<i64, String>)
    ensures
        value <= i64::MAX ==> r is Ok && r->Ok_0 == value,
        value > i64::MAX ==> r is Err && r->Err_0@ == conversion_message(value),
{
    i64::try_from(value).map_err(|error| error.to_string())
}

/// The revision of a step record: the input and the subject, the instance
/// pinned at its revision before the step, the step's number and outcome, and
/// the output or the error where there is one.
pub open spec fn record_value(write: StepRecordWrite) -> RevisionView {
    let kept = map!["input"@ => write.input_hash, "subject"@ => write.subject_hash];
    let with_output = match write.output_hash {
        None => kept,
        Some(hash) => kept.insert("output"@, hash),
    };
    RevisionView {
        content: match write.error_hash {
            None => with_output,
            Some(hash) => with_output.insert("error"@, hash),
        },
        entity: map![
            "instance"@ => EntityRefValue {
                target_entity_id: write.instance_id.spec_internal(),
                target_revision_seq: Some(write.instance_revision_seq),
            },
        ],
        scalar: map![
            "step_seq"@ => ScalarValue::I64(write.step_seq as i64),
            "outcome"@ => ScalarValue::I64(write.outcome.discriminant()),
        ],
    }
}

/// Makes the revision of a step record; a step number must fit 64 bits with a
/// sign.
pub fn step_record_revision(write: StepRecordWrite) -> (r: Result<RevisionInput, WorkflowError>)
    ensures
        write.step_seq <= i64::MAX ==> r is Ok && r->Ok_0@ == record_value(write),
        write.step_seq > i64::MAX ==> {
            &&& r matches Err(WorkflowError::IntegerConversion { field, detail })
            &&& field == "step_seq"
            &&& detail@ == conversion_message(write.step_seq)
        },
{
    let step_seq: i64 = match convert_to_i64(write.step_seq) {
        Err(detail) => {
            return Err(WorkflowError::IntegerConversion { field: "step_seq", detail });
        },
        Ok(step_seq) => step_seq,
    };
    let mut revision = RevisionInput::new()
        .with_content("input", write.input_hash)
        .with_content("subject", write.subject_hash)
        .with_entity(
            "instance",
            EntityRefValue {
                target_entity_id: write.instance_id.internal(),
                target_revision_seq: Some(write.instance_revision_seq),
            },
        )
        .with_scalar("step_seq", ScalarValue::I64(step_seq))
        .with_scalar("outcome", ScalarValue::I64(write.outcome.as_i64()));
    if let Some(hash) = write.output_hash {
        revision = revision.with_content("output", hash);
    }
    if let Some(hash) = write.error_hash {
        revision = revision.with_content("error", hash);
    }
    Ok(revision)
}

} // verus!
