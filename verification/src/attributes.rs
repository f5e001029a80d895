//! Reading a revision's attributes.

use crate::entities::WorkflowInstance;
use crate::error::WorkflowError;
use crate::ids::{Sha256, Uuid};
use crate::status::InstanceStatus;
use crate::store::{EntityRefValue, RevisionRow, RevisionView, ScalarValue};
use vstd::prelude::*;

verus! {

impl RevisionView {
    /// The content attribute, or the error for its absence.
    pub open spec fn required_content(
        self,
        entity_name: &'static str,
        attribute: &'static str,
    ) -> Result<Sha256, WorkflowError> {
        match self.content_attr(attribute@) {
            Some(hash) => Ok(hash),
            None => Err(WorkflowError::MissingContentAttribute { entity_name, attribute }),
        }
    }

    /// The entity attribute, or the error for its absence.
    pub open spec fn required_entity(
        self,
        entity_name: &'static str,
        attribute: &'static str,
    ) -> Result<EntityRefValue, WorkflowError> {
        match self.entity_attr(attribute@) {
            Some(target) => Ok(target),
            None => Err(WorkflowError::MissingEntityAttribute { entity_name, attribute }),
        }
    }

    /// The truth value of a scalar attribute, or the error for its absence or
    /// its other type.
    pub open spec fn required_bool(
        self,
        entity_name: &'static str,
        attribute: &'static str,
    ) -> Result<bool, WorkflowError> {
        match self.scalar_attr(attribute@) {
            Some(ScalarValue::Bool(value)) => Ok(value),
            Some(ScalarValue::I64(_)) => Err(
                WorkflowError::InvalidScalarType {
                    entity_name,
                    attribute,
                    expected: "bool",
                    actual: "i64",
                },
            ),
            None => Err(WorkflowError::MissingScalarAttribute { entity_name, attribute }),
        }
    }

    /// The status that an instance's revision holds, or the error for one that
    /// holds none.
    pub open spec fn status(self) -> Result<InstanceStatus, WorkflowError> {
        match self.scalar_attr("status"@) {
            None => Err(
                WorkflowError::MissingScalarAttribute {
                    entity_name: WorkflowInstance::NAME,
                    attribute: "status",
                },
            ),
            Some(ScalarValue::Bool(_)) => Err(
                WorkflowError::InvalidScalarType {
                    entity_name: WorkflowInstance::NAME,
                    attribute: "status",
                    expected: "i64",
                    actual: "bool",
                },
            ),
            Some(ScalarValue::I64(value)) => match InstanceStatus::of_discriminant(value) {
                Some(status) => Ok(status),
                None => Err(WorkflowError::InvalidInstanceStatusDiscriminant { value }),
            },
        }
    }
}

/// The content attribute of a revision that must have it.
pub fn required_content_attr(
    revision: &RevisionRow,
    entity_name: &'static str,
    attribute: &'static str,
) -> (r: Result<Sha256, WorkflowError>)
    ensures
        r == revision@.required_content(entity_name, attribute),
{
    match revision.content_attr(attribute) {
        Some(hash) => Ok(hash),
        None => Err(WorkflowError::MissingContentAttribute { entity_name, attribute }),
    }
}

/// The content attribute of a revision that may have it.
pub fn optional_content_attr(revision: &RevisionRow, attribute: &'static str) -> (r: Option<Sha256>)
    ensures
        r == revision@.content_attr(attribute@),
{
    revision.content_attr(attribute)
}

/// The entity attribute of a revision that must have it.
pub fn required_entity_attr(
    revision: &RevisionRow,
    entity_name: &'static str,
    attribute: &'static str,
) -> (r: Result<EntityRefValue, WorkflowError>)
    ensures
        r == revision@.required_entity(entity_name, attribute),
{
    match revision.entity_attr(attribute) {
        Some(target) => Ok(target),
        None => Err(WorkflowError::MissingEntityAttribute { entity_name, attribute }),
    }
}

/// The truth value that a scalar attribute must hold.
pub fn bool_attr(
    revision: &RevisionRow,
    entity_name: &'static str,
    attribute: &'static str,
) -> (r: Result<bool, WorkflowError>)
    ensures
        r == revision@.required_bool(entity_name, attribute),
{
    match revision.scalar_attr(attribute) {
        Some(ScalarValue::Bool(value)) => Ok(value),
        Some(ScalarValue::I64(_)) => Err(
            WorkflowError::InvalidScalarType {
                entity_name,
                attribute,
                expected: "bool",
                actual: "i64",
            },
        ),
        None => Err(WorkflowError::MissingScalarAttribute { entity_name, attribute }),
    }
}

/// The status that an instance's revision holds.
pub fn read_status(revision: &RevisionRow) -> (r: Result<InstanceStatus, WorkflowError>)
    ensures
        r == revision@.status(),
{
    match revision.scalar_attr("status") {
        None => Err(
            WorkflowError::MissingScalarAttribute {
                entity_name: WorkflowInstance::NAME,
                attribute: "status",
            },
        ),
        Some(ScalarValue::Bool(_)) => Err(
            WorkflowError::InvalidScalarType {
                entity_name: WorkflowInstance::NAME,
                attribute: "status",
                expected: "i64",
                actual: "bool",
            },
        ),
        Some(ScalarValue::I64(value)) => match InstanceStatus::try_from_i64(value) {
            Some(status) => Ok(status),
            None => Err(WorkflowError::InvalidInstanceStatusDiscriminant { value }),
        },
    }
}

/// Whether an instance may go from one status to another, or the error for it.
pub open spec fn transition(
    from: InstanceStatus,
    to: InstanceStatus,
    instance_id: Uuid,
) -> Result<(), WorkflowError> {
    if from.may_become(to) {
        Ok(())
    } else {
        Err(WorkflowError::InvalidTransition { instance_id, from, to })
    }
}

/// Rejects a change of status that the lifecycle does not have.
pub fn ensure_transition(from: InstanceStatus, to: InstanceStatus, instance_id: Uuid) -> (r: Result<
    (),
    WorkflowError,
>)
    ensures
        r == transition(from, to, instance_id),
{
    if from.can_transition_to(to) {
        Ok(())
    } else {
        Err(WorkflowError::InvalidTransition { instance_id, from, to })
    }
}

} // verus!
