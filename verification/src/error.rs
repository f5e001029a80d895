//! Errors of the workflow engine.

use crate::canonical::CanonError;
use crate::ids::{Sha256, Uuid};
use crate::lowerer::ConfigLoweringError;
use crate::status::InstanceStatus;
use crate::store::StoreError;
use crate::text::{decimal, decimal_text, join2, join4, join5, signed_decimal, signed_text};
use vstd::prelude::*;
use vstd::std_specs::convert::FromSpecImpl;

verus! {

/// Script source bytes are not valid UTF-8.
#[derive(Clone, Copy, Debug, PartialEq, Eq, Structural)]
pub struct Utf8Error {
    /// How many of the bytes are valid, counted from the first.
    pub valid_up_to: usize,
    /// How many bytes after them are invalid together; none where the bytes only
    /// end too soon.
    pub error_len: Option<usize>,
}

/// Workflow-engine errors.
#[derive(Debug)]
pub enum WorkflowError {
    /// Storage substrate failure.
    Store(StoreError),
    /// Config lowering failure.
    ConfigLowering(ConfigLoweringError),
    /// Template entity does not exist.
    TemplateNotFound {
        /// Looked-up template UUID.
        template_id: Uuid,
    },
    /// Template revision does not exist.
    TemplateRevisionNotFound {
        /// Template UUID.
        template_id: Uuid,
        /// Expected revision sequence number.
        revision_seq: u64,
    },
    /// Instance entity does not exist.
    InstanceNotFound {
        /// Looked-up instance UUID.
        instance_id: Uuid,
    },
    /// Instance has no revision yet.
    InstanceRevisionMissing {
        /// Instance UUID.
        instance_id: Uuid,
    },
    /// Revision is missing a required content attribute.
    MissingContentAttribute {
        /// Entity type name.
        entity_name: &'static str,
        /// Missing attribute name.
        attribute: &'static str,
    },
    /// Revision is missing a required entity attribute.
    MissingEntityAttribute {
        /// Entity type name.
        entity_name: &'static str,
        /// Missing attribute name.
        attribute: &'static str,
    },
    /// Revision is missing a required scalar attribute.
    MissingScalarAttribute {
        /// Entity type name.
        entity_name: &'static str,
        /// Missing attribute name.
        attribute: &'static str,
    },
    /// Referenced content hash is absent from the content store.
    MissingContentBlob {
        /// Entity type name.
        entity_name: &'static str,
        /// Attribute name.
        attribute: &'static str,
        /// Expected content hash.
        hash: Sha256,
    },
    /// Scalar value has unexpected type.
    InvalidScalarType {
        /// Entity type name.
        entity_name: &'static str,
        /// Attribute name.
        attribute: &'static str,
        /// Expected scalar type.
        expected: &'static str,
        /// Actual scalar type.
        actual: &'static str,
    },
    /// Instance status value in storage is unknown.
    InvalidInstanceStatusDiscriminant {
        /// Unrecognised discriminant value.
        value: i64,
    },
    /// Transition is disallowed by the lifecycle state machine.
    InvalidTransition {
        /// Instance UUID.
        instance_id: Uuid,
        /// Current status.
        from: InstanceStatus,
        /// Attempted target status.
        to: InstanceStatus,
    },
    /// Operation attempted on terminal instance.
    InstanceTerminal {
        /// Instance UUID.
        instance_id: Uuid,
        /// Terminal status.
        status: InstanceStatus,
    },
    /// Template and instance tenant bindings disagree.
    TemplateTenantMismatch {
        /// Template UUID.
        template_id: Uuid,
        /// Instance UUID.
        instance_id: Uuid,
        /// Tenant bound to the template.
        template_tenant: Uuid,
        /// Tenant bound to the instance.
        instance_tenant: Uuid,
    },
    /// Template or instance entity-ref expected pinned revision but got latest reference.
    MissingPinnedReference {
        /// Entity type name.
        entity_name: &'static str,
        /// Attribute name.
        attribute: &'static str,
    },
    /// Referenced entity kind does not match expected entity kind.
    EntityKindMismatch {
        /// Entity type name.
        entity_name: &'static str,
        /// Expected kind UUID.
        expected: Uuid,
        /// Actual kind UUID.
        actual: Uuid,
    },
    /// Script source bytes are not valid UTF-8.
    ScriptUtf8(Utf8Error),
    /// JSON serialization or parsing failed.
    Json {
        /// Error detail.
        detail: String,
    },
    /// Canonical JSON conversion failed.
    Canonical(CanonError),
    /// A template's data bindings are malformed or unsafe.
    DataConfigInvalid {
        /// What is wrong with the bindings.
        detail: String,
    },
    /// Executor transport failed before a conclusive script result.
    ExecutorUnreachable {
        /// Transport error detail.
        detail: String,
    },
    /// Step failed with a script-level error category.
    StepExecutionFailed {
        /// Script error detail.
        detail: String,
    },
    /// Numeric overflow while computing next sequence numbers.
    IntegerOverflow {
        /// Field name that overflowed.
        field: &'static str,
    },
    /// Numeric conversion failed at the API/storage boundary.
    IntegerConversion {
        /// Field name.
        field: &'static str,
        /// Conversion error detail.
        detail: String,
    },
}

impl WorkflowError {
    /// The failures that may pass by themselves: those of the store and the
    /// lowerer that do, and an executor that could not be reached.
    pub open spec fn retryable(self) -> bool {
        match self {
            WorkflowError::Store(error) => error.retryable(),
            WorkflowError::ConfigLowering(error) => error is Backend,
            WorkflowError::ExecutorUnreachable { .. } => true,
            _ => false,
        }
    }

    /// The error for JSON that went wrong, with this detail.
    pub open spec fn is_json_error(self, text: Seq<char>) -> bool {
        self is Json && self->Json_detail@ == text
    }

    /// The error for stored bytes that do not decode, with this detail.
    pub open spec fn is_decode_error(self, text: Seq<char>) -> bool {
        self matches WorkflowError::Store(StoreError::Decode { detail }) && detail@ == text
    }

    /// The error for bad data bindings, with this detail.
    pub open spec fn is_data_config_error(self, text: Seq<char>) -> bool {
        self is DataConfigInvalid && self->DataConfigInvalid_detail@ == text
    }

    /// Whether this failure is potentially retryable.
    pub fn is_retryable(&self) -> (r: bool)
        ensures
            r == self.retryable(),
    {
        match self {
            WorkflowError::Store(error) => error.is_retryable(),
            WorkflowError::ConfigLowering(error) => error.is_retryable(),
            WorkflowError::ExecutorUnreachable { .. } => true,
            WorkflowError::TemplateNotFound { .. }
            | WorkflowError::TemplateRevisionNotFound { .. }
            | WorkflowError::InstanceNotFound { .. }
            | WorkflowError::InstanceRevisionMissing { .. }
            | WorkflowError::MissingContentAttribute { .. }
            | WorkflowError::MissingEntityAttribute { .. }
            | WorkflowError::MissingScalarAttribute { .. }
            | WorkflowError::MissingContentBlob { .. }
            | WorkflowError::InvalidScalarType { .. }
            | WorkflowError::InvalidInstanceStatusDiscriminant { .. }
            | WorkflowError::InvalidTransition { .. }
            | WorkflowError::InstanceTerminal { .. }
            | WorkflowError::TemplateTenantMismatch { .. }
            | WorkflowError::MissingPinnedReference { .. }
            | WorkflowError::EntityKindMismatch { .. }
            | WorkflowError::ScriptUtf8(_)
            | WorkflowError::Json { .. }
            | WorkflowError::Canonical(_)
            | WorkflowError::DataConfigInvalid { .. }
            | WorkflowError::StepExecutionFailed { .. }
            | WorkflowError::IntegerOverflow { .. }
            | WorkflowError::IntegerConversion { .. } => false,
        }
    }

    /// The error's message.
    pub open spec fn spec_message(self) -> Seq<char> {
        match self {
            WorkflowError::Store(error) => "store error: "@ + error.spec_message(),
            WorkflowError::ConfigLowering(error) =>
                "config lowering failed: "@ + error.spec_message(),
            WorkflowError::TemplateNotFound { template_id } =>
                "workflow template not found: "@ + template_id.text(),
            WorkflowError::TemplateRevisionNotFound { template_id, revision_seq } =>
                "workflow template revision not found: "@ + template_id.text() + "@"@
                    + decimal_text(revision_seq as nat),
            WorkflowError::InstanceNotFound { instance_id } =>
                "workflow instance not found: "@ + instance_id.text(),
            WorkflowError::InstanceRevisionMissing { instance_id } =>
                "workflow instance has no revisions: "@ + instance_id.text(),
            WorkflowError::MissingContentAttribute { entity_name, attribute } =>
                "missing content attribute '"@ + attribute@ + "' on "@ + entity_name@,
            WorkflowError::MissingEntityAttribute { entity_name, attribute } =>
                "missing entity attribute '"@ + attribute@ + "' on "@ + entity_name@,
            WorkflowError::MissingScalarAttribute { entity_name, attribute } =>
                "missing scalar attribute '"@ + attribute@ + "' on "@ + entity_name@,
            WorkflowError::MissingContentBlob { entity_name, attribute, hash } =>
                "missing content blob for "@ + entity_name@ + "."@ + attribute@ + ": "@
                    + hash.text(),
            WorkflowError::InvalidScalarType { entity_name, attribute, expected, actual } =>
                "invalid scalar type for '"@ + attribute@ + "' on "@ + entity_name@
                    + ": expected "@ + expected@ + ", found "@ + actual@,
            WorkflowError::InvalidInstanceStatusDiscriminant { value } =>
                "invalid instance status discriminant: "@ + signed_text(value as int),
            WorkflowError::InvalidTransition { instance_id, from, to } =>
                "invalid workflow transition for "@ + instance_id.text() + ": "@ + from.spec_name()
                    + " -> "@ + to.spec_name(),
            WorkflowError::InstanceTerminal { instance_id, status } =>
                "workflow instance is terminal: "@ + instance_id.text() + " ("@
                    + status.spec_name() + ")"@,
            WorkflowError::TemplateTenantMismatch {
                template_id,
                instance_id,
                template_tenant,
                instance_tenant,
            } =>
                "template tenant mismatch for instance "@ + instance_id.text() + ": template "@
                    + template_id.text() + " has tenant "@ + template_tenant.text()
                    + ", instance has tenant "@ + instance_tenant.text(),
            WorkflowError::MissingPinnedReference { entity_name, attribute } =>
                "expected pinned entity reference for "@ + entity_name@ + "."@ + attribute@,
            WorkflowError::EntityKindMismatch { entity_name, expected, actual } =>
                "entity kind mismatch for "@ + entity_name@ + ": expected "@ + expected.text()
                    + ", found "@ + actual.text(),
            WorkflowError::ScriptUtf8(_) => "invalid UTF-8 in script content"@,
            WorkflowError::Json { detail } => "json error: "@ + detail@,
            WorkflowError::Canonical(error) => "canonical JSON error: "@ + error.spec_message(),
            WorkflowError::DataConfigInvalid { detail } => "data_config invalid: "@ + detail@,
            WorkflowError::ExecutorUnreachable { detail } => "executor unreachable: "@ + detail@,
            WorkflowError::StepExecutionFailed { detail } => "step execution failed: "@ + detail@,
            WorkflowError::IntegerOverflow { field } =>
                "integer overflow while computing "@ + field@,
            WorkflowError::IntegerConversion { field, detail } =>
                "integer conversion failed for "@ + field@ + ": "@ + detail@,
        }
    }

    /// The error's message.
    pub fn message(&self) -> (r: String)
        ensures
            r@ == self.spec_message(),
    {
        match self {
            WorkflowError::Store(error) => join2(
                "store error: ",
                error.message().as_str(),
            ),
            WorkflowError::ConfigLowering(error) => join2(
                "config lowering failed: ",
                error.message().as_str(),
            ),
            WorkflowError::TemplateNotFound { template_id } => join2(
                "workflow template not found: ",
                template_id.to_text().as_str(),
            ),
            WorkflowError::TemplateRevisionNotFound { template_id, revision_seq } => join4(
                "workflow template revision not found: ",
                template_id.to_text().as_str(),
                "@",
                decimal(*revision_seq).as_str(),
            ),
            WorkflowError::InstanceNotFound { instance_id } => join2(
                "workflow instance not found: ",
                instance_id.to_text().as_str(),
            ),
            WorkflowError::InstanceRevisionMissing { instance_id } => join2(
                "workflow instance has no revisions: ",
                instance_id.to_text().as_str(),
            ),
            WorkflowError::MissingContentAttribute { entity_name, attribute } => join4(
                "missing content attribute '",
                attribute,
                "' on ",
                entity_name,
            ),
            WorkflowError::MissingEntityAttribute { entity_name, attribute } => join4(
                "missing entity attribute '",
                attribute,
                "' on ",
                entity_name,
            ),
            WorkflowError::MissingScalarAttribute { entity_name, attribute } => join4(
                "missing scalar attribute '",
                attribute,
                "' on ",
                entity_name,
            ),
            WorkflowError::MissingContentBlob { entity_name, attribute, hash } => {
                let mut text: String = join5(
                    "missing content blob for ",
                    entity_name,
                    ".",
                    attribute,
                    ": ",
                );
                text.append(hash.to_text().as_str());
                text
            },
            WorkflowError::InvalidScalarType { entity_name, attribute, expected, actual } => {
                let mut text: String = join5(
                    "invalid scalar type for '",
                    attribute,
                    "' on ",
                    entity_name,
                    ": expected ",
                );
                text.append(expected);
                text.append(", found ");
                text.append(actual);
                text
            },
            WorkflowError::InvalidInstanceStatusDiscriminant { value } => join2(
                "invalid instance status discriminant: ",
                signed_decimal(*value).as_str(),
            ),
            WorkflowError::InvalidTransition { instance_id, from, to } => {
                let mut text: String = join5(
                    "invalid workflow transition for ",
                    instance_id.to_text().as_str(),
                    ": ",
                    from.name(),
                    " -> ",
                );
                text.append(to.name());
                text
            },
            WorkflowError::InstanceTerminal { instance_id, status } => join5(
                "workflow instance is terminal: ",
                instance_id.to_text().as_str(),
                " (",
                status.name(),
                ")",
            ),
            WorkflowError::TemplateTenantMismatch {
                template_id,
                instance_id,
                template_tenant,
                instance_tenant,
            } => {
                let mut text: String = join5(
                    "template tenant mismatch for instance ",
                    instance_id.to_text().as_str(),
                    ": template ",
                    template_id.to_text().as_str(),
                    " has tenant ",
                );
                text.append(template_tenant.to_text().as_str());
                text.append(", instance has tenant ");
                text.append(instance_tenant.to_text().as_str());
                text
            },
            WorkflowError::MissingPinnedReference { entity_name, attribute } => join4(
                "expected pinned entity reference for ",
                entity_name,
                ".",
                attribute,
            ),
            WorkflowError::EntityKindMismatch { entity_name, expected, actual } => {
                let mut text: String = join5(
                    "entity kind mismatch for ",
                    entity_name,
                    ": expected ",
                    expected.to_text().as_str(),
                    ", found ",
                );
                text.append(actual.to_text().as_str());
                text
            },
            WorkflowError::ScriptUtf8(_) => "invalid UTF-8 in script content".to_owned(),
            WorkflowError::Json { detail } => join2(
                "json error: ",
                detail.as_str(),
            ),
            WorkflowError::Canonical(error) => join2(
                "canonical JSON error: ",
                error.message().as_str(),
            ),
            WorkflowError::DataConfigInvalid { detail } => join2(
                "data_config invalid: ",
                detail.as_str(),
            ),
            WorkflowError::ExecutorUnreachable { detail } => join2(
                "executor unreachable: ",
                detail.as_str(),
            ),
            WorkflowError::StepExecutionFailed { detail } => join2(
                "step execution failed: ",
                detail.as_str(),
            ),
            WorkflowError::IntegerOverflow { field } => join2(
                "integer overflow while computing ",
                field,
            ),
            WorkflowError::IntegerConversion { field, detail } => join4(
                "integer conversion failed for ",
                field,
                ": ",
                detail.as_str(),
            ),
        }
    }

    /// The error for JSON that went wrong.
    pub(crate) fn json(detail: String) -> (r: WorkflowError)
        ensures
            r == (WorkflowError::Json { detail }),
    {
        WorkflowError::Json { detail }
    }
}

impl From<StoreError> for WorkflowError {
    fn from(error: StoreError) -> (r: WorkflowError) {
        WorkflowError::Store(error)
    }
}

impl FromSpecImpl<StoreError> for WorkflowError {
    open spec fn obeys_from_spec() -> bool {
        true
    }

    open spec fn from_spec(error: StoreError) -> WorkflowError {
        WorkflowError::Store(error)
    }
}

impl From<ConfigLoweringError> for WorkflowError {
    fn from(error: ConfigLoweringError) -> (r: WorkflowError) {
        WorkflowError::ConfigLowering(error)
    }
}

impl FromSpecImpl<ConfigLoweringError> for WorkflowError {
    open spec fn obeys_from_spec() -> bool {
        true
    }

    open spec fn from_spec(error: ConfigLoweringError) -> WorkflowError {
        WorkflowError::ConfigLowering(error)
    }
}

impl From<CanonError> for WorkflowError {
    fn from(error: CanonError) -> (r: WorkflowError) {
        WorkflowError::Canonical(error)
    }
}

impl FromSpecImpl<CanonError> for WorkflowError {
    open spec fn obeys_from_spec() -> bool {
        true
    }

    open spec fn from_spec(error: CanonError) -> WorkflowError {
        WorkflowError::Canonical(error)
    }
}

impl From<Utf8Error> for WorkflowError {
    fn from(error: Utf8Error) -> (r: WorkflowError) {
        WorkflowError::ScriptUtf8(error)
    }
}

impl FromSpecImpl<Utf8Error> for WorkflowError {
    open spec fn obeys_from_spec() -> bool {
        true
    }

    open spec fn from_spec(error: Utf8Error) -> WorkflowError {
        WorkflowError::ScriptUtf8(error)
    }
}

} // verus!
