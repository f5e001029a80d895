//! What the messages of errors say.

use crate::canonical::CanonError;
use crate::error::WorkflowError;
use crate::executor::StepExecutionError;
use crate::ids::IdentityKindError;
use crate::lowerer::ConfigLoweringError;
use crate::store::StoreError;
use crate::text::{decimal_text, signed_text};
use vstd::prelude::*;

verus! {

/// The text, read from its first character to its last, is these parts.
pub open spec fn reads(text: Seq<char>, parts: Seq<Seq<char>>) -> bool
    decreases parts.len(),
{
    if parts.len() == 0 {
        text.len() == 0
    } else {
        &&& text.len() >= parts[0].len()
        &&& text.take(parts[0].len() as int) == parts[0]
        &&& reads(text.skip(parts[0].len() as int), parts.drop_first())
    }
}

/// A text with another after it reads as its parts, and then that text.
proof fn lemma_reads_on(text: Seq<char>, parts: Seq<Seq<char>>, last: Seq<char>)
    requires
        reads(text, parts),
    ensures
        reads(text + last, parts.push(last)),
    decreases parts.len(),
{
    let longer = parts.push(last);
    if parts.len() == 0 {
        assert(text + last =~= last);
        assert(last.take(last.len() as int) =~= last);
        assert(last.skip(last.len() as int) =~= Seq::empty());
        assert(longer.drop_first() =~= Seq::empty());
        assert(reads(last.skip(last.len() as int), longer.drop_first()));
    } else {
        let n = parts[0].len() as int;
        assert(longer[0] == parts[0]);
        assert((text + last).take(n) =~= text.take(n));
        assert((text + last).skip(n) =~= text.skip(n) + last);
        assert(longer.drop_first() =~= parts.drop_first().push(last));
        lemma_reads_on(text.skip(n), parts.drop_first(), last);
    }
}

proof fn lemma_one(a: Seq<char>)
    ensures
        reads(a, seq![a]),
{
    lemma_reads_on(Seq::empty(), Seq::empty(), a);
    assert(Seq::empty() + a =~= a);
    assert(Seq::empty().push(a) =~= seq![a]);
}

proof fn lemma_two(a: Seq<char>, b: Seq<char>)
    ensures
        reads(a + b, seq![a, b]),
{
    lemma_one(a);
    lemma_reads_on(a, seq![a], b);
    assert(seq![a].push(b) =~= seq![a, b]);
}

proof fn lemma_three(a: Seq<char>, b: Seq<char>, c: Seq<char>)
    ensures
        reads(a + b + c, seq![a, b, c]),
{
    lemma_two(a, b);
    lemma_reads_on(a + b, seq![a, b], c);
    assert(seq![a, b].push(c) =~= seq![a, b, c]);
}

proof fn lemma_four(a: Seq<char>, b: Seq<char>, c: Seq<char>, d: Seq<char>)
    ensures
        reads(a + b + c + d, seq![a, b, c, d]),
{
    lemma_three(a, b, c);
    lemma_reads_on(a + b + c, seq![a, b, c], d);
    assert(seq![a, b, c].push(d) =~= seq![a, b, c, d]);
}

proof fn lemma_five(a: Seq<char>, b: Seq<char>, c: Seq<char>, d: Seq<char>, e: Seq<char>)
    ensures
        reads(a + b + c + d + e, seq![a, b, c, d, e]),
{
    lemma_four(a, b, c, d);
    lemma_reads_on(a + b + c + d, seq![a, b, c, d], e);
    assert(seq![a, b, c, d].push(e) =~= seq![a, b, c, d, e]);
}

proof fn lemma_six(
    a: Seq<char>,
    b: Seq<char>,
    c: Seq<char>,
    d: Seq<char>,
    e: Seq<char>,
    f: Seq<char>,
)
    ensures
        reads(a + b + c + d + e + f, seq![a, b, c, d, e, f]),
{
    lemma_five(a, b, c, d, e);
    lemma_reads_on(a + b + c + d + e, seq![a, b, c, d, e], f);
    assert(seq![a, b, c, d, e].push(f) =~= seq![a, b, c, d, e, f]);
}

proof fn lemma_seven(
    a: Seq<char>,
    b: Seq<char>,
    c: Seq<char>,
    d: Seq<char>,
    e: Seq<char>,
    f: Seq<char>,
    g: Seq<char>,
)
    ensures
        reads(a + b + c + d + e + f + g, seq![a, b, c, d, e, f, g]),
{
    lemma_six(a, b, c, d, e, f);
    lemma_reads_on(a + b + c + d + e + f, seq![a, b, c, d, e, f], g);
    assert(seq![a, b, c, d, e, f].push(g) =~= seq![a, b, c, d, e, f, g]);
}

proof fn lemma_eight(
    a: Seq<char>,
    b: Seq<char>,
    c: Seq<char>,
    d: Seq<char>,
    e: Seq<char>,
    f: Seq<char>,
    g: Seq<char>,
    h: Seq<char>,
)
    ensures
        reads(a + b + c + d + e + f + g + h, seq![a, b, c, d, e, f, g, h]),
{
    lemma_seven(a, b, c, d, e, f, g);
    lemma_reads_on(a + b + c + d + e + f + g, seq![a, b, c, d, e, f, g], h);
    assert(seq![a, b, c, d, e, f, g].push(h) =~= seq![a, b, c, d, e, f, g, h]);
}

/// What the message of an error says, from its first character to its last.
pub proof fn law_workflow_error_messages(error: WorkflowError, text: String)
    requires
        call_ensures(WorkflowError::message, (&error,), text),
    ensures
        match error {
            WorkflowError::Store(inner) => reads(
                text@,
                seq!["store error: "@, inner.spec_message()],
            ),
            WorkflowError::ConfigLowering(inner) => reads(
                text@,
                seq!["config lowering failed: "@, inner.spec_message()],
            ),
            WorkflowError::TemplateNotFound { template_id } => reads(
                text@,
                seq!["workflow template not found: "@, template_id.text()],
            ),
            WorkflowError::TemplateRevisionNotFound { template_id, revision_seq } => reads(
                text@,
                seq![
                    "workflow template revision not found: "@,
                    template_id.text(),
                    "@"@,
                    decimal_text(revision_seq as nat),
                ],
            ),
            WorkflowError::InstanceNotFound { instance_id } => reads(
                text@,
                seq!["workflow instance not found: "@, instance_id.text()],
            ),
            WorkflowError::InstanceRevisionMissing { instance_id } => reads(
                text@,
                seq!["workflow instance has no revisions: "@, instance_id.text()],
            ),
            WorkflowError::MissingContentAttribute { entity_name, attribute } => reads(
                text@,
                seq!["missing content attribute '"@, attribute@, "' on "@, entity_name@],
            ),
            WorkflowError::MissingEntityAttribute { entity_name, attribute } => reads(
                text@,
                seq!["missing entity attribute '"@, attribute@, "' on "@, entity_name@],
            ),
            WorkflowError::MissingScalarAttribute { entity_name, attribute } => reads(
                text@,
                seq!["missing scalar attribute '"@, attribute@, "' on "@, entity_name@],
            ),
            WorkflowError::MissingContentBlob { entity_name, attribute, hash } => reads(
                text@,
                seq![
                    "missing content blob for "@,
                    entity_name@,
                    "."@,
                    attribute@,
                    ": "@,
                    hash.text(),
                ],
            ),
            WorkflowError::InvalidScalarType { entity_name, attribute, expected, actual } => reads(
                text@,
                seq![
                    "invalid scalar type for '"@,
                    attribute@,
                    "' on "@,
                    entity_name@,
                    ": expected "@,
                    expected@,
                    ", found "@,
                    actual@,
                ],
            ),
            WorkflowError::InvalidInstanceStatusDiscriminant { value } => reads(
                text@,
                seq!["invalid instance status discriminant: "@, signed_text(value as int)],
            ),
            WorkflowError::InvalidTransition { instance_id, from, to } => reads(
                text@,
                seq![
                    "invalid workflow transition for "@,
                    instance_id.text(),
                    ": "@,
                    from.spec_name(),
                    " -> "@,
                    to.spec_name(),
                ],
            ),
            WorkflowError::InstanceTerminal { instance_id, status } => reads(
                text@,
                seq![
                    "workflow instance is terminal: "@,
                    instance_id.text(),
                    " ("@,
                    status.spec_name(),
                    ")"@,
                ],
            ),
            WorkflowError::TemplateTenantMismatch {
                template_id,
                instance_id,
                template_tenant,
                instance_tenant,
            } => reads(
                text@,
                seq![
                    "template tenant mismatch for instance "@,
                    instance_id.text(),
                    ": template "@,
                    template_id.text(),
                    " has tenant "@,
                    template_tenant.text(),
                    ", instance has tenant "@,
                    instance_tenant.text(),
                ],
            ),
            WorkflowError::MissingPinnedReference { entity_name, attribute } => reads(
                text@,
                seq!["expected pinned entity reference for "@, entity_name@, "."@, attribute@],
            ),
            WorkflowError::EntityKindMismatch { entity_name, expected, actual } => reads(
                text@,
                seq![
                    "entity kind mismatch for "@,
                    entity_name@,
                    ": expected "@,
                    expected.text(),
                    ", found "@,
                    actual.text(),
                ],
            ),
            WorkflowError::ScriptUtf8(_) => reads(text@, seq!["invalid UTF-8 in script content"@]),
            WorkflowError::Json { detail } => reads(text@, seq!["json error: "@, detail@]),
            WorkflowError::Canonical(inner) => reads(
                text@,
                seq!["canonical JSON error: "@, inner.spec_message()],
            ),
            WorkflowError::DataConfigInvalid { detail } => reads(
                text@,
                seq!["data_config invalid: "@, detail@],
            ),
            WorkflowError::ExecutorUnreachable { detail } => reads(
                text@,
                seq!["executor unreachable: "@, detail@],
            ),
            WorkflowError::StepExecutionFailed { detail } => reads(
                text@,
                seq!["step execution failed: "@, detail@],
            ),
            WorkflowError::IntegerOverflow { field } => reads(
                text@,
                seq!["integer overflow while computing "@, field@],
            ),
            WorkflowError::IntegerConversion { field, detail } => reads(
                text@,
                seq!["integer conversion failed for "@, field@, ": "@, detail@],
            ),
        },
{
    match error {
        WorkflowError::Store(inner) => lemma_two("store error: "@, inner.spec_message()),
        WorkflowError::ConfigLowering(inner) => lemma_two(
            "config lowering failed: "@,
            inner.spec_message(),
        ),
        WorkflowError::TemplateNotFound { template_id } => lemma_two(
            "workflow template not found: "@,
            template_id.text(),
        ),
        WorkflowError::TemplateRevisionNotFound { template_id, revision_seq } => lemma_four(
            "workflow template revision not found: "@,
            template_id.text(),
            "@"@,
            decimal_text(revision_seq as nat),
        ),
        WorkflowError::InstanceNotFound { instance_id } => lemma_two(
            "workflow instance not found: "@,
            instance_id.text(),
        ),
        WorkflowError::InstanceRevisionMissing { instance_id } => lemma_two(
            "workflow instance has no revisions: "@,
            instance_id.text(),
        ),
        WorkflowError::MissingContentAttribute { entity_name, attribute } => lemma_four(
            "missing content attribute '"@,
            attribute@,
            "' on "@,
            entity_name@,
        ),
        WorkflowError::MissingEntityAttribute { entity_name, attribute } => lemma_four(
            "missing entity attribute '"@,
            attribute@,
            "' on "@,
            entity_name@,
        ),
        WorkflowError::MissingScalarAttribute { entity_name, attribute } => lemma_four(
            "missing scalar attribute '"@,
            attribute@,
            "' on "@,
            entity_name@,
        ),
        WorkflowError::MissingContentBlob { entity_name, attribute, hash } => lemma_six(
            "missing content blob for "@,
            entity_name@,
            "."@,
            attribute@,
            ": "@,
            hash.text(),
        ),
        WorkflowError::InvalidScalarType { entity_name, attribute, expected, actual } => {
            lemma_eight(
                "invalid scalar type for '"@,
                attribute@,
                "' on "@,
                entity_name@,
                ": expected "@,
                expected@,
                ", found "@,
                actual@,
            );
        },
        WorkflowError::InvalidInstanceStatusDiscriminant { value } => lemma_two(
            "invalid instance status discriminant: "@,
            signed_text(value as int),
        ),
        WorkflowError::InvalidTransition { instance_id, from, to } => lemma_six(
            "invalid workflow transition for "@,
            instance_id.text(),
            ": "@,
            from.spec_name(),
            " -> "@,
            to.spec_name(),
        ),
        WorkflowError::InstanceTerminal { instance_id, status } => lemma_five(
            "workflow instance is terminal: "@,
            instance_id.text(),
            " ("@,
            status.spec_name(),
            ")"@,
        ),
        WorkflowError::TemplateTenantMismatch {
            template_id,
            instance_id,
            template_tenant,
            instance_tenant,
        } => lemma_eight(
            "template tenant mismatch for instance "@,
            instance_id.text(),
            ": template "@,
            template_id.text(),
            " has tenant "@,
            template_tenant.text(),
            ", instance has tenant "@,
            instance_tenant.text(),
        ),
        WorkflowError::MissingPinnedReference { entity_name, attribute } => lemma_four(
            "expected pinned entity reference for "@,
            entity_name@,
            "."@,
            attribute@,
        ),
        WorkflowError::EntityKindMismatch { entity_name, expected, actual } => lemma_six(
            "entity kind mismatch for "@,
            entity_name@,
            ": expected "@,
            expected.text(),
            ", found "@,
            actual.text(),
        ),
        WorkflowError::ScriptUtf8(_) => lemma_one("invalid UTF-8 in script content"@),
        WorkflowError::Json { detail } => lemma_two("json error: "@, detail@),
        WorkflowError::Canonical(inner) => lemma_two(
            "canonical JSON error: "@,
            inner.spec_message(),
        ),
        WorkflowError::DataConfigInvalid { detail } => lemma_two("data_config invalid: "@, detail@),
        WorkflowError::ExecutorUnreachable { detail } => lemma_two(
            "executor unreachable: "@,
            detail@,
        ),
        WorkflowError::StepExecutionFailed { detail } => lemma_two(
            "step execution failed: "@,
            detail@,
        ),
        WorkflowError::IntegerOverflow { field } => lemma_two(
            "integer overflow while computing "@,
            field@,
        ),
        WorkflowError::IntegerConversion { field, detail } => lemma_four(
            "integer conversion failed for "@,
            field@,
            ": "@,
            detail@,
        ),
    }
}

/// What the message of a failure of the store says.
pub proof fn law_store_error_messages(error: StoreError, text: String)
    requires
        call_ensures(StoreError::message, (&error,), text),
    ensures
        match error {
            StoreError::KindMismatch { expected, actual } => reads(
                text@,
                seq![
                    "entity kind mismatch: expected "@,
                    expected.text(),
                    ", found "@,
                    actual.text(),
                ],
            ),
            StoreError::Decode { detail } => reads(
                text@,
                seq!["content decode failed: "@, detail@],
            ),
            StoreError::IdKind { detail } => reads(
                text@,
                seq!["UUID version mismatch in storage: "@, detail@],
            ),
            StoreError::IdentityKind { detail } => reads(
                text@,
                seq!["identity version mismatch in storage: "@, detail@],
            ),
            StoreError::ScalarTypeMismatch { attribute_name, detail } => reads(
                text@,
                seq!["scalar type mismatch for attribute "@, attribute_name@, ": "@, detail@],
            ),
            StoreError::RevisionConflict { entity_id, revision_seq } => reads(
                text@,
                seq![
                    "revision conflict: entity "@,
                    entity_id.text(),
                    ", seq "@,
                    decimal_text(revision_seq as nat),
                    " already exists"@,
                ],
            ),
            StoreError::IdentityCollision { uuid } => reads(
                text@,
                seq!["identity collision: "@, uuid.text()],
            ),
            StoreError::EntityNotFound { entity_id } => reads(
                text@,
                seq!["entity not found: "@, entity_id.text()],
            ),
            StoreError::Backend { message, .. } => reads(text@, seq!["backend error: "@, message@]),
        },
{
    match error {
        StoreError::KindMismatch { expected, actual } => lemma_four(
            "entity kind mismatch: expected "@,
            expected.text(),
            ", found "@,
            actual.text(),
        ),
        StoreError::Decode { detail } => lemma_two("content decode failed: "@, detail@),
        StoreError::IdKind { detail } => lemma_two("UUID version mismatch in storage: "@, detail@),
        StoreError::IdentityKind { detail } => lemma_two(
            "identity version mismatch in storage: "@,
            detail@,
        ),
        StoreError::ScalarTypeMismatch { attribute_name, detail } => lemma_four(
            "scalar type mismatch for attribute "@,
            attribute_name@,
            ": "@,
            detail@,
        ),
        StoreError::RevisionConflict { entity_id, revision_seq } => lemma_five(
            "revision conflict: entity "@,
            entity_id.text(),
            ", seq "@,
            decimal_text(revision_seq as nat),
            " already exists"@,
        ),
        StoreError::IdentityCollision { uuid } => lemma_two("identity collision: "@, uuid.text()),
        StoreError::EntityNotFound { entity_id } => lemma_two(
            "entity not found: "@,
            entity_id.text(),
        ),
        StoreError::Backend { message, .. } => lemma_two("backend error: "@, message@),
    }
}

/// What the message of a failure to lower a config says.
pub proof fn law_lowering_error_messages(error: ConfigLoweringError, text: String)
    requires
        call_ensures(ConfigLoweringError::message, (&error,), text),
    ensures
        match error {
            ConfigLoweringError::Backend(detail) => reads(
                text@,
                seq!["lowerer backend failure: "@, detail@],
            ),
            ConfigLoweringError::InvalidConfig(detail) => reads(
                text@,
                seq!["invalid abstract config: "@, detail@],
            ),
        },
{
    match error {
        ConfigLoweringError::Backend(detail) => lemma_two("lowerer backend failure: "@, detail@),
        ConfigLoweringError::InvalidConfig(detail) => lemma_two(
            "invalid abstract config: "@,
            detail@,
        ),
    }
}

/// What the message of a failure to run a script says.
pub proof fn law_execution_error_messages(error: StepExecutionError, text: String)
    requires
        call_ensures(StepExecutionError::message, (&error,), text),
    ensures
        match error {
            StepExecutionError::Transport(detail) => reads(
                text@,
                seq!["executor transport failure: "@, detail@],
            ),
            StepExecutionError::ScriptError(detail) => reads(
                text@,
                seq!["script execution failed: "@, detail@],
            ),
        },
{
    match error {
        StepExecutionError::Transport(detail) => lemma_two(
            "executor transport failure: "@,
            detail@,
        ),
        StepExecutionError::ScriptError(detail) => lemma_two("script execution failed: "@, detail@),
    }
}

/// What the message for an identifier of the wrong version says.
pub proof fn law_identity_error_messages(error: IdentityKindError, text: String)
    requires
        call_ensures(IdentityKindError::message, (error,), text),
    ensures
        match error {
            IdentityKindError::Internal { expected, actual } => reads(
                text@,
                seq![
                    "internal ID is not UUIDv7: UUID version mismatch: expected v"@,
                    decimal_text(expected as nat),
                    ", got v"@,
                    decimal_text(actual as nat),
                ],
            ),
            IdentityKindError::Public { expected, actual } => reads(
                text@,
                seq![
                    "public ID is not UUIDv4: UUID version mismatch: expected v"@,
                    decimal_text(expected as nat),
                    ", got v"@,
                    decimal_text(actual as nat),
                ],
            ),
        },
{
    match error {
        IdentityKindError::Internal { expected, actual } => lemma_four(
            "internal ID is not UUIDv7: UUID version mismatch: expected v"@,
            decimal_text(expected as nat),
            ", got v"@,
            decimal_text(actual as nat),
        ),
        IdentityKindError::Public { expected, actual } => lemma_four(
            "public ID is not UUIDv4: UUID version mismatch: expected v"@,
            decimal_text(expected as nat),
            ", got v"@,
            decimal_text(actual as nat),
        ),
    }
}

/// What the message for JSON that has no canonical form says.
pub proof fn law_canonical_error_messages(error: CanonError, text: String)
    requires
        call_ensures(CanonError::message, (&error,), text),
    ensures
        reads(text@, seq!["invalid JSON: "@, error.detail@]),
{
    lemma_two("invalid JSON: "@, error.detail@);
}

} // verus!
