//! What revisions and values say when they are read back.

use crate::error::WorkflowError;
use crate::ids::{Sha256, Uuid};
use crate::instance::{instance_successor, instance_value, live_status, record_value};
use crate::json::{JsonView, NumberView};
use crate::plan::{script_argument, step_plan, StepPlan};
use crate::status::InstanceStatus;
use crate::step::StepRecordWrite;
use crate::store::{EntityRefValue, RevisionRow, RevisionView, ScalarValue};
use crate::subject::{identity_value, SubjectContext};
use vstd::prelude::*;

verus! {

/// The names of an instance's attributes differ.
proof fn lemma_instance_names()
    ensures
        "context"@ != "args"@,
        "template"@ != "tenant"@,
{
    reveal_strlit("context");
    reveal_strlit("args");
    reveal_strlit("template");
    reveal_strlit("tenant");
    assert("context"@.len() == 7 && "context"@[0] == 'c');
    assert("args"@.len() == 4 && "args"@[0] == 'a');
    assert("template"@.len() == 8 && "template"@[0] == 't');
    assert("tenant"@.len() == 6 && "tenant"@[0] == 't');
}

/// The names of a step record's attributes differ.
proof fn lemma_record_names()
    ensures
        "input"@ != "subject"@,
        "input"@ != "output"@,
        "input"@ != "error"@,
        "subject"@ != "output"@,
        "subject"@ != "error"@,
        "output"@ != "error"@,
        "step_seq"@ != "outcome"@,
{
    reveal_strlit("input");
    reveal_strlit("subject");
    reveal_strlit("output");
    reveal_strlit("error");
    reveal_strlit("step_seq");
    reveal_strlit("outcome");
    assert("input"@.len() == 5 && "input"@[0] == 'i');
    assert("subject"@.len() == 7 && "subject"@[0] == 's');
    assert("output"@.len() == 6 && "output"@[0] == 'o');
    assert("error"@.len() == 5 && "error"@[0] == 'e');
    assert("step_seq"@.len() == 8 && "step_seq"@[0] == 's');
    assert("outcome"@.len() == 7 && "outcome"@[0] == 'o');
}

/// An instance's revision, read back, says what it was made of.
pub proof fn law_instance_reads_back(
    context: Sha256,
    args: Sha256,
    template: EntityRefValue,
    tenant: EntityRefValue,
    status: InstanceStatus,
)
    ensures
        instance_value(context, args, template, tenant, status).content_attr("context"@) == Some(
            context,
        ),
        instance_value(context, args, template, tenant, status).content_attr("args"@) == Some(args),
        instance_value(context, args, template, tenant, status).entity_attr("template"@) == Some(
            template,
        ),
        instance_value(context, args, template, tenant, status).entity_attr("tenant"@) == Some(
            tenant,
        ),
        instance_value(context, args, template, tenant, status).status() == Ok::<
            InstanceStatus,
            WorkflowError,
        >(status),
{
    lemma_instance_names();
}

/// What one operation writes the next can read: a revision that follows another
/// has everything that the one after it needs, but for a sequence number where
/// there is none left.
pub proof fn law_successor_has_successor(
    latest: RevisionRow,
    context: Sha256,
    status: InstanceStatus,
    next: RevisionRow,
    next_context: Sha256,
    next_status: InstanceStatus,
)
    requires
        instance_successor(latest, context, status) matches Ok((seq, view)) && next.revision_seq
            == seq && next@ == view,
    ensures
        next.revision_seq == latest.revision_seq + 1,
        next@.status() == Ok::<InstanceStatus, WorkflowError>(status),
        next@.content_attr("context"@) == Some(context),
        next@.content_attr("args"@) == latest@.content_attr("args"@),
        next@.entity_attr("template"@) == latest@.entity_attr("template"@),
        next@.entity_attr("tenant"@) == latest@.entity_attr("tenant"@),
        instance_successor(next, next_context, next_status) is Ok <==> next.revision_seq
            < u64::MAX,
{
    lemma_instance_names();
}

/// Once an instance has ended, whatever reads the revision that ended it is
/// refused; while it has not, its next step can be planned if this one could.
pub proof fn law_ended_is_final(
    latest: RevisionRow,
    context: Sha256,
    status: InstanceStatus,
    next: RevisionRow,
    id: Uuid,
)
    requires
        instance_successor(latest, context, status) matches Ok((seq, view)) && next.revision_seq
            == seq && next@ == view,
    ensures
        status.terminal() ==> live_status(next, id) == Err::<InstanceStatus, WorkflowError>(
            WorkflowError::InstanceTerminal { instance_id: id, status },
        ),
        status.terminal() ==> step_plan(next, id) == Err::<StepPlan, WorkflowError>(
            WorkflowError::InstanceTerminal { instance_id: id, status },
        ),
        !status.terminal() && step_plan(latest, id) is Ok && next.revision_seq < u64::MAX ==> {
            &&& step_plan(next, id) is Ok
            &&& step_plan(next, id)->Ok_0 == (StepPlan {
                status,
                step_seq: (next.revision_seq + 1) as u64,
                ..step_plan(latest, id)->Ok_0
            })
        },
{
    lemma_instance_names();
}

/// A step's record, read back, says what it was made of.
pub proof fn law_record_reads_back(write: StepRecordWrite)
    requires
        write.step_seq <= i64::MAX,
    ensures
        record_value(write).content_attr("input"@) == Some(write.input_hash),
        record_value(write).content_attr("subject"@) == Some(write.subject_hash),
        record_value(write).content_attr("output"@) == write.output_hash,
        record_value(write).content_attr("error"@) == write.error_hash,
        record_value(write).entity_attr("instance"@) == Some(
            EntityRefValue {
                target_entity_id: write.instance_id.spec_internal(),
                target_revision_seq: Some(write.instance_revision_seq),
            },
        ),
        record_value(write).scalar_attr("step_seq"@) == Some(
            ScalarValue::I64(write.step_seq as i64),
        ),
        record_value(write).scalar_attr("outcome"@) == Some(
            ScalarValue::I64(write.outcome.discriminant()),
        ),
{
    lemma_record_names();
}

/// Whether a name is one of a list of names.
pub open spec fn named(names: Seq<&'static str>, name: Seq<char>) -> bool {
    exists|i: int| 0 <= i < names.len() && (#[trigger] names[i])@ == name
}

/// A revision has no attributes but declared ones.
pub open spec fn within(
    revision: RevisionView,
    content: Seq<&'static str>,
    entity: Seq<&'static str>,
    scalar: Seq<&'static str>,
) -> bool {
    &&& forall|name: Seq<char>| #[trigger]
        revision.content.contains_key(name) ==> named(content, name)
    &&& forall|name: Seq<char>| #[trigger]
        revision.entity.contains_key(name) ==> named(entity, name)
    &&& forall|name: Seq<char>| #[trigger]
        revision.scalar.contains_key(name) ==> named(scalar, name)
}

/// Instances and step records are written with declared attributes only.
pub proof fn law_only_declared_attributes(
    context: Sha256,
    args: Sha256,
    template: EntityRefValue,
    tenant: EntityRefValue,
    status: InstanceStatus,
    write: StepRecordWrite,
)
    ensures
        within(
            instance_value(context, args, template, tenant, status),
            seq!["context", "args"],
            seq!["template", "tenant"],
            seq!["status"],
        ),
        within(
            record_value(write),
            seq!["input", "output", "error", "subject"],
            seq!["instance"],
            seq!["step_seq", "outcome"],
        ),
{
    let ic = seq!["context", "args"];
    let ie = seq!["template", "tenant"];
    let is = seq!["status"];
    assert(ic[0] == "context" && ic[1] == "args");
    assert(ie[0] == "template" && ie[1] == "tenant");
    assert(is[0] == "status");
    let rc = seq!["input", "output", "error", "subject"];
    let re = seq!["instance"];
    let rs = seq!["step_seq", "outcome"];
    assert(rc[0] == "input" && rc[1] == "output" && rc[2] == "error" && rc[3] == "subject");
    assert(re[0] == "instance");
    assert(rs[0] == "step_seq" && rs[1] == "outcome");
}

/// A step's record never keeps the claims or the tenant of who asked for the
/// step: there is no place for them, and they have no part in what is kept.
pub proof fn law_record_never_keeps_claims(a: SubjectContext, b: SubjectContext)
    ensures
        a.audit_value().field("claims"@) is None,
        a.audit_value().field("tenant_id"@) is None,
        a.kind == b.kind && a.id@ == b.id@ && a.authority_id == b.authority_id ==> a.audit_value()
            == b.audit_value(),
{
    reveal_strlit("claims");
    reveal_strlit("tenant_id");
    reveal_strlit("kind");
    reveal_strlit("id");
    reveal_strlit("authority_id");
    assert("claims"@.len() == 6 && "claims"@[0] == 'c');
    assert("tenant_id"@.len() == 9 && "tenant_id"@[0] == 't');
    assert("kind"@.len() == 4 && "kind"@[0] == 'k');
    assert("id"@.len() == 2 && "id"@[0] == 'i');
    assert("authority_id"@.len() == 12 && "authority_id"@[0] == 'a');
}

/// A step's record keeps the kind and the identifier of who asked for the step,
/// and both identifiers of the authority, where there is one.
pub proof fn law_record_keeps_subject(subject: SubjectContext)
    ensures
        subject.audit_value().field("kind"@) == Some(JsonView::String(subject.kind.spec_name())),
        subject.audit_value().field("id"@) == Some(JsonView::String(subject.id@)),
        subject.audit_value().field("authority_id"@) == Some(
            match subject.authority_id {
                None => JsonView::Null,
                Some(authority) => identity_value(authority.identity()),
            },
        ),
{
    reveal_strlit("kind");
    reveal_strlit("id");
    reveal_strlit("authority_id");
    assert("kind"@.len() == 4 && "kind"@[0] == 'k');
    assert("id"@.len() == 2 && "id"@[0] == 'i');
    assert("authority_id"@.len() == 12 && "authority_id"@[0] == 'a');
}

/// Scripts see who asks for a step: with the claims as they are, and the tenant
/// and the authority as the text of their public identifiers, whatever their
/// internal ones.
pub proof fn law_script_sees_public_identifiers(subject: SubjectContext)
    ensures
        subject.script_value().field("kind"@) == Some(JsonView::String(subject.kind.spec_name())),
        subject.script_value().field("id"@) == Some(JsonView::String(subject.id@)),
        subject.script_value().field("claims"@) == Some(subject.claims@),
        subject.script_value().field("tenant_id"@) == Some(
            JsonView::String(subject.tenant_id.spec_public().text()),
        ),
        subject.script_value().field("authority_id"@) == Some(
            match subject.authority_id {
                None => JsonView::Null,
                Some(authority) => JsonView::String(authority.spec_public().text()),
            },
        ),
{
    reveal_strlit("kind");
    reveal_strlit("id");
    reveal_strlit("claims");
    reveal_strlit("tenant_id");
    reveal_strlit("authority_id");
    assert("kind"@.len() == 4 && "kind"@[0] == 'k');
    assert("id"@.len() == 2 && "id"@[0] == 'i');
    assert("claims"@.len() == 6 && "claims"@[0] == 'c');
    assert("tenant_id"@.len() == 9 && "tenant_id"@[0] == 't');
    assert("authority_id"@.len() == 12 && "authority_id"@[0] == 'a');
}

/// A script's argument has six fields, each what it is called; the instance is
/// given by the text of its public identifier and the number of the step.
pub proof fn law_script_argument_fields(
    context: JsonView,
    args: JsonView,
    input: JsonView,
    subject: JsonView,
    data: JsonView,
    instance: Uuid,
    step: u64,
    name: Seq<char>,
)
    ensures
        ({
            let arg = script_argument(context, args, input, subject, data, instance, step);
            &&& arg.field("context"@) == Some(context)
            &&& arg.field("args"@) == Some(args)
            &&& arg.field("input"@) == Some(input)
            &&& arg.field("subject"@) == Some(subject)
            &&& arg.field("data"@) == Some(data)
            &&& arg.field("instance"@) is Some
            &&& arg.field("instance"@)->Some_0.field("id"@) == Some(
                JsonView::String(instance.text()),
            )
            &&& arg.field("instance"@)->Some_0.field("step"@) == Some(
                JsonView::Number(NumberView::Unsigned(step)),
            )
            &&& arg.field(name) is Some <==> named(
                seq!["context", "args", "input", "subject", "data", "instance"],
                name,
            )
        }),
{
    reveal_strlit("context");
    reveal_strlit("args");
    reveal_strlit("input");
    reveal_strlit("subject");
    reveal_strlit("data");
    reveal_strlit("instance");
    reveal_strlit("id");
    reveal_strlit("step");
    assert("context"@.len() == 7 && "context"@[0] == 'c');
    assert("args"@.len() == 4 && "args"@[0] == 'a');
    assert("input"@.len() == 5 && "input"@[0] == 'i');
    assert("subject"@.len() == 7 && "subject"@[0] == 's');
    assert("data"@.len() == 4 && "data"@[0] == 'd');
    assert("instance"@.len() == 8 && "instance"@[0] == 'i');
    assert("id"@.len() == 2 && "id"@[0] == 'i');
    assert("step"@.len() == 4 && "step"@[0] == 's');
    let names = seq!["context", "args", "input", "subject", "data", "instance"];
    assert(names[0] == "context" && names[1] == "args" && names[2] == "input");
    assert(names[3] == "subject" && names[4] == "data" && names[5] == "instance");
}

} // verus!
