//! What single decisions come to, said of the values that go in and come out.

use crate::attributes::transition;
use crate::canonical::{canonical_bytes, content_json, json_parsed, ContentView};
use crate::corpus::{corpus_json, first_infinite, CorpusItemView};
use crate::data::datasets_value;
use crate::error::WorkflowError;
use crate::finish::{error_value, status_after};
use crate::ids::{Identity, Sha256, Uuid};
use crate::instance::instance_successor;
use crate::json::JsonView;
use crate::lowerer::ConfigLoweringError;
use crate::plan::{step_plan, template_parts, StepPlan};
use crate::status::InstanceStatus;
use crate::step::{executor_result, StepOutcome};
use crate::store::{
    attribute, attributes, EntityRefValue, RevisionRow, RevisionView, ScalarValue, StoreError,
};
use crate::subject::{identity_value, SubjectKind};
use crate::text::{decimal_text, digit_text, signed_text};
use vstd::prelude::*;

verus! {

/// An entry of a dataset says what the corpus item is: its name, its components
/// in order, and its payload just where it has one; and nothing else.
pub open spec fn entry_says(entry: JsonView, item: CorpusItemView) -> bool {
    &&& entry.field("id"@) == Some(JsonView::String(item.id))
    &&& entry.field("vector"@) matches Some(JsonView::Array(numbers))
    &&& numbers.len() == item.vector.len()
    &&& forall|k: int|
        0 <= k < numbers.len() ==> item.vector[k] is Some && #[trigger] numbers[k]
            == JsonView::Number(item.vector[k]->Some_0)
    &&& entry.field("payload"@) == item.payload
    &&& forall|name: Seq<char>|
        name != "id"@ && name != "vector"@ && name != "payload"@ ==> (#[trigger] entry.field(
            name,
        )) is None
}

/// A dataset has an entry for every item of its corpus, in order.
pub open spec fn dataset_says(dataset: JsonView, items: Seq<CorpusItemView>) -> bool {
    &&& dataset matches JsonView::Array(entries)
    &&& entries.len() == items.len()
    &&& forall|i: int| 0 <= i < items.len() ==> entry_says(#[trigger] entries[i], items[i])
}

/// Every component of every vector of the corpus is a number.
pub open spec fn all_numbers(items: Seq<CorpusItemView>) -> bool {
    forall|i: int, k: int|
        0 <= i < items.len() && 0 <= k < items[i].vector.len() ==> (
        #[trigger] items[i].vector[k]) is Some
}

/// A corpus whose components are all numbers becomes an array with an entry for
/// every item, in order, which says what the item is. Any other is refused, with
/// the name of an item that has a component which is no number, and before which
/// no item has one.
pub proof fn law_corpus_keeps_every_item(items: Seq<CorpusItemView>)
    ensures
        all_numbers(items) ==> corpus_json(items) is Ok && dataset_says(
            corpus_json(items)->Ok_0,
            items,
        ),
        !all_numbers(items) ==> exists|i: int|
            {
                &&& 0 <= i < items.len()
                &&& exists|k: int|
                    0 <= k < items[i].vector.len() && (#[trigger] items[i].vector[k]) is None
                &&& all_numbers(items.take(i))
                &&& corpus_json(items) is Err
                &&& corpus_json(items)->Err_0 == "corpus item "@ + (#[trigger] items[i]).id
                    + " contains a non-finite vector value"@
            },
{
    reveal_strlit("id");
    reveal_strlit("vector");
    reveal_strlit("payload");
    assert("id"@.len() == 2 && "vector"@.len() == 6 && "payload"@.len() == 7);
    if all_numbers(items) {
        assert forall|i: int| 0 <= i < items.len() implies (#[trigger] items[i]).finite() by {
            assert forall|k: int| 0 <= k < items[i].vector.len() implies (
            #[trigger] items[i].vector[k]) is Some by {}
        }
        let entries = corpus_json(items)->Ok_0->Array_0;
        assert forall|i: int| 0 <= i < items.len() implies entry_says(
            #[trigger] entries[i],
            items[i],
        ) by {
            assert(entries[i] == items[i].json());
            assert(items[i].finite());
        }
    } else {
        let (a, b) = choose|a: int, b: int|
            0 <= a < items.len() && 0 <= b < items[a].vector.len() && (
            #[trigger] items[a].vector[b]) is None;
        assert(!items[a].finite());
        lemma_some_first(items, a);
        let i = first_infinite(items);
        assert(0 <= i < items.len() && !items[i].finite());
        let k = choose|k: int|
            0 <= k < items[i].vector.len() && (#[trigger] items[i].vector[k]) is None;
        assert(items[i].vector[k] is None);
        assert forall|x: int, y: int|
            0 <= x < items.take(i).len() && 0 <= y < items.take(i)[x].vector.len() implies (
        #[trigger] items.take(i)[x].vector[y]) is Some by {
            assert(items.take(i)[x] == items[x]);
            assert(items[x].finite());
        }
        assert(items[i].id == items[i].id);
    }
}

/// Of the items with a component that is no number one is first.
proof fn lemma_some_first(items: Seq<CorpusItemView>, at: int)
    requires
        0 <= at < items.len(),
        !items[at].finite(),
    ensures
        exists|i: int| #![trigger items[i]]
            0 <= i < items.len() && !items[i].finite() && forall|j: int|
                0 <= j < i ==> (#[trigger] items[j]).finite(),
    decreases at,
{
    if exists|j: int| 0 <= j < at && !(#[trigger] items[j]).finite() {
        let j = choose|j: int| 0 <= j < at && !(#[trigger] items[j]).finite();
        lemma_some_first(items, j);
    } else {
        assert(items[at].id == items[at].id);
    }
}

/// A script's result is well formed: it has a context and an output, whatever
/// they are, and says nothing of being done, or says it with a truth value.
pub open spec fn well_formed(value: JsonView) -> bool {
    &&& value.field("context"@) is Some
    &&& value.field("output"@) is Some
    &&& value.field("done"@) matches Some(done) ==> done is Bool
}

/// A script's result that is well formed is taken apart by its fields, each as
/// it is; it is done just where it says so. One that is not is refused in words:
/// for want of a context, else for want of an output, else for what it says of
/// being done.
pub proof fn law_result_is_taken_by_its_fields(value: JsonView)
    ensures
        well_formed(value) <==> executor_result(value) is Ok,
        well_formed(value) ==> {
            let parsed = executor_result(value)->Ok_0;
            &&& value.field("context"@) == Some(parsed.context)
            &&& value.field("output"@) == Some(parsed.output)
            &&& parsed.done <==> value.field("done"@) == Some(JsonView::Bool(true))
        },
        value.field("context"@) is None ==> executor_result(value)->Err_0
            == "executor result missing required field 'context'"@,
        value.field("context"@) is Some && value.field("output"@) is None
            ==> executor_result(value)->Err_0
            == "executor result missing required field 'output'"@,
        value.field("context"@) is Some && value.field("output"@) is Some && !well_formed(value)
            ==> executor_result(value)->Err_0
            == "executor result field 'done' must be boolean"@,
{
}

/// A value's fields are those of its object; what is no object has none.
pub proof fn law_fields_are_the_objects(value: JsonView, name: Seq<char>)
    ensures
        value matches JsonView::Object(fields) ==> (value.field(name) is Some
            <==> fields.contains_key(name)) && (fields.contains_key(name) ==> value.field(name)
            == Some(fields[name])),
        !(value is Object) ==> value.field(name) is None,
{
}

/// The numbers that statuses are stored as, and their names.
pub proof fn law_status_numbers_and_names()
    ensures
        InstanceStatus::Pending.discriminant() == 0,
        InstanceStatus::Running.discriminant() == 1,
        InstanceStatus::Completed.discriminant() == 2,
        InstanceStatus::Failed.discriminant() == 3,
        InstanceStatus::Cancelled.discriminant() == 4,
        InstanceStatus::Pending.spec_name() == "Pending"@,
        InstanceStatus::Running.spec_name() == "Running"@,
        InstanceStatus::Completed.spec_name() == "Completed"@,
        InstanceStatus::Failed.spec_name() == "Failed"@,
        InstanceStatus::Cancelled.spec_name() == "Cancelled"@,
        StepOutcome::Success.discriminant() == 0,
        StepOutcome::Failure.discriminant() == 1,
        SubjectKind::Principal.spec_name() == "principal"@,
        SubjectKind::Ephemeral.spec_name() == "ephemeral"@,
{
}

/// The lifecycle: completed, failed and cancelled are final; from pending and
/// from running an instance may go to running and to any of those, and nowhere
/// else. A change that is not among these is refused, and says what it was.
pub proof fn law_lifecycle(from: InstanceStatus, to: InstanceStatus, id: Uuid)
    ensures
        from.terminal() <==> from == InstanceStatus::Completed || from == InstanceStatus::Failed
            || from == InstanceStatus::Cancelled,
        from.may_become(to) <==> (from == InstanceStatus::Pending || from
            == InstanceStatus::Running) && to != InstanceStatus::Pending,
        transition(from, to, id) is Ok <==> (from == InstanceStatus::Pending || from
            == InstanceStatus::Running) && to != InstanceStatus::Pending,
        transition(from, to, id) is Err ==> transition(from, to, id)->Err_0
            == (WorkflowError::InvalidTransition { instance_id: id, from, to }),
{
}

/// The status that is stored as this number.
pub open spec fn numbered(n: i64, status: InstanceStatus) -> bool {
    ||| n == 0 && status == InstanceStatus::Pending
    ||| n == 1 && status == InstanceStatus::Running
    ||| n == 2 && status == InstanceStatus::Completed
    ||| n == 3 && status == InstanceStatus::Failed
    ||| n == 4 && status == InstanceStatus::Cancelled
}

/// What a revision's attribute `status` says: a number from zero to four is that
/// status, and anything else an error that says what is wrong.
pub proof fn law_status_is_read_from_its_number(revision: RevisionView, n: i64)
    ensures
        revision.scalar_attr("status"@) == Some(ScalarValue::I64(n)) && 0 <= n <= 4
            ==> revision.status() is Ok && numbered(n, revision.status()->Ok_0),
        revision.scalar_attr("status"@) == Some(ScalarValue::I64(n)) && !(0 <= n <= 4)
            ==> revision.status() is Err && revision.status()->Err_0
            == (WorkflowError::InvalidInstanceStatusDiscriminant { value: n }),
        revision.scalar_attr("status"@) is None ==> revision.status() is Err
            && revision.status()->Err_0 == (WorkflowError::MissingScalarAttribute {
            entity_name: "workflow_instance",
            attribute: "status",
        }),
        revision.scalar_attr("status"@) matches Some(ScalarValue::Bool(_))
            ==> revision.status() is Err && revision.status()->Err_0
            == (WorkflowError::InvalidScalarType {
            entity_name: "workflow_instance",
            attribute: "status",
            expected: "i64",
            actual: "bool",
        }),
{
}

/// Which failures may pass by themselves: a lost race, a collision of fresh
/// identifiers, a backend that says so, a lowerer or an executor that could not
/// be reached. No other may.
pub proof fn law_only_passing_failures_are_retryable(error: WorkflowError)
    ensures
        error.retryable() <==> {
            ||| error matches WorkflowError::Store(StoreError::RevisionConflict { .. })
            ||| error matches WorkflowError::Store(StoreError::IdentityCollision { .. })
            ||| error matches WorkflowError::Store(StoreError::Backend { retryable: true, .. })
            ||| error matches WorkflowError::ConfigLowering(ConfigLoweringError::Backend(_))
            ||| error is ExecutorUnreachable
        },
{
}

/// An instance's next step can be planned just where the instance is live, has a
/// number left, is pinned to a revision of a template, and has a tenant; the plan
/// says these as they are, and the step has the next revision's number.
pub proof fn law_plan_is_what_the_instance_says(latest: RevisionRow, id: Uuid)
    ensures
        step_plan(latest, id) is Ok <==> {
            &&& latest@.scalar_attr("status"@) == Some(ScalarValue::I64(0))
                || latest@.scalar_attr("status"@) == Some(ScalarValue::I64(1))
            &&& latest.revision_seq < u64::MAX
            &&& latest@.entity_attr("template"@) matches Some(pin)
            &&& pin.target_revision_seq is Some
            &&& latest@.entity_attr("tenant"@) is Some
        },
        step_plan(latest, id) matches Ok(plan) ==> {
            &&& latest@.scalar_attr("status"@) == Some(ScalarValue::I64(0)) ==> plan.status
                == InstanceStatus::Pending
            &&& latest@.scalar_attr("status"@) == Some(ScalarValue::I64(1)) ==> plan.status
                == InstanceStatus::Running
            &&& plan.step_seq == latest.revision_seq + 1
            &&& latest@.entity_attr("template"@) == Some(
                EntityRefValue {
                    target_entity_id: plan.template_id,
                    target_revision_seq: Some(plan.template_seq),
                },
            )
            &&& latest@.entity_attr("tenant"@)->Some_0.target_entity_id == plan.tenant
        },
{
}

/// A template's revision can be used for a planned step just where it belongs to
/// the instance's tenant and has a script and a config; what is used of it are
/// its attributes of these names.
pub proof fn law_template_is_used_by_its_attributes(
    template: RevisionRow,
    plan: StepPlan,
    id: Uuid,
)
    ensures
        template_parts(template, plan, id) is Ok <==> {
            &&& template@.entity_attr("tenant"@) matches Some(owner)
            &&& owner.target_entity_id == plan.tenant
            &&& template@.content_attr("script"@) is Some
            &&& template@.content_attr("config"@) is Some
        },
        template_parts(template, plan, id) matches Ok(parts) ==> {
            &&& template@.content_attr("script"@) == Some(parts.script_hash)
            &&& template@.content_attr("config"@) == Some(parts.config_hash)
        },
        template@.entity_attr("tenant"@) matches Some(owner) ==> owner.target_entity_id
            != plan.tenant ==> template_parts(template, plan, id) is Err && template_parts(
            template,
            plan,
            id,
        )->Err_0 == (WorkflowError::TemplateTenantMismatch {
            template_id: plan.template_id,
            instance_id: id,
            template_tenant: owner.target_entity_id,
            instance_tenant: plan.tenant,
        }),
{
}

/// An instance's revision has everything that the next one takes over.
pub open spec fn bound(revision: RevisionView) -> bool {
    &&& revision.content_attr("args"@) is Some
    &&& revision.entity_attr("template"@) is Some
    &&& revision.entity_attr("tenant"@) is Some
}

/// A revision that follows another with this context and this status, attribute
/// by attribute: the arguments, the template and the tenant are taken over, and
/// the status is stored as this number.
pub open spec fn follows_with(
    next: RevisionView,
    latest: RevisionView,
    context: Sha256,
    status: i64,
) -> bool {
    &&& next.content_attr("context"@) == Some(context)
    &&& next.content_attr("args"@) == latest.content_attr("args"@)
    &&& next.entity_attr("template"@) == latest.entity_attr("template"@)
    &&& next.entity_attr("tenant"@) == latest.entity_attr("tenant"@)
    &&& next.scalar_attr("status"@) == Some(ScalarValue::I64(status))
}

/// The names of an instance's attributes differ.
pub proof fn lemma_instance_names_differ()
    ensures
        "context"@ != "args"@,
        "template"@ != "tenant"@,
{
    reveal_strlit("context");
    reveal_strlit("args");
    reveal_strlit("template");
    reveal_strlit("tenant");
    assert("context"@.len() == 7 && "args"@.len() == 4);
    assert("template"@.len() == 8 && "tenant"@.len() == 6);
}

/// An instance's revision has a successor just where it has all that is taken
/// over and a number is left; the successor has the next number.
pub proof fn law_successor_takes_over(
    latest: RevisionRow,
    context: Sha256,
    status: InstanceStatus,
    n: i64,
)
    requires
        numbered(n, status),
    ensures
        instance_successor(latest, context, status) is Ok <==> bound(latest@)
            && latest.revision_seq < u64::MAX,
        instance_successor(latest, context, status) matches Ok((seq, view)) ==> seq
            == latest.revision_seq + 1 && follows_with(view, latest@, context, n),
{
    lemma_instance_names_differ();
}

/// Datasets are handed over under their own name, and an error under its own;
/// an identity as the texts of its two identifiers.
pub proof fn law_small_values(
    datasets: Map<Seq<char>, JsonView>,
    text: Seq<char>,
    identity: Identity,
)
    ensures
        datasets_value(datasets).field("embed_datasets"@) == Some(JsonView::Object(datasets)),
        error_value(text).field("message"@) == Some(JsonView::String(text)),
        identity_value(identity).field("internal"@) == Some(
            JsonView::String(identity.internal.text()),
        ),
        identity_value(identity).field("public"@) == Some(JsonView::String(identity.public.text())),
        status_after(true) == InstanceStatus::Completed,
        status_after(false) == InstanceStatus::Running,
{
    reveal_strlit("internal");
    reveal_strlit("public");
    assert("internal"@.len() == 8 && "public"@.len() == 6);
}

/// Stored bytes are read as what their canonical form holds.
pub proof fn law_content_is_what_its_canonical_form_holds(
    bytes: Seq<u8>,
    value: JsonView,
    form: Seq<u8>,
    held: JsonView,
)
    ensures
        json_parsed(bytes) == Ok::<JsonView, Seq<char>>(value) && canonical_bytes(value) == Ok::<
            Seq<u8>,
            Seq<char>,
        >(form) && json_parsed(form) == Ok::<JsonView, Seq<char>>(held) ==> content_json(bytes)
            == ContentView::Json(held),
        json_parsed(bytes) matches Err(message) ==> content_json(bytes)
            == ContentView::Undecodable(message),
{
}

/// In a list of attributes in which no name comes twice, each name has the value
/// that stands by it, and there are no other names.
pub proof fn law_attributes_are_what_is_listed<T>(attrs: Seq<(String, T)>, name: Seq<char>)
    requires
        forall|i: int, j: int|
            0 <= i < j < attrs.len() ==> (#[trigger] attrs[i]).0@ != (#[trigger] attrs[j]).0@,
    ensures
        forall|i: int|
            0 <= i < attrs.len() ==> attribute(attributes(attrs), (#[trigger] attrs[i]).0@)
                == Some(attrs[i].1),
        attribute(attributes(attrs), name) is Some ==> exists|i: int|
            0 <= i < attrs.len() && (#[trigger] attrs[i]).0@ == name,
    decreases attrs.len(),
{
    if attrs.len() > 0 {
        let before = attrs.drop_last();
        assert forall|i: int, j: int| 0 <= i < j < before.len() implies (
        #[trigger] before[i]).0@ != (#[trigger] before[j]).0@ by {
            assert(attrs[i].0@ != attrs[j].0@);
        }
        law_attributes_are_what_is_listed(before, name);
        assert forall|i: int| 0 <= i < attrs.len() implies attribute(
            attributes(attrs),
            (#[trigger] attrs[i]).0@,
        ) == Some(attrs[i].1) by {
            if i < before.len() {
                assert(before[i] == attrs[i]);
                assert(attrs[i].0@ != attrs[attrs.len() - 1].0@);
            }
        }
        if attribute(attributes(attrs), name) is Some {
            if name == attrs.last().0@ {
                assert(attrs[attrs.len() - 1].0@ == name);
            } else {
                let i = choose|i: int|
                    0 <= i < before.len() && (#[trigger] before[i]).0@ == name;
                assert(attrs[i].0@ == name);
            }
        }
    }
}

/// What a decimal digit counts.
pub open spec fn digit_value(c: char) -> nat {
    (c as u32 - '0' as u32) as nat
}

/// The number that a text of decimal digits stands for.
pub open spec fn number_read(text: Seq<char>) -> nat
    decreases text.len(),
{
    if text.len() == 0 {
        0
    } else {
        10 * number_read(text.drop_last()) + digit_value(text.last())
    }
}

proof fn lemma_digit(d: nat)
    requires
        d < 10,
    ensures
        digit_text(d).len() == 1,
        '0' <= digit_text(d)[0] <= '9',
        digit_value(digit_text(d)[0]) == d,
{
    reveal_strlit("0");
    reveal_strlit("1");
    reveal_strlit("2");
    reveal_strlit("3");
    reveal_strlit("4");
    reveal_strlit("5");
    reveal_strlit("6");
    reveal_strlit("7");
    reveal_strlit("8");
    reveal_strlit("9");
}

/// A number in decimal stands for that number; it is made of digits, and does
/// not begin with a zero unless it is zero.
pub proof fn law_decimal_reads_back(n: nat)
    ensures
        number_read(decimal_text(n)) == n,
        decimal_text(n).len() > 0,
        forall|i: int|
            0 <= i < decimal_text(n).len() ==> '0' <= #[trigger] decimal_text(n)[i] <= '9',
        n > 0 ==> decimal_text(n)[0] != '0',
    decreases n,
{
    if n < 10 {
        lemma_digit(n);
        assert(decimal_text(n).drop_last() =~= Seq::<char>::empty());
        assert(number_read(decimal_text(n).drop_last()) == 0);
    } else {
        law_decimal_reads_back(n / 10);
        lemma_digit(n % 10);
        assert(decimal_text(n).drop_last() =~= decimal_text(n / 10));
        assert(decimal_text(n).last() == digit_text(n % 10)[0]);
    }
}

/// A number with a sign is in decimal what it is without one, and a minus sign
/// stands before it just where it is negative.
pub proof fn law_minus_stands_before_negatives(n: nat)
    ensures
        signed_text(n as int) == decimal_text(n),
        n > 0 ==> signed_text(-(n as int)) == "-"@ + decimal_text(n),
{
}

} // verus!
