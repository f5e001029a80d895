//! The kinds of entity that workflows are stored as.

use crate::ids::Uuid;
use vstd::prelude::*;

verus! {

/// Reusable workflow definition.
#[derive(Clone, Copy, Debug, PartialEq, Eq)]
pub struct WorkflowTemplate;

/// Executing workflow instance.
#[derive(Clone, Copy, Debug, PartialEq, Eq)]
pub struct WorkflowInstance;

/// Immutable execution record for one step run.
#[derive(Clone, Copy, Debug, PartialEq, Eq)]
pub struct StepRecord;

/// Tenant that owns templates, instances and datasets.
#[derive(Clone, Copy, Debug, PartialEq, Eq)]
pub struct Tenant;

/// Authority that mints ephemeral subjects.
#[derive(Clone, Copy, Debug, PartialEq, Eq)]
pub struct MintingAuthority;

/// Embedding dataset that a template may hand to its script.
#[derive(Clone, Copy, Debug, PartialEq, Eq)]
pub struct EmbeddingDataset;

/// Type of a scalar attribute.
#[derive(Clone, Copy, Debug, PartialEq, Eq, Structural)]
pub enum ScalarType {
    /// A truth value.
    Bool,
    /// A 64-bit signed integer.
    I64,
}

/// An attribute that refers to another entity.
#[derive(Clone, Copy, Debug, PartialEq, Eq)]
pub struct EntitySlot {
    /// The attribute's name.
    pub name: &'static str,
    /// The kind of the entity referred to.
    pub target: Uuid,
    /// Whether the reference names one revision of its target.
    pub pinned: bool,
}

/// An attribute that holds a scalar.
#[derive(Clone, Copy, Debug, PartialEq, Eq)]
pub struct ScalarSlot {
    /// The attribute's name.
    pub name: &'static str,
    /// The scalar's type.
    pub ty: ScalarType,
    /// Whether entities are looked up by it.
    pub indexed: bool,
}

impl Tenant {
    /// The kind's identifier.
    pub const KIND: u128 = 0x6a79e7a2_ea05_46d8_a578_b24c3b62c860;
}

impl EmbeddingDataset {
    /// The kind's identifier.
    pub const KIND: u128 = 0x37aaccf5_a760_457d_879f_a48f6617ef33;

    /// The kind's name.
    pub const NAME: &'static str = "embedding_dataset";
}

impl WorkflowTemplate {
    /// The kind's identifier.
    pub const KIND: u128 = 0xbf6b3627_572b_4727_9355_67304ab8a0e9;

    /// The kind's name.
    pub const NAME: &'static str = "workflow_template";

    /// The attributes that hold content; `data_config` may be absent.
    pub fn content_slots() -> (r: Vec<&'static str>)
        ensures
            r@ == seq!["script", "config", "data_config"],
    {
        vec!["script", "config", "data_config"]
    }

    /// The attributes that refer to entities.
    pub fn entity_slots() -> (r: Vec<EntitySlot>)
        ensures
            r@ == seq![
                (EntitySlot { name: "tenant", target: Uuid { value: Tenant::KIND }, pinned: true }),
            ],
    {
        vec![EntitySlot { name: "tenant", target: Uuid { value: Tenant::KIND }, pinned: true }]
    }

    /// The attributes that hold scalars.
    pub fn scalar_slots() -> (r: Vec<ScalarSlot>)
        ensures
            r@ == seq![(ScalarSlot { name: "is_retired", ty: ScalarType::Bool, indexed: true })],
    {
        vec![ScalarSlot { name: "is_retired", ty: ScalarType::Bool, indexed: true }]
    }
}

impl WorkflowInstance {
    /// The kind's identifier.
    pub const KIND: u128 = 0xec5459ac_44db_4551_9464_e6c6dad8f58f;

    /// The kind's name.
    pub const NAME: &'static str = "workflow_instance";

    /// The attributes that hold content.
    pub fn content_slots() -> (r: Vec<&'static str>)
        ensures
            r@ == seq!["context", "args"],
    {
        vec!["context", "args"]
    }

    /// The attributes that refer to entities.
    pub fn entity_slots() -> (r: Vec<EntitySlot>)
        ensures
            r@ == seq![
                (EntitySlot {
                    name: "template",
                    target: Uuid { value: WorkflowTemplate::KIND },
                    pinned: true,
                }),
                (EntitySlot { name: "tenant", target: Uuid { value: Tenant::KIND }, pinned: true }),
            ],
    {
        vec![
            EntitySlot {
                name: "template",
                target: Uuid { value: WorkflowTemplate::KIND },
                pinned: true,
            },
            EntitySlot { name: "tenant", target: Uuid { value: Tenant::KIND }, pinned: true },
        ]
    }

    /// The attributes that hold scalars.
    pub fn scalar_slots() -> (r: Vec<ScalarSlot>)
        ensures
            r@ == seq![(ScalarSlot { name: "status", ty: ScalarType::I64, indexed: true })],
    {
        vec![ScalarSlot { name: "status", ty: ScalarType::I64, indexed: true }]
    }
}

impl StepRecord {
    /// The kind's identifier.
    pub const KIND: u128 = 0x586f37e3_43a7_4f66_b7ab_d4e9b7ac123a;

    /// The kind's name.
    pub const NAME: &'static str = "step_record";

    /// The attributes that hold content.
    pub fn content_slots() -> (r: Vec<&'static str>)
        ensures
            r@ == seq!["input", "output", "error", "subject"],
    {
        vec!["input", "output", "error", "subject"]
    }

    /// The attributes that refer to entities.
    pub fn entity_slots() -> (r: Vec<EntitySlot>)
        ensures
            r@ == seq![
                (EntitySlot {
                    name: "instance",
                    target: Uuid { value: WorkflowInstance::KIND },
                    pinned: true,
                }),
            ],
    {
        vec![
            EntitySlot {
                name: "instance",
                target: Uuid { value: WorkflowInstance::KIND },
                pinned: true,
            },
        ]
    }

    /// The attributes that hold scalars.
    pub fn scalar_slots() -> (r: Vec<ScalarSlot>)
        ensures
            r@ == seq![
                (ScalarSlot { name: "step_seq", ty: ScalarType::I64, indexed: true }),
                (ScalarSlot { name: "outcome", ty: ScalarType::I64, indexed: true }),
            ],
    {
        vec![
            ScalarSlot { name: "step_seq", ty: ScalarType::I64, indexed: true },
            ScalarSlot { name: "outcome", ty: ScalarType::I64, indexed: true },
        ]
    }
}

} // verus!
