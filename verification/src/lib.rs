//! Workflow orchestration: instances of versioned templates advance step by
//! step, and every step leaves an immutable record.
//!
//! The engine decides and computes; it does no input or output. An operation
//! of [`WorkflowEngine`] returns its first request, and each answer handed back
//! gives the next, until the operation is finished. What the requests and the
//! outcome are is stated by the contracts of the functions that take the
//! answers; what holds of operations as a whole is stated in [`laws`].

pub mod attributes;
pub mod canonical;
pub mod corpus;
pub mod create;
pub mod data;
pub mod engine;
pub mod entities;
pub mod error;
pub mod execute;
pub mod executor;
pub mod finish;
pub mod ids;
pub mod instance;
pub mod json;
pub mod laws;
pub mod lowerer;
pub mod plan;
pub mod runs;
pub mod status;
pub mod step;
pub mod store;
pub mod subject;
pub mod text;
pub mod transition;

pub use crate::canonical::{CanonError, CanonicalJson};
pub use crate::create::CreateProgress;
pub use crate::engine::WorkflowEngine;
pub use crate::entities::{
    EmbeddingDataset, MintingAuthority, StepRecord, Tenant, WorkflowInstance, WorkflowTemplate,
};
pub use crate::error::WorkflowError;
pub use crate::execute::StepProgress;
pub use crate::executor::StepExecutionError;
pub use crate::ids::{EntityId, Identity, Sha256, Uuid};
pub use crate::json::JsonValue;
pub use crate::lowerer::ConfigLoweringError;
pub use crate::status::InstanceStatus;
pub use crate::step::{StepOutcome, StepResult};
pub use crate::store::{
    EntityRefValue, EntityRow, RevisionInput, RevisionRow, ScalarValue, StoreError,
};
pub use crate::subject::{StepRecordSubject, SubjectContext, SubjectKind};
pub use crate::transition::TransitionProgress;
