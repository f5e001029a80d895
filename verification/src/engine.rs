//! The workflow engine: its parts, and the operations it offers.

use crate::canonical::CanonicalJson;
use crate::create::{start_create, AwaitTemplate, CreateProgress};
use crate::entities::{WorkflowInstance, WorkflowTemplate};
use crate::execute::{start_step, StepCall, StepEntity, StepProgress};
use crate::ids::EntityId;
use crate::status::InstanceStatus;
use crate::subject::SubjectContext;
use crate::transition::{transition_instance, AwaitEndedEntity, TransitionProgress};
use vstd::prelude::*;

verus! {

/// Workflow orchestration engine.
///
/// An operation is started here and then alternates with the engine's parts:
/// whoever drives it performs the request that it returns and hands the answer
/// back, until it is finished.
pub struct WorkflowEngine<S, E, L> {
    store: S,
    executor: E,
    lowerer: L,
}

impl<S, E, L> WorkflowEngine<S, E, L> {
    /// The store.
    pub closed spec fn spec_store(&self) -> S {
        self.store
    }

    /// The executor.
    pub closed spec fn spec_executor(&self) -> E {
        self.executor
    }

    /// The lowerer.
    pub closed spec fn spec_lowerer(&self) -> L {
        self.lowerer
    }

    /// Construct an engine from its substrate, executor, and lowerer.
    pub fn new(store: S, executor: E, lowerer: L) -> (r: WorkflowEngine<S, E, L>)
        ensures
            r.spec_store() == store,
            r.spec_executor() == executor,
            r.spec_lowerer() == lowerer,
    {
        WorkflowEngine { store, executor, lowerer }
    }

    /// The store.
    pub fn store(&self) -> (r: &S)
        ensures
            *r == self.spec_store(),
    {
        &self.store
    }

    /// The executor.
    pub fn executor(&self) -> (r: &E)
        ensures
            *r == self.spec_executor(),
    {
        &self.executor
    }

    /// The lowerer.
    pub fn lowerer(&self) -> (r: &L)
        ensures
            *r == self.spec_lowerer(),
    {
        &self.lowerer
    }

    /// Create a workflow instance bound to the current template revision.
    pub fn create_instance(
        &self,
        template_id: EntityId<WorkflowTemplate>,
        args: CanonicalJson,
        _subject: SubjectContext,
    ) -> (r: CreateProgress)
        ensures
            r == (CreateProgress::GetLatestRevision {
                template_id,
                then: AwaitTemplate { template_id, args },
            }),
    {
        start_create(template_id, args)
    }

    /// Execute one workflow step.
    pub fn execute_step(
        &self,
        instance_id: EntityId<WorkflowInstance>,
        input: CanonicalJson,
        subject: SubjectContext,
    ) -> (r: StepProgress)
        ensures
            r == (StepProgress::GetEntity {
                entity_id: instance_id.spec_internal(),
                then: StepEntity::Instance(StepCall { instance_id, input, subject }),
            }),
    {
        start_step(instance_id, input, subject)
    }

    /// Mark an instance completed.
    pub fn complete(
        &self,
        instance_id: EntityId<WorkflowInstance>,
        _subject: SubjectContext,
    ) -> (r: TransitionProgress)
        ensures
            r == (TransitionProgress::GetEntity {
                entity_id: instance_id.spec_internal(),
                then: AwaitEndedEntity { instance_id, next_status: InstanceStatus::Completed },
            }),
    {
        transition_instance(instance_id, InstanceStatus::Completed)
    }

    /// Cancel an instance.
    pub fn cancel(
        &self,
        instance_id: EntityId<WorkflowInstance>,
        _subject: SubjectContext,
    ) -> (r: TransitionProgress)
        ensures
            r == (TransitionProgress::GetEntity {
                entity_id: instance_id.spec_internal(),
                then: AwaitEndedEntity { instance_id, next_status: InstanceStatus::Cancelled },
            }),
    {
        transition_instance(instance_id, InstanceStatus::Cancelled)
    }
}

} // verus!
