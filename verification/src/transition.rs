//! Ending an instance by hand: completing it, or cancelling it.
//!
//! Each function here returns a [`TransitionProgress`]: either a question for
//! the store, with what to do with the answer, or the outcome.

use crate::attributes::{ensure_transition, required_content_attr, transition};
use crate::entities::WorkflowInstance;
use crate::error::WorkflowError;
use crate::ids::{EntityId, Uuid};
use crate::instance::{
    check_instance_entity, instance_entity, instance_revision, instance_successor, live_status,
    next_instance_revision, read_live_status,
};
use crate::status::InstanceStatus;
use crate::store::{EntityRow, RevisionInput, RevisionRow, StoreError};
use vstd::prelude::*;

verus! {

/// Awaits the instance's entity.
#[derive(Debug)]
pub struct AwaitEndedEntity {
    /// The instance.
    pub instance_id: EntityId<WorkflowInstance>,
    /// The status that it is to get.
    pub next_status: InstanceStatus,
}

/// Awaits the instance's latest revision.
#[derive(Debug)]
pub struct AwaitEndedRevision {
    /// The instance.
    pub instance_id: EntityId<WorkflowInstance>,
    /// The status that it is to get.
    pub next_status: InstanceStatus,
}

/// Awaits that the instance's new revision is stored.
#[derive(Debug)]
pub struct AwaitEndedAppend;

/// A question for the store, or the outcome.
#[derive(Debug)]
pub enum TransitionProgress {
    /// Asks for an entity.
    GetEntity {
        /// The entity's internal identifier.
        entity_id: Uuid,
        /// Takes the answer.
        then: AwaitEndedEntity,
    },
    /// Asks for the latest revision of an instance.
    GetLatestRevision {
        /// The instance.
        instance_id: EntityId<WorkflowInstance>,
        /// Takes the answer.
        then: AwaitEndedRevision,
    },
    /// Asks to append a revision to an instance.
    AppendRevision {
        /// The instance.
        instance_id: EntityId<WorkflowInstance>,
        /// The revision's sequence number.
        revision_seq: u64,
        /// The revision.
        revision: RevisionInput,
        /// Takes the answer.
        then: AwaitEndedAppend,
    },
    /// The instance has its status, or why it does not.
    Finished(Result<(), WorkflowError>),
}

impl TransitionProgress {
    /// The change failed with this error.
    pub open spec fn fails(self, error: WorkflowError) -> bool {
        self == TransitionProgress::Finished(Err(error))
    }
}

/// Starts giving an instance another status.
pub fn transition_instance(
    instance_id: EntityId<WorkflowInstance>,
    next_status: InstanceStatus,
) -> (r: TransitionProgress)
    ensures
        r == (TransitionProgress::GetEntity {
            entity_id: instance_id.spec_internal(),
            then: AwaitEndedEntity { instance_id, next_status },
        }),
{
    TransitionProgress::GetEntity {
        entity_id: instance_id.internal(),
        then: AwaitEndedEntity { instance_id, next_status },
    }
}

impl AwaitEndedEntity {
    /// What follows from the answer: the entity must be an instance.
    pub open spec fn followed_by(
        self,
        found: Result<Option<EntityRow>, StoreError>,
        next: TransitionProgress,
    ) -> bool {
        match instance_entity(found, self.instance_id.spec_internal()) {
            Err(error) => next.fails(error),
            Ok(()) => next == (TransitionProgress::GetLatestRevision {
                instance_id: self.instance_id,
                then: AwaitEndedRevision {
                    instance_id: self.instance_id,
                    next_status: self.next_status,
                },
            }),
        }
    }

    /// Takes the instance's entity.
    pub fn resume(self, found: Result<Option<EntityRow>, StoreError>) -> (next: TransitionProgress)
        ensures
            self.followed_by(found, next),
    {
        match check_instance_entity(found, self.instance_id.internal()) {
            Err(error) => TransitionProgress::Finished(Err(error)),
            Ok(()) => TransitionProgress::GetLatestRevision {
                instance_id: self.instance_id,
                then: AwaitEndedRevision {
                    instance_id: self.instance_id,
                    next_status: self.next_status,
                },
            },
        }
    }
}

impl AwaitEndedRevision {
    /// What follows from the answer: the instance must be live, be allowed the
    /// status, and have a context; its next revision is appended.
    pub open spec fn followed_by(
        self,
        found: Result<Option<RevisionRow>, StoreError>,
        next: TransitionProgress,
    ) -> bool {
        let id = self.instance_id.spec_internal();
        match instance_revision(found, id) {
            Err(error) => next.fails(error),
            Ok(latest) => match live_status(latest, id) {
                Err(error) => next.fails(error),
                Ok(current) => match transition(current, self.next_status, id) {
                    Err(error) => next.fails(error),
                    Ok(()) => match latest@.required_content(WorkflowInstance::NAME, "context") {
                        Err(error) => next.fails(error),
                        Ok(context) => match instance_successor(
                            latest,
                            context,
                            self.next_status,
                        ) {
                            Err(error) => next.fails(error),
                            Ok((seq, view)) => {
                                &&& next matches TransitionProgress::AppendRevision {
                                    instance_id,
                                    revision_seq,
                                    revision,
                                    ..
                                }
                                &&& instance_id == self.instance_id
                                &&& revision_seq == seq
                                &&& revision@ == view
                            },
                        },
                    },
                },
            },
        }
    }

    /// Takes the instance's latest revision.
    pub fn resume(self, found: Result<Option<RevisionRow>, StoreError>) -> (next:
        TransitionProgress)
        ensures
            self.followed_by(found, next),
    {
        let id = self.instance_id.internal();
        let latest = match found {
            Err(error) => {
                return TransitionProgress::Finished(Err(WorkflowError::Store(error)));
            },
            Ok(None) => {
                return TransitionProgress::Finished(
                    Err(WorkflowError::InstanceRevisionMissing { instance_id: id }),
                );
            },
            Ok(Some(latest)) => latest,
        };
        let current = match read_live_status(&latest, id) {
            Err(error) => {
                return TransitionProgress::Finished(Err(error));
            },
            Ok(current) => current,
        };
        match ensure_transition(current, self.next_status, id) {
            Err(error) => {
                return TransitionProgress::Finished(Err(error));
            },
            Ok(()) => {},
        }
        let context = match required_content_attr(&latest, WorkflowInstance::NAME, "context") {
            Err(error) => {
                return TransitionProgress::Finished(Err(error));
            },
            Ok(context) => context,
        };
        match next_instance_revision(&latest, context, self.next_status) {
            Err(error) => TransitionProgress::Finished(Err(error)),
            Ok((revision_seq, revision)) => TransitionProgress::AppendRevision {
                instance_id: self.instance_id,
                revision_seq,
                revision,
                then: AwaitEndedAppend,
            },
        }
    }
}

impl AwaitEndedAppend {
    /// What follows from the answer.
    pub open spec fn followed_by(
        self,
        stored: Result<(), StoreError>,
        next: TransitionProgress,
    ) -> bool {
        match stored {
            Err(error) => next.fails(WorkflowError::Store(error)),
            Ok(()) => next == TransitionProgress::Finished(Ok(())),
        }
    }

    /// Takes word that the instance's new revision is stored.
    pub fn resume(self, stored: Result<(), StoreError>) -> (next: TransitionProgress)
        ensures
            self.followed_by(stored, next),
    {
        match stored {
            Err(error) => TransitionProgress::Finished(Err(WorkflowError::Store(error))),
            Ok(()) => TransitionProgress::Finished(Ok(())),
        }
    }
}

} // verus!
