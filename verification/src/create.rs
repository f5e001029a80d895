//! Creating an instance, bound to the current revision of its template.
//!
//! Each function here returns a [`CreateProgress`]: either a request to the
//! store, with what to do with the answer, or the outcome.

use crate::attributes::required_entity_attr;
use crate::canonical::{canonical_bytes, holds, CanonicalJson};
use crate::entities::{WorkflowInstance, WorkflowTemplate};
use crate::error::WorkflowError;
use crate::ids::{sha256, EntityId, Identity, Sha256};
use crate::instance::{instance_revision_input, instance_value};
use crate::json::{JsonValue, JsonView};
use crate::status::InstanceStatus;
use crate::store::{EntityRefValue, RevisionInput, RevisionRow, StoreError};
use vstd::prelude::*;

verus! {

/// Awaits the template's latest revision.
#[derive(Debug)]
pub struct AwaitTemplate {
    /// The template.
    pub template_id: EntityId<WorkflowTemplate>,
    /// The instance's arguments.
    pub args: CanonicalJson,
}

/// Awaits the new instance's identity.
#[derive(Debug)]
pub struct AwaitNewInstance {
    /// The template, pinned at its latest revision.
    pub template: EntityRefValue,
    /// The template's tenant.
    pub tenant: EntityRefValue,
    /// The instance's arguments.
    pub args: CanonicalJson,
}

/// Awaits that the new instance's context is stored.
#[derive(Debug)]
pub struct AwaitNewContext {
    /// The new instance.
    pub instance_id: EntityId<WorkflowInstance>,
    /// The template, pinned at its latest revision.
    pub template: EntityRefValue,
    /// The template's tenant.
    pub tenant: EntityRefValue,
    /// The instance's arguments.
    pub args: CanonicalJson,
    /// The digest of the context.
    pub context_hash: Sha256,
}

/// Awaits that the new instance's arguments are stored.
#[derive(Debug)]
pub struct AwaitNewArgs {
    /// The new instance.
    pub instance_id: EntityId<WorkflowInstance>,
    /// The template, pinned at its latest revision.
    pub template: EntityRefValue,
    /// The template's tenant.
    pub tenant: EntityRefValue,
    /// The digest of the context.
    pub context_hash: Sha256,
    /// The digest of the arguments.
    pub args_hash: Sha256,
}

/// Awaits that content is stored.
#[derive(Debug)]
pub enum AwaitNewContent {
    /// It is the context.
    Context(AwaitNewContext),
    /// It is the arguments.
    Args(AwaitNewArgs),
}

/// Awaits that the new instance's first revision is stored.
#[derive(Debug)]
pub struct AwaitNewRevision {
    /// The new instance.
    pub instance_id: EntityId<WorkflowInstance>,
}

/// A request to the store, or the outcome.
#[derive(Debug)]
pub enum CreateProgress {
    /// Asks for the latest revision of a template.
    GetLatestRevision {
        /// The template.
        template_id: EntityId<WorkflowTemplate>,
        /// Takes the answer.
        then: AwaitTemplate,
    },
    /// Asks to create an instance under a fresh identity.
    CreateInstance {
        /// Takes the answer.
        then: AwaitNewInstance,
    },
    /// Asks to store content.
    PutContent {
        /// The content's digest.
        hash: Sha256,
        /// The content.
        bytes: Vec<u8>,
        /// Takes the answer.
        then: AwaitNewContent,
    },
    /// Asks to append a revision to an instance.
    AppendRevision {
        /// The instance.
        instance_id: EntityId<WorkflowInstance>,
        /// The revision's sequence number.
        revision_seq: u64,
        /// The revision.
        revision: RevisionInput,
        /// Takes the answer.
        then: AwaitNewRevision,
    },
    /// The new instance, or why there is none.
    Finished(Result<EntityId<WorkflowInstance>, WorkflowError>),
}

impl CreateProgress {
    /// The creation failed with this error.
    pub open spec fn fails(self, error: WorkflowError) -> bool {
        self == CreateProgress::Finished(Err(error))
    }
}

/// Starts creating an instance.
pub fn start_create(
    template_id: EntityId<WorkflowTemplate>,
    args: CanonicalJson,
) -> (r: CreateProgress)
    ensures
        r == (CreateProgress::GetLatestRevision {
            template_id,
            then: AwaitTemplate { template_id, args },
        }),
{
    CreateProgress::GetLatestRevision { template_id, then: AwaitTemplate { template_id, args } }
}

impl AwaitTemplate {
    /// What follows from the answer: the template must be there, and have a
    /// tenant.
    pub open spec fn followed_by(
        self,
        found: Result<Option<RevisionRow>, StoreError>,
        next: CreateProgress,
    ) -> bool {
        match found {
            Err(error) => next.fails(WorkflowError::Store(error)),
            Ok(None) => next.fails(
                WorkflowError::TemplateNotFound { template_id: self.template_id.spec_internal() },
            ),
            Ok(Some(revision)) => match revision@.required_entity(
                WorkflowTemplate::NAME,
                "tenant",
            ) {
                Err(error) => next.fails(error),
                Ok(tenant) => next == (CreateProgress::CreateInstance {
                    then: AwaitNewInstance {
                        template: EntityRefValue {
                            target_entity_id: self.template_id.spec_internal(),
                            target_revision_seq: Some(revision.revision_seq),
                        },
                        tenant,
                        args: self.args,
                    },
                }),
            },
        }
    }

    /// Takes the template's latest revision.
    pub fn resume(self, found: Result<Option<RevisionRow>, StoreError>) -> (next: CreateProgress)
        ensures
            self.followed_by(found, next),
    {
        let revision = match found {
            Err(error) => {
                return CreateProgress::Finished(Err(WorkflowError::Store(error)));
            },
            Ok(None) => {
                return CreateProgress::Finished(
                    Err(
                        WorkflowError::TemplateNotFound {
                            template_id: self.template_id.internal(),
                        },
                    ),
                );
            },
            Ok(Some(revision)) => revision,
        };
        match required_entity_attr(&revision, WorkflowTemplate::NAME, "tenant") {
            Err(error) => CreateProgress::Finished(Err(error)),
            Ok(tenant) => CreateProgress::CreateInstance {
                then: AwaitNewInstance {
                    template: EntityRefValue {
                        target_entity_id: self.template_id.internal(),
                        target_revision_seq: Some(revision.revision_seq),
                    },
                    tenant,
                    args: self.args,
                },
            },
        }
    }
}

/// The error for an identity that the store made with the wrong versions.
pub open spec fn is_identity_error(error: WorkflowError, identity: Identity) -> bool {
    &&& error matches WorkflowError::Store(StoreError::IdentityKind { detail })
    &&& identity.versions() is Err
    &&& detail@ == identity.versions()->Err_0.spec_message()
}

/// Takes a fresh identity for that of an entity.
pub fn take_identity<T>(identity: Identity) -> (r: Result<EntityId<T>, WorkflowError>)
    ensures
        identity.versions() is Ok ==> r is Ok && r->Ok_0.identity() == identity,
        identity.versions() is Err ==> r is Err && is_identity_error(r->Err_0, identity),
{
    match identity.typed::<T>() {
        Ok(id) => Ok(id),
        Err(error) => Err(
            WorkflowError::Store(StoreError::IdentityKind { detail: error.message() }),
        ),
    }
}

impl AwaitNewInstance {
    /// What follows from the answer: the instance gets an empty context.
    pub open spec fn followed_by(
        self,
        created: Result<Identity, StoreError>,
        next: CreateProgress,
    ) -> bool {
        match created {
            Err(error) => next.fails(WorkflowError::Store(error)),
            Ok(identity) => if identity.versions() is Err {
                next matches CreateProgress::Finished(Err(error)) && is_identity_error(
                    error,
                    identity,
                )
            } else {
                &&& canonical_bytes(JsonView::Object(Map::empty())) matches Ok(empty)
                &&& next matches CreateProgress::PutContent {
                    hash,
                    bytes,
                    then: AwaitNewContent::Context(then),
                }
                &&& bytes@ == empty
                &&& hash == sha256(empty)
                &&& holds(empty, JsonView::Object(Map::empty()))
                &&& then.instance_id.identity() == identity
                &&& then.template == self.template
                &&& then.tenant == self.tenant
                &&& then.args == self.args
                &&& then.context_hash == hash
            },
        }
    }

    /// Takes the new instance's identity.
    pub fn resume(self, created: Result<Identity, StoreError>) -> (next: CreateProgress)
        ensures
            self.followed_by(created, next),
    {
        let identity = match created {
            Err(error) => {
                return CreateProgress::Finished(Err(WorkflowError::Store(error)));
            },
            Ok(identity) => identity,
        };
        let instance_id = match take_identity::<WorkflowInstance>(identity) {
            Err(error) => {
                return CreateProgress::Finished(Err(error));
            },
            Ok(instance_id) => instance_id,
        };
        match CanonicalJson::from_value(&JsonValue::Object(Vec::new())) {
            Err(error) => CreateProgress::Finished(Err(WorkflowError::Canonical(error))),
            Ok(empty) => {
                let context_hash = empty.digest();
                CreateProgress::PutContent {
                    hash: context_hash,
                    bytes: empty.into_bytes(),
                    then: AwaitNewContent::Context(
                        AwaitNewContext {
                            instance_id,
                            template: self.template,
                            tenant: self.tenant,
                            args: self.args,
                            context_hash,
                        },
                    ),
                }
            },
        }
    }
}

impl AwaitNewContext {
    /// What follows from the answer: the arguments are stored next.
    pub open spec fn followed_by(
        self,
        stored: Result<(), StoreError>,
        next: CreateProgress,
    ) -> bool {
        match stored {
            Err(error) => next.fails(WorkflowError::Store(error)),
            Ok(()) => {
                &&& next matches CreateProgress::PutContent {
                    hash,
                    bytes,
                    then: AwaitNewContent::Args(then),
                }
                &&& bytes@ == self.args@
                &&& hash == sha256(self.args@)
                &&& then == (AwaitNewArgs {
                    instance_id: self.instance_id,
                    template: self.template,
                    tenant: self.tenant,
                    context_hash: self.context_hash,
                    args_hash: hash,
                })
            },
        }
    }

    /// Takes word that the context is stored.
    pub fn resume(self, stored: Result<(), StoreError>) -> (next: CreateProgress)
        ensures
            self.followed_by(stored, next),
    {
        match stored {
            Err(error) => CreateProgress::Finished(Err(WorkflowError::Store(error))),
            Ok(()) => {
                let args_hash = self.args.digest();
                CreateProgress::PutContent {
                    hash: args_hash,
                    bytes: self.args.into_bytes(),
                    then: AwaitNewContent::Args(
                        AwaitNewArgs {
                            instance_id: self.instance_id,
                            template: self.template,
                            tenant: self.tenant,
                            context_hash: self.context_hash,
                            args_hash,
                        },
                    ),
                }
            },
        }
    }
}

impl AwaitNewArgs {
    /// What follows from the answer: the instance gets its first revision,
    /// pending.
    pub open spec fn followed_by(
        self,
        stored: Result<(), StoreError>,
        next: CreateProgress,
    ) -> bool {
        match stored {
            Err(error) => next.fails(WorkflowError::Store(error)),
            Ok(()) => {
                &&& next matches CreateProgress::AppendRevision {
                    instance_id,
                    revision_seq,
                    revision,
                    then,
                }
                &&& instance_id == self.instance_id
                &&& revision_seq == 0
                &&& revision@ == instance_value(
                    self.context_hash,
                    self.args_hash,
                    self.template,
                    self.tenant,
                    InstanceStatus::Pending,
                )
                &&& then == (AwaitNewRevision { instance_id: self.instance_id })
            },
        }
    }

    /// Takes word that the arguments are stored.
    pub fn resume(self, stored: Result<(), StoreError>) -> (next: CreateProgress)
        ensures
            self.followed_by(stored, next),
    {
        match stored {
            Err(error) => CreateProgress::Finished(Err(WorkflowError::Store(error))),
            Ok(()) => CreateProgress::AppendRevision {
                instance_id: self.instance_id,
                revision_seq: 0,
                revision: instance_revision_input(
                    self.context_hash,
                    self.args_hash,
                    self.template,
                    self.tenant,
                    InstanceStatus::Pending,
                ),
                then: AwaitNewRevision { instance_id: self.instance_id },
            },
        }
    }
}

impl AwaitNewContent {
    /// What follows from the answer.
    pub open spec fn followed_by(
        self,
        stored: Result<(), StoreError>,
        next: CreateProgress,
    ) -> bool {
        match self {
            AwaitNewContent::Context(then) => then.followed_by(stored, next),
            AwaitNewContent::Args(then) => then.followed_by(stored, next),
        }
    }

    /// Takes word that the content is stored.
    pub fn resume(self, stored: Result<(), StoreError>) -> (next: CreateProgress)
        ensures
            self.followed_by(stored, next),
    {
        match self {
            AwaitNewContent::Context(then) => then.resume(stored),
            AwaitNewContent::Args(then) => then.resume(stored),
        }
    }
}

impl AwaitNewRevision {
    /// What follows from the answer.
    pub open spec fn followed_by(
        self,
        stored: Result<(), StoreError>,
        next: CreateProgress,
    ) -> bool {
        match stored {
            Err(error) => next.fails(WorkflowError::Store(error)),
            Ok(()) => next == CreateProgress::Finished(Ok(self.instance_id)),
        }
    }

    /// Takes word that the first revision is stored.
    pub fn resume(self, stored: Result<(), StoreError>) -> (next: CreateProgress)
        ensures
            self.followed_by(stored, next),
    {
        match stored {
            Err(error) => CreateProgress::Finished(Err(WorkflowError::Store(error))),
            Ok(()) => CreateProgress::Finished(Ok(self.instance_id)),
        }
    }
}

} // verus!
