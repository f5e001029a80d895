//! Executing one step of an instance.
//!
//! A step reads the instance and its template, runs the script, and writes the
//! step's record and then the instance's next revision. Each function here
//! returns a [`StepProgress`]: either a request to the store, the lowerer or
//! the executor, with what to do with the answer, or the outcome.

use crate::attributes::required_content_attr;
use crate::canonical::{
    canonical_bytes, canonical_to_json, json_parsed, json_read, load_json_content, CanonicalJson,
};
use crate::data::{
    build_script_data, AwaitDataConfig, AwaitDataContent, AwaitDatasetEntity,
    AwaitDatasetRevision, AwaitIdentity, DataProgress,
};
use crate::entities::{EmbeddingDataset, StepRecord, WorkflowInstance, WorkflowTemplate};
use crate::error::WorkflowError;
use crate::ids::{sha256, EntityId, Identity, Sha256, Uuid};
use crate::instance::{check_instance_entity, instance_entity, instance_revision};
use crate::json::{JsonValue, JsonView};
use crate::plan::{
    check_template_entity, make_script_argument, plan_step, read_script, read_template_parts,
    script_argument, script_read, step_plan, template_entity, template_parts, StepPlan,
};
use crate::status::InstanceStatus;
use crate::step::{StepRecordWrite, StepResult};
use crate::store::{EntityRow, RevisionInput, RevisionRow, StoreError};
use crate::subject::SubjectContext;
use vstd::prelude::*;

verus! {

/// What a step is asked for with.
#[derive(Debug)]
pub struct StepCall {
    /// The instance.
    pub instance_id: EntityId<WorkflowInstance>,
    /// The step's input.
    pub input: CanonicalJson,
    /// Who asks for it.
    pub subject: SubjectContext,
}

/// A step whose instance has been read.
#[derive(Debug)]
pub struct StepBase {
    /// What the step is asked for with.
    pub call: StepCall,
    /// The instance's latest revision.
    pub latest: RevisionRow,
    /// What that revision says of the step.
    pub plan: StepPlan,
}

/// A step whose script and values have been read.
#[derive(Debug)]
pub struct StepMaterial {
    /// What the step is asked for with, and its instance.
    pub base: StepBase,
    /// The template's revision.
    pub template: RevisionRow,
    /// The script.
    pub script: String,
    /// The template's abstract config.
    pub config: JsonValue,
    /// The instance's context.
    pub context: JsonValue,
    /// The instance's arguments.
    pub args: JsonValue,
}

/// A step whose input and subject have been stored.
#[derive(Debug)]
pub struct StepReady {
    /// What the step works with.
    pub material: StepMaterial,
    /// Digest of the step's input.
    pub input_hash: Sha256,
    /// Digest of the subject that asks for it.
    pub subject_hash: Sha256,
    /// The step's input.
    pub input: JsonValue,
}

/// What is kept of a step while its script runs.
#[derive(Debug)]
pub struct StepRun {
    /// The instance.
    pub instance_id: EntityId<WorkflowInstance>,
    /// The instance's revision before the step.
    pub latest: RevisionRow,
    /// The instance's status before the step.
    pub status: InstanceStatus,
    /// The step's number.
    pub step_seq: u64,
    /// Digest of the step's input.
    pub input_hash: Sha256,
    /// Digest of the subject that asked for it.
    pub subject_hash: Sha256,
}

/// How a step ends once it is written down.
#[derive(Debug)]
pub enum StepEnding {
    /// The script succeeded.
    Succeeded {
        /// Digest of the context for the next step.
        context_hash: Sha256,
        /// What the caller gets.
        result: StepResult,
    },
    /// The script failed.
    Failed {
        /// What went wrong.
        detail: String,
    },
}

/// Awaits something for the step's data.
#[derive(Debug)]
pub struct WithData<T> {
    /// The step.
    pub ready: StepReady,
    /// Takes the answer.
    pub lookup: T,
}

/// Awaits the template's script.
#[derive(Debug)]
pub struct AwaitScript {
    /// The step.
    pub base: StepBase,
    /// The template's revision.
    pub template: RevisionRow,
    /// The digest asked for.
    pub script_hash: Sha256,
    /// Digest of the template's config.
    pub config_hash: Sha256,
}

/// Awaits the template's config.
#[derive(Debug)]
pub struct AwaitConfig {
    /// The step.
    pub base: StepBase,
    /// The template's revision.
    pub template: RevisionRow,
    /// The script.
    pub script: String,
    /// The digest asked for.
    pub config_hash: Sha256,
}

/// Awaits the instance's context.
#[derive(Debug)]
pub struct AwaitContext {
    /// The step.
    pub base: StepBase,
    /// The template's revision.
    pub template: RevisionRow,
    /// The script.
    pub script: String,
    /// The template's config.
    pub config: JsonValue,
    /// The digest asked for.
    pub context_hash: Sha256,
    /// Digest of the instance's arguments.
    pub args_hash: Sha256,
}

/// Awaits the instance's arguments.
#[derive(Debug)]
pub struct AwaitArgs {
    /// The step.
    pub base: StepBase,
    /// The template's revision.
    pub template: RevisionRow,
    /// The script.
    pub script: String,
    /// The template's config.
    pub config: JsonValue,
    /// The instance's context.
    pub context: JsonValue,
    /// The digest asked for.
    pub args_hash: Sha256,
}

/// Awaits that the step's input is stored.
#[derive(Debug)]
pub struct AwaitInputStored {
    /// What the step works with.
    pub material: StepMaterial,
    /// Digest of the step's input.
    pub input_hash: Sha256,
}

/// Awaits that the step's subject is stored.
#[derive(Debug)]
pub struct AwaitSubjectStored {
    /// What the step works with.
    pub material: StepMaterial,
    /// Digest of the step's input.
    pub input_hash: Sha256,
    /// Digest of the subject.
    pub subject_hash: Sha256,
}

/// Awaits the concrete config.
#[derive(Debug)]
pub struct AwaitLowered {
    /// What is kept of the step.
    pub run: StepRun,
    /// The script.
    pub script: String,
    /// The script's argument.
    pub arg: JsonValue,
}

/// Awaits the script's result.
#[derive(Debug)]
pub struct AwaitExecuted {
    /// What is kept of the step.
    pub run: StepRun,
}

/// Awaits that the context for the next step is stored.
#[derive(Debug)]
pub struct AwaitContextStored {
    /// What is kept of the step.
    pub run: StepRun,
    /// What the caller gets.
    pub result: StepResult,
    /// Digest of the context.
    pub context_hash: Sha256,
    /// The script's output.
    pub output: CanonicalJson,
}

/// Awaits that the script's output is stored.
#[derive(Debug)]
pub struct AwaitOutputStored {
    /// What is kept of the step.
    pub run: StepRun,
    /// What the caller gets.
    pub result: StepResult,
    /// Digest of the context.
    pub context_hash: Sha256,
    /// Digest of the output.
    pub output_hash: Sha256,
}

/// Awaits that the script's error is stored.
#[derive(Debug)]
pub struct AwaitErrorStored {
    /// What is kept of the step.
    pub run: StepRun,
    /// What went wrong.
    pub detail: String,
    /// Digest of the error.
    pub error_hash: Sha256,
}

/// Awaits the identity of the step's record.
#[derive(Debug)]
pub struct AwaitRecord {
    /// What the record says.
    pub write: StepRecordWrite,
    /// The instance's revision before the step.
    pub latest: RevisionRow,
    /// How the step ends.
    pub ending: StepEnding,
}

/// Awaits that the step's record is stored.
#[derive(Debug)]
pub struct AwaitRecordStored {
    /// The instance.
    pub instance_id: EntityId<WorkflowInstance>,
    /// The instance's revision before the step.
    pub latest: RevisionRow,
    /// How the step ends.
    pub ending: StepEnding,
}

/// Awaits that the instance's next revision is stored.
#[derive(Debug)]
pub struct AwaitStepStored {
    /// How the step ends.
    pub ending: StepEnding,
}

/// Awaits an entity.
#[derive(Debug)]
pub enum StepEntity {
    /// It is the instance.
    Instance(StepCall),
    /// It is the template.
    Template(StepBase),
    /// It is a dataset.
    Dataset(WithData<AwaitDatasetEntity>),
}

/// Awaits content.
#[derive(Debug)]
pub enum StepContent {
    /// It is the script.
    Script(AwaitScript),
    /// It is the template's config.
    Config(AwaitConfig),
    /// It is the instance's context.
    Context(AwaitContext),
    /// It is the instance's arguments.
    Args(AwaitArgs),
    /// It is for the step's data.
    Data(WithData<AwaitDataContent>),
}

/// Awaits that content is stored.
#[derive(Debug)]
pub enum StepPut {
    /// It is the step's input.
    Input(AwaitInputStored),
    /// It is the step's subject.
    Subject(AwaitSubjectStored),
    /// It is the context for the next step.
    Context(AwaitContextStored),
    /// It is the script's output.
    Output(AwaitOutputStored),
    /// It is the script's error.
    Error(AwaitErrorStored),
}

/// A request, or the outcome.
#[derive(Debug)]
pub enum StepProgress {
    /// Asks the store for an entity.
    GetEntity {
        /// The entity's internal identifier.
        entity_id: Uuid,
        /// Takes the answer.
        then: StepEntity,
    },
    /// Asks the store for the latest revision of an instance.
    GetInstanceRevision {
        /// The instance.
        instance_id: EntityId<WorkflowInstance>,
        /// Takes the answer.
        then: StepCall,
    },
    /// Asks the store for one revision of a template.
    GetTemplateRevision {
        /// The template's internal identifier.
        template_id: Uuid,
        /// The revision's sequence number.
        revision_seq: u64,
        /// Takes the answer.
        then: StepBase,
    },
    /// Asks the store for the latest revision of a dataset.
    GetDatasetRevision {
        /// The dataset.
        dataset_id: EntityId<EmbeddingDataset>,
        /// Takes the answer.
        then: WithData<AwaitDatasetRevision>,
    },
    /// Asks the store whose public identifier this is.
    ResolvePublic {
        /// The public identifier.
        public_id: Uuid,
        /// Takes the answer.
        then: WithData<AwaitIdentity>,
    },
    /// Asks the store for the content with a digest.
    GetContent {
        /// The digest.
        hash: Sha256,
        /// Takes the answer.
        then: StepContent,
    },
    /// Asks the store to store content.
    PutContent {
        /// The content's digest.
        hash: Sha256,
        /// The content.
        bytes: Vec<u8>,
        /// Takes the answer.
        then: StepPut,
    },
    /// Asks the lowerer for a concrete config.
    Lower {
        /// The template's abstract config.
        abstract_config: JsonValue,
        /// The instance.
        instance_id: EntityId<WorkflowInstance>,
        /// The step's number.
        step_seq: u64,
        /// Who asks for the step.
        subject: SubjectContext,
        /// Takes the answer.
        then: AwaitLowered,
    },
    /// Asks the executor to run a script.
    Execute {
        /// The script.
        script: String,
        /// The script's argument.
        arg: JsonValue,
        /// The concrete config.
        config: JsonValue,
        /// Takes the answer.
        then: AwaitExecuted,
    },
    /// Asks the store to create a step record under a fresh identity.
    CreateRecord {
        /// Takes the answer.
        then: AwaitRecord,
    },
    /// Asks the store to append a revision to a step record.
    AppendRecord {
        /// The step record.
        record_id: EntityId<StepRecord>,
        /// The revision's sequence number.
        revision_seq: u64,
        /// The revision.
        revision: RevisionInput,
        /// Takes the answer.
        then: AwaitRecordStored,
    },
    /// Asks the store to append a revision to an instance.
    AppendInstance {
        /// The instance.
        instance_id: EntityId<WorkflowInstance>,
        /// The revision's sequence number.
        revision_seq: u64,
        /// The revision.
        revision: RevisionInput,
        /// Takes the answer.
        then: AwaitStepStored,
    },
    /// What the step came to.
    Finished(Result<StepResult, WorkflowError>),
}

impl StepProgress {
    /// The step failed with this error.
    pub open spec fn fails(self, error: WorkflowError) -> bool {
        self == StepProgress::Finished(Err(error))
    }
}

/// Gives up with an error.
pub(crate) fn fail(error: WorkflowError) -> (r: StepProgress)
    ensures
        r.fails(error),
{
    StepProgress::Finished(Err(error))
}

/// Starts executing a step.
pub fn start_step(
    instance_id: EntityId<WorkflowInstance>,
    input: CanonicalJson,
    subject: SubjectContext,
) -> (r: StepProgress)
    ensures
        r == (StepProgress::GetEntity {
            entity_id: instance_id.spec_internal(),
            then: StepEntity::Instance(StepCall { instance_id, input, subject }),
        }),
{
    StepProgress::GetEntity {
        entity_id: instance_id.internal(),
        then: StepEntity::Instance(StepCall { instance_id, input, subject }),
    }
}

impl StepCall {
    /// What follows from the instance's entity: it must be an instance.
    pub open spec fn entity_followed_by(
        self,
        found: Result<Option<EntityRow>, StoreError>,
        next: StepProgress,
    ) -> bool {
        match instance_entity(found, self.instance_id.spec_internal()) {
            Err(error) => next.fails(error),
            Ok(()) => next == (StepProgress::GetInstanceRevision {
                instance_id: self.instance_id,
                then: self,
            }),
        }
    }

    /// Takes the instance's entity.
    fn resume_entity(self, found: Result<Option<EntityRow>, StoreError>) -> (next: StepProgress)
        ensures
            self.entity_followed_by(found, next),
    {
        match check_instance_entity(found, self.instance_id.internal()) {
            Err(error) => fail(error),
            Ok(()) => StepProgress::GetInstanceRevision {
                instance_id: self.instance_id,
                then: self,
            },
        }
    }

    /// What follows from the instance's latest revision: the step is planned,
    /// and the template asked for.
    pub open spec fn followed_by(
        self,
        found: Result<Option<RevisionRow>, StoreError>,
        next: StepProgress,
    ) -> bool {
        let id = self.instance_id.spec_internal();
        match instance_revision(found, id) {
            Err(error) => next.fails(error),
            Ok(latest) => match step_plan(latest, id) {
                Err(error) => next.fails(error),
                Ok(plan) => next == (StepProgress::GetEntity {
                    entity_id: plan.template_id,
                    then: StepEntity::Template(StepBase { call: self, latest, plan }),
                }),
            },
        }
    }

    /// Takes the instance's latest revision.
    pub fn resume(self, found: Result<Option<RevisionRow>, StoreError>) -> (next: StepProgress)
        ensures
            self.followed_by(found, next),
    {
        let id = self.instance_id.internal();
        match found {
            Err(error) => fail(WorkflowError::Store(error)),
            Ok(None) => fail(WorkflowError::InstanceRevisionMissing { instance_id: id }),
            Ok(Some(latest)) => match plan_step(&latest, id) {
                Err(error) => fail(error),
                Ok(plan) => StepProgress::GetEntity {
                    entity_id: plan.template_id,
                    then: StepEntity::Template(StepBase { call: self, latest, plan }),
                },
            },
        }
    }
}

impl StepBase {
    /// What follows from the template's entity: it must be a template.
    pub open spec fn entity_followed_by(
        self,
        found: Result<Option<EntityRow>, StoreError>,
        next: StepProgress,
    ) -> bool {
        match template_entity(found, self.plan.template_id) {
            Err(error) => next.fails(error),
            Ok(()) => next == (StepProgress::GetTemplateRevision {
                template_id: self.plan.template_id,
                revision_seq: self.plan.template_seq,
                then: self,
            }),
        }
    }

    /// Takes the template's entity.
    fn resume_entity(self, found: Result<Option<EntityRow>, StoreError>) -> (next: StepProgress)
        ensures
            self.entity_followed_by(found, next),
    {
        match check_template_entity(found, self.plan.template_id) {
            Err(error) => fail(error),
            Ok(()) => StepProgress::GetTemplateRevision {
                template_id: self.plan.template_id,
                revision_seq: self.plan.template_seq,
                then: self,
            },
        }
    }

    /// What follows from the template's revision: it must be there and fit the
    /// instance; its script is asked for.
    pub open spec fn followed_by(
        self,
        found: Result<Option<RevisionRow>, StoreError>,
        next: StepProgress,
    ) -> bool {
        match found {
            Err(error) => next.fails(WorkflowError::Store(error)),
            Ok(None) => next.fails(
                WorkflowError::TemplateRevisionNotFound {
                    template_id: self.plan.template_id,
                    revision_seq: self.plan.template_seq,
                },
            ),
            Ok(Some(template)) => match template_parts(
                template,
                self.plan,
                self.call.instance_id.spec_internal(),
            ) {
                Err(error) => next.fails(error),
                Ok(parts) => next == (StepProgress::GetContent {
                    hash: parts.script_hash,
                    then: StepContent::Script(
                        AwaitScript {
                            base: self,
                            template,
                            script_hash: parts.script_hash,
                            config_hash: parts.config_hash,
                        },
                    ),
                }),
            },
        }
    }

    /// Takes the template's revision.
    pub fn resume(self, found: Result<Option<RevisionRow>, StoreError>) -> (next: StepProgress)
        ensures
            self.followed_by(found, next),
    {
        let template = match found {
            Err(error) => {
                return fail(WorkflowError::Store(error));
            },
            Ok(None) => {
                return fail(
                    WorkflowError::TemplateRevisionNotFound {
                        template_id: self.plan.template_id,
                        revision_seq: self.plan.template_seq,
                    },
                );
            },
            Ok(Some(template)) => template,
        };
        match read_template_parts(&template, self.plan, self.call.instance_id.internal()) {
            Err(error) => fail(error),
            Ok(parts) => StepProgress::GetContent {
                hash: parts.script_hash,
                then: StepContent::Script(
                    AwaitScript {
                        base: self,
                        template,
                        script_hash: parts.script_hash,
                        config_hash: parts.config_hash,
                    },
                ),
            },
        }
    }
}

impl AwaitScript {
    /// What follows from the script: it must be text; the config is asked for.
    pub open spec fn followed_by(
        self,
        found: Result<Option<Vec<u8>>, StoreError>,
        next: StepProgress,
    ) -> bool {
        exists|read: Result<String, WorkflowError>| #[trigger]
            script_read(found, self.script_hash, read) && match read {
                Err(error) => next.fails(error),
                Ok(script) => next == (StepProgress::GetContent {
                    hash: self.config_hash,
                    then: StepContent::Config(
                        AwaitConfig {
                            base: self.base,
                            template: self.template,
                            script,
                            config_hash: self.config_hash,
                        },
                    ),
                }),
            }
    }

    fn resume(self, found: Result<Option<Vec<u8>>, StoreError>) -> (next: StepProgress)
        ensures
            self.followed_by(found, next),
    {
        let read = read_script(found, self.script_hash);
        let ghost answer = read;
        assert(script_read(found, self.script_hash, answer));
        match read {
            Err(error) => fail(error),
            Ok(script) => StepProgress::GetContent {
                hash: self.config_hash,
                then: StepContent::Config(
                    AwaitConfig {
                        base: self.base,
                        template: self.template,
                        script,
                        config_hash: self.config_hash,
                    },
                ),
            },
        }
    }
}

impl AwaitConfig {
    /// What follows from the template's config: it must be JSON, and the
    /// instance have a context and arguments; the context is asked for.
    pub open spec fn followed_by(
        self,
        found: Result<Option<Vec<u8>>, StoreError>,
        next: StepProgress,
    ) -> bool {
        exists|read: Result<JsonValue, WorkflowError>| #[trigger]
            json_read(found, WorkflowTemplate::NAME, "config", self.config_hash, read)
                && match read {
                Err(error) => next.fails(error),
                Ok(config) => match (
                    self.base.latest@.required_content(WorkflowInstance::NAME, "context"),
                    self.base.latest@.required_content(WorkflowInstance::NAME, "args"),
                ) {
                    (Err(error), _) => next.fails(error),
                    (_, Err(error)) => next.fails(error),
                    (Ok(context_hash), Ok(args_hash)) => next == (StepProgress::GetContent {
                        hash: context_hash,
                        then: StepContent::Context(
                            AwaitContext {
                                base: self.base,
                                template: self.template,
                                script: self.script,
                                config,
                                context_hash,
                                args_hash,
                            },
                        ),
                    }),
                },
            }
    }

    fn resume(self, found: Result<Option<Vec<u8>>, StoreError>) -> (next: StepProgress)
        ensures
            self.followed_by(found, next),
    {
        let read = load_json_content(
            found,
            self.config_hash,
            WorkflowTemplate::NAME,
            "config",
        );
        let ghost answer = read;
        assert(json_read(found, WorkflowTemplate::NAME, "config", self.config_hash, answer));
        let config = match read {
            Err(error) => {
                return fail(error);
            },
            Ok(config) => config,
        };
        let context_hash = match required_content_attr(
            &self.base.latest,
            WorkflowInstance::NAME,
            "context",
        ) {
            Err(error) => {
                return fail(error);
            },
            Ok(hash) => hash,
        };
        let args_hash = match required_content_attr(
            &self.base.latest,
            WorkflowInstance::NAME,
            "args",
        ) {
            Err(error) => {
                return fail(error);
            },
            Ok(hash) => hash,
        };
        StepProgress::GetContent {
            hash: context_hash,
            then: StepContent::Context(
                AwaitContext {
                    base: self.base,
                    template: self.template,
                    script: self.script,
                    config,
                    context_hash,
                    args_hash,
                },
            ),
        }
    }
}

impl AwaitContext {
    /// What follows from the instance's context: it must be JSON; the arguments
    /// are asked for.
    pub open spec fn followed_by(
        self,
        found: Result<Option<Vec<u8>>, StoreError>,
        next: StepProgress,
    ) -> bool {
        exists|read: Result<JsonValue, WorkflowError>| #[trigger]
            json_read(found, WorkflowInstance::NAME, "context", self.context_hash, read)
                && match read {
                Err(error) => next.fails(error),
                Ok(context) => next == (StepProgress::GetContent {
                    hash: self.args_hash,
                    then: StepContent::Args(
                        AwaitArgs {
                            base: self.base,
                            template: self.template,
                            script: self.script,
                            config: self.config,
                            context,
                            args_hash: self.args_hash,
                        },
                    ),
                }),
            }
    }

    fn resume(self, found: Result<Option<Vec<u8>>, StoreError>) -> (next: StepProgress)
        ensures
            self.followed_by(found, next),
    {
        let read = load_json_content(
            found,
            self.context_hash,
            WorkflowInstance::NAME,
            "context",
        );
        let ghost answer = read;
        assert(json_read(found, WorkflowInstance::NAME, "context", self.context_hash, answer));
        match read {
            Err(error) => fail(error),
            Ok(context) => StepProgress::GetContent {
                hash: self.args_hash,
                then: StepContent::Args(
                    AwaitArgs {
                        base: self.base,
                        template: self.template,
                        script: self.script,
                        config: self.config,
                        context,
                        args_hash: self.args_hash,
                    },
                ),
            },
        }
    }
}

impl AwaitArgs {
    /// What follows from the instance's arguments: they must be JSON; the
    /// step's input is stored.
    pub open spec fn followed_by(
        self,
        found: Result<Option<Vec<u8>>, StoreError>,
        next: StepProgress,
    ) -> bool {
        exists|read: Result<JsonValue, WorkflowError>| #[trigger]
            json_read(found, WorkflowInstance::NAME, "args", self.args_hash, read) && match read {
                Err(error) => next.fails(error),
                Ok(args) => {
                    &&& next matches StepProgress::PutContent {
                        hash,
                        bytes,
                        then: StepPut::Input(then),
                    }
                    &&& bytes@ == self.base.call.input@
                    &&& hash == sha256(self.base.call.input@)
                    &&& then == (AwaitInputStored {
                        material: StepMaterial {
                            base: self.base,
                            template: self.template,
                            script: self.script,
                            config: self.config,
                            context: self.context,
                            args,
                        },
                        input_hash: hash,
                    })
                },
            }
    }

    fn resume(self, found: Result<Option<Vec<u8>>, StoreError>) -> (next: StepProgress)
        ensures
            self.followed_by(found, next),
    {
        let read = load_json_content(found, self.args_hash, WorkflowInstance::NAME, "args");
        let ghost answer = read;
        assert(json_read(found, WorkflowInstance::NAME, "args", self.args_hash, answer));
        let args = match read {
            Err(error) => {
                return fail(error);
            },
            Ok(args) => args,
        };
        let input_hash = self.base.call.input.digest();
        let bytes = self.base.call.input.duplicate().into_bytes();
        StepProgress::PutContent {
            hash: input_hash,
            bytes,
            then: StepPut::Input(
                AwaitInputStored {
                    material: StepMaterial {
                        base: self.base,
                        template: self.template,
                        script: self.script,
                        config: self.config,
                        context: self.context,
                        args,
                    },
                    input_hash,
                },
            ),
        }
    }
}

impl AwaitInputStored {
    /// What follows: the subject is stored, without its claims and its tenant.
    pub open spec fn followed_by(
        self,
        stored: Result<(), StoreError>,
        next: StepProgress,
    ) -> bool {
        match stored {
            Err(error) => next.fails(WorkflowError::Store(error)),
            Ok(()) => {
                &&& canonical_bytes(self.material.base.call.subject.audit_value()) matches Ok(
                    subject,
                )
                &&& next matches StepProgress::PutContent {
                    hash,
                    bytes,
                    then: StepPut::Subject(then),
                }
                &&& bytes@ == subject
                &&& hash == sha256(subject)
                &&& then == (AwaitSubjectStored {
                    material: self.material,
                    input_hash: self.input_hash,
                    subject_hash: hash,
                })
            },
        }
    }

    pub(crate) fn resume(self, stored: Result<(), StoreError>) -> (next: StepProgress)
        ensures
            self.followed_by(stored, next),
    {
        match stored {
            Err(error) => {
                return fail(WorkflowError::Store(error));
            },
            Ok(()) => {},
        }
        let record = self.material.base.call.subject.to_step_record_subject();
        let value = record.to_record_value();
        match CanonicalJson::from_value(&value) {
            Err(error) => fail(WorkflowError::Canonical(error)),
            Ok(subject) => {
                let subject_hash = subject.digest();
                StepProgress::PutContent {
                    hash: subject_hash,
                    bytes: subject.into_bytes(),
                    then: StepPut::Subject(
                        AwaitSubjectStored {
                            material: self.material,
                            input_hash: self.input_hash,
                            subject_hash,
                        },
                    ),
                }
            },
        }
    }
}

impl StepReady {
    /// What is kept of the step while its script runs.
    pub open spec fn run(self) -> StepRun {
        StepRun {
            instance_id: self.material.base.call.instance_id,
            latest: self.material.base.latest,
            status: self.material.base.plan.status,
            step_seq: self.material.base.plan.step_seq,
            input_hash: self.input_hash,
            subject_hash: self.subject_hash,
        }
    }

    /// The script's argument, with this data.
    pub open spec fn argument(self, data: JsonView) -> JsonView {
        script_argument(
            self.material.context@,
            self.material.args@,
            self.input@,
            self.material.base.call.subject.script_value(),
            data,
            self.material.base.call.instance_id.spec_public(),
            self.material.base.plan.step_seq,
        )
    }

    /// What follows where the lookup of the data stands: its requests are the
    /// step's, and with the data the config is lowered.
    pub open spec fn followed_by(self, inner: DataProgress, next: StepProgress) -> bool {
        match inner {
            DataProgress::GetContent { hash, then } => next == (StepProgress::GetContent {
                hash,
                then: StepContent::Data(WithData { ready: self, lookup: then }),
            }),
            DataProgress::ResolvePublic { public_id, then } => next
                == (StepProgress::ResolvePublic {
                public_id,
                then: WithData { ready: self, lookup: then },
            }),
            DataProgress::GetEntity { entity_id, then } => next == (StepProgress::GetEntity {
                entity_id,
                then: StepEntity::Dataset(WithData { ready: self, lookup: then }),
            }),
            DataProgress::GetLatestRevision { dataset_id, then } => next
                == (StepProgress::GetDatasetRevision {
                dataset_id,
                then: WithData { ready: self, lookup: then },
            }),
            DataProgress::Finished(Err(error)) => next.fails(error),
            DataProgress::Finished(Ok(data)) => {
                &&& next matches StepProgress::Lower {
                    abstract_config,
                    instance_id,
                    step_seq,
                    subject,
                    then,
                }
                &&& abstract_config == self.material.config
                &&& instance_id == self.material.base.call.instance_id
                &&& step_seq == self.material.base.plan.step_seq
                &&& subject == self.material.base.call.subject
                &&& then.run == self.run()
                &&& then.script == self.material.script
                &&& then.arg@ == self.argument(data@)
            },
        }
    }

    /// Goes on where the lookup of the data stands.
    fn go_on(self, inner: DataProgress) -> (next: StepProgress)
        ensures
            self.followed_by(inner, next),
    {
        match inner {
            DataProgress::GetContent { hash, then } => StepProgress::GetContent {
                hash,
                then: StepContent::Data(WithData { ready: self, lookup: then }),
            },
            DataProgress::ResolvePublic { public_id, then } => StepProgress::ResolvePublic {
                public_id,
                then: WithData { ready: self, lookup: then },
            },
            DataProgress::GetEntity { entity_id, then } => StepProgress::GetEntity {
                entity_id,
                then: StepEntity::Dataset(WithData { ready: self, lookup: then }),
            },
            DataProgress::GetLatestRevision { dataset_id, then } => {
                StepProgress::GetDatasetRevision {
                    dataset_id,
                    then: WithData { ready: self, lookup: then },
                }
            },
            DataProgress::Finished(Err(error)) => fail(error),
            DataProgress::Finished(Ok(data)) => {
                let StepReady { material, input_hash, subject_hash, input } = self;
                let StepMaterial { base, template: _, script, config, context, args } = material;
                let StepBase { call, latest, plan } = base;
                let arg = make_script_argument(
                    context,
                    args,
                    input,
                    call.subject.to_script_json(),
                    data,
                    call.instance_id.public(),
                    plan.step_seq,
                );
                StepProgress::Lower {
                    abstract_config: config,
                    instance_id: call.instance_id,
                    step_seq: plan.step_seq,
                    subject: call.subject,
                    then: AwaitLowered {
                        run: StepRun {
                            instance_id: call.instance_id,
                            latest,
                            status: plan.status,
                            step_seq: plan.step_seq,
                            input_hash,
                            subject_hash,
                        },
                        script,
                        arg,
                    },
                }
            },
        }
    }
}

impl AwaitSubjectStored {
    /// What follows: the input must be JSON; the data is put together.
    pub open spec fn followed_by(
        self,
        stored: Result<(), StoreError>,
        next: StepProgress,
    ) -> bool {
        match stored {
            Err(error) => next.fails(WorkflowError::Store(error)),
            Ok(()) => match json_parsed(self.material.base.call.input@) {
                Err(message) => next matches StepProgress::Finished(Err(error))
                    && error.is_json_error("failed to parse canonical JSON: "@ + message),
                Ok(value) => exists|ready: StepReady, inner: DataProgress|
                    {
                        &&& #[trigger] ready.followed_by(inner, next)
                        &&& ready.material == self.material
                        &&& ready.input_hash == self.input_hash
                        &&& ready.subject_hash == self.subject_hash
                        &&& ready.input@ == value
                        &&& match self.material.template@.content_attr("data_config"@) {
                            None => inner.yields(JsonView::Object(Map::empty())),
                            Some(hash) => inner == (DataProgress::GetContent {
                                hash,
                                then: AwaitDataContent::DataConfig(
                                    AwaitDataConfig {
                                        tenant: self.material.base.plan.tenant,
                                        hash,
                                    },
                                ),
                            }),
                        }
                    },
            },
        }
    }

    pub(crate) fn resume(self, stored: Result<(), StoreError>) -> (next: StepProgress)
        ensures
            self.followed_by(stored, next),
    {
        match stored {
            Err(error) => {
                return fail(WorkflowError::Store(error));
            },
            Ok(()) => {},
        }
        let input = match canonical_to_json(&self.material.base.call.input) {
            Err(error) => {
                return fail(error);
            },
            Ok(input) => input,
        };
        let inner = build_script_data(&self.material.template, self.material.base.plan.tenant);
        let ready = StepReady {
            material: self.material,
            input_hash: self.input_hash,
            subject_hash: self.subject_hash,
            input,
        };
        let ghost witness = (ready, inner);
        let next = ready.go_on(inner);
        assert(witness.0.followed_by(witness.1, next));
        next
    }
}

impl WithData<AwaitDataContent> {
    /// What follows: the lookup of the data goes on.
    pub open spec fn followed_by(
        self,
        found: Result<Option<Vec<u8>>, StoreError>,
        next: StepProgress,
    ) -> bool {
        exists|inner: DataProgress| #[trigger]
            self.lookup.followed_by(found, inner) && self.ready.followed_by(inner, next)
    }

    fn resume(self, found: Result<Option<Vec<u8>>, StoreError>) -> (next: StepProgress)
        ensures
            self.followed_by(found, next),
    {
        let inner = self.lookup.resume(found);
        let ghost witness = inner;
        let next = self.ready.go_on(inner);
        assert(self.lookup.followed_by(found, witness));
        next
    }
}

impl WithData<AwaitIdentity> {
    /// What follows: the lookup of the data goes on.
    pub open spec fn followed_by(
        self,
        found: Result<Option<Identity>, StoreError>,
        next: StepProgress,
    ) -> bool {
        exists|inner: DataProgress| #[trigger]
            self.lookup.followed_by(found, inner) && self.ready.followed_by(inner, next)
    }

    /// Takes the identity behind a public identifier.
    pub fn resume(self, found: Result<Option<Identity>, StoreError>) -> (next: StepProgress)
        ensures
            self.followed_by(found, next),
    {
        let inner = self.lookup.resume(found);
        let ghost witness = inner;
        let next = self.ready.go_on(inner);
        assert(self.lookup.followed_by(found, witness));
        next
    }
}

impl WithData<AwaitDatasetEntity> {
    /// What follows: the lookup of the data goes on.
    pub open spec fn followed_by(
        self,
        found: Result<Option<EntityRow>, StoreError>,
        next: StepProgress,
    ) -> bool {
        exists|inner: DataProgress| #[trigger]
            self.lookup.followed_by(found, inner) && self.ready.followed_by(inner, next)
    }

    fn resume(self, found: Result<Option<EntityRow>, StoreError>) -> (next: StepProgress)
        ensures
            self.followed_by(found, next),
    {
        let inner = self.lookup.resume(found);
        let ghost witness = inner;
        let next = self.ready.go_on(inner);
        assert(self.lookup.followed_by(found, witness));
        next
    }
}

impl WithData<AwaitDatasetRevision> {
    /// What follows: the lookup of the data goes on.
    pub open spec fn followed_by(
        self,
        found: Result<Option<RevisionRow>, StoreError>,
        next: StepProgress,
    ) -> bool {
        exists|inner: DataProgress| #[trigger]
            self.lookup.followed_by(found, inner) && self.ready.followed_by(inner, next)
    }

    /// Takes the latest revision of a dataset.
    pub fn resume(self, found: Result<Option<RevisionRow>, StoreError>) -> (next: StepProgress)
        ensures
            self.followed_by(found, next),
    {
        let inner = self.lookup.resume(found);
        let ghost witness = inner;
        let next = self.ready.go_on(inner);
        assert(self.lookup.followed_by(found, witness));
        next
    }
}

impl StepEntity {
    /// What follows from the entity.
    pub open spec fn followed_by(
        self,
        found: Result<Option<EntityRow>, StoreError>,
        next: StepProgress,
    ) -> bool {
        match self {
            StepEntity::Instance(call) => call.entity_followed_by(found, next),
            StepEntity::Template(base) => base.entity_followed_by(found, next),
            StepEntity::Dataset(with) => with.followed_by(found, next),
        }
    }

    /// Takes the entity asked for.
    pub fn resume(self, found: Result<Option<EntityRow>, StoreError>) -> (next: StepProgress)
        ensures
            self.followed_by(found, next),
    {
        match self {
            StepEntity::Instance(call) => call.resume_entity(found),
            StepEntity::Template(base) => base.resume_entity(found),
            StepEntity::Dataset(with) => with.resume(found),
        }
    }
}

impl StepContent {
    /// What follows from the content.
    pub open spec fn followed_by(
        self,
        found: Result<Option<Vec<u8>>, StoreError>,
        next: StepProgress,
    ) -> bool {
        match self {
            StepContent::Script(then) => then.followed_by(found, next),
            StepContent::Config(then) => then.followed_by(found, next),
            StepContent::Context(then) => then.followed_by(found, next),
            StepContent::Args(then) => then.followed_by(found, next),
            StepContent::Data(with) => with.followed_by(found, next),
        }
    }

    /// Takes the content asked for.
    pub fn resume(self, found: Result<Option<Vec<u8>>, StoreError>) -> (next: StepProgress)
        ensures
            self.followed_by(found, next),
    {
        match self {
            StepContent::Script(then) => then.resume(found),
            StepContent::Config(then) => then.resume(found),
            StepContent::Context(then) => then.resume(found),
            StepContent::Args(then) => then.resume(found),
            StepContent::Data(with) => with.resume(found),
        }
    }
}

} // verus!
