//! The second half of a step: running the script, and writing down what came
//! of it, the record before the instance.

use crate::attributes::{ensure_transition, read_status, required_content_attr, transition};
use crate::canonical::{
    canonical_bytes, holds, json_parsed, parsable, round_trips, CanonicalJson,
};
use crate::create::{is_identity_error, take_identity};
use crate::entities::{StepRecord, WorkflowInstance};
use crate::error::WorkflowError;
use crate::execute::{
    fail, AwaitContextStored, AwaitErrorStored, AwaitExecuted, AwaitLowered, AwaitOutputStored,
    AwaitRecord, AwaitRecordStored, AwaitStepStored, StepEnding, StepProgress, StepPut, StepRun,
};
use crate::executor::StepExecutionError;
use crate::ids::{sha256, Identity, Sha256};
use crate::instance::{
    conversion_message, instance_successor, next_instance_revision, record_value,
    step_record_revision,
};
use crate::json::{push_field, JsonValue, JsonView};
use crate::lowerer::ConfigLoweringError;
use crate::status::InstanceStatus;
use crate::step::{
    executor_result, parse_executor_result, ExecutorResultView, ParsedExecutorResult, StepOutcome,
    StepRecordWrite, StepResult,
};
use crate::store::{RevisionView, StoreError};
use vstd::prelude::*;

verus! {

impl AwaitLowered {
    /// What follows from the concrete config: the script runs.
    pub open spec fn followed_by(
        self,
        lowered: Result<JsonValue, ConfigLoweringError>,
        next: StepProgress,
    ) -> bool {
        match lowered {
            Err(error) => next.fails(WorkflowError::ConfigLowering(error)),
            Ok(config) => next == (StepProgress::Execute {
                script: self.script,
                arg: self.arg,
                config,
                then: AwaitExecuted { run: self.run },
            }),
        }
    }

    /// Takes the concrete config.
    pub fn resume(self, lowered: Result<JsonValue, ConfigLoweringError>) -> (next: StepProgress)
        ensures
            self.followed_by(lowered, next),
    {
        match lowered {
            Err(error) => fail(WorkflowError::ConfigLowering(error)),
            Ok(config) => StepProgress::Execute {
                script: self.script,
                arg: self.arg,
                config,
                then: AwaitExecuted { run: self.run },
            },
        }
    }
}

/// A script's error as it is stored.
pub open spec fn error_value(text: Seq<char>) -> JsonView {
    JsonView::Object(map!["message"@ => JsonView::String(text)])
}

/// The status that an instance gets from a step that succeeds.
pub open spec fn status_after(done: bool) -> InstanceStatus {
    if done {
        InstanceStatus::Completed
    } else {
        InstanceStatus::Running
    }
}

impl StepRun {
    /// What the record of a successful step says.
    pub open spec fn success_record(self, output_hash: Sha256) -> StepRecordWrite {
        StepRecordWrite {
            instance_id: self.instance_id,
            instance_revision_seq: self.latest.revision_seq,
            step_seq: self.step_seq,
            input_hash: self.input_hash,
            subject_hash: self.subject_hash,
            outcome: StepOutcome::Success,
            output_hash: Some(output_hash),
            error_hash: None,
        }
    }

    /// What the record of a failed step says.
    pub open spec fn failure_record(self, error_hash: Sha256) -> StepRecordWrite {
        StepRecordWrite {
            instance_id: self.instance_id,
            instance_revision_seq: self.latest.revision_seq,
            step_seq: self.step_seq,
            input_hash: self.input_hash,
            subject_hash: self.subject_hash,
            outcome: StepOutcome::Failure,
            output_hash: None,
            error_hash: Some(error_hash),
        }
    }

    /// What follows from a script's failure: where the instance may fail, the
    /// error is stored.
    pub open spec fn failure_followed_by(self, text: Seq<char>, next: StepProgress) -> bool {
        match self.latest@.status() {
            Err(error) => next.fails(error),
            Ok(current) => match transition(
                current,
                InstanceStatus::Failed,
                self.instance_id.spec_internal(),
            ) {
                Err(error) => next.fails(error),
                Ok(()) => {
                    &&& canonical_bytes(error_value(text)) matches Ok(payload)
                    &&& next matches StepProgress::PutContent {
                        hash,
                        bytes,
                        then: StepPut::Error(then),
                    }
                    &&& bytes@ == payload
                    &&& hash == sha256(payload)
                    &&& then.run == self
                    &&& then.detail@ == text
                    &&& then.error_hash == hash
                },
            },
        }
    }

    /// Starts writing down that the step failed.
    fn record_failed_step(self, detail: String) -> (next: StepProgress)
        ensures
            self.failure_followed_by(detail@, next),
    {
        let current = match read_status(&self.latest) {
            Err(error) => {
                return fail(error);
            },
            Ok(current) => current,
        };
        match ensure_transition(current, InstanceStatus::Failed, self.instance_id.internal()) {
            Err(error) => {
                return fail(error);
            },
            Ok(()) => {},
        }
        let mut fields: Vec<(String, JsonValue)> = Vec::new();
        push_field(&mut fields, "message", JsonValue::String(detail.clone()));
        match CanonicalJson::from_value(&JsonValue::Object(fields)) {
            Err(error) => fail(WorkflowError::Canonical(error)),
            Ok(payload) => {
                let error_hash = payload.digest();
                StepProgress::PutContent {
                    hash: error_hash,
                    bytes: payload.into_bytes(),
                    then: StepPut::Error(AwaitErrorStored { run: self, detail, error_hash }),
                }
            },
        }
    }

    /// What follows from a script's success: where the instance may get its
    /// next status, the context for the next step is stored.
    pub open spec fn success_followed_by(
        self,
        parsed: ExecutorResultView,
        next: StepProgress,
    ) -> bool {
        match transition(
            self.status,
            status_after(parsed.done),
            self.instance_id.spec_internal(),
        ) {
            Err(error) => next.fails(error),
            Ok(()) => {
                &&& canonical_bytes(parsed.context) matches Ok(context)
                &&& canonical_bytes(parsed.output) matches Ok(output)
                &&& next matches StepProgress::PutContent {
                    hash,
                    bytes,
                    then: StepPut::Context(then),
                }
                &&& bytes@ == context
                &&& hash == sha256(context)
                &&& parsable(parsed.context) ==> json_parsed(context) is Ok
                &&& parsable(parsed.output) ==> json_parsed(output) is Ok
                &&& round_trips(parsed.context) ==> holds(context, parsed.context)
                &&& round_trips(parsed.output) ==> holds(output, parsed.output)
                &&& then.run == self
                &&& then.context_hash == hash
                &&& then.output@ == output
                &&& then.result.output@ == parsed.output
                &&& then.result.context@ == parsed.context
                &&& then.result.status == status_after(parsed.done)
                &&& then.result.step_seq == self.step_seq
            },
        }
    }

    /// Starts writing down that the step succeeded.
    fn record_successful_step(self, parsed: ParsedExecutorResult) -> (next: StepProgress)
        ensures
            self.success_followed_by(parsed@, next),
    {
        let next_status = if parsed.done {
            InstanceStatus::Completed
        } else {
            InstanceStatus::Running
        };
        match ensure_transition(self.status, next_status, self.instance_id.internal()) {
            Err(error) => {
                return fail(error);
            },
            Ok(()) => {},
        }
        let context = match CanonicalJson::from_value(&parsed.context) {
            Err(error) => {
                return fail(WorkflowError::Canonical(error));
            },
            Ok(context) => context,
        };
        let output = match CanonicalJson::from_value(&parsed.output) {
            Err(error) => {
                return fail(WorkflowError::Canonical(error));
            },
            Ok(output) => output,
        };
        let context_hash = context.digest();
        let step_seq: u64 = self.step_seq;
        StepProgress::PutContent {
            hash: context_hash,
            bytes: context.into_bytes(),
            then: StepPut::Context(
                AwaitContextStored {
                    run: self,
                    result: StepResult {
                        output: parsed.output,
                        context: parsed.context,
                        status: next_status,
                        step_seq,
                    },
                    context_hash,
                    output,
                },
            ),
        }
    }
}

impl AwaitExecuted {
    /// What follows from the script's result. Where the executor could not be
    /// reached nothing more is done; a script's own error, and a result that is
    /// malformed, fail the step.
    pub open spec fn followed_by(
        self,
        executed: Result<JsonValue, StepExecutionError>,
        next: StepProgress,
    ) -> bool {
        match executed {
            Err(StepExecutionError::Transport(detail)) => next.fails(
                WorkflowError::ExecutorUnreachable { detail },
            ),
            Err(StepExecutionError::ScriptError(detail)) => self.run.failure_followed_by(
                detail@,
                next,
            ),
            Ok(value) => match executor_result(value@) {
                Err(text) => self.run.failure_followed_by(text, next),
                Ok(parsed) => self.run.success_followed_by(parsed, next),
            },
        }
    }

    /// Takes the script's result.
    pub fn resume(self, executed: Result<JsonValue, StepExecutionError>) -> (next: StepProgress)
        ensures
            self.followed_by(executed, next),
    {
        match executed {
            Err(StepExecutionError::Transport(detail)) => fail(
                WorkflowError::ExecutorUnreachable { detail },
            ),
            Err(StepExecutionError::ScriptError(detail)) => self.run.record_failed_step(detail),
            Ok(value) => match parse_executor_result(&value) {
                Err(detail) => self.run.record_failed_step(detail),
                Ok(parsed) => self.run.record_successful_step(parsed),
            },
        }
    }
}

impl AwaitContextStored {
    /// What follows: the script's output is stored.
    pub open spec fn followed_by(
        self,
        stored: Result<(), StoreError>,
        next: StepProgress,
    ) -> bool {
        match stored {
            Err(error) => next.fails(WorkflowError::Store(error)),
            Ok(()) => {
                &&& next matches StepProgress::PutContent {
                    hash,
                    bytes,
                    then: StepPut::Output(then),
                }
                &&& bytes@ == self.output@
                &&& hash == sha256(self.output@)
                &&& then == (AwaitOutputStored {
                    run: self.run,
                    result: self.result,
                    context_hash: self.context_hash,
                    output_hash: hash,
                })
            },
        }
    }

    pub(crate) fn resume(self, stored: Result<(), StoreError>) -> (next: StepProgress)
        ensures
            self.followed_by(stored, next),
    {
        match stored {
            Err(error) => fail(WorkflowError::Store(error)),
            Ok(()) => {
                let output_hash = self.output.digest();
                StepProgress::PutContent {
                    hash: output_hash,
                    bytes: self.output.into_bytes(),
                    then: StepPut::Output(
                        AwaitOutputStored {
                            run: self.run,
                            result: self.result,
                            context_hash: self.context_hash,
                            output_hash,
                        },
                    ),
                }
            },
        }
    }
}

impl AwaitOutputStored {
    /// What follows: the step's record is created.
    pub open spec fn followed_by(
        self,
        stored: Result<(), StoreError>,
        next: StepProgress,
    ) -> bool {
        match stored {
            Err(error) => next.fails(WorkflowError::Store(error)),
            Ok(()) => next == (StepProgress::CreateRecord {
                then: AwaitRecord {
                    write: self.run.success_record(self.output_hash),
                    latest: self.run.latest,
                    ending: StepEnding::Succeeded {
                        context_hash: self.context_hash,
                        result: self.result,
                    },
                },
            }),
        }
    }

    pub(crate) fn resume(self, stored: Result<(), StoreError>) -> (next: StepProgress)
        ensures
            self.followed_by(stored, next),
    {
        match stored {
            Err(error) => fail(WorkflowError::Store(error)),
            Ok(()) => {
                let run = self.run;
                let write = StepRecordWrite {
                    instance_id: run.instance_id,
                    instance_revision_seq: run.latest.revision_seq,
                    step_seq: run.step_seq,
                    input_hash: run.input_hash,
                    subject_hash: run.subject_hash,
                    outcome: StepOutcome::Success,
                    output_hash: Some(self.output_hash),
                    error_hash: None,
                };
                StepProgress::CreateRecord {
                    then: AwaitRecord {
                        write,
                        latest: run.latest,
                        ending: StepEnding::Succeeded {
                            context_hash: self.context_hash,
                            result: self.result,
                        },
                    },
                }
            },
        }
    }
}

impl AwaitErrorStored {
    /// What follows: the step's record is created.
    pub open spec fn followed_by(
        self,
        stored: Result<(), StoreError>,
        next: StepProgress,
    ) -> bool {
        match stored {
            Err(error) => next.fails(WorkflowError::Store(error)),
            Ok(()) => next == (StepProgress::CreateRecord {
                then: AwaitRecord {
                    write: self.run.failure_record(self.error_hash),
                    latest: self.run.latest,
                    ending: StepEnding::Failed { detail: self.detail },
                },
            }),
        }
    }

    pub(crate) fn resume(self, stored: Result<(), StoreError>) -> (next: StepProgress)
        ensures
            self.followed_by(stored, next),
    {
        match stored {
            Err(error) => fail(WorkflowError::Store(error)),
            Ok(()) => {
                let run = self.run;
                let write = StepRecordWrite {
                    instance_id: run.instance_id,
                    instance_revision_seq: run.latest.revision_seq,
                    step_seq: run.step_seq,
                    input_hash: run.input_hash,
                    subject_hash: run.subject_hash,
                    outcome: StepOutcome::Failure,
                    output_hash: None,
                    error_hash: Some(self.error_hash),
                };
                StepProgress::CreateRecord {
                    then: AwaitRecord {
                        write,
                        latest: run.latest,
                        ending: StepEnding::Failed { detail: self.detail },
                    },
                }
            },
        }
    }
}

impl AwaitRecord {
    /// What follows from the record's identity: its one revision is appended. A
    /// step number that does not fit is found only here.
    pub open spec fn followed_by(
        self,
        created: Result<Identity, StoreError>,
        next: StepProgress,
    ) -> bool {
        match created {
            Err(error) => next.fails(WorkflowError::Store(error)),
            Ok(identity) => if identity.versions() is Err {
                next matches StepProgress::Finished(Err(error)) && is_identity_error(
                    error,
                    identity,
                )
            } else if self.write.step_seq > i64::MAX {
                &&& next matches StepProgress::Finished(
                    Err(WorkflowError::IntegerConversion { field, detail }),
                )
                &&& field == "step_seq"
                &&& detail@ == conversion_message(self.write.step_seq)
            } else {
                &&& next matches StepProgress::AppendRecord {
                    record_id,
                    revision_seq,
                    revision,
                    then,
                }
                &&& record_id.identity() == identity
                &&& revision_seq == 0
                &&& revision@ == record_value(self.write)
                &&& then == (AwaitRecordStored {
                    instance_id: self.write.instance_id,
                    latest: self.latest,
                    ending: self.ending,
                })
            },
        }
    }

    /// Takes the identity of the step's record.
    pub fn resume(self, created: Result<Identity, StoreError>) -> (next: StepProgress)
        ensures
            self.followed_by(created, next),
    {
        let identity = match created {
            Err(error) => {
                return fail(WorkflowError::Store(error));
            },
            Ok(identity) => identity,
        };
        let record_id = match take_identity::<StepRecord>(identity) {
            Err(error) => {
                return fail(error);
            },
            Ok(record_id) => record_id,
        };
        match step_record_revision(self.write) {
            Err(error) => fail(error),
            Ok(revision) => StepProgress::AppendRecord {
                record_id,
                revision_seq: 0,
                revision,
                then: AwaitRecordStored {
                    instance_id: self.write.instance_id,
                    latest: self.latest,
                    ending: self.ending,
                },
            },
        }
    }
}

impl AwaitRecordStored {
    /// The instance's next revision: a step that succeeded gives it the new
    /// context and its status; one that failed leaves the context as it was.
    pub open spec fn successor(self) -> Result<(u64, RevisionView), WorkflowError> {
        match self.ending {
            StepEnding::Succeeded { context_hash, result } => instance_successor(
                self.latest,
                context_hash,
                result.status,
            ),
            StepEnding::Failed { .. } => match self.latest@.required_content(
                WorkflowInstance::NAME,
                "context",
            ) {
                Err(error) => Err(error),
                Ok(context) => instance_successor(self.latest, context, InstanceStatus::Failed),
            },
        }
    }

    /// What follows: the instance gets its next revision.
    pub open spec fn followed_by(
        self,
        stored: Result<(), StoreError>,
        next: StepProgress,
    ) -> bool {
        match stored {
            Err(error) => next.fails(WorkflowError::Store(error)),
            Ok(()) => match self.successor() {
                Err(error) => next.fails(error),
                Ok((seq, view)) => {
                    &&& next matches StepProgress::AppendInstance {
                        instance_id,
                        revision_seq,
                        revision,
                        then,
                    }
                    &&& instance_id == self.instance_id
                    &&& revision_seq == seq
                    &&& revision@ == view
                    &&& then == (AwaitStepStored { ending: self.ending })
                },
            },
        }
    }

    /// Takes word that the step's record is stored.
    pub fn resume(self, stored: Result<(), StoreError>) -> (next: StepProgress)
        ensures
            self.followed_by(stored, next),
    {
        match stored {
            Err(error) => {
                return fail(WorkflowError::Store(error));
            },
            Ok(()) => {},
        }
        let made = match &self.ending {
            StepEnding::Succeeded { context_hash, result } => next_instance_revision(
                &self.latest,
                *context_hash,
                result.status,
            ),
            StepEnding::Failed { .. } => match required_content_attr(
                &self.latest,
                WorkflowInstance::NAME,
                "context",
            ) {
                Err(error) => Err(error),
                Ok(context) => next_instance_revision(
                    &self.latest,
                    context,
                    InstanceStatus::Failed,
                ),
            },
        };
        match made {
            Err(error) => fail(error),
            Ok((revision_seq, revision)) => StepProgress::AppendInstance {
                instance_id: self.instance_id,
                revision_seq,
                revision,
                then: AwaitStepStored { ending: self.ending },
            },
        }
    }
}

impl AwaitStepStored {
    /// What follows: the step is over.
    pub open spec fn followed_by(
        self,
        stored: Result<(), StoreError>,
        next: StepProgress,
    ) -> bool {
        match stored {
            Err(error) => next.fails(WorkflowError::Store(error)),
            Ok(()) => match self.ending {
                StepEnding::Succeeded { result, .. } => next == StepProgress::Finished(
                    Ok(result),
                ),
                StepEnding::Failed { detail } => next.fails(
                    WorkflowError::StepExecutionFailed { detail },
                ),
            },
        }
    }

    /// Takes word that the instance's next revision is stored.
    pub fn resume(self, stored: Result<(), StoreError>) -> (next: StepProgress)
        ensures
            self.followed_by(stored, next),
    {
        match stored {
            Err(error) => fail(WorkflowError::Store(error)),
            Ok(()) => match self.ending {
                StepEnding::Succeeded { result, .. } => StepProgress::Finished(Ok(result)),
                StepEnding::Failed { detail } => fail(
                    WorkflowError::StepExecutionFailed { detail },
                ),
            },
        }
    }
}

impl StepPut {
    /// What follows once the content is stored.
    pub open spec fn followed_by(
        self,
        stored: Result<(), StoreError>,
        next: StepProgress,
    ) -> bool {
        match self {
            StepPut::Input(then) => then.followed_by(stored, next),
            StepPut::Subject(then) => then.followed_by(stored, next),
            StepPut::Context(then) => then.followed_by(stored, next),
            StepPut::Output(then) => then.followed_by(stored, next),
            StepPut::Error(then) => then.followed_by(stored, next),
        }
    }

    /// Takes word that the content is stored.
    pub fn resume(self, stored: Result<(), StoreError>) -> (next: StepProgress)
        ensures
            self.followed_by(stored, next),
    {
        match self {
            StepPut::Input(then) => then.resume(stored),
            StepPut::Subject(then) => then.resume(stored),
            StepPut::Context(then) => then.resume(stored),
            StepPut::Output(then) => then.resume(stored),
            StepPut::Error(then) => then.resume(stored),
        }
    }
}

} // verus!
