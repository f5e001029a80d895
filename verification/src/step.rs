//! What a step's script returns, and what of it is kept.

use crate::ids::{EntityId, Sha256};
use crate::entities::WorkflowInstance;
use crate::json::{JsonValue, JsonView};
use crate::status::InstanceStatus;
use vstd::prelude::*;

verus! {

/// Result of one `execute_step` call.
#[derive(Debug)]
pub struct StepResult {
    /// Output value returned by the script.
    pub output: JsonValue,
    /// Updated workflow context persisted for the next step.
    pub context: JsonValue,
    /// Instance status after this step.
    pub status: InstanceStatus,
    /// Step sequence number that was executed.
    pub step_seq: u64,
}

impl Clone for StepResult {
    fn clone(&self) -> (r: StepResult)
        ensures
            r.output@ == self.output@,
            r.context@ == self.context@,
            r.status == self.status,
            r.step_seq == self.step_seq,
    {
        StepResult {
            output: self.output.clone(),
            context: self.context.clone(),
            status: self.status,
            step_seq: self.step_seq,
        }
    }
}

impl StepResult {
    /// Whether the instance is terminal after this step.
    pub fn is_terminal(&self) -> (r: bool)
        ensures
            r == self.status.terminal(),
    {
        self.status.is_terminal()
    }
}

/// How a step ended, as its record says it.
#[derive(Clone, Copy, Debug, PartialEq, Eq, Structural)]
pub enum StepOutcome {
    /// The script returned a well-formed result.
    Success,
    /// The script failed, or returned a malformed result.
    Failure,
}

impl StepOutcome {
    /// The stable number an outcome is stored as.
    pub open spec fn discriminant(self) -> i64 {
        match self {
            StepOutcome::Success => 0,
            StepOutcome::Failure => 1,
        }
    }

    /// Convert the outcome to its stable i64 discriminant.
    pub fn as_i64(self) -> (r: i64)
        ensures
            r == self.discriminant(),
    {
        match self {
            StepOutcome::Success => 0,
            StepOutcome::Failure => 1,
        }
    }
}

/// What a step record says.
#[derive(Clone, Copy, Debug)]
pub struct StepRecordWrite {
    /// The instance that took the step.
    pub instance_id: EntityId<WorkflowInstance>,
    /// The instance's revision before the step.
    pub instance_revision_seq: u64,
    /// The step's number.
    pub step_seq: u64,
    /// Digest of the step's input.
    pub input_hash: Sha256,
    /// Digest of the subject that asked for the step.
    pub subject_hash: Sha256,
    /// How the step ended.
    pub outcome: StepOutcome,
    /// Digest of the script's output, where it succeeded.
    pub output_hash: Option<Sha256>,
    /// Digest of the error, where it failed.
    pub error_hash: Option<Sha256>,
}

/// A script's result, taken apart.
#[derive(Debug)]
pub struct ParsedExecutorResult {
    /// The context for the next step.
    pub context: JsonValue,
    /// The step's output.
    pub output: JsonValue,
    /// Whether the workflow is done.
    pub done: bool,
}

/// What a script's result is when taken apart.
pub struct ExecutorResultView {
    /// The context for the next step.
    pub context: JsonView,
    /// The step's output.
    pub output: JsonView,
    /// Whether the workflow is done.
    pub done: bool,
}

impl View for ParsedExecutorResult {
    type V = ExecutorResultView;

    open spec fn view(&self) -> ExecutorResultView {
        ExecutorResultView { context: self.context@, output: self.output@, done: self.done }
    }
}

/// A script's result taken apart: it must have a context and an output, and
/// says with a truth value `done` whether the workflow is done; without one it
/// is not. What is wrong with it otherwise is said in words.
pub open spec fn executor_result(value: JsonView) -> Result<ExecutorResultView, Seq<char>> {
    match (value.field("context"@), value.field("output"@), value.field("done"@)) {
        (None, _, _) => Err("executor result missing required field 'context'"@),
        (_, None, _) => Err("executor result missing required field 'output'"@),
        (Some(context), Some(output), None) => Ok(
            ExecutorResultView { context, output, done: false },
        ),
        (Some(context), Some(output), Some(JsonView::Bool(done))) => Ok(
            ExecutorResultView { context, output, done },
        ),
        _ => Err("executor result field 'done' must be boolean"@),
    }
}

/// Takes a script's result apart.
pub fn parse_executor_result(value: &JsonValue) -> (r: Result<ParsedExecutorResult, String>)
    ensures
        executor_result(value@) matches Ok(parsed) ==> r is Ok && r->Ok_0@ == parsed,
        executor_result(value@) matches Err(detail) ==> r is Err && r->Err_0@ == detail,
{
    let context = match value.get("context") {
        Some(context) => context.clone(),
        None => {
            return Err("executor result missing required field 'context'".to_owned());
        },
    };
    let output = match value.get("output") {
        Some(output) => output.clone(),
        None => {
            return Err("executor result missing required field 'output'".to_owned());
        },
    };
    let done = match value.get("done") {
        None => false,
        Some(JsonValue::Bool(done)) => *done,
        Some(_) => {
            return Err("executor result field 'done' must be boolean".to_owned());
        },
    };
    Ok(ParsedExecutorResult { context, output, done })
}

} // verus!
