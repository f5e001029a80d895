//! How running a step's script can fail.

use crate::text::join2;
use vstd::prelude::*;

verus! {

/// Step execution failure categories.
#[derive(Clone, Debug, PartialEq, Eq)]
pub enum StepExecutionError {
    /// Execution transport was inconclusive (retry may succeed).
    Transport(String),
    /// Script execution completed with an explicit script-level error.
    ScriptError(String),
}

impl StepExecutionError {
    /// Whether this error is potentially retryable.
    pub fn is_retryable(&self) -> (r: bool)
        ensures
            r == (self is Transport),
    {
        matches!(self, StepExecutionError::Transport(_))
    }

    /// The error's message.
    pub open spec fn spec_message(self) -> Seq<char> {
        match self {
            StepExecutionError::Transport(detail) => "executor transport failure: "@ + detail@,
            StepExecutionError::ScriptError(detail) => "script execution failed: "@ + detail@,
        }
    }

    /// The error's message.
    pub fn message(&self) -> (r: String)
        ensures
            r@ == self.spec_message(),
    {
        match self {
            StepExecutionError::Transport(detail) => join2(
                "executor transport failure: ",
                detail.as_str(),
            ),
            StepExecutionError::ScriptError(detail) => join2(
                "script execution failed: ",
                detail.as_str(),
            ),
        }
    }
}

} // verus!
