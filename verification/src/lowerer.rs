//! How turning a template's abstract config into a concrete one can fail.

use crate::text::join2;
use vstd::prelude::*;

verus! {

/// Config lowering failure categories.
#[derive(Clone, Debug, PartialEq, Eq)]
pub enum ConfigLoweringError {
    /// Lowerer backend was unreachable or transiently unavailable.
    Backend(String),
    /// Lowerer rejected the abstract configuration as invalid.
    InvalidConfig(String),
}

impl ConfigLoweringError {
    /// Whether this error is potentially retryable.
    pub fn is_retryable(&self) -> (r: bool)
        ensures
            r == (self is Backend),
    {
        matches!(self, ConfigLoweringError::Backend(_))
    }

    /// The error's message.
    pub open spec fn spec_message(self) -> Seq<char> {
        match self {
            ConfigLoweringError::Backend(detail) => "lowerer backend failure: "@ + detail@,
            ConfigLoweringError::InvalidConfig(detail) => "invalid abstract config: "@ + detail@,
        }
    }

    /// The error's message.
    pub fn message(&self) -> (r: String)
        ensures
            r@ == self.spec_message(),
    {
        match self {
            ConfigLoweringError::Backend(detail) => join2(
                "lowerer backend failure: ",
                detail.as_str(),
            ),
            ConfigLoweringError::InvalidConfig(detail) => join2(
                "invalid abstract config: ",
                detail.as_str(),
            ),
        }
    }
}

} // verus!
