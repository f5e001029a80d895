//! Lifecycle states of a workflow instance.

use vstd::prelude::*;

verus! {

/// Lifecycle state of a workflow instance.
#[derive(Clone, Copy, Debug, PartialEq, Eq, Structural)]
pub enum InstanceStatus {
    /// Created, no steps executed.
    Pending,
    /// At least one step executed and not terminal.
    Running,
    /// Completed successfully.
    Completed,
    /// Failed on step execution.
    Failed,
    /// Cancelled by caller.
    Cancelled,
}

impl InstanceStatus {
    /// The stable number a status is stored as.
    pub open spec fn discriminant(self) -> i64 {
        match self {
            InstanceStatus::Pending => 0,
            InstanceStatus::Running => 1,
            InstanceStatus::Completed => 2,
            InstanceStatus::Failed => 3,
            InstanceStatus::Cancelled => 4,
        }
    }

    /// The statuses that end an instance.
    pub open spec fn terminal(self) -> bool {
        self is Completed || self is Failed || self is Cancelled
    }

    /// The moves of the lifecycle: a live instance may take a step that leaves
    /// it running, and may end in any terminal status.
    pub open spec fn may_become(self, next: InstanceStatus) -> bool {
        !self.terminal() && next != InstanceStatus::Pending
    }

    /// The status stored as `value`, if there is one.
    pub open spec fn of_discriminant(value: i64) -> Option<InstanceStatus> {
        if value == 0 {
            Some(InstanceStatus::Pending)
        } else if value == 1 {
            Some(InstanceStatus::Running)
        } else if value == 2 {
            Some(InstanceStatus::Completed)
        } else if value == 3 {
            Some(InstanceStatus::Failed)
        } else if value == 4 {
            Some(InstanceStatus::Cancelled)
        } else {
            None
        }
    }

    /// The status's name, as its `Debug` form writes it.
    pub open spec fn spec_name(self) -> Seq<char> {
        match self {
            InstanceStatus::Pending => "Pending"@,
            InstanceStatus::Running => "Running"@,
            InstanceStatus::Completed => "Completed"@,
            InstanceStatus::Failed => "Failed"@,
            InstanceStatus::Cancelled => "Cancelled"@,
        }
    }

    /// The status's name, as its `Debug` form writes it.
    pub fn name(self) -> (r: &'static str)
        ensures
            r@ == self.spec_name(),
    {
        match self {
            InstanceStatus::Pending => "Pending",
            InstanceStatus::Running => "Running",
            InstanceStatus::Completed => "Completed",
            InstanceStatus::Failed => "Failed",
            InstanceStatus::Cancelled => "Cancelled",
        }
    }

    /// Convert the status to its stable i64 discriminant.
    pub fn as_i64(self) -> (r: i64)
        ensures
            r == self.discriminant(),
    {
        match self {
            InstanceStatus::Pending => 0,
            InstanceStatus::Running => 1,
            InstanceStatus::Completed => 2,
            InstanceStatus::Failed => 3,
            InstanceStatus::Cancelled => 4,
        }
    }

    /// Whether this status is terminal.
    pub fn is_terminal(self) -> (r: bool)
        ensures
            r == self.terminal(),
    {
        matches!(
            self,
            InstanceStatus::Completed | InstanceStatus::Failed | InstanceStatus::Cancelled
        )
    }

    /// Whether a transition to `next` is valid.
    pub fn can_transition_to(self, next: InstanceStatus) -> (r: bool)
        ensures
            r == self.may_become(next),
    {
        match (self, next) {
            (InstanceStatus::Pending, InstanceStatus::Running)
            | (InstanceStatus::Pending, InstanceStatus::Completed)
            | (InstanceStatus::Pending, InstanceStatus::Cancelled)
            // A script error in the first step fails the instance directly.
            | (InstanceStatus::Pending, InstanceStatus::Failed)
            | (InstanceStatus::Running, InstanceStatus::Running)
            | (InstanceStatus::Running, InstanceStatus::Completed)
            | (InstanceStatus::Running, InstanceStatus::Failed)
            | (InstanceStatus::Running, InstanceStatus::Cancelled) => true,
            (InstanceStatus::Completed, _)
            | (InstanceStatus::Failed, _)
            | (InstanceStatus::Cancelled, _)
            | (InstanceStatus::Pending, _)
            | (InstanceStatus::Running, _) => false,
        }
    }

    /// Parse an i64 discriminant.
    pub fn try_from_i64(value: i64) -> (r: Option<InstanceStatus>)
        ensures
            r == Self::of_discriminant(value),
    {
        match value {
            0 => Some(InstanceStatus::Pending),
            1 => Some(InstanceStatus::Running),
            2 => Some(InstanceStatus::Completed),
            3 => Some(InstanceStatus::Failed),
            4 => Some(InstanceStatus::Cancelled),
            _ => None,
        }
    }
}

} // verus!
