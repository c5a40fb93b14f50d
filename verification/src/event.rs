use crate::sch::TaskState;
use vstd::prelude::*;

verus! {

/// The state of the action that a task waits on.
#[derive(Debug, Clone, Copy, PartialEq, Eq, Structural)]
pub enum ActionState {
    Idle,
    Created,
    Completed,
    Error,
}

/// What a task reports to the listeners of the engine: the task's id and
/// its states at the moment it was reported.
#[derive(Debug, Clone)]
pub struct Message {
    pub tid: String,
    pub state: TaskState,
    pub action_state: ActionState,
}

} // verus!
