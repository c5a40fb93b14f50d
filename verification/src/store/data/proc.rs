use crate::sch::TaskState;
use vstd::prelude::*;

verus! {

/// A stored process: one run of a workflow model.
#[derive(Debug, Clone)]
pub struct Proc {
    pub id: String,
    pub pid: String,
    /// The workflow model, as text.
    pub model: String,
    pub state: TaskState,
    pub start_time: i64,
    pub end_time: i64,
    pub vars: String,
}

} // verus!
