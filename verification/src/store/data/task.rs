use crate::sch::TaskState;
use vstd::prelude::*;

verus! {

/// A stored task: one node of a process, as it ran.
#[derive(Debug, Clone)]
pub struct Task {
    pub pid: String,
    pub tid: String,
    pub nid: String,
    pub state: TaskState,
    pub start_time: i64,
    pub end_time: i64,
}

} // verus!
