use vstd::prelude::*;

verus! {

/// The lifecycle state of a task.
#[derive(Debug, PartialEq, Eq, Default)]
pub enum TaskState {
    #[default]
    Idle,
    Pending,
    Running,
    Success,
    Fail(String),
    Skip,
}

impl Clone for TaskState {
    fn clone(&self) -> (s: Self)
        ensures
            s == *self,
    {
        match self {
            TaskState::Idle => TaskState::Idle,
            TaskState::Pending => TaskState::Pending,
            TaskState::Running => TaskState::Running,
            TaskState::Success => TaskState::Success,
            TaskState::Fail(m) => TaskState::Fail(m.clone()),
            TaskState::Skip => TaskState::Skip,
        }
    }
}

impl TaskState {
    /// A task is in error exactly when it failed.
    pub open spec fn spec_is_error(self) -> bool {
        self is Fail
    }

    /// The name of the state, as it is stored and reported.
    pub open spec fn name_view(self) -> Seq<char> {
        match self {
            TaskState::Idle => "none"@,
            TaskState::Pending => "pending"@,
            TaskState::Running => "running"@,
            TaskState::Success => "success"@,
            TaskState::Fail(_) => "fail"@,
            TaskState::Skip => "skip"@,
        }
    }

    /// Whether the task failed.
    pub fn is_error(&self) -> (b: bool)
        ensures
            b == self.spec_is_error(),
            b == (*self is Fail),
    {
        match self {
            TaskState::Fail(_) => true,
            _ => false,
        }
    }

    /// The name of the state, as it is stored and reported.
    pub fn name(&self) -> (s: String)
        ensures
            s@ == self.name_view(),
            *self is Fail ==> s@ == "fail"@,
    {
        match self {
            TaskState::Idle => "none".to_owned(),
            TaskState::Pending => "pending".to_owned(),
            TaskState::Running => "running".to_owned(),
            TaskState::Success => "success".to_owned(),
            TaskState::Fail(_) => "fail".to_owned(),
            TaskState::Skip => "skip".to_owned(),
        }
    }
}

/// Only a failed task is in error: a task that waits (pending), has not
/// started, runs, succeeded or was skipped is not.
pub proof fn lemma_only_failure_is_error(s: TaskState)
    ensures
        s.spec_is_error() <==> (s is Fail),
        !TaskState::Pending.spec_is_error(),
        !TaskState::Idle.spec_is_error(),
        !TaskState::Running.spec_is_error(),
        !TaskState::Success.spec_is_error(),
        !TaskState::Skip.spec_is_error(),
{
}

/// A failed task is named "fail", whatever the text of its failure, and
/// every other state has its own name: "none", "pending", "running",
/// "success", "skip".
pub proof fn lemma_state_names(s: TaskState, m1: String, m2: String)
    ensures
        TaskState::Fail(m1).name_view() == "fail"@,
        TaskState::Fail(m1).name_view() == TaskState::Fail(m2).name_view(),
        TaskState::Idle.name_view() == "none"@,
        TaskState::Pending.name_view() == "pending"@,
        TaskState::Running.name_view() == "running"@,
        TaskState::Success.name_view() == "success"@,
        TaskState::Skip.name_view() == "skip"@,
        s.name_view() == "fail"@ <==> s is Fail,
        s.name_view() == "none"@ <==> s is Idle,
{
    reveal_strlit("fail");
    reveal_strlit("none");
    reveal_strlit("pending");
    reveal_strlit("running");
    reveal_strlit("success");
    reveal_strlit("skip");
    assert("fail"@[0] != "none"@[0]);
    assert("fail"@[0] != "pending"@[0]);
    assert("fail"@[0] != "running"@[0]);
    assert("fail"@[0] != "success"@[0]);
    assert("fail"@[0] != "skip"@[0]);
    assert("none"@[0] != "pending"@[0]);
    assert("none"@[0] != "running"@[0]);
    assert("none"@[0] != "success"@[0]);
    assert("none"@[0] != "skip"@[0]);
}

} // verus!
