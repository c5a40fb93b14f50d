use crate::error::ActError;
use crate::event::{ActionState, Message};
use crate::sch::TaskState;
use vstd::prelude::*;

verus! {

/// A task as the scheduler runs it: its id, its lifecycle state and the
/// state of the action it waits on.
#[derive(Debug, Clone)]
pub struct Task {
    pub id: String,
    pub state: TaskState,
    pub action_state: ActionState,
}

impl Task {
    /// A task that has not started: state `None`, no action.
    pub fn new(id: String) -> (t: Task)
        ensures
            t.id == id,
            t.state == TaskState::Idle,
            t.action_state == ActionState::Idle,
    {
        Task { id, state: TaskState::Idle, action_state: ActionState::Idle }
    }

    /// The lifecycle state of the task.
    pub fn state(&self) -> (s: TaskState)
        ensures
            s == self.state,
    {
        self.state.clone()
    }

    /// Sets the lifecycle state and leaves the rest as it was.
    pub fn set_state(&mut self, state: TaskState)
        ensures
            *final(self) == (Task { state, ..*old(self) }),
    {
        self.state = state;
    }

    /// Sets the action state and leaves the rest as it was.
    pub fn set_pure_action_state(&mut self, action_state: ActionState)
        ensures
            *final(self) == (Task { action_state, ..*old(self) }),
    {
        self.action_state = action_state;
    }
}

/// What a task's hooks see and change: the task, the error that the run
/// left, if any, and the messages reported so far, oldest first.
#[derive(Debug, Clone)]
pub struct Context {
    pub task: Task,
    pub err: Option<ActError>,
    pub messages: Vec<Message>,
}

impl Context {
    /// The report of a task in its present state.
    pub open spec fn report(task: Task) -> Message {
        Message { tid: task.id, state: task.state, action_state: task.action_state }
    }

    /// A context for a task with no error and no messages.
    pub fn new(task: Task) -> (ctx: Context)
        ensures
            ctx.task == task,
            ctx.err is None,
            ctx.messages@.len() == 0,
    {
        Context { task, err: None, messages: Vec::new() }
    }

    /// The error that the run left, if any.
    pub fn err(&self) -> (e: Option<ActError>)
        ensures
            e == self.err,
    {
        match &self.err {
            Some(e) => Some(e.clone()),
            None => None,
        }
    }

    /// Records the error that the run left.
    pub fn set_err(&mut self, err: ActError)
        ensures
            *final(self) == (Context { err: Some(err), ..*old(self) }),
    {
        self.err = Some(err);
    }

    /// Reports the task in its present state, after the messages that came
    /// before.
    pub fn emit_error(&mut self) -> (r: Result<(), ActError>)
        ensures
            r is Ok,
            final(self).task == old(self).task,
            final(self).err == old(self).err,
            final(self).messages@ == old(self).messages@.push(Self::report(old(self).task)),
            final(self).messages@.len() == old(self).messages@.len() + 1,
            final(self).messages@.last().tid == old(self).task.id,
            final(self).messages@.last().state == old(self).task.state,
            final(self).messages@.last().action_state == old(self).task.action_state,
    {
        let m = Message {
            tid: self.task.id.clone(),
            state: self.task.state(),
            action_state: self.task.action_state,
        };
        self.messages.push(m);
        Ok(())
    }
}

/// A report carries the task as it is: its id, its lifecycle state and its
/// action state, none of them changed.
pub proof fn lemma_report_is_task_as_it_is(task: Task)
    ensures
        Context::report(task).tid == task.id,
        Context::report(task).state == task.state,
        Context::report(task).action_state == task.action_state,
{
}

} // verus!
