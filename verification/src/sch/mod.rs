mod context;
mod state;

use crate::error::{ActError, ActResult};
use crate::event::ActionState;
use vstd::prelude::*;

pub use context::{Context, Task};
pub use state::TaskState;

verus! {

/// The text of the failure that `error` records: the message of the error
/// that the run left, or the empty text where it left none.
pub open spec fn failure_text(err: Option<ActError>) -> Seq<char> {
    match err {
        Some(e) => e.message_view(),
        None => Seq::<char>::empty(),
    }
}

/// What the default `error` hook does to a context: a task that has not
/// failed yet fails with the run's error and its action is marked in error;
/// a task that failed already keeps its states; either way the task is then
/// reported once.
pub open spec fn error_step(before: Context, after: Context) -> bool {
    &&& after.err == before.err
    &&& after.task.id == before.task.id
    &&& if before.task.state.spec_is_error() {
        after.task == before.task
    } else {
        &&& after.task.action_state == ActionState::Error
        &&& after.task.state matches TaskState::Fail(m) && m@ == failure_text(before.err)
    }
    &&& after.messages@ == before.messages@.push(Context::report(after.task))
}

/// After the error hook, whatever state the task was in, the task is in
/// error.
pub proof fn lemma_error_leaves_task_failed(before: Context, after: Context)
    requires
        error_step(before, after),
    ensures
        after.task.state.spec_is_error(),
{
}

/// The error hook, called a second time, changes the task no further: the
/// first failure and its action state stay. Each call reports the task
/// once.
pub proof fn lemma_error_twice_keeps_first_failure(first: Context, second: Context, third: Context)
    requires
        error_step(first, second),
        error_step(second, third),
    ensures
        third.task == second.task,
        third.err == first.err,
        third.messages@.len() == first.messages@.len() + 2,
        third.messages@[third.messages@.len() - 1] == third.messages@[third.messages@.len() - 2],
{
}

/// The error hook on a task that has not failed (one that waits, has not
/// started, runs, succeeded or was skipped) fails it with the text of the
/// run's error, or the empty text where the run left none, marks its
/// action in error whatever it was, and reports it once with those states.
pub proof fn lemma_error_fails_unfailed_task(before: Context, after: Context)
    requires
        error_step(before, after),
        !(before.task.state is Fail),
    ensures
        after.task.id == before.task.id,
        after.task.action_state == ActionState::Error,
        after.task.state is Fail,
        before.err matches Some(ActError::RuntimeError(r)) ==> after.task.state->Fail_0@ == r@,
        before.err matches Some(ActError::ConvertError(c)) ==> after.task.state->Fail_0@ == c@,
        before.err is None ==> after.task.state->Fail_0@ == Seq::<char>::empty(),
        after.messages@.len() == before.messages@.len() + 1,
        after.messages@.drop_last() == before.messages@,
        after.messages@.last().tid == before.task.id,
        after.messages@.last().state == after.task.state,
        after.messages@.last().action_state == ActionState::Error,
{
    assert(after.messages@.drop_last() =~= before.messages@);
}

/// In particular a pending task, one waiting on the tasks it needs, is not
/// in error: the error hook fails it and marks its action in error.
pub proof fn lemma_error_fails_pending_task(before: Context, after: Context)
    requires
        error_step(before, after),
        before.task.state is Pending,
    ensures
        after.task.state is Fail,
        after.task.action_state == ActionState::Error,
{
}

/// The hooks that the scheduler calls on every task it runs. Each has a
/// default that a task type may keep or replace.
pub trait ActTask: Clone + Send {
    /// Called once before the task runs; by default it does nothing.
    fn init(&self, _ctx: &Context) -> (r: ActResult<()>)
        default_ensures
            r is Ok,
    {
        Ok(())
    }

    /// Runs the task; by default it does nothing.
    fn run(&self, _ctx: &Context) -> (r: ActResult<()>)
        default_ensures
            r is Ok,
    {
        Ok(())
    }

    /// Whether the task has more to do; by default it has not.
    fn next(&self, _ctx: &Context) -> (r: ActResult<bool>)
        default_ensures
            r == Ok::<bool, ActError>(false),
    {
        Ok(false)
    }

    /// Whether the task may complete; by default it may.
    fn review(&self, _ctx: &Context) -> (r: ActResult<bool>)
        default_ensures
            r == Ok::<bool, ActError>(true),
    {
        Ok(true)
    }

    /// Marks the task failed with the error that the run left and reports
    /// it.
    fn error(&self, ctx: &mut Context) -> (r: ActResult<()>)
        default_ensures
            r is Ok,
            error_step(*old(ctx), *final(ctx)),
            !(old(ctx).task.state is Fail) ==> final(ctx).task.action_state == ActionState::Error,
            !(old(ctx).task.state is Fail) ==> final(ctx).task.state is Fail,
            old(ctx).task.state is Fail ==> final(ctx).task == old(ctx).task,
            final(ctx).messages@.len() == old(ctx).messages@.len() + 1,
            final(ctx).messages@.last().action_state == final(ctx).task.action_state,
    {
        if !ctx.task.state().is_error() {
            let err = match ctx.err() {
                Some(e) => e,
                None => ActError::default(),
            };
            ctx.task.set_pure_action_state(ActionState::Error);
            ctx.task.set_state(TaskState::Fail(err.to_string()));
        }
        ctx.emit_error()
    }
}

} // verus!
