use acts::sch::Task;
use acts::{ActError, ActTask, ActionState, Context, TaskState};

#[derive(Clone)]
struct Plain;

impl ActTask for Plain {}

fn running_context() -> Context {
    let mut task = Task::new("t1".to_string());
    task.set_state(TaskState::Running);
    task.set_pure_action_state(ActionState::Created);
    Context::new(task)
}

#[test]
fn default_hooks() {
    let ctx = running_context();
    assert!(Plain.init(&ctx).is_ok());
    assert!(Plain.run(&ctx).is_ok());
    assert_eq!(Plain.next(&ctx).unwrap(), false);
    assert_eq!(Plain.review(&ctx).unwrap(), true);
}

#[test]
fn error_fails_task_with_run_error() {
    let mut ctx = running_context();
    ctx.set_err(ActError::RuntimeError("boom".to_string()));
    assert!(Plain.error(&mut ctx).is_ok());
    assert_eq!(ctx.task.state(), TaskState::Fail("boom".to_string()));
    assert_eq!(ctx.task.action_state, ActionState::Error);
    assert_eq!(ctx.messages.len(), 1);
    assert_eq!(ctx.messages[0].tid, "t1");
    assert_eq!(ctx.messages[0].state, TaskState::Fail("boom".to_string()));
    assert_eq!(ctx.messages[0].action_state, ActionState::Error);
}

#[test]
fn error_without_run_error_fails_with_empty_message() {
    let mut ctx = running_context();
    assert!(Plain.error(&mut ctx).is_ok());
    assert_eq!(ctx.task.state(), TaskState::Fail(String::new()));
    assert!(ctx.task.state().is_error());
}

#[test]
fn error_twice_keeps_first_failure() {
    let mut ctx = running_context();
    ctx.set_err(ActError::RuntimeError("first".to_string()));
    Plain.error(&mut ctx).unwrap();
    ctx.set_err(ActError::RuntimeError("second".to_string()));
    Plain.error(&mut ctx).unwrap();
    assert_eq!(ctx.task.state(), TaskState::Fail("first".to_string()));
    assert_eq!(ctx.task.action_state, ActionState::Error);
    assert_eq!(ctx.messages.len(), 2);
    assert_eq!(ctx.messages[1].state, TaskState::Fail("first".to_string()));
}

#[test]
fn error_on_failed_task_keeps_action_state() {
    let mut task = Task::new("t2".to_string());
    task.set_state(TaskState::Fail("earlier".to_string()));
    let mut ctx = Context::new(task);
    ctx.set_err(ActError::ConvertError("later".to_string()));
    Plain.error(&mut ctx).unwrap();
    assert_eq!(ctx.task.state(), TaskState::Fail("earlier".to_string()));
    assert_eq!(ctx.task.action_state, ActionState::Idle);
    assert_eq!(ctx.messages.len(), 1);
}

#[test]
fn new_task_and_context() {
    let ctx = Context::new(Task::new("t3".to_string()));
    assert_eq!(ctx.task.id, "t3");
    assert_eq!(ctx.task.state(), TaskState::Idle);
    assert_eq!(ctx.task.action_state, ActionState::Idle);
    assert!(ctx.err().is_none());
    assert!(ctx.messages.is_empty());
}
