use acts::store::{Model, Proc, Task};
use acts::{Act, ActAlias, ActError, ModelBase, ModelInfo, ProcInfo, TaskInfo, TaskState, Workflow};

fn stored_model() -> Model {
    Model {
        id: "m1".to_string(),
        name: "model 1".to_string(),
        ver: 3,
        size: 120,
        time: 1700000000,
        model: "id: m1\nname: model 1\n".to_string(),
    }
}

#[test]
fn model_info_keeps_every_field() {
    let info = ModelInfo::from(stored_model());
    assert_eq!(info.id, "m1");
    assert_eq!(info.name, "model 1");
    assert_eq!(info.ver, 3);
    assert_eq!(info.size, 120);
    assert_eq!(info.time, 1700000000);
    assert_eq!(info.model, "id: m1\nname: model 1\n");
}

#[test]
fn model_info_workflow_takes_deployed_version() {
    let info = ModelInfo::from(stored_model());
    let read = Workflow { id: "m1".to_string(), name: "model 1".to_string(), ver: 0 };
    let w = info.workflow(Ok(read)).unwrap();
    assert_eq!(w.ver, 3);
    assert_eq!(w.id, "m1");
    assert_eq!(w.name, "model 1");
}

#[test]
fn model_info_workflow_read_error_is_convert_error() {
    let info = ModelInfo::from(stored_model());
    match info.workflow(Err("bad yaml".to_string())) {
        Err(ActError::ConvertError(m)) => assert_eq!(m, "bad yaml"),
        _ => panic!("expected a conversion error"),
    }
}

#[test]
fn workflow_set_ver() {
    let mut w = Workflow { id: "w".to_string(), name: "n".to_string(), ver: 1 };
    w.set_ver(7);
    assert_eq!(w.ver, 7);
    assert_eq!(w.id, "w");
}

#[test]
fn proc_info_from_proc() {
    let p = Proc {
        id: "p1".to_string(),
        pid: "pid1".to_string(),
        model: "id: w1\nname: flow\n".to_string(),
        state: TaskState::Running,
        start_time: 10,
        end_time: 20,
        vars: "{}".to_string(),
    };
    let w = Workflow { id: "w1".to_string(), name: "flow".to_string(), ver: 1 };
    let info = ProcInfo::from_proc(&p, &w);
    assert_eq!(info.pid, "pid1");
    assert_eq!(info.name, "flow");
    assert_eq!(info.mid, "w1");
    assert_eq!(info.state, "running");
    assert_eq!(info.start_time, 10);
    assert_eq!(info.end_time, 20);
}

#[test]
fn task_info_from_task() {
    let t = Task {
        pid: "pid1".to_string(),
        tid: "tid1".to_string(),
        nid: "job1".to_string(),
        state: TaskState::Fail("boom".to_string()),
        start_time: 5,
        end_time: 9,
    };
    let info = TaskInfo::from(t);
    assert_eq!(info.pid, "pid1");
    assert_eq!(info.tid, "tid1");
    assert_eq!(info.nid, "job1");
    assert_eq!(info.state, "fail");
    assert_eq!(info.start_time, 5);
    assert_eq!(info.end_time, 9);
}

#[test]
fn task_state_names() {
    assert_eq!(TaskState::Idle.name(), "none");
    assert_eq!(TaskState::Pending.name(), "pending");
    assert_eq!(TaskState::Running.name(), "running");
    assert_eq!(TaskState::Success.name(), "success");
    assert_eq!(TaskState::Fail("x".to_string()).name(), "fail");
    assert_eq!(TaskState::Skip.name(), "skip");
    assert!(TaskState::Fail(String::new()).is_error());
    assert!(!TaskState::Success.is_error());
}

#[test]
fn act_id_and_name() {
    let act = Act {
        id: "act1".to_string(),
        name: "act 1".to_string(),
        tag: String::new(),
        needs: vec!["act0".to_string()],
    };
    assert_eq!(act.id(), "act1");
    assert_eq!(act.name(), "act 1");
}

#[test]
fn act_alias_default_is_empty() {
    let a = ActAlias::default();
    assert!(a.init.is_none());
    assert!(a.each.is_none());
}

#[test]
fn act_error_to_string_and_default() {
    assert_eq!(ActError::ConvertError("bad".to_string()).to_string(), "bad");
    assert_eq!(ActError::default().to_string(), "");
}
