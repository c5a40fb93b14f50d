use crate::error::{ActError, ActResult};
use crate::model::Workflow;
use crate::store::{Model, Proc, Task};
use vstd::prelude::*;

verus! {

/// What a caller is told of a process.
#[derive(Debug, Clone)]
pub struct ProcInfo {
    pub pid: String,
    pub name: String,
    pub mid: String,
    pub state: String,
    pub start_time: i64,
    pub end_time: i64,
}

/// What a caller is told of a task.
#[derive(Debug, Clone)]
pub struct TaskInfo {
    pub pid: String,
    pub tid: String,
    pub nid: String,
    pub state: String,
    pub start_time: i64,
    pub end_time: i64,
}

/// What a caller is told of a deployed model.
#[derive(Debug, Clone)]
pub struct ModelInfo {
    pub id: String,
    pub name: String,
    pub ver: u32,
    pub size: u32,
    pub time: i64,
    pub model: String,
}

impl ModelInfo {
    /// The workflow of this model, given the outcome of reading its text:
    /// a read workflow carries this model's version; a failed read is a
    /// conversion error with the reader's message.
    pub open spec fn workflow_spec(self, parsed: Result<Workflow, String>) -> ActResult<Workflow> {
        match parsed {
            Ok(w) => Ok(Workflow { ver: self.ver, ..w }),
            Err(e) => Err(ActError::ConvertError(e)),
        }
    }

    /// The workflow of this model, given the outcome of reading its text
    /// (the workflow read, or the reader's message).
    pub fn workflow(&self, parsed: Result<Workflow, String>) -> (r: ActResult<Workflow>)
        ensures
            r == self.workflow_spec(parsed),
    {
        match parsed {
            Ok(mut m) => {
                m.set_ver(self.ver);
                Ok(m)
            },
            Err(err) => Err(ActError::ConvertError(err)),
        }
    }
}

impl From<Model> for ModelInfo {
    /// Every field of the stored model, as it is.
    fn from(m: Model) -> (info: Self)
        ensures
            info.id == m.id,
            info.name == m.name,
            info.ver == m.ver,
            info.size == m.size,
            info.time == m.time,
            info.model == m.model,
    {
        Self { id: m.id, name: m.name, ver: m.ver, size: m.size, time: m.time, model: m.model }
    }
}

impl vstd::std_specs::convert::FromSpecImpl<Model> for ModelInfo {
    open spec fn obeys_from_spec() -> bool {
        true
    }

    open spec fn from_spec(m: Model) -> ModelInfo {
        ModelInfo { id: m.id, name: m.name, ver: m.ver, size: m.size, time: m.time, model: m.model }
    }
}

/// A workflow read from the text of a deployed model carries the version the
/// model was deployed under, whatever version the text itself gave.
pub proof fn lemma_workflow_has_deployed_version(m: Model, w: Workflow)
    ensures
        <ModelInfo as vstd::std_specs::convert::FromSpec<Model>>::from_spec(m).workflow_spec(
            Ok(w),
        ) == Ok::<Workflow, ActError>(Workflow { ver: m.ver, ..w }),
{
}

/// The summary of a stored model keeps every stored field as it is: id,
/// name, version, size, deploy time (at its full width) and text.
pub proof fn lemma_model_info_keeps_fields(m: Model)
    ensures
        <ModelInfo as vstd::std_specs::convert::FromSpec<Model>>::from_spec(m).id == m.id,
        <ModelInfo as vstd::std_specs::convert::FromSpec<Model>>::from_spec(m).name == m.name,
        <ModelInfo as vstd::std_specs::convert::FromSpec<Model>>::from_spec(m).ver == m.ver,
        <ModelInfo as vstd::std_specs::convert::FromSpec<Model>>::from_spec(m).size == m.size,
        <ModelInfo as vstd::std_specs::convert::FromSpec<Model>>::from_spec(m).time == m.time,
        <ModelInfo as vstd::std_specs::convert::FromSpec<Model>>::from_spec(m).model == m.model,
        <ModelInfo as vstd::std_specs::convert::FromSpec<Model>>::obeys_from_spec(),
{
}

/// A workflow that was read keeps its id and name and takes the model's
/// version; a read that failed is a conversion error carrying the reader's
/// message.
pub proof fn lemma_workflow_outcome(info: ModelInfo, w: Workflow, e: String)
    ensures
        info.workflow_spec(Ok(w)) is Ok,
        info.workflow_spec(Ok(w))->Ok_0.id == w.id,
        info.workflow_spec(Ok(w))->Ok_0.name == w.name,
        info.workflow_spec(Ok(w))->Ok_0.ver == info.ver,
        info.workflow_spec(Err(e)) matches Err(ActError::ConvertError(msg)) && msg == e,
{
}

impl ProcInfo {
    /// What a caller is told of a stored process, given the workflow read
    /// from the process's model text: the process id, the workflow's name
    /// and id, the name of the state, and the times.
    pub fn from_proc(p: &Proc, model: &Workflow) -> (info: ProcInfo)
        ensures
            info.pid == p.pid,
            info.name == model.name,
            info.mid == model.id,
            info.state@ == p.state.name_view(),
            info.start_time == p.start_time,
            info.end_time == p.end_time,
    {
        ProcInfo {
            pid: p.pid.clone(),
            name: model.name.clone(),
            mid: model.id.clone(),
            state: p.state.name(),
            start_time: p.start_time,
            end_time: p.end_time,
        }
    }
}

impl From<Task> for TaskInfo {
    /// The ids and times of the stored task as they are, and the name of
    /// its state.
    fn from(t: Task) -> (info: Self)
        ensures
            info.pid == t.pid,
            info.tid == t.tid,
            info.nid == t.nid,
            info.state@ == t.state.name_view(),
            info.start_time == t.start_time,
            info.end_time == t.end_time,
    {
        let state = t.state.name();
        Self {
            pid: t.pid,
            tid: t.tid,
            nid: t.nid,
            state,
            start_time: t.start_time,
            end_time: t.end_time,
        }
    }
}

impl vstd::std_specs::convert::FromSpecImpl<Task> for TaskInfo {
    open spec fn obeys_from_spec() -> bool {
        false
    }

    open spec fn from_spec(t: Task) -> TaskInfo {
        arbitrary()
    }
}

} // verus!
