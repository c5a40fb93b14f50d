//! Data model and task-scheduling rules of a workflow engine: the stored
//! records, the summaries that are handed to callers, and the lifecycle
//! hooks that every scheduled task runs through.

pub mod error;
pub mod event;
pub mod model;
pub mod sch;
pub mod store;

pub use error::{ActError, ActResult};
pub use event::{ActionState, Message};
pub use model::{Act, ActAlias, ModelBase, ModelInfo, ProcInfo, TaskInfo, Workflow};
pub use sch::{ActTask, Context, TaskState};
