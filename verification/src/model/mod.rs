mod act;
mod info;
mod workflow;

pub use act::{Act, ActAlias, ModelBase};
pub use info::{ModelInfo, ProcInfo, TaskInfo};
pub use workflow::Workflow;
