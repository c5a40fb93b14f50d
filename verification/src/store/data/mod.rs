mod model;
mod proc;
mod task;

pub use model::Model;
pub use proc::Proc;
pub use task::Task;
