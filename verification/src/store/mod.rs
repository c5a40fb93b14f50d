pub mod data;

pub use data::{Model, Proc, Task};
