use vstd::prelude::*;

verus! {

/// A stored workflow model: its text and what was recorded when it was
/// deployed.
#[derive(Debug, Clone)]
pub struct Model {
    pub id: String,
    pub name: String,
    pub ver: u32,
    pub size: u32,
    pub time: i64,
    /// The workflow model, as text.
    pub model: String,
}

} // verus!
