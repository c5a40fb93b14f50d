use vstd::prelude::*;

verus! {

/// A workflow model: what identifies it and the version it was deployed
/// under.
#[derive(Debug, Clone)]
pub struct Workflow {
    pub id: String,
    pub name: String,
    pub ver: u32,
}

impl Workflow {
    /// Sets the version and leaves the rest as it was.
    pub fn set_ver(&mut self, ver: u32)
        ensures
            *final(self) == (Workflow { ver, ..*old(self) }),
    {
        self.ver = ver;
    }
}

} // verus!
