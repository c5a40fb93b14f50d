use vstd::prelude::*;

verus! {

/// What every model element has: an id.
pub trait ModelBase {
    fn id(&self) -> &str;
}

/// The names under which an act's values are known while it repeats.
#[derive(Debug, Clone)]
pub struct ActAlias {
    pub init: Option<String>,
    pub each: Option<String>,
}

impl Default for ActAlias {
    /// No names.
    fn default() -> (a: Self)
        ensures
            a.init is None,
            a.each is None,
    {
        ActAlias { init: None, each: None }
    }
}

/// An act: a unit of work inside a step, waiting on the acts it needs.
#[derive(Debug, Clone)]
pub struct Act {
    pub id: String,
    pub name: String,
    pub tag: String,
    pub needs: Vec<String>,
}

impl ModelBase for Act {
    /// The act's id.
    fn id(&self) -> (r: &str)
        ensures
            r@ == self.id@,
    {
        self.id.as_str()
    }
}

impl Act {
    /// The act's name.
    pub fn name(&self) -> (r: &str)
        ensures
            r@ == self.name@,
    {
        self.name.as_str()
    }
}

} // verus!
