use vstd::prelude::*;

verus! {

/// The errors of the engine.
#[derive(Debug)]
pub enum ActError {
    /// A stored model could not be converted into a workflow.
    ConvertError(String),
    /// A task failed while it ran.
    RuntimeError(String),
}

/// The result type of the engine.
pub type ActResult<T> = Result<T, ActError>;

impl Clone for ActError {
    fn clone(&self) -> (e: Self)
        ensures
            e == *self,
    {
        match self {
            ActError::ConvertError(m) => ActError::ConvertError(m.clone()),
            ActError::RuntimeError(m) => ActError::RuntimeError(m.clone()),
        }
    }
}

impl ActError {
    /// The text that the error carries.
    pub open spec fn message_view(self) -> Seq<char> {
        match self {
            ActError::ConvertError(m) => m@,
            ActError::RuntimeError(m) => m@,
        }
    }

    /// The error as text: the message it carries.
    pub fn to_string(&self) -> (s: String)
        ensures
            s@ == self.message_view(),
    {
        match self {
            ActError::ConvertError(m) => m.clone(),
            ActError::RuntimeError(m) => m.clone(),
        }
    }
}

/// An error's text is the message it was made with, whichever kind it is.
pub proof fn lemma_error_text_is_its_message(m: String)
    ensures
        ActError::ConvertError(m).message_view() == m@,
        ActError::RuntimeError(m).message_view() == m@,
{
}

impl Default for ActError {
    /// A runtime error with an empty message.
    fn default() -> (e: Self)
        ensures
            e matches ActError::RuntimeError(m) && m@ == Seq::<char>::empty(),
    {
        ActError::RuntimeError(String::new())
    }
}

} // verus!
