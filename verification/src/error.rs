//! The one kind of error that evaluation knows.
use vstd::prelude::*;

verus! {

/// An expression could not be evaluated. The error carries the diagnostic
/// text and nothing else: failures are not classified any further.
#[derive(Debug, Clone)]
pub struct EvaluationError {
    message: String,
}

impl View for EvaluationError {
    type V = Seq<char>;

    /// The diagnostic text.
    closed spec fn view(&self) -> Seq<char> {
        self.message@
    }
}

impl EvaluationError {
    /// An error that carries `message`.
    pub fn new(message: String) -> (e: Self)
        ensures
            e@ == message@,
    {
        EvaluationError { message }
    }

    /// The diagnostic text.
    pub fn message(&self) -> (m: &str)
        ensures
            m@ == self@,
    {
        self.message.as_str()
    }

    /// Gives up the error for its diagnostic text.
    pub fn into_message(self) -> (m: String)
        ensures
            m@ == self@,
    {
        self.message
    }
}

} // verus!
