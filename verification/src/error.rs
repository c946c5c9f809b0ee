use vstd::prelude::*;

verus! {

/// An error that is shown to the user: it carries a human readable message.
#[derive(Debug, Clone)]
pub struct CheeseError {
    pub message: String,
}

impl CheeseError {
    /// Builds an error from its message.
    pub fn new(message: String) -> (err: Self)
        ensures
            err.message == message,
    {
        CheeseError { message }
    }

    /// The text of the error, as it is shown to the user.
    pub fn to_message(&self) -> (text: String)
        ensures
            text@ == self.message@,
    {
        self.message.clone()
    }
}

} // verus!
