use vstd::prelude::*;
use vstd::string::*;

verus! {

/// An error that carries nothing but a message.
pub struct GeneralError {
    pub message: String,
}

impl GeneralError {
    /// The error with message `msg`.
    pub fn from_message(msg: &str) -> (r: GeneralError)
        ensures
            r.message@ == msg@,
    {
        GeneralError { message: String::from_str(msg) }
    }

    /// The text this error shows: its message.
    pub fn describe(&self) -> (r: String)
        ensures
            r@ == self.message@,
    {
        self.message.clone()
    }
}

} // verus!
