use vstd::prelude::*;

verus! {

/// An error described by its message.
#[derive(Debug)]
pub struct Error(pub String);

impl Clone for Error {
    fn clone(&self) -> (r: Self)
        ensures
            r == *self,
    {
        Error(self.0.clone())
    }
}

impl Error {
    /// The error whose message is `message`.
    pub fn from_str(message: &str) -> (r: Error)
        ensures
            r.0@ == message@,
    {
        Error(message.to_owned())
    }

    /// The message of the error.
    pub fn message(&self) -> (r: &str)
        ensures
            r@ == self.0@,
    {
        self.0.as_str()
    }
}

} // verus!
