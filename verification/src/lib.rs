use vstd::prelude::*;

pub mod consumers;
pub mod factories;
pub mod traits;

verus! {

/// An opaque, heap-held error value, delivered through a receiver's error
/// channel. It carries a message and is never raised as control flow.
#[derive(Debug)]
pub struct Error {
    message: String,
}

impl Error {
    /// The message this error carries.
    pub closed spec fn text(self) -> Seq<char> {
        self.message@
    }

    pub fn new(message: String) -> (e: Error)
        ensures
            e.text() == message@,
    {
        Error { message }
    }

    pub fn message(&self) -> (m: &String)
        ensures
            m@ == self.text(),
    {
        &self.message
    }
}

} // verus!
