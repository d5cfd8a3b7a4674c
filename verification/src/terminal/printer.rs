//! The printable message wrapper handed to the application's printer.

use vstd::prelude::*;

verus! {

/// A message wrapper, so that plain text and structured output can be
/// produced from the same value.
#[derive(Debug, Clone, PartialEq, Eq)]
pub struct Message {
    message: String,
}

impl View for Message {
    type V = Seq<char>;

    closed spec fn view(&self) -> Seq<char> {
        self.message@
    }
}

impl Message {
    /// Wraps the given text.
    pub fn new(message: &str) -> (r: Self)
        ensures
            r@ == message@,
    {
        Message { message: message.to_owned() }
    }

    /// The wrapped text.
    pub fn text(&self) -> (r: &str)
        ensures
            r@ == self@,
    {
        self.message.as_str()
    }
}

} // verus!
