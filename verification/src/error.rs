//! The one error of the codecs: a text that could not be parsed.

use vstd::prelude::*;

verus! {

/// A decode failure. It carries the message of the parser that refused the
/// text, and nothing else: the codecs have no failures of their own.
#[derive(Debug, PartialEq, Eq)]
pub struct DecodeError {
    message: String,
}

impl View for DecodeError {
    type V = Seq<char>;

    /// The message, as a sequence of characters.
    closed spec fn view(&self) -> Seq<char> {
        self.message@
    }
}

impl DecodeError {
    /// Wraps a parser's message.
    pub fn custom(message: String) -> (e: Self)
        ensures
            e@ == message@,
    {
        DecodeError { message }
    }

    /// The parser's message.
    pub fn message(&self) -> (m: &str)
        ensures
            m@ == self@,
    {
        self.message.as_str()
    }

    /// Gives the message back, consuming the error.
    pub fn into_message(self) -> (m: String)
        ensures
            m@ == self@,
    {
        self.message
    }
}

/// What a decode result says, with the error taken by its message.
pub open spec fn outcome<V>(r: Result<V, DecodeError>) -> Result<V, Seq<char>> {
    match r {
        Ok(v) => Ok(v),
        Err(e) => Err(e@),
    }
}

} // verus!
