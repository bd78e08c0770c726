//! The two capabilities a value needs to pass through a codec: rendering
//! itself as text, and being parsed from text.
//!
//! Each capability pairs an executable method with a specification function
//! that says what the method computes. A type states through `obeys_*` whether
//! its method follows that specification. The default is that it does not, so
//! an implementation that was never verified promises nothing, and everything
//! the codecs guarantee about a type is conditional on `obeys_*`.

use vstd::prelude::*;

verus! {

/// A value that can be rendered as text.
pub trait RenderText {
    /// Whether `render_text` returns exactly `text`.
    open spec fn obeys_render_text() -> bool {
        false
    }

    /// The text that stands for this value.
    open spec fn text(&self) -> Seq<char> {
        arbitrary()
    }

    /// Renders the value.
    fn render_text(&self) -> (s: String)
        ensures
            Self::obeys_render_text() ==> s@ == self.text(),
    ;
}

/// A value that can be parsed from text. Parsing may fail, and then describes
/// the failure in a message.
///
/// `parsed` names the parsed value itself. A type can therefore obey only if
/// equal texts are known to parse to equal values, which is so for a type made
/// of integers, booleans and enums, and is not for one that holds a `String`
/// or a `Vec`, of which only the view is known.
pub trait ParseText: Sized {
    /// Whether `parse_text` returns exactly `parsed`.
    open spec fn obeys_parse_text() -> bool {
        false
    }

    /// What parsing a text gives: the value, or the message of the failure.
    open spec fn parsed(text: Seq<char>) -> Result<Self, Seq<char>> {
        arbitrary()
    }

    /// Parses a text.
    fn parse_text(text: &str) -> (r: Result<Self, String>)
        ensures
            Self::obeys_parse_text() ==> agrees(r, Self::parsed(text@)),
    ;
}

/// A parse result and its specification agree: the same value, or a failure
/// with the same message.
pub open spec fn agrees<T>(r: Result<T, String>, expected: Result<T, Seq<char>>) -> bool {
    match r {
        Ok(v) => expected == Ok::<T, Seq<char>>(v),
        Err(m) => expected == Err::<T, Seq<char>>(m@),
    }
}

/// Rendering `value` and parsing the text gives `value` back: on this value
/// the two capabilities of `T` are inverses.
pub open spec fn round_trips<T: RenderText + ParseText>(value: T) -> bool {
    T::parsed(value.text()) == Ok::<T, Seq<char>>(value)
}

/// The message with which a text that is neither `true` nor `false` is
/// refused as a `bool`.
pub open spec fn not_a_bool() -> Seq<char> {
    "provided string was not `true` or `false`"@
}

/// A `bool` is written as `true` or `false`.
impl RenderText for bool {
    open spec fn obeys_render_text() -> bool {
        true
    }

    open spec fn text(&self) -> Seq<char> {
        if *self {
            "true"@
        } else {
            "false"@
        }
    }

    fn render_text(&self) -> (s: String) {
        if *self {
            "true".to_owned()
        } else {
            "false".to_owned()
        }
    }
}

/// A `bool` is parsed from exactly `true` or `false`; any other text is
/// refused.
impl ParseText for bool {
    open spec fn obeys_parse_text() -> bool {
        true
    }

    open spec fn parsed(text: Seq<char>) -> Result<bool, Seq<char>> {
        if text == "true"@ {
            Ok(true)
        } else if text == "false"@ {
            Ok(false)
        } else {
            Err(not_a_bool())
        }
    }

    fn parse_text(text: &str) -> (r: Result<bool, String>) {
        let given = text.to_owned();
        if given == "true".to_owned() {
            Ok(true)
        } else if given == "false".to_owned() {
            Ok(false)
        } else {
            Err("provided string was not `true` or `false`".to_owned())
        }
    }
}

/// On every `bool`, rendering and parsing are inverses.
pub proof fn lemma_bool_round_trips(value: bool)
    ensures
        round_trips(value),
{
    reveal_strlit("true");
    reveal_strlit("false");
    assert("true"@.len() != "false"@.len());
}

} // verus!
