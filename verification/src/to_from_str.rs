//! The codec for a value that is always present.

use vstd::prelude::*;
use crate::error::{outcome, DecodeError};
use crate::text::{round_trips, ParseText, RenderText};

verus! {

/// The text scalar that stands for `value` on the wire.
pub open spec fn encoded<T: RenderText>(value: T) -> Seq<char> {
    value.text()
}

/// What decoding the text scalar `text` gives: the parsed value, or the
/// parser's message.
pub open spec fn decoded<T: ParseText>(text: Seq<char>) -> Result<T, Seq<char>> {
    T::parsed(text)
}

/// How a decode result follows from what the parser returned: a parsed value
/// is passed on unchanged, and a failure becomes a decode error that carries
/// the parser's message.
pub open spec fn settled<T>(parsed: Result<T, String>, r: Result<T, DecodeError>) -> bool {
    match parsed {
        Ok(v) => r == Ok::<T, DecodeError>(v),
        Err(m) => r matches Err(e) && e@ == m@,
    }
}

/// Encodes `value` as the one text scalar to write: the text that `T` renders
/// it as.
pub fn serialize<T: RenderText>(value: &T) -> (text: String)
    ensures
        call_ensures(T::render_text, (value,), text),
        T::obeys_render_text() ==> text@ == encoded(*value),
{
    value.render_text()
}

/// Turns what the parser returned into what decoding returns.
pub fn from_parsed<T>(parsed: Result<T, String>) -> (r: Result<T, DecodeError>)
    ensures
        settled(parsed, r),
{
    match parsed {
        Ok(v) => Ok(v),
        Err(m) => Err(DecodeError::custom(m)),
    }
}

/// Decodes the one text scalar that was read.
///
/// The text is parsed as a `T`, once. A text that does not parse is an error
/// with the parser's message; no other value is ever put in its place.
pub fn deserialize<T: ParseText>(text: &str) -> (r: Result<T, DecodeError>)
    ensures
        exists|parsed: Result<T, String>|
            call_ensures(T::parse_text, (text,), parsed) && #[trigger] settled(parsed, r),
        T::obeys_parse_text() ==> outcome(r) == decoded::<T>(text@),
        T::obeys_parse_text() && T::parsed(text@) is Err ==> r is Err,
{
    let parsed = T::parse_text(text);
    let r = from_parsed(parsed);
    assert(settled(parsed, r));
    r
}

/// Encoding then decoding gives the value back, for every value on which
/// rendering and parsing are inverses.
pub proof fn lemma_round_trip<T: RenderText + ParseText>(value: T)
    requires
        round_trips(value),
    ensures
        decoded::<T>(encoded(value)) == Ok::<T, Seq<char>>(value),
{
}

/// A text that the parser refuses is refused by the codec, with the same
/// message.
pub proof fn lemma_parse_failure<T: ParseText>(text: Seq<char>)
    requires
        T::parsed(text) is Err,
    ensures
        decoded::<T>(text) is Err,
        decoded::<T>(text)->Err_0 == T::parsed(text)->Err_0,
{
}

} // verus!
