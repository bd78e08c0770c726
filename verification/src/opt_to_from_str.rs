//! The codec for a value that may be absent.
//!
//! A present value travels as one text scalar, exactly as in
//! [`crate::to_from_str`]. An absent value travels as the absence marker of
//! the format: `None` as a token, never a text such as `"null"` or `""`.

use vstd::prelude::*;
use crate::error::{outcome, DecodeError};
use crate::text::{round_trips, ParseText, RenderText};
use crate::to_from_str;

verus! {

/// A written token as contracts see it: the text of a scalar, or the absence
/// marker.
pub open spec fn token_text(token: Option<String>) -> Option<Seq<char>> {
    match token {
        Some(s) => Some(s@),
        None => None,
    }
}

/// The same, for a token that was read and is still borrowed.
pub open spec fn read_text(token: Option<&str>) -> Option<Seq<char>> {
    match token {
        Some(s) => Some(s@),
        None => None,
    }
}

/// The token that stands for `value` on the wire: the text of a present
/// value, the absence marker for an absent one.
pub open spec fn encoded<T: RenderText>(value: Option<T>) -> Option<Seq<char>> {
    match value {
        Some(v) => Some(to_from_str::encoded(v)),
        None => None,
    }
}

/// What decoding `token` gives: absence for the absence marker, whatever the
/// parser would say, and for a text what the parser makes of it.
pub open spec fn decoded<T: ParseText>(token: Option<Seq<char>>) -> Result<Option<T>, Seq<char>> {
    match token {
        None => Ok(None),
        Some(text) => match to_from_str::decoded::<T>(text) {
            Ok(v) => Ok(Some(v)),
            Err(m) => Err(m),
        },
    }
}

/// How the decode result for a text follows from what the parser returned: a
/// parsed value is present, and a failure is a decode error that carries the
/// parser's message.
pub open spec fn settled<T>(parsed: Result<T, String>, r: Result<Option<T>, DecodeError>) -> bool {
    match parsed {
        Ok(v) => r == Ok::<Option<T>, DecodeError>(Some(v)),
        Err(m) => r matches Err(e) && e@ == m@,
    }
}

/// Encodes `value` as the one token to write: `Some` of the text that `T`
/// renders a present value as, `None` for the absence marker.
pub fn serialize<T: RenderText>(value: &Option<T>) -> (token: Option<String>)
    ensures
        match *value {
            Some(v) => token matches Some(text) && call_ensures(T::render_text, (&v,), text),
            None => token is None,
        },
        T::obeys_render_text() ==> token_text(token) == encoded(*value),
{
    match value {
        Some(v) => Some(to_from_str::serialize(v)),
        None => None,
    }
}

/// Marks a decoded value as present. An error passes through unchanged.
pub fn present<T>(value: Result<T, DecodeError>) -> (r: Result<Option<T>, DecodeError>)
    ensures
        match value {
            Ok(v) => r == Ok::<Option<T>, DecodeError>(Some(v)),
            Err(e) => r == Err::<Option<T>, DecodeError>(e),
        },
{
    match value {
        Ok(v) => Ok(Some(v)),
        Err(e) => Err(e),
    }
}

/// Decodes the one token that was read: `Some` of a text scalar, or `None`
/// for the absence marker.
///
/// The absence marker decodes to `None` whatever `T` is. A text is parsed as
/// a `T`, once; it never decodes to `None`, and a text that does not parse is
/// an error with the parser's message.
pub fn deserialize<T: ParseText>(token: Option<&str>) -> (r: Result<Option<T>, DecodeError>)
    ensures
        match token {
            Some(text) => exists|parsed: Result<T, String>|
                call_ensures(T::parse_text, (text,), parsed) && #[trigger] settled(parsed, r),
            None => r == Ok::<Option<T>, DecodeError>(None),
        },
        T::obeys_parse_text() ==> outcome(r) == decoded::<T>(read_text(token)),
        T::obeys_parse_text() ==> (token matches Some(text) ==> (T::parsed(text@) is Err ==> r is Err)),
{
    match token {
        Some(text) => {
            let decoded = to_from_str::deserialize::<T>(text);
            let r = present(decoded);
            proof {
                let parsed = choose|parsed: Result<T, String>|
                    call_ensures(T::parse_text, (text,), parsed) && #[trigger] to_from_str::settled(
                        parsed,
                        decoded,
                    );
                assert(settled(parsed, r));
            }
            r
        },
        None => Ok(None),
    }
}

/// Encoding a present value and decoding the token gives the value back,
/// present, for every value on which rendering and parsing are inverses.
pub proof fn lemma_round_trip_present<T: RenderText + ParseText>(value: T)
    requires
        round_trips(value),
    ensures
        decoded::<T>(encoded(Some(value))) == Ok::<Option<T>, Seq<char>>(Some(value)),
{
}

/// An absent value is encoded as the absence marker, which is no text, and
/// the absence marker decodes to an absent value.
pub proof fn lemma_round_trip_absent<T: RenderText + ParseText>()
    ensures
        encoded(None::<T>) is None,
        decoded::<T>(encoded(None::<T>)) == Ok::<Option<T>, Seq<char>>(None),
{
}

/// A text that the parser refuses is refused by the codec, with the same
/// message, and yields no value.
pub proof fn lemma_parse_failure<T: ParseText>(text: Seq<char>)
    requires
        T::parsed(text) is Err,
    ensures
        decoded::<T>(Some(text)) is Err,
        decoded::<T>(Some(text))->Err_0 == T::parsed(text)->Err_0,
{
}

/// Absence has a token of its own: no present value is encoded as the token
/// of an absent one, not even a value whose text is empty.
pub proof fn lemma_absence_distinct<T: RenderText>(value: T)
    ensures
        encoded(Some(value)) != encoded(None::<T>),
        encoded(Some(value)) == Some(value.text()),
{
}

} // verus!
