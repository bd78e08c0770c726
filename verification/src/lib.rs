//! Text codecs for single values.
//!
//! A value that can render itself as text and be parsed back from text is
//! carried through a structured format as one text scalar. Two codecs are
//! offered: [`to_from_str`] for a value that is always present, and
//! [`opt_to_from_str`] for a value that may be absent, whose absence is kept as
//! a structural marker and never written as text.
//!
//! The codecs compute on plain values. The caller reads the scalar from its
//! decoder and hands it in; it takes the token from the encoder side and writes
//! it out.

pub mod error;
pub mod opt_to_from_str;
pub mod text;
pub mod to_from_str;
