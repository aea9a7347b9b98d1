//! Codec for compact ASCII morphology codes used in Greek biblical-text
//! corpora: a 32-bit packed representation of part of speech and
//! grammatical attributes, a decoder from the textual notation, an encoder
//! back to canonical text, and English-name lookup for parts of speech.

pub mod grammar;
pub mod laws;
pub mod parse;
pub mod string;
