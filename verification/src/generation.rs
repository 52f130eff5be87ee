//! The generation listing of a profile and the entry that a rollback has
//! just superseded.
//!
//! The listing is the bytes that the profile backend prints: UTF-8 text, one
//! generation per line in the order of their creation, each line starting
//! with the generation's identifier. After a rollback the last line names
//! the generation that was given up.

use crate::text::{first_token, first_token_of, last_line, last_line_of};
use vstd::prelude::*;
use vstd::utf8::{decode_utf8, valid_utf8};

verus! {

/// Why a generation listing names no generation to remove.
#[derive(Clone, Copy, Debug, PartialEq, Eq, Structural)]
pub enum ParseError {
    /// The listing is not UTF-8 text.
    NotText,
    /// The listing has no line.
    NoGeneration,
    /// The last line of the listing has no identifier: it is empty or white
    /// space alone.
    NoIdentifier,
}

/// One entry of a generation listing.
#[derive(Clone, Debug, PartialEq, Eq)]
pub struct Generation {
    /// The identifier: the first token of the entry.
    pub id: String,
    /// The whole line of the listing.
    pub entry: String,
}

/// A generation as characters.
pub struct GenerationView {
    pub id: Seq<char>,
    pub entry: Seq<char>,
}

impl View for Generation {
    type V = GenerationView;

    open spec fn view(&self) -> GenerationView {
        GenerationView { id: self.id@, entry: self.entry@ }
    }
}

/// The generation that the last line of `text` names.
pub open spec fn last_entry_of(text: Seq<char>) -> Result<GenerationView, ParseError> {
    match last_line_of(text) {
        None => Err(ParseError::NoGeneration),
        Some(entry) => match first_token_of(entry) {
            None => Err(ParseError::NoIdentifier),
            Some(id) => Ok(GenerationView { id, entry }),
        },
    }
}

/// The generation that the last line of the listing `bytes` names.
pub open spec fn superseded_of(bytes: Seq<u8>) -> Result<GenerationView, ParseError> {
    if valid_utf8(bytes) {
        last_entry_of(decode_utf8(bytes))
    } else {
        Err(ParseError::NotText)
    }
}

/// What a parsed listing stands for.
pub open spec fn parsed_view(r: Result<Generation, ParseError>) -> Result<
    GenerationView,
    ParseError,
> {
    match r {
        Ok(g) => Ok(g@),
        Err(e) => Err(e),
    }
}

/// `String::from_utf8` of std: the text that `bytes` encode. It is there
/// exactly when the bytes are valid UTF-8, and is then their decoding.
#[verifier::external_body]
fn text_of_bytes(bytes: Vec<u8>) -> (text: Option<String>)
    ensures
        text is Some <==> valid_utf8(bytes@),
        text matches Some(t) ==> t@ == decode_utf8(bytes@),
{
    match String::from_utf8(bytes) {
        Ok(t) => Some(t),
        Err(_) => None,
    }
}

/// Reads the last entry of the listing `text`.
pub fn last_entry(text: &str) -> (r: Result<Generation, ParseError>)
    ensures
        parsed_view(r) == last_entry_of(text@),
{
    match last_line(text) {
        None => Err(ParseError::NoGeneration),
        Some(entry) => match first_token(entry.as_str()) {
            None => Err(ParseError::NoIdentifier),
            Some(id) => Ok(Generation { id, entry }),
        },
    }
}

/// Reads from the listing `bytes`, taken after a rollback, the generation
/// that the rollback superseded.
pub fn superseded_generation(bytes: Vec<u8>) -> (r: Result<Generation, ParseError>)
    ensures
        parsed_view(r) == superseded_of(bytes@),
{
    match text_of_bytes(bytes) {
        None => Err(ParseError::NotText),
        Some(text) => last_entry(text.as_str()),
    }
}

} // verus!
