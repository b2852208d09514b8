//! Settings of the case transformations that styles apply to titles, and
//! the wording of numbers and dates.

pub mod en;

use crate::types::opt_text;
use vstd::prelude::*;

verus! {

/// Settings for putting a title in title case.
#[derive(Clone, Copy, Debug, PartialEq, Eq)]
pub struct TitleCase {
    /// Capitalize after a full stop, a question or exclamation mark and a
    /// colon, even where the following word is a known exception.
    pub always_capitalize_after_punctuation: bool,
    /// Capitalize the last word of the title.
    pub always_capitalize_last_word: bool,
    /// Capitalize every word that has at least this many characters.
    pub always_capitalize_min_len: Option<usize>,
    /// Leave short prepositions, conjunctions and articles in lower case.
    pub use_exception_dictionary: bool,
    /// Strip blanks at the start of the title.
    pub trim_start: bool,
    /// Strip blanks at the end of the title.
    pub trim_end: bool,
}

impl TitleCase {
    /// The settings that apply where a style sets none.
    pub open spec fn standard() -> TitleCase {
        TitleCase {
            always_capitalize_after_punctuation: true,
            always_capitalize_last_word: true,
            always_capitalize_min_len: None,
            use_exception_dictionary: true,
            trim_start: true,
            trim_end: true,
        }
    }
}

impl Default for TitleCase {
    fn default() -> (r: TitleCase)
        ensures
            r == TitleCase::standard(),
    {
        TitleCase {
            always_capitalize_after_punctuation: true,
            always_capitalize_last_word: true,
            always_capitalize_min_len: None,
            use_exception_dictionary: true,
            trim_start: true,
            trim_end: true,
        }
    }
}

/// Settings for putting a title in sentence case.
#[derive(Clone, Copy, Debug, PartialEq, Eq)]
pub struct SentenceCase {
    /// Capitalize words that have capitals after their first character.
    pub capitalize_words_with_caps_inside: bool,
    /// Leave a title as it is where all of it is in lower case.
    pub do_not_format_lowercase: bool,
}

impl SentenceCase {
    /// The settings that apply where a style sets none.
    pub open spec fn standard() -> SentenceCase {
        SentenceCase { capitalize_words_with_caps_inside: true, do_not_format_lowercase: true }
    }
}

impl Default for SentenceCase {
    fn default() -> (r: SentenceCase)
        ensures
            r == SentenceCase::standard(),
    {
        SentenceCase { capitalize_words_with_caps_inside: true, do_not_format_lowercase: true }
    }
}

/// The primary language subtag of a language tag: nothing where the text is
/// no well-formed language identifier, and `und` where the identifier names
/// no language.
pub uninterp spec fn language_subtag(tag: Seq<char>) -> Option<Seq<char>>;

/// The English name of the language that a two-letter ISO 639-1 code stands
/// for: nothing where the text is no such code.
pub uninterp spec fn iso_language_name(code: Seq<char>) -> Option<Seq<char>>;

/// `Language::as_str` of the `language` of the identifier that
/// `LanguageIdentifier::from_bytes` makes of the tag.
#[verifier::external_body]
fn primary_language(tag: &str) -> (r: Option<String>)
    ensures
        opt_text(r) == language_subtag(tag@),
{
    match unic_langid::LanguageIdentifier::from_bytes(tag.as_bytes()) {
        Ok(id) => Some(id.language.as_str().to_owned()),
        Err(_) => None,
    }
}

/// `Language::to_name` of the language that `Language::from_639_1` finds
/// for the code.
#[verifier::external_body]
fn english_name(code: &str) -> (r: Option<String>)
    ensures
        opt_text(r) == iso_language_name(code@),
{
    match isolang::Language::from_639_1(code) {
        Some(language) => Some(language.to_name().to_owned()),
        None => None,
    }
}

/// The English name of the language of a language tag: the name that the
/// primary subtag of the tag stands for as a two-letter code.
pub open spec fn language_of(tag: Seq<char>) -> Option<Seq<char>> {
    match language_subtag(tag) {
        Some(code) => iso_language_name(code),
        None => None,
    }
}

/// The English name of the language of a language tag, if the tag has a
/// primary subtag that is a two-letter code of a language.
pub fn language_name(tag: &str) -> (r: Option<String>)
    ensures
        opt_text(r) == language_of(tag@),
{
    match primary_language(tag) {
        Some(code) => english_name(code.as_str()),
        None => None,
    }
}

} // verus!
