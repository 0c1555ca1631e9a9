//! Regular-expression matching and replacement, and the patterns that the
//! relay builds from configured phrases and tags.
use vstd::prelude::*;
use vstd::string::*;

verus! {

/// The error that `regex::Regex::new` returns for a pattern it refuses,
/// carried through without looking inside.
#[verifier::external_type_specification]
#[verifier::external_body]
pub struct ExRegexError(regex::Error);

/// Whether `regex::Regex::new` accepts a pattern.
pub uninterp spec fn pattern_compiles(pattern: Seq<char>) -> bool;

/// Whether the compiled pattern matches somewhere in a text.
pub uninterp spec fn pattern_finds(pattern: Seq<char>, text: Seq<char>) -> bool;

/// A text with every match of the compiled pattern replaced by `rep`.
pub uninterp spec fn pattern_replaced(pattern: Seq<char>, text: Seq<char>, rep: Seq<char>) -> Seq<char>;

/// Relies on `regex::Regex::new`, which fails exactly on patterns it cannot
/// compile, and `regex::Regex::is_match`, which reports whether the pattern
/// matches anywhere in `text`.
#[verifier::external_body]
pub(crate) fn regex_is_match(pattern: &str, text: &str) -> (r: Result<bool, regex::Error>)
    ensures
        r is Ok <==> pattern_compiles(pattern@),
        r is Ok ==> r->Ok_0 == pattern_finds(pattern@, text@),
{
    let re = regex::Regex::new(pattern)?;
    Ok(re.is_match(text))
}

/// Relies on `regex::Regex::new` (as above) and `regex::Regex::replace_all`,
/// which replaces every non-overlapping match of the pattern with `rep`.
#[verifier::external_body]
pub(crate) fn regex_replace_all(pattern: &str, text: &str, rep: &str) -> (r: Result<
    String,
    regex::Error,
>)
    ensures
        r is Ok <==> pattern_compiles(pattern@),
        r is Ok ==> r->Ok_0@ == pattern_replaced(pattern@, text@, rep@),
{
    let re = regex::Regex::new(pattern)?;
    Ok(re.replace_all(text, rep).to_string())
}

/// The case-insensitive, word-bounded pattern for a trigger phrase, which
/// also accepts a trailing `s`.
pub open spec fn trigger_pattern_of(phrase: Seq<char>) -> Seq<char> {
    "(?i)\\b"@ + phrase + "s?\\b"@
}

/// The case-insensitive, word-bounded pattern for a hashtag word.
pub open spec fn tag_pattern_of(tag: Seq<char>) -> Seq<char> {
    "(?i)\\b(?P<text>"@ + tag + ")\\b"@
}

/// The pattern of one character that is not a word character.
pub open spec fn non_word_pattern() -> Seq<char> {
    "\\W"@
}

/// Builds the pattern that finds `phrase` as a word, or as a word with a
/// trailing `s`, in any case.
pub fn trigger_pattern(phrase: &str) -> (r: String)
    ensures
        r@ == trigger_pattern_of(phrase@),
{
    let mut p = String::from_str("(?i)\\b");
    p.append(phrase);
    p.append("s?\\b");
    p
}

/// Builds the pattern that finds `tag` as a whole word, in any case.
pub fn tag_pattern(tag: &str) -> (r: String)
    ensures
        r@ == tag_pattern_of(tag@),
{
    let mut p = String::from_str("(?i)\\b(?P<text>");
    p.append(tag);
    p.append(")\\b");
    p
}

} // verus!

verus! {

/// Why the relay could not process an item.
#[derive(Debug)]
pub enum RelayError {
    /// A pattern built from the configuration that the regex engine refused.
    InvalidPattern(String),
}

/// The pattern that the error names.
pub open spec fn refused_pattern(e: RelayError) -> Seq<char> {
    match e {
        RelayError::InvalidPattern(p) => p@,
    }
}

/// `r` is the view of `spec`: the same value, or an error that names the
/// same refused pattern.
pub open spec fn result_is<T>(r: Result<T, RelayError>, spec: Result<T, Seq<char>>) -> bool {
    match r {
        Ok(v) => spec == Ok::<T, Seq<char>>(v),
        Err(e) => spec == Err::<T, Seq<char>>(refused_pattern(e)),
    }
}

/// `r` is the view of `spec`: a text of the same characters, or an error
/// that names the same refused pattern.
pub open spec fn text_result_is(r: Result<String, RelayError>, spec: Result<Seq<char>, Seq<char>>) -> bool {
    match r {
        Ok(s) => spec == Ok::<Seq<char>, Seq<char>>(s@),
        Err(e) => spec == Err::<Seq<char>, Seq<char>>(refused_pattern(e)),
    }
}

/// Whether `pattern` matches `text`, or the refused pattern.
pub open spec fn finds(pattern: Seq<char>, text: Seq<char>) -> Result<bool, Seq<char>> {
    if pattern_compiles(pattern) {
        Ok(pattern_finds(pattern, text))
    } else {
        Err(pattern)
    }
}

/// Whether `pattern` matches `text`; the error names the pattern when the
/// regex engine refuses it.
pub fn find_in(pattern: &str, text: &str) -> (r: Result<bool, RelayError>)
    ensures
        result_is(r, finds(pattern@, text@)),
{
    match regex_is_match(pattern, text) {
        Ok(b) => Ok(b),
        Err(_) => Err(RelayError::InvalidPattern(String::from_str(pattern))),
    }
}

/// `text` with each match of `pattern` replaced by `rep`, or the refused
/// pattern.
pub open spec fn replaced(pattern: Seq<char>, text: Seq<char>, rep: Seq<char>) -> Result<
    Seq<char>,
    Seq<char>,
> {
    if pattern_compiles(pattern) {
        Ok(pattern_replaced(pattern, text, rep))
    } else {
        Err(pattern)
    }
}

/// Replaces each match of `pattern` in `text` by `rep`; the error names the
/// pattern when the regex engine refuses it.
pub fn replace_in(pattern: &str, text: &str, rep: &str) -> (r: Result<String, RelayError>)
    ensures
        text_result_is(r, replaced(pattern@, text@, rep@)),
{
    match regex_replace_all(pattern, text, rep) {
        Ok(s) => Ok(s),
        Err(_) => Err(RelayError::InvalidPattern(String::from_str(pattern))),
    }
}

} // verus!
