//! Everything the library takes on trust from code it does not verify.
//!
//! Each item below states a contract that the verifier believes without
//! proof. The doc comment of each says which function it stands for and what
//! is claimed of it.

use vstd::prelude::*;
use std::path::Path;
use std::path::PathBuf;

verus! {

/// A borrowed file-system path of the standard library, carried through as
/// it is.
#[verifier::external_type_specification]
#[verifier::external_body]
pub struct ExPath(Path);

/// An owned file-system path of the standard library, carried through as it
/// is.
#[verifier::external_type_specification]
#[verifier::external_body]
pub struct ExPathBuf(PathBuf);

/// A value of a TOML document (a string, a number, a table, ...), as the
/// `toml` crate holds it.
#[verifier::external_type_specification]
#[verifier::external_body]
pub struct ExTomlValue(toml::Value);

/// The error with which the `toml` crate refuses a text.
#[verifier::external_type_specification]
#[verifier::external_body]
pub struct ExTomlError(toml::de::Error);

/// `String::push` appends one character at the end of the string and leaves
/// the characters before it as they were.
pub assume_specification[ String::push ](s: &mut String, c: char)
    ensures
        final(s)@ == old(s)@.push(c),
;

/// What `string_auto_indent::auto_indent` makes of a text: the indentation
/// that the lines after the first have in common is taken away, and lines
/// of blanks become empty. The result depends on the text alone.
pub uninterp spec fn auto_indented(text: Seq<char>) -> Seq<char>;

/// Calls `string_auto_indent::auto_indent`, which returns for every text and
/// computes its result from the text alone. Nothing more is claimed of it.
#[verifier::external_body]
pub(crate) fn auto_indent(text: &str) -> (r: String)
    ensures
        r@ == auto_indented(text@),
{
    string_auto_indent::auto_indent(text)
}

/// The path that `Path::join` gives for a base and a relative part.
pub uninterp spec fn joined_path(base: &Path, rel: Seq<char>) -> PathBuf;

/// Calls `Path::join`, which adjoins `rel` to `base` and returns for every
/// pair; the result depends on the two alone.
#[verifier::external_body]
pub(crate) fn join_path(base: &Path, rel: &str) -> (r: PathBuf)
    ensures
        r == joined_path(base, rel@),
{
    base.join(rel)
}

/// The text that `Path::display` prints for a path.
pub uninterp spec fn displayed_path(path: PathBuf) -> Seq<char>;

/// Calls `Path::display` and collects what it prints; the text depends on
/// the path alone.
#[verifier::external_body]
pub(crate) fn display_path(path: &PathBuf) -> (r: String)
    ensures
        r@ == displayed_path(*path),
{
    path.display().to_string()
}

/// The document that `toml::from_str` reads from a text, if it reads one.
pub uninterp spec fn toml_document(text: Seq<char>) -> Option<toml::Value>;

/// Calls `toml::from_str` for a `toml::Value`: the text either parses as a
/// TOML document, which is returned, or is refused with an error. Which of
/// the two, and which document, depends on the text alone.
#[verifier::external_body]
pub(crate) fn parse_toml(text: &str) -> (r: Result<toml::Value, toml::de::Error>)
    ensures
        r is Ok <==> toml_document(text@) is Some,
        r is Ok ==> toml_document(text@) == Some(r->Ok_0),
{
    toml::from_str::<toml::Value>(text)
}

/// The value that `toml::Value::get` finds under a string key, if any.
pub uninterp spec fn toml_entry(value: toml::Value, key: Seq<char>) -> Option<toml::Value>;

/// Calls `toml::Value::get` with a string key: where `value` is a table
/// that holds `key`, the value under it; otherwise nothing.
#[verifier::external_body]
pub(crate) fn toml_get<'a>(value: &'a toml::Value, key: &str) -> (r: Option<&'a toml::Value>)
    ensures
        r is Some <==> toml_entry(*value, key@) is Some,
        r is Some ==> toml_entry(*value, key@) == Some(*r->Some_0),
{
    value.get(key)
}

/// The text that `toml::Value::as_str` extracts, if the value is a string.
pub uninterp spec fn toml_text(value: toml::Value) -> Option<Seq<char>>;

/// Calls `toml::Value::as_str`: the string of a value that is a string,
/// nothing for a value of another kind.
#[verifier::external_body]
pub(crate) fn toml_as_str<'a>(value: &'a toml::Value) -> (r: Option<&'a str>)
    ensures
        r is Some <==> toml_text(*value) is Some,
        r is Some ==> toml_text(*value) == Some(r->Some_0@),
{
    value.as_str()
}

} // verus!
