//! Access to a parsed TOML document.
//!
//! Parsing and the document type belong to the `toml` crate. The document is opaque
//! here: what it holds is named by the specification functions below, and each access
//! function is trusted to return what its name stands for.

use crate::config::entries_view;
use crate::config::EnvVar;
use crate::config::KeyValue;
use crate::config::variables_view;
use vstd::prelude::*;

verus! {

/// `toml::map::Map`, of which `toml::Table` is the instance from `String` to
/// `toml::Value`. Opaque.
#[verifier::external_type_specification]
#[verifier::external_body]
#[verifier::reject_recursive_types(K)]
#[verifier::reject_recursive_types(V)]
pub struct ExTomlMap<K, V>(toml::map::Map<K, V>);

/// `toml::Value`, one value of a document. Opaque.
#[verifier::external_type_specification]
#[verifier::external_body]
pub struct ExTomlValue(toml::Value);

/// `toml::de::Error`, the reason why a text is not a TOML document. Opaque.
#[verifier::external_type_specification]
#[verifier::external_body]
pub struct ExTomlError(toml::de::Error);

/// The document that `text` parses to; `None` where `text` is not a TOML document.
pub uninterp spec fn toml_parsed(text: Seq<char>) -> Option<toml::Table>;

/// Whether `t` is a document that the parser has returned for some text.
pub open spec fn is_parsed(t: toml::Table) -> bool {
    exists|text: Seq<char>| #[trigger] toml_parsed(text) == Some(t)
}

/// The integer found in `t` under `section`, then `key`; `None` where `section` is
/// not a table of `t` or `key` is not an integer of that table.
pub uninterp spec fn toml_integer_at(t: toml::Table, section: Seq<char>, key: Seq<char>) -> Option<
    i64,
>;

/// The string found in `t` under `section`, then `key`; `None` where `section` is
/// not a table of `t` or `key` is not a string of that table.
pub uninterp spec fn toml_string_at(t: toml::Table, section: Seq<char>, key: Seq<char>) -> Option<
    Seq<char>,
>;

/// The entries of the table found in `t` under `section`, in the order in which the
/// table hands them out: each key with its value where that is a string, with `None`
/// where it is anything else. Empty where `section` is not a table of `t`.
pub uninterp spec fn toml_section_strings(t: toml::Table, section: Seq<char>) -> Seq<
    (Seq<char>, Option<Seq<char>>),
>;

/// The entries of the table found in `t` under `section`, in the order in which the
/// table hands them out: each key with its value written as TOML. Empty where
/// `section` is not a table of `t`.
pub uninterp spec fn toml_section_display(t: toml::Table, section: Seq<char>) -> Seq<
    (Seq<char>, Seq<char>),
>;

/// Calls `str::parse::<toml::Table>`, the crate's parser. The result is a function of
/// the text alone, which `toml_parsed` names.
#[verifier::external_body]
pub(crate) fn parse_table(text: &str) -> (r: Result<toml::Table, toml::de::Error>)
    ensures
        match r {
            Ok(t) => toml_parsed(text@) == Some(t),
            Err(_) => toml_parsed(text@) is None,
        },
{
    text.parse::<toml::Table>()
}

/// Calls `toml::de::Error`'s `to_string`: the parser's account of an error.
/// Nothing is claimed about the text.
#[verifier::external_body]
pub(crate) fn error_text(e: &toml::de::Error) -> (text: String) {
    e.to_string()
}

/// Calls `Map::get` twice and returns the integer of a `toml::Value::Integer`.
#[verifier::external_body]
pub(crate) fn integer_at(t: &toml::Table, section: &str, key: &str) -> (r: Option<i64>)
    ensures
        r == toml_integer_at(*t, section@, key@),
{
    match t.get(section) {
        Some(toml::Value::Table(s)) => match s.get(key) {
            Some(toml::Value::Integer(v)) => Some(*v),
            _ => None,
        },
        _ => None,
    }
}

/// Calls `Map::get` twice and returns a copy of the string of a `toml::Value::String`.
#[verifier::external_body]
pub(crate) fn string_at(t: &toml::Table, section: &str, key: &str) -> (r: Option<String>)
    ensures
        match r {
            Some(s) => toml_string_at(*t, section@, key@) == Some(s@),
            None => toml_string_at(*t, section@, key@) is None,
        },
{
    match t.get(section) {
        Some(toml::Value::Table(s)) => match s.get(key) {
            Some(toml::Value::String(v)) => Some(v.clone()),
            _ => None,
        },
        _ => None,
    }
}

/// Calls `Map::get`, then `Map::iter` on the table found, and copies each entry out
/// with `Value::as_str`.
#[verifier::external_body]
pub(crate) fn section_strings(t: &toml::Table, section: &str) -> (r: Vec<KeyValue>)
    ensures
        entries_view(r@) == toml_section_strings(*t, section@),
{
    match t.get(section) {
        Some(toml::Value::Table(s)) => s.iter().map(
            |(k, v)| KeyValue { key: k.clone(), value: v.as_str().map(String::from) },
        ).collect(),
        _ => Vec::new(),
    }
}

/// Calls `Map::get`, then `Map::iter` on the table found, and copies each entry out
/// with `Value`'s `to_string`. That call does not return for a value that the crate
/// cannot write, such as a date that holds a month 13, which only a table built by
/// hand can hold; so only a document that the parser has returned is taken.
#[verifier::external_body]
pub(crate) fn section_display(t: &toml::Table, section: &str) -> (r: Vec<EnvVar>)
    requires
        is_parsed(*t),
    ensures
        variables_view(r@) == toml_section_display(*t, section@),
{
    match t.get(section) {
        Some(toml::Value::Table(s)) => s.iter().map(
            |(k, v)| EnvVar { name: k.clone(), value: v.to_string() },
        ).collect(),
        _ => Vec::new(),
    }
}

} // verus!
