//! The YAML side of a package descriptor: the document type of `serde_yaml`
//! and the few calls into it that reading a descriptor needs.
//!
//! Nothing in this file is proved. Each function states what the `serde_yaml`
//! call in its body returns, over names that stand for the results of those
//! calls.

use vstd::prelude::*;

verus! {

/// `serde_yaml::Value`, a parsed YAML document or a part of one.
#[verifier::external_type_specification]
#[verifier::external_body]
pub struct ExYamlValue(serde_yaml::Value);

/// `serde_yaml::Error`, with which parsing fails.
#[verifier::external_type_specification]
#[verifier::external_body]
pub struct ExYamlError(serde_yaml::Error);

/// What `serde_yaml::from_reader` makes of a byte stream: the document, or
/// the error that it reports.
pub uninterp spec fn yaml_document(bytes: Seq<u8>) -> Result<serde_yaml::Value, serde_yaml::Error>;

/// What indexing a document by a string key gives: the value stored under the
/// key, or the null value where the document is no mapping or lacks the key.
pub uninterp spec fn yaml_entry(doc: serde_yaml::Value, key: Seq<char>) -> serde_yaml::Value;

/// The text of a value that is a YAML string; `None` for any other value.
pub uninterp spec fn yaml_text(value: serde_yaml::Value) -> Option<Seq<char>>;

/// The truth value of a value that is a YAML boolean; `None` for any other
/// value.
pub uninterp spec fn yaml_flag(value: serde_yaml::Value) -> Option<bool>;

/// The text with which `serde_yaml` displays one of its errors.
pub uninterp spec fn yaml_error_text(error: serde_yaml::Error) -> Seq<char>;

/// Calls `serde_yaml::from_reader` on the bytes of a document. The result
/// depends on the bytes alone, and `yaml_document` names it.
#[verifier::external_body]
pub(crate) fn parse_document(bytes: &[u8]) -> (r: Result<serde_yaml::Value, serde_yaml::Error>)
    ensures
        r == yaml_document(bytes@),
{
    serde_yaml::from_reader(bytes)
}

/// Indexes a document by a string key, `doc[key]`. The call never fails: a
/// missing key gives the null value. `yaml_entry` names the result.
#[verifier::external_body]
pub(crate) fn entry<'a>(doc: &'a serde_yaml::Value, key: &str) -> (r: &'a serde_yaml::Value)
    ensures
        *r == yaml_entry(*doc, key@),
{
    &doc[key]
}

/// Calls `Value::as_str`: the text of a string value, `None` otherwise.
#[verifier::external_body]
pub(crate) fn as_text<'a>(value: &'a serde_yaml::Value) -> (r: Option<&'a str>)
    ensures
        r is Some == yaml_text(*value) is Some,
        r matches Some(s) ==> yaml_text(*value) == Some(s@),
{
    value.as_str()
}

/// Calls `Value::as_bool`: the truth value of a boolean value, `None`
/// otherwise.
#[verifier::external_body]
pub(crate) fn as_flag(value: &serde_yaml::Value) -> (r: Option<bool>)
    ensures
        r == yaml_flag(*value),
{
    value.as_bool()
}

/// Formats a `serde_yaml::Error` with its `Display` impl.
#[verifier::external_body]
pub(crate) fn error_text(error: &serde_yaml::Error) -> (r: String)
    ensures
        r@ == yaml_error_text(*error),
{
    format!("{}", error)
}

} // verus!
