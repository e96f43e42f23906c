//! Attribution metadata: reading the `credit` field out of a sidecar
//! record, with every failure mode collapsing to "no attribution".

use vstd::prelude::*;

verus! {

#[verifier::external_type_specification]
#[verifier::external_body]
pub struct ExTomlValue(toml::Value);

/// The entries of the document `s`, if `s` is a well-formed record:
/// each top-level key, mapped to its text when its value is a string
/// and to `None` when it is anything else. `None` when `s` does not
/// parse as a record at all.
pub uninterp spec fn toml_doc(s: Seq<char>) -> Option<Map<Seq<char>, Option<Seq<char>>>>;

/// The same entry view of one parsed value: its top-level keys, each
/// mapped to its text when the entry is a string. Empty when the value
/// is not a table.
pub uninterp spec fn value_entries(v: toml::Value) -> Map<Seq<char>, Option<Seq<char>>>;

/// The text of one parsed value, when that value is a string.
pub uninterp spec fn value_str(v: toml::Value) -> Option<Seq<char>>;

/// Relies on toml::from_str: parsing is a function of the text alone;
/// a document parses to a table of its top-level entries, or fails.
#[verifier::external_body]
fn parse_toml(s: &str) -> (r: Option<toml::Value>)
    ensures
        match r {
            Some(v) => toml_doc(s@) == Some(value_entries(v)),
            None => toml_doc(s@) is None,
        },
{
    toml::from_str::<toml::Value>(s).ok()
}

/// Relies on toml::Value::get with a string index: `Some` exactly when
/// the value is a table holding the key, and then the entry under it.
#[verifier::external_body]
fn value_get<'a>(v: &'a toml::Value, key: &str) -> (r: Option<&'a toml::Value>)
    ensures
        match r {
            Some(x) => value_entries(*v).dom().contains(key@) && value_entries(*v)[key@]
                == value_str(*x),
            None => !value_entries(*v).dom().contains(key@),
        },
{
    v.get(key)
}

/// Relies on toml::Value::as_str: `Some` exactly when the value is a
/// string, and then its text.
#[verifier::external_body]
fn value_as_str(v: &toml::Value) -> (r: Option<String>)
    ensures
        match r {
            Some(s) => value_str(*v) == Some(s@),
            None => value_str(*v) is None,
        },
{
    match v.as_str() {
        Some(s) => Some(s.to_owned()),
        None => None,
    }
}

/// The attribution carried by the sidecar text `s`: the value of its
/// `credit` entry when `s` is a well-formed record with a string under
/// that key, and nothing otherwise.
pub open spec fn credit_of(s: Seq<char>) -> Option<Seq<char>> {
    match toml_doc(s) {
        Some(entries) => if entries.dom().contains("credit"@) {
            entries["credit"@]
        } else {
            None
        },
        None => None,
    }
}

/// Extracts the attribution from sidecar text. A document that does not
/// parse, has no `credit` entry, or holds a non-string one, yields
/// `None`: corrupt metadata never blocks the caller.
pub fn load_credit(text: &str) -> (r: Option<String>)
    ensures
        match r {
            Some(c) => credit_of(text@) == Some(c@),
            None => credit_of(text@) is None,
        },
{
    match parse_toml(text) {
        Some(v) => match value_get(&v, "credit") {
            Some(c) => value_as_str(c),
            None => None,
        },
        None => None,
    }
}

} // verus!
