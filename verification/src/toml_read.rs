//! The boundary to the `toml` crate: parsing manifest text into the
//! reduced document tree of [`crate::toml_tree`].
//!
//! Only the items here are trusted; everything that reads the tree is
//! verified against [`toml_doc_of`], the name given to what the TOML
//! grammar yields for a text.

use crate::toml_tree::{node_of, TomlNode, TomlValue};
use vstd::prelude::*;

verus! {

#[verifier::external_type_specification]
#[verifier::external_body]
pub struct ExTomlValue(toml::Value);

/// The document tree that the TOML grammar gives to a text, reduced to
/// the strings and tables it holds; `None` where the text is not
/// well-formed TOML. Parsing is a function of the text alone.
pub uninterp spec fn toml_doc_of(text: Seq<char>) -> Option<TomlNode>;

/// The reduced tree held inside a parsed TOML value.
pub uninterp spec fn value_tree(v: toml::Value) -> TomlNode;

/// Relies on `toml::Table`'s `FromStr`: it parses a TOML document into a
/// table exactly when the text is well-formed TOML.
#[verifier::external_body]
pub(crate) fn toml_parse(text: &str) -> (r: Option<toml::Value>)
    ensures
        r matches Some(v) ==> toml_doc_of(text@) == Some(value_tree(v)),
        r is None <==> toml_doc_of(text@) is None,
{
    match text.parse::<toml::Table>() {
        Ok(t) => Some(toml::Value::Table(t)),
        Err(_) => None,
    }
}

/// Relies on `toml::Value`'s variants and `toml::map::Map::iter`: each
/// variant is told apart, one arm each, and a table hands its entries out
/// in a fixed order determined by the table alone.
#[verifier::external_body]
pub(crate) fn tree_of_value(v: &toml::Value) -> (t: TomlValue)
    ensures
        node_of(t) == value_tree(*v),
{
    match v {
        toml::Value::String(s) => TomlValue::Str(s.clone()),
        toml::Value::Table(table) => {
            let mut es: Vec<(String, TomlValue)> = Vec::new();
            for (k, x) in table.iter() {
                es.push((k.clone(), tree_of_value(x)));
            }
            TomlValue::Table(es)
        },
        _ => TomlValue::Other,
    }
}

} // verus!
