//! Trusted boundary to the toml crate: the parser and the read-only
//! accessors of its document model. A parsed document and its values are
//! opaque to the verifier; the spec functions below name what each accessor
//! hands back, and every contract of the configuration loader is phrased
//! over those names. All of them are functions of their arguments alone:
//! the parser is deterministic in the text, the map is ordered by key, and
//! the accessors read fixed parts of a fixed value.

use vstd::prelude::*;

verus! {

#[verifier::external_type_specification]
#[verifier::external_body]
#[verifier::reject_recursive_types(K)]
#[verifier::reject_recursive_types(V)]
pub struct ExTomlMap<K, V>(toml::map::Map<K, V>);

#[verifier::external_type_specification]
#[verifier::external_body]
pub struct ExTomlValue(toml::Value);

/// Whether this text is well-formed TOML with a top-level table.
pub uninterp spec fn toml_parse_ok(s: Seq<char>) -> bool;

/// The top-level table of a text that parses.
pub uninterp spec fn toml_root(s: Seq<char>) -> toml::map::Map<String, toml::Value>;

/// The value a table holds at a key, when it holds one.
pub uninterp spec fn map_lookup(t: toml::map::Map<String, toml::Value>, key: Seq<char>) -> Option<
    toml::Value,
>;

/// The keys of a table, in its iteration order.
pub uninterp spec fn map_key_list(t: toml::map::Map<String, toml::Value>) -> Seq<Seq<char>>;

/// The character sequence of a string value; nothing for any other value.
pub uninterp spec fn value_as_string(v: toml::Value) -> Option<Seq<char>>;

/// The table of a table value; nothing for any other value.
pub uninterp spec fn value_as_map(v: toml::Value) -> Option<toml::map::Map<String, toml::Value>>;

/// Relies on toml's `FromStr` for `toml::Table`: parses TOML text into its
/// top-level table, deterministically in the text alone; the error is
/// handed on as its rendered message.
#[verifier::external_body]
pub fn toml_parse(s: &str) -> (r: Result<toml::map::Map<String, toml::Value>, String>)
    ensures
        r is Ok <==> toml_parse_ok(s@),
        r is Ok ==> r->Ok_0 == toml_root(s@),
{
    match s.parse::<toml::Table>() {
        Ok(t) => Ok(t),
        Err(e) => Err(format!("{}", e)),
    }
}

/// Relies on toml::map::Map::get: the value stored at this key, if any.
#[verifier::external_body]
pub fn toml_get<'a>(t: &'a toml::map::Map<String, toml::Value>, key: &str) -> (r: Option<
    &'a toml::Value,
>)
    ensures
        match r {
            Some(v) => map_lookup(*t, key@) == Some(*v),
            None => map_lookup(*t, key@) is None,
        },
{
    t.get(key)
}

/// Relies on toml::map::Map::keys: every key exactly once, in the map's
/// iteration order, each present in the map.
#[verifier::external_body]
pub fn toml_keys(t: &toml::map::Map<String, toml::Value>) -> (r: Vec<String>)
    ensures
        r.deep_view() == map_key_list(*t),
        forall|i: int| 0 <= i < r@.len() ==> #[trigger] map_lookup(*t, r@[i]@) is Some,
        forall|i: int, j: int| 0 <= i < j < r@.len() ==> r@[i]@ != r@[j]@,
{
    t.keys().cloned().collect()
}

/// Relies on toml::Value::as_str: the string slice of a string value,
/// nothing for any other variant.
#[verifier::external_body]
pub fn toml_as_str<'a>(v: &'a toml::Value) -> (r: Option<&'a str>)
    ensures
        match r {
            Some(s) => value_as_string(*v) == Some(s@),
            None => value_as_string(*v) is None,
        },
{
    v.as_str()
}

/// Relies on toml::Value::as_table: the table of a table value, nothing
/// for any other variant.
#[verifier::external_body]
pub fn toml_as_table<'a>(v: &'a toml::Value) -> (r: Option<
    &'a toml::map::Map<String, toml::Value>,
>)
    ensures
        match r {
            Some(t) => value_as_map(*v) == Some(*t),
            None => value_as_map(*v) is None,
        },
{
    v.as_table()
}

} // verus!
