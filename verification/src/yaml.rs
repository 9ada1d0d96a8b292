//! Reading the fields of a rule from a node of a YAML document.

use vstd::prelude::*;
use yaml_rust::Yaml;

verus! {

/// A node of a YAML document.
#[verifier::external_type_specification]
#[verifier::external_body]
pub struct ExYaml(yaml_rust::Yaml);

/// The string entries of a YAML hash: each key that is a string and whose value is a
/// string, with that value. Empty for a node that is no hash.
pub uninterp spec fn yaml_strings(map: Yaml) -> Map<Seq<char>, Seq<char>>;

/// The string that `map` holds under `key`, if any.
pub open spec fn yaml_string(map: Yaml, key: Seq<char>) -> Option<Seq<char>> {
    if yaml_strings(map).contains_key(key) {
        Some(yaml_strings(map)[key])
    } else {
        None
    }
}

/// `Yaml::as_hash`, the hash's `get` under the key `Yaml::String(key)` and `Yaml::as_str`
/// on what it finds: the string under `key`, where `map` is a hash that has one there.
#[verifier::external_body]
pub(crate) fn string_from_map(map: &Yaml, key: &str) -> (r: Option<String>)
    ensures
        r is Some <==> yaml_strings(*map).contains_key(key@),
        r matches Some(s) ==> s@ == yaml_strings(*map)[key@],
{
    map.as_hash().and_then(|h| h.get(&Yaml::String(key.to_string()))).and_then(
        |v| v.as_str(),
    ).map(|s| s.to_string())
}

} // verus!
