//! Encoding and decoding of records. Each supported encoding is carried out
//! by its own crate (serde_json, serde_yaml, toml); the text each encoder
//! produces for given fields is given a name here, and the verified
//! dispatch functions are exact over those names.

use vstd::prelude::*;
use crate::format::SaveFormat;
use crate::record::VaultRecord;

verus! {

/// The JSON document that serde_json pretty-prints for an object holding
/// the string `s` under `key_s` and the integer `n` under `key_n`.
pub uninterp spec fn json_doc(key_s: Seq<char>, s: Seq<char>, key_n: Seq<char>, n: int) -> Seq<
    char,
>;

/// The YAML document that serde_yaml emits for a mapping holding the string
/// `s` under `key_s` and the integer `n` under `key_n`.
pub uninterp spec fn yaml_doc(key_s: Seq<char>, s: Seq<char>, key_n: Seq<char>, n: int) -> Seq<
    char,
>;

/// The TOML document that toml pretty-prints for a table holding the string
/// `s` under `key_s` and the integer `n` under `key_n`.
pub uninterp spec fn toml_doc(key_s: Seq<char>, s: Seq<char>, key_n: Seq<char>, n: int) -> Seq<
    char,
>;

/// The string under `key_s` and the integer under `key_n` of the JSON
/// document `text`, or `None` when `text` is not a JSON object carrying
/// both fields with those types.
pub uninterp spec fn json_fields(key_s: Seq<char>, key_n: Seq<char>, text: Seq<char>) -> Option<
    (Seq<char>, int),
>;

/// The string under `key_s` and the integer under `key_n` of the YAML
/// document `text`, or `None` when `text` is not a YAML mapping carrying
/// both fields with those types.
pub uninterp spec fn yaml_fields(key_s: Seq<char>, key_n: Seq<char>, text: Seq<char>) -> Option<
    (Seq<char>, int),
>;

/// The string under `key_s` and the integer under `key_n` of the TOML
/// document `text`, or `None` when `text` is not a TOML table carrying
/// both fields with those types.
pub uninterp spec fn toml_fields(key_s: Seq<char>, key_n: Seq<char>, text: Seq<char>) -> Option<
    (Seq<char>, int),
>;

/// Relies on serde_json::to_string_pretty, serializing an object built from
/// the given keys, string and integer; the output depends on these
/// arguments alone (the object's entries are ordered by key).
#[verifier::external_body]
fn json_encode(key_s: &str, s: &str, key_n: &str, n: i64) -> (r: String)
    ensures
        r@ == json_doc(key_s@, s@, key_n@, n as int),
{
    let mut map = serde_json::Map::new();
    map.insert(key_s.to_owned(), serde_json::Value::String(s.to_owned()));
    map.insert(key_n.to_owned(), serde_json::Value::from(n));
    match serde_json::to_string_pretty(&serde_json::Value::Object(map)) {
        Ok(text) => text,
        Err(_) => String::new(),
    }
}

/// Relies on serde_yaml::to_string, serializing a mapping built from the
/// given keys, string and integer; the output depends on these arguments
/// alone (the mapping keeps its insertion order).
#[verifier::external_body]
fn yaml_encode(key_s: &str, s: &str, key_n: &str, n: i64) -> (r: String)
    ensures
        r@ == yaml_doc(key_s@, s@, key_n@, n as int),
{
    let mut map = serde_yaml::Mapping::new();
    map.insert(serde_yaml::Value::String(key_s.to_owned()), serde_yaml::Value::String(s.to_owned()));
    map.insert(serde_yaml::Value::String(key_n.to_owned()), serde_yaml::Value::from(n));
    match serde_yaml::to_string(&serde_yaml::Value::Mapping(map)) {
        Ok(text) => text,
        Err(_) => String::new(),
    }
}

/// Relies on toml::to_string_pretty, serializing a table built from the
/// given keys, string and integer; the output depends on these arguments
/// alone (the table's entries are ordered by key).
#[verifier::external_body]
fn toml_encode(key_s: &str, s: &str, key_n: &str, n: i64) -> (r: String)
    ensures
        r@ == toml_doc(key_s@, s@, key_n@, n as int),
{
    let mut map = toml::map::Map::new();
    map.insert(key_s.to_owned(), toml::Value::String(s.to_owned()));
    map.insert(key_n.to_owned(), toml::Value::Integer(n));
    match toml::to_string_pretty(&toml::Value::Table(map)) {
        Ok(text) => text,
        Err(_) => String::new(),
    }
}

/// Relies on serde_json::from_str::<serde_json::Value>, whose result
/// depends on the text alone; the wrapper then only takes the parsed value
/// apart, reading the string under `key_s` and the integer under `key_n`.
#[verifier::external_body]
fn json_decode(key_s: &str, key_n: &str, text: &str) -> (r: Option<(String, i64)>)
    ensures
        r is Some <==> json_fields(key_s@, key_n@, text@) is Some,
        r is Some ==> ((r->Some_0).0@ == (json_fields(key_s@, key_n@, text@)->Some_0).0 && (
        r->Some_0).1 as int == (json_fields(key_s@, key_n@, text@)->Some_0).1),
{
    let v: serde_json::Value = serde_json::from_str(text).ok()?;
    let s = v.get(key_s)?.as_str()?.to_owned();
    let n = v.get(key_n)?.as_i64()?;
    Some((s, n))
}

/// Relies on serde_yaml::from_str::<serde_yaml::Value>, whose result
/// depends on the text alone; the wrapper then only takes the parsed value
/// apart, reading the string under `key_s` and the integer under `key_n`.
#[verifier::external_body]
fn yaml_decode(key_s: &str, key_n: &str, text: &str) -> (r: Option<(String, i64)>)
    ensures
        r is Some <==> yaml_fields(key_s@, key_n@, text@) is Some,
        r is Some ==> ((r->Some_0).0@ == (yaml_fields(key_s@, key_n@, text@)->Some_0).0 && (
        r->Some_0).1 as int == (yaml_fields(key_s@, key_n@, text@)->Some_0).1),
{
    let v: serde_yaml::Value = serde_yaml::from_str(text).ok()?;
    let s = v.get(key_s)?.as_str()?.to_owned();
    let n = v.get(key_n)?.as_i64()?;
    Some((s, n))
}

/// Relies on toml::from_str::<toml::Value>, whose result depends on the
/// text alone; the wrapper then only takes the parsed value apart, reading
/// the string under `key_s` and the integer under `key_n`.
#[verifier::external_body]
fn toml_decode(key_s: &str, key_n: &str, text: &str) -> (r: Option<(String, i64)>)
    ensures
        r is Some <==> toml_fields(key_s@, key_n@, text@) is Some,
        r is Some ==> ((r->Some_0).0@ == (toml_fields(key_s@, key_n@, text@)->Some_0).0 && (
        r->Some_0).1 as int == (toml_fields(key_s@, key_n@, text@)->Some_0).1),
{
    let v: toml::Value = toml::from_str(text).ok()?;
    let s = v.get(key_s)?.as_str()?.to_owned();
    let n = v.get(key_n)?.as_integer()?;
    Some((s, n))
}

/// A decode failure: the text did not conform to the shape the encoding
/// expects for a record. Carries the encoding that failed.
#[derive(Clone, Copy, Debug, PartialEq, Eq, Structural)]
pub struct EncodingError {
    pub format: SaveFormat,
}

/// The document that `format` produces for a record whose `name` field
/// holds `name` and whose `value` field holds `value`.
pub open spec fn encoded_doc(format: SaveFormat, name: Seq<char>, value: int) -> Seq<char> {
    match format {
        SaveFormat::Json => json_doc("name"@, name, "value"@, value),
        SaveFormat::Yaml => yaml_doc("name"@, name, "value"@, value),
        SaveFormat::Toml => toml_doc("name"@, name, "value"@, value),
    }
}

/// The record fields that `format` reads out of the document `text`, or
/// `None` when the text does not carry them.
pub open spec fn decoded_fields(format: SaveFormat, text: Seq<char>) -> Option<(Seq<char>, int)> {
    match format {
        SaveFormat::Json => json_fields("name"@, "value"@, text),
        SaveFormat::Yaml => yaml_fields("name"@, "value"@, text),
        SaveFormat::Toml => toml_fields("name"@, "value"@, text),
    }
}

/// Serializes `data` under `format`. Serialization of a record never
/// fails: every encoding can carry a string and an integer field.
pub fn to_string(data: &VaultRecord, format: SaveFormat) -> (r: String)
    ensures
        r@ == encoded_doc(format, data.name@, data.value as int),
{
    match format {
        SaveFormat::Json => json_encode("name", data.name.as_str(), "value", data.value),
        SaveFormat::Yaml => yaml_encode("name", data.name.as_str(), "value", data.value),
        SaveFormat::Toml => toml_encode("name", data.name.as_str(), "value", data.value),
    }
}

/// Deserializes a record from `text` under `format`. Succeeds exactly when
/// the text carries the record's two fields under `format`; otherwise the
/// error names the encoding that failed.
pub fn to_struct(format: SaveFormat, text: &str) -> (r: Result<VaultRecord, EncodingError>)
    ensures
        r is Ok <==> decoded_fields(format, text@) is Some,
        r is Ok ==> (r->Ok_0).name@ == (decoded_fields(format, text@)->Some_0).0 && (
        r->Ok_0).value as int == (decoded_fields(format, text@)->Some_0).1,
        r is Err ==> r->Err_0 == (EncodingError { format }),
{
    let parsed = match format {
        SaveFormat::Json => json_decode("name", "value", text),
        SaveFormat::Yaml => yaml_decode("name", "value", text),
        SaveFormat::Toml => toml_decode("name", "value", text),
    };
    match parsed {
        Some((name, value)) => Ok(VaultRecord { name, value }),
        None => Err(EncodingError { format }),
    }
}

} // verus!
