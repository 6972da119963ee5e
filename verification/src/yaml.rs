//! YAML documents, read and written with `serde_yaml_ng`.
//!
//! A document stays in that crate's own types. `Yaml` says what such a value holds.

use serde_yaml_ng::{Mapping, Value};
use vstd::prelude::*;

verus! {

/// What a YAML value holds.
///
/// A number is known by its text and, where it is an unsigned integer, by its value.
pub enum Yaml {
    Null,
    Bool(bool),
    Number(Seq<char>, Option<u64>),
    Text(Seq<char>),
    Sequence(Seq<Yaml>),
    Mapping(Seq<(Yaml, Yaml)>),
    Tagged(Seq<char>, Box<Yaml>),
}

#[verifier::external_type_specification]
#[verifier::external_body]
pub struct ExYamlMapping(serde_yaml_ng::Mapping);

#[verifier::external_type_specification]
#[verifier::external_body]
pub struct ExYamlValue(serde_yaml_ng::Value);

#[verifier::external_type_specification]
#[verifier::external_body]
pub struct ExYamlError(serde_yaml_ng::Error);

/// The entries of a mapping, in the order in which they were inserted.
pub uninterp spec fn yaml_entries(m: serde_yaml_ng::Mapping) -> Seq<(Yaml, Yaml)>;

/// What a value holds.
pub uninterp spec fn yaml_value(v: serde_yaml_ng::Value) -> Yaml;

/// The entries of the mapping that a text denotes, if it denotes one.
pub uninterp spec fn yaml_parsed(text: Seq<char>) -> Option<Seq<(Yaml, Yaml)>>;

/// The text that is written for a mapping with the given entries, if it can be written.
pub uninterp spec fn yaml_written(entries: Seq<(Yaml, Yaml)>) -> Option<Seq<char>>;

/// Where the text `key` stands among the keys; the number of entries when it is not a key.
pub open spec fn position(entries: Seq<(Yaml, Yaml)>, key: Seq<char>) -> int
    decreases entries.len(),
{
    if entries.len() == 0 || entries[0].0 == Yaml::Text(key) {
        0
    } else {
        1 + position(entries.skip(1), key)
    }
}

/// What stands under the text `key`.
pub open spec fn lookup(entries: Seq<(Yaml, Yaml)>, key: Seq<char>) -> Option<Yaml> {
    let i = position(entries, key);
    if i < entries.len() {
        Some(entries[i].1)
    } else {
        None
    }
}

/// The entries after `value` was put under the text `key`: in the place of what stood there, or
/// at the end.
pub open spec fn put(entries: Seq<(Yaml, Yaml)>, key: Seq<char>, value: Yaml) -> Seq<(Yaml, Yaml)> {
    let i = position(entries, key);
    if i < entries.len() {
        entries.update(i, (entries[i].0, value))
    } else {
        entries.push((Yaml::Text(key), value))
    }
}

proof fn lemma_position(entries: Seq<(Yaml, Yaml)>, key: Seq<char>)
    ensures
        0 <= position(entries, key) <= entries.len(),
        position(entries, key) < entries.len() ==> entries[position(entries, key)].0 == Yaml::Text(
            key,
        ),
        forall|i: int|
            0 <= i < position(entries, key) ==> (#[trigger] entries[i]).0 != Yaml::Text(key),
    decreases entries.len(),
{
    if entries.len() > 0 && entries[0].0 != Yaml::Text(key) {
        let rest = entries.skip(1);
        lemma_position(rest, key);
        assert forall|i: int| 0 <= i < position(entries, key) implies (#[trigger] entries[i]).0
            != Yaml::Text(key) by {
            if i > 0 {
                assert(rest[i - 1] == entries[i]);
            }
        }
    }
}

proof fn lemma_position_is(entries: Seq<(Yaml, Yaml)>, key: Seq<char>, i: int)
    requires
        0 <= i <= entries.len(),
        i < entries.len() ==> entries[i].0 == Yaml::Text(key),
        forall|j: int| 0 <= j < i ==> (#[trigger] entries[j]).0 != Yaml::Text(key),
    ensures
        position(entries, key) == i,
    decreases entries.len(),
{
    if i > 0 {
        assert(entries[0].0 != Yaml::Text(key));
        let rest = entries.skip(1);
        assert forall|j: int| 0 <= j < i - 1 implies (#[trigger] rest[j]).0 != Yaml::Text(key) by {
            assert(rest[j] == entries[j + 1]);
        }
        lemma_position_is(rest, key, i - 1);
    }
}

/// What was put under a key stands there, and nothing changes under another key.
pub proof fn lemma_put(entries: Seq<(Yaml, Yaml)>, key: Seq<char>, value: Yaml, other: Seq<char>)
    ensures
        lookup(put(entries, key, value), key) == Some(value),
        other != key ==> lookup(put(entries, key, value), other) == lookup(entries, other),
{
    let after = put(entries, key, value);
    let i = position(entries, key);
    lemma_position(entries, key);
    assert forall|j: int| 0 <= j < entries.len() implies (#[trigger] after[j]).0
        == entries[j].0 by {}
    lemma_position_is(after, key, i);
    if other != key {
        let k = position(entries, other);
        lemma_position(entries, other);
        if k < entries.len() {
            lemma_position_is(after, other, k);
        } else {
            assert forall|j: int| 0 <= j < after.len() implies (#[trigger] after[j]).0
                != Yaml::Text(other) by {
                if j < entries.len() {
                    assert(entries[j].0 != Yaml::Text(other));
                }
            }
            lemma_position_is(after, other, after.len() as int);
        }
    }
}

/// A value without its tags.
pub open spec fn untagged(y: Yaml) -> Yaml
    decreases y,
{
    match y {
        Yaml::Tagged(_, inner) => untagged(*inner),
        _ => y,
    }
}

/// `serde_yaml_ng::from_str` into a `Mapping`: which texts are accepted, and with which entries,
/// depends on the text alone.
#[verifier::external_body]
pub(crate) fn parse_mapping(text: &str) -> (r: Result<Mapping, serde_yaml_ng::Error>)
    ensures
        match r {
            Ok(m) => yaml_parsed(text@) == Some(yaml_entries(m)),
            Err(_) => yaml_parsed(text@) is None,
        },
{
    serde_yaml_ng::from_str::<Mapping>(text)
}

/// `serde_yaml_ng::to_string` of a `Mapping`: the text depends on the entries alone.
#[verifier::external_body]
pub(crate) fn write_mapping(m: &Mapping) -> (r: Result<String, serde_yaml_ng::Error>)
    ensures
        match r {
            Ok(s) => yaml_written(yaml_entries(*m)) == Some(s@),
            Err(_) => yaml_written(yaml_entries(*m)) is None,
        },
{
    serde_yaml_ng::to_string(m)
}

/// `Mapping::get` with a text as the key.
#[verifier::external_body]
pub(crate) fn get<'a>(m: &'a Mapping, key: &str) -> (r: Option<&'a Value>)
    ensures
        match r {
            Some(v) => lookup(yaml_entries(*m), key@) == Some(yaml_value(*v)),
            None => lookup(yaml_entries(*m), key@) is None,
        },
{
    m.get(key)
}

/// `Mapping::insert` with a text as the key: it replaces what stood under the key, in its place,
/// or adds an entry at the end.
#[verifier::external_body]
pub(crate) fn insert(m: &mut Mapping, key: &str, v: Value)
    ensures
        yaml_entries(*final(m)) == put(yaml_entries(*old(m)), key@, yaml_value(v)),
{
    m.insert(key.into(), v);
}

/// `Mapping::new` makes a mapping without entries.
pub assume_specification[ serde_yaml_ng::Mapping::new ]() -> (m: Mapping)
    ensures
        yaml_entries(m) == Seq::<(Yaml, Yaml)>::empty(),
;

/// `Mapping::clone` keeps the entries.
#[verifier::external_body]
pub(crate) fn copy_of(m: &Mapping) -> (r: Mapping)
    ensures
        yaml_entries(r) == yaml_entries(*m),
{
    m.clone()
}

/// `Value::as_str` gives the text that a value is, tags aside.
pub assume_specification[ serde_yaml_ng::Value::as_str ](v: &Value) -> (r: Option<&str>)
    ensures
        match r {
            Some(s) => untagged(yaml_value(*v)) == Yaml::Text(s@),
            None => !(untagged(yaml_value(*v)) is Text),
        },
;

/// `Value::as_bool` gives the truth value that a value is, tags aside.
pub assume_specification[ serde_yaml_ng::Value::as_bool ](v: &Value) -> (r: Option<bool>)
    ensures
        match r {
            Some(b) => untagged(yaml_value(*v)) == Yaml::Bool(b),
            None => !(untagged(yaml_value(*v)) is Bool),
        },
;

/// `Value::as_mapping` gives the mapping that a value is, tags aside.
pub assume_specification[ serde_yaml_ng::Value::as_mapping ](v: &Value) -> (r: Option<&Mapping>)
    ensures
        match r {
            Some(m) => untagged(yaml_value(*v)) == Yaml::Mapping(yaml_entries(*m)),
            None => !(untagged(yaml_value(*v)) is Mapping),
        },
;

/// A scalar as plain values; `Other` for every value that is not a truth value, a number or text.
pub enum Scalar {
    Bool(bool),
    Number(String, Option<u64>),
    Text(String),
    Other,
}

/// Whether `s` tells what the value `y` is.
pub open spec fn scalar_of(y: Yaml, s: Scalar) -> bool {
    match s {
        Scalar::Bool(b) => y == Yaml::Bool(b),
        Scalar::Number(t, n) => y == Yaml::Number(t@, n),
        Scalar::Text(t) => y == Yaml::Text(t@),
        Scalar::Other => !(y is Bool) && !(y is Number) && !(y is Text),
    }
}

/// Tells the variants of `Value` apart; a number is given by `Number`'s text and
/// `Number::as_u64`.
#[verifier::external_body]
pub(crate) fn scalar(v: &Value) -> (r: Scalar)
    ensures
        scalar_of(yaml_value(*v), r),
{
    match v {
        Value::Bool(b) => Scalar::Bool(*b),
        Value::Number(n) => Scalar::Number(n.to_string(), n.as_u64()),
        Value::String(s) => Scalar::Text(s.to_string()),
        Value::Null => Scalar::Other,
        Value::Sequence(_) => Scalar::Other,
        Value::Mapping(_) => Scalar::Other,
        Value::Tagged(_) => Scalar::Other,
    }
}

/// `Value::from` on text.
#[verifier::external_body]
pub(crate) fn text_value(s: &str) -> (v: Value)
    ensures
        yaml_value(v) == Yaml::Text(s@),
{
    Value::from(s)
}

/// `Value::from` on a truth value.
#[verifier::external_body]
pub(crate) fn bool_value(b: bool) -> (v: Value)
    ensures
        yaml_value(v) == Yaml::Bool(b),
{
    Value::from(b)
}

/// `Value::from` on an unsigned integer.
#[verifier::external_body]
pub(crate) fn number_value(n: u16) -> (v: Value)
    ensures
        yaml_value(v) == Yaml::Number(crate::number::dec(n as nat), Some(n as u64)),
{
    Value::from(n)
}

/// `Value::from` on a mapping.
#[verifier::external_body]
pub(crate) fn mapping_value(m: Mapping) -> (v: Value)
    ensures
        yaml_value(v) == Yaml::Mapping(yaml_entries(m)),
{
    Value::from(m)
}

/// `Value::Sequence` of one value.
#[verifier::external_body]
pub(crate) fn singleton_value(item: Value) -> (v: Value)
    ensures
        yaml_value(v) == Yaml::Sequence(seq![yaml_value(item)]),
{
    Value::Sequence(vec![item])
}

} // verus!
