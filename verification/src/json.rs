//! JSON documents that are exchanged with the controller.

use crate::text;
use vstd::prelude::*;

verus! {

/// A JSON value. A number other than an unsigned integer is `Other`.
#[derive(Debug)]
pub enum Json {
    Null,
    Bool(bool),
    Number(u64),
    Other,
    Text(String),
    Array(Vec<Json>),
    Object(Vec<(String, Json)>),
}

/// What a JSON value holds.
pub enum JsonModel {
    Null,
    Bool(bool),
    Number(u64),
    Other,
    Text(Seq<char>),
    Array(Seq<JsonModel>),
    Object(Seq<(Seq<char>, JsonModel)>),
}

pub open spec fn model(j: Json) -> JsonModel
    decreases j,
{
    match j {
        Json::Null => JsonModel::Null,
        Json::Bool(b) => JsonModel::Bool(b),
        Json::Number(n) => JsonModel::Number(n),
        Json::Other => JsonModel::Other,
        Json::Text(s) => JsonModel::Text(s@),
        Json::Array(items) => JsonModel::Array(
            Seq::new(
                items@.len(),
                |i: int|
                    if 0 <= i < items@.len() {
                        model(items@[i])
                    } else {
                        JsonModel::Null
                    },
            ),
        ),
        Json::Object(fields) => JsonModel::Object(
            Seq::new(
                fields@.len(),
                |i: int|
                    if 0 <= i < fields@.len() {
                        (fields@[i].0@, model(fields@[i].1))
                    } else {
                        (seq![], JsonModel::Null)
                    },
            ),
        ),
    }
}

impl View for Json {
    type V = JsonModel;

    open spec fn view(&self) -> JsonModel {
        model(*self)
    }
}

/// What the fields of an object hold.
pub open spec fn fields_model(fields: Seq<(String, Json)>) -> Seq<(Seq<char>, JsonModel)> {
    Seq::new(fields.len(), |i: int| (fields[i].0@, fields[i].1@))
}

/// Makes an object of its fields.
pub fn object(fields: Vec<(String, Json)>) -> (r: Json)
    ensures
        r@ == JsonModel::Object(fields_model(fields@)),
{
    let r = Json::Object(fields);
    assert(r@->Object_0 =~= fields_model(fields@));
    r
}

/// Adds a field.
pub fn put(fields: &mut Vec<(String, Json)>, name: &str, value: Json)
    ensures
        fields_model(final(fields)@) == fields_model(old(fields)@).push((name@, value@)),
{
    let ghost before = fields_model(fields@);
    fields.push((name.to_owned(), value));
    assert(fields_model(fields@) =~= before.push((name@, value@)));
}

/// An object with one field.
pub fn single(name: &str, value: Json) -> (r: Json)
    ensures
        r@ == JsonModel::Object(seq![(name@, value@)]),
{
    let mut fields: Vec<(String, Json)> = Vec::new();
    assert(fields_model(fields@) =~= seq![]);
    put(&mut fields, name, value);
    assert(fields_model(fields@) =~= seq![(name@, value@)]);
    object(fields)
}

/// An array of one text.
pub fn texts_of_one(s: &str) -> (r: Json)
    ensures
        r@ == JsonModel::Array(seq![JsonModel::Text(s@)]),
{
    let mut items: Vec<Json> = Vec::new();
    items.push(text_value(s));
    assert(model(items@[0]) == JsonModel::Text(s@));
    let r = Json::Array(items);
    assert(r@->Array_0 =~= seq![JsonModel::Text(s@)]);
    r
}

pub fn text_value(s: &str) -> (r: Json)
    ensures
        r@ == JsonModel::Text(s@),
{
    Json::Text(s.to_owned())
}

/// The first field with the given name.
pub open spec fn field_of(fields: Seq<(Seq<char>, JsonModel)>, name: Seq<char>) -> Option<JsonModel>
    decreases fields.len(),
{
    if fields.len() == 0 {
        None
    } else if fields[0].0 == name {
        Some(fields[0].1)
    } else {
        field_of(fields.skip(1), name)
    }
}

/// What stands under `name`, where the value is an object that has such a field.
pub open spec fn member(v: JsonModel, name: Seq<char>) -> Option<JsonModel> {
    match v {
        JsonModel::Object(fields) => field_of(fields, name),
        _ => None,
    }
}

pub open spec fn as_bool_of(v: Option<JsonModel>) -> Option<bool> {
    match v {
        Some(JsonModel::Bool(b)) => Some(b),
        _ => None,
    }
}

pub open spec fn as_number_of(v: Option<JsonModel>) -> Option<u64> {
    match v {
        Some(JsonModel::Number(n)) => Some(n),
        _ => None,
    }
}

pub open spec fn as_text_of(v: Option<JsonModel>) -> Option<Seq<char>> {
    match v {
        Some(JsonModel::Text(s)) => Some(s),
        _ => None,
    }
}

pub open spec fn opt_view(v: Option<&Json>) -> Option<JsonModel> {
    match v {
        Some(j) => Some(j@),
        None => None,
    }
}

impl Json {
    pub fn get(&self, name: &str) -> (r: Option<&Json>)
        ensures
            opt_view(r) == member(self@, name@),
    {
        match self {
            Json::Object(fields) => {
                let ghost all = fields_model(fields@);
                assert(self@->Object_0 =~= all);
                let mut i: usize = 0;
                assert(all.skip(0) == all);
                while i < fields.len()
                    invariant
                        i <= fields@.len(),
                        all == fields_model(fields@),
                        self@ == JsonModel::Object(all),
                        field_of(all, name@) == field_of(all.skip(i as int), name@),
                    decreases fields@.len() - i,
                {
                    assert(all.skip(i as int)[0] == (fields@[i as int].0@, fields@[i as int].1@));
                    assert(all.skip(i as int).skip(1) == all.skip(i + 1));
                    if text::same(fields[i].0.as_str(), name) {
                        return Some(&fields[i].1);
                    }
                    i = i + 1;
                }
                assert(all.skip(i as int).len() == 0);
                None
            },
            _ => None,
        }
    }
}

pub fn as_bool(v: Option<&Json>) -> (r: Option<bool>)
    ensures
        r == as_bool_of(opt_view(v)),
{
    match v {
        Some(Json::Bool(b)) => Some(*b),
        _ => None,
    }
}

pub fn as_u64(v: Option<&Json>) -> (r: Option<u64>)
    ensures
        r == as_number_of(opt_view(v)),
{
    match v {
        Some(Json::Number(n)) => Some(*n),
        _ => None,
    }
}

pub fn as_text(v: Option<&Json>) -> (r: Option<String>)
    ensures
        text::opt_text(r) == as_text_of(opt_view(v)),
{
    match v {
        Some(Json::Text(s)) => Some(s.clone()),
        _ => None,
    }
}

} // verus!
