//! A small JSON document model.
//!
//! Parsing the response text is delegated to `serde_json`; the parsed
//! document is carried over into the `Json` tree below, whose plain fields
//! the verified decoders can read. Object fields keep the order in which the
//! parser handed them over, and a numeric scalar keeps only its printed form:
//! no field of the license schema is numeric, so the value is never read.

use vstd::prelude::*;

verus! {

broadcast use vstd::seq::axiom_seq_index_decreases, vstd::std_specs::vec::axiom_vec_decreases_to_view;

/// One JSON value: a scalar, an array, or an object given as a field list.
pub enum Json {
    Null,
    Bool(bool),
    Num(String),
    Str(String),
    Arr(Vec<Json>),
    Obj(Vec<(String, Json)>),
}

/// The mathematical shape of a `Json` value.
pub enum JsonView {
    Null,
    Bool(bool),
    Num(Seq<char>),
    Str(Seq<char>),
    Arr(Seq<JsonView>),
    Obj(Seq<(Seq<char>, JsonView)>),
}

/// The views of the elements of a JSON array.
pub open spec fn arr_view(items: Seq<Json>) -> Seq<JsonView>
    decreases items,
{
    Seq::new(
        items.len(),
        |i: int|
            if 0 <= i < items.len() {
                items[i].deep_view()
            } else {
                JsonView::Null
            },
    )
}

/// The views of the fields of a JSON object.
pub open spec fn obj_view(fields: Seq<(String, Json)>) -> Seq<(Seq<char>, JsonView)>
    decreases fields,
{
    Seq::new(
        fields.len(),
        |i: int|
            if 0 <= i < fields.len() {
                (fields[i].0@, fields[i].1.deep_view())
            } else {
                (Seq::empty(), JsonView::Null)
            },
    )
}

impl DeepView for Json {
    type V = JsonView;

    open spec fn deep_view(&self) -> JsonView
        decreases self,
    {
        match self {
            Json::Null => JsonView::Null,
            Json::Bool(b) => JsonView::Bool(*b),
            Json::Num(s) => JsonView::Num(s@),
            Json::Str(s) => JsonView::Str(s@),
            Json::Arr(items) => JsonView::Arr(arr_view(items@)),
            Json::Obj(fields) => JsonView::Obj(obj_view(fields@)),
        }
    }
}

/// The value of the first field named `key`, if the object has one.
pub open spec fn spec_lookup(fields: Seq<(Seq<char>, JsonView)>, key: Seq<char>) -> Option<JsonView>
    decreases fields.len(),
{
    if fields.len() == 0 {
        None
    } else if fields[0].0 == key {
        Some(fields[0].1)
    } else {
        spec_lookup(fields.drop_first(), key)
    }
}

/// The text of the field named `key`, which must hold a string.
pub open spec fn spec_str_field(fs: Seq<(Seq<char>, JsonView)>, key: Seq<char>) -> Option<
    Seq<char>,
> {
    match spec_lookup(fs, key) {
        Some(JsonView::Str(s)) => Some(s),
        _ => None,
    }
}

/// The text of an optional string field: an absent field and an explicit
/// `null` both read as absent, a string as present, and anything else is a
/// decode failure (the outer `None`).
pub open spec fn spec_opt_str_field(fs: Seq<(Seq<char>, JsonView)>, key: Seq<char>) -> Option<
    Option<Seq<char>>,
> {
    match spec_lookup(fs, key) {
        None => Some(None),
        Some(JsonView::Null) => Some(None),
        Some(JsonView::Str(s)) => Some(Some(s)),
        Some(_) => None,
    }
}

/// The elements of the field named `key`, which must hold an array.
pub open spec fn spec_arr_field(fs: Seq<(Seq<char>, JsonView)>, key: Seq<char>) -> Option<
    Seq<JsonView>,
> {
    match spec_lookup(fs, key) {
        Some(JsonView::Arr(a)) => Some(a),
        _ => None,
    }
}

/// Finds the first field named `key`, scanning in order.
pub fn lookup<'a>(fields: &'a Vec<(String, Json)>, key: &String) -> (r: Option<&'a Json>)
    ensures
        match r {
            Some(j) => spec_lookup(obj_view(fields@), key@) == Some(j.deep_view()),
            None => spec_lookup(obj_view(fields@), key@) is None,
        },
{
    let ghost fs = obj_view(fields@);
    proof {
        assert(fs.skip(0) =~= fs);
    }
    let mut i: usize = 0;
    while i < fields.len()
        invariant
            0 <= i <= fields@.len(),
            fs == obj_view(fields@),
            fs.len() == fields@.len(),
            spec_lookup(fs, key@) == spec_lookup(fs.skip(i as int), key@),
        decreases fields@.len() - i,
    {
        proof {
            assert(fs.skip(i as int)[0] == fs[i as int]);
            assert(fs.skip(i as int).drop_first() =~= fs.skip(i as int + 1));
        }
        if fields[i].0 == *key {
            return Some(&fields[i].1);
        }
        i += 1;
    }
    proof {
        assert(fs.skip(fields@.len() as int).len() == 0);
    }
    None
}

/// Reads a required string field out of an object's field list.
pub fn str_field(fields: &Vec<(String, Json)>, key: &String) -> (r: Option<String>)
    ensures
        match r {
            Some(s) => spec_str_field(obj_view(fields@), key@) == Some(s@),
            None => spec_str_field(obj_view(fields@), key@) is None,
        },
{
    match lookup(fields, key) {
        Some(j) => match j {
            Json::Str(s) => Some(s.clone()),
            _ => None,
        },
        None => None,
    }
}

/// Reads an optional string field out of an object's field list.
pub fn opt_str_field(fields: &Vec<(String, Json)>, key: &String) -> (r: Option<Option<String>>)
    ensures
        match r {
            Some(o) => spec_opt_str_field(obj_view(fields@), key@) == Some(o.deep_view()),
            None => spec_opt_str_field(obj_view(fields@), key@) is None,
        },
{
    match lookup(fields, key) {
        Some(j) => match j {
            Json::Null => Some(None),
            Json::Str(s) => Some(Some(s.clone())),
            _ => None,
        },
        None => Some(None),
    }
}

/// Reads an array field out of an object's field list.
pub fn arr_field<'a>(fields: &'a Vec<(String, Json)>, key: &String) -> (r: Option<&'a Vec<Json>>)
    ensures
        match r {
            Some(items) => spec_arr_field(obj_view(fields@), key@) == Some(arr_view(items@)),
            None => spec_arr_field(obj_view(fields@), key@) is None,
        },
{
    match lookup(fields, key) {
        Some(j) => match j {
            Json::Arr(items) => Some(items),
            _ => None,
        },
        None => None,
    }
}

/// `serde_json`'s parsed-document type, declared so that the carrier
/// function below can take it.
#[verifier::external_type_specification]
#[verifier::external_body]
pub struct ExJsonValue(serde_json::Value);

/// What `serde_json` parses the given text into, carried over into the
/// library's document model; `None` when the text is not valid JSON.
pub uninterp spec fn spec_parse_json(s: Seq<char>) -> Option<JsonView>;

/// Carries one parsed `serde_json` value over into the library's document
/// model, variant by variant. Relies on `serde_json::Value` being exactly
/// the six JSON shapes, and on `serde_json::Number::to_string` for the
/// printed form of a numeric scalar.
#[verifier::external_body]
fn json_of_value(v: serde_json::Value) -> Json {
    match v {
        serde_json::Value::Null => Json::Null,
        serde_json::Value::Bool(b) => Json::Bool(b),
        serde_json::Value::Number(n) => Json::Num(n.to_string()),
        serde_json::Value::String(s) => Json::Str(s),
        serde_json::Value::Array(a) => Json::Arr(a.into_iter().map(json_of_value).collect()),
        serde_json::Value::Object(o) => {
            Json::Obj(o.into_iter().map(|(k, x)| (k, json_of_value(x))).collect())
        },
    }
}

/// Relies on `serde_json::from_str::<serde_json::Value>`: it parses the text
/// as one JSON document, a function of the text alone, and reports a parse
/// error otherwise; the error's message comes from `serde_json::Error`'s
/// display form.
#[verifier::external_body]
pub fn parse_json(s: &str) -> (r: Result<Json, String>)
    ensures
        r matches Ok(j) ==> spec_parse_json(s@) == Some(j.deep_view()),
        r is Err ==> spec_parse_json(s@) is None,
{
    match serde_json::from_str::<serde_json::Value>(s) {
        Ok(v) => Ok(json_of_value(v)),
        Err(e) => Err(e.to_string()),
    }
}

} // verus!
