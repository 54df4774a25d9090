//! JSON values of `serde_json`, and JSON values as text.
//!
//! A `serde_json::Value` becomes a [`Json`] node by node, and back again. Text is written by
//! `serde_json`.

use vstd::prelude::*;

use crate::json;
use crate::json::{Json, JsonObject, JsonView};

verus! {

/// `serde_json::Value`, a JSON value of the outside crate.
#[verifier::external_type_specification]
#[verifier::external_body]
pub struct ExValue(serde_json::Value);

/// `serde_json::Map`, the entries of an object of the outside crate.
#[verifier::external_type_specification]
#[verifier::external_body]
#[verifier::reject_recursive_types(K)]
#[verifier::reject_recursive_types(V)]
pub struct ExMap<K, V>(serde_json::Map<K, V>);

/// `serde_json::Error`, carried through and never looked into.
#[verifier::external_type_specification]
#[verifier::external_body]
pub struct ExError(serde_json::Error);

/// What a `serde_json::Value` holds.
pub uninterp spec fn value_model(value: serde_json::Value) -> JsonView;

/// What a `serde_json::Map` holds, in its order.
pub uninterp spec fn map_entries(map: serde_json::Map<String, serde_json::Value>) -> Seq<
    (Seq<char>, JsonView),
>;

/// The text that `serde_json::to_string_pretty` writes for a list of values.
pub uninterp spec fn pretty_text(values: Seq<JsonView>) -> Seq<char>;

/// The text that `serde_json::to_string` writes for a value.
pub uninterp spec fn compact_text(value: JsonView) -> Seq<char>;

/// The text that `Display` of `serde_json::Value` writes for a value.
pub uninterp spec fn displayed_text(value: JsonView) -> Seq<char>;

/// What a list of outside values holds.
pub open spec fn value_models(values: Seq<serde_json::Value>) -> Seq<JsonView> {
    values.map_values(|value: serde_json::Value| value_model(value))
}

/// What a list of keys and outside values holds.
pub open spec fn entry_models(entries: Seq<(String, serde_json::Value)>) -> Seq<
    (Seq<char>, JsonView),
> {
    entries.map_values(|entry: (String, serde_json::Value)| (entry.0@, value_model(entry.1)))
}

/// One node of a JSON value, with what is below it as `serde_json` holds it.
enum Node {
    Null,
    Bool(bool),
    Number(serde_json::Number),
    String(String),
    Array(Vec<serde_json::Value>),
    Object(serde_json::Map<String, serde_json::Value>),
}

impl Node {
    spec fn model(self) -> JsonView {
        match self {
            Node::Null => JsonView::Null,
            Node::Bool(b) => JsonView::Bool(b),
            Node::Number(n) => JsonView::Number(n),
            Node::String(s) => JsonView::String(s@),
            Node::Array(items) => JsonView::Array(value_models(items@)),
            Node::Object(map) => JsonView::Object(map_entries(map)),
        }
    }
}

/// The variants of `serde_json::Value`: each holds what it was made from.
#[verifier::external_body]
fn value_from_node(node: Node) -> (r: serde_json::Value)
    ensures
        value_model(r) == node.model(),
{
    match node {
        Node::Null => serde_json::Value::Null,
        Node::Bool(b) => serde_json::Value::Bool(b),
        Node::Number(n) => serde_json::Value::Number(n),
        Node::String(s) => serde_json::Value::String(s),
        Node::Array(items) => serde_json::Value::Array(items),
        Node::Object(map) => serde_json::Value::Object(map),
    }
}

/// The variants of `serde_json::Value`, told apart: each gives out what it holds.
#[verifier::external_body]
fn node_of_value(value: serde_json::Value) -> (r: Node)
    ensures
        r.model() == value_model(value),
{
    match value {
        serde_json::Value::Null => Node::Null,
        serde_json::Value::Bool(b) => Node::Bool(b),
        serde_json::Value::Number(n) => Node::Number(n),
        serde_json::Value::String(s) => Node::String(s),
        serde_json::Value::Array(items) => Node::Array(items),
        serde_json::Value::Object(map) => Node::Object(map),
    }
}

/// `IntoIterator` of `serde_json::Map`, where the map keeps the order of its entries: it gives
/// the entries out in their order, and no key twice.
#[verifier::external_body]
fn entries_of_map(map: serde_json::Map<String, serde_json::Value>) -> (r: Vec<
    (String, serde_json::Value),
>)
    ensures
        entry_models(r@) == map_entries(map),
        json::distinct_keys(entry_models(r@)),
{
    map.into_iter().collect()
}

/// `serde_json::Map::new` makes a map without entries.
#[verifier::external_body]
fn empty_map() -> (r: serde_json::Map<String, serde_json::Value>)
    ensures
        map_entries(r) == Seq::<(Seq<char>, JsonView)>::empty(),
{
    serde_json::Map::new()
}

/// `serde_json::Map::insert`, where the map keeps the order of its entries: the value takes the
/// place of the one that the key has, and a new key goes behind the last one.
#[verifier::external_body]
fn insert_into_map(
    map: &mut serde_json::Map<String, serde_json::Value>,
    key: String,
    value: serde_json::Value,
)
    ensures
        map_entries(*final(map)) == json::with_value(map_entries(*old(map)), key@, value_model(value)),
{
    map.insert(key, value);
}

/// `serde_json::to_string_pretty` on a list of values. It fails only where a type refuses to be
/// written or a map has keys that are no strings, and a `Value` does neither.
#[verifier::external_body]
fn write_pretty(values: &Vec<serde_json::Value>) -> (r: Result<String, serde_json::Error>)
    ensures
        r is Ok,
        r->Ok_0@ == pretty_text(value_models(values@)),
{
    serde_json::to_string_pretty(values)
}

/// `serde_json::to_string` on a value. It fails only where a type refuses to be written or a map
/// has keys that are no strings, and a `Value` does neither.
#[verifier::external_body]
fn write_compact(value: &serde_json::Value) -> (r: Result<String, serde_json::Error>)
    ensures
        r is Ok,
        r->Ok_0@ == compact_text(value_model(*value)),
{
    serde_json::to_string(value)
}

/// `Display` of `serde_json::Value`, through `to_string`.
#[verifier::external_body]
fn display(value: &serde_json::Value) -> (r: String)
    ensures
        r@ == displayed_text(value_model(*value)),
{
    value.to_string()
}

/// The value of `serde_json` as a [`Json`].
pub fn from_value(value: serde_json::Value) -> (r: Json)
    ensures
        r@ == value_model(value),
    decreases value_model(value),
{
    match node_of_value(value) {
        Node::Null => Json::Null,
        Node::Bool(b) => Json::Bool(b),
        Node::Number(n) => Json::Number(n),
        Node::String(s) => Json::String(s),
        Node::Array(items) => {
            let ghost models = value_models(items@);
            let mut values: Vec<Json> = Vec::new();
            for item in it: items
                invariant
                    it.seq() == items@,
                    models == value_models(items@),
                    value_model(value) == JsonView::Array(models),
                    values.len() == it.index(),
                    forall|j: int| 0 <= j < values.len() ==> (#[trigger] values@[j])@ == models[j],
            {
                assert(models[it.index()] == value_model(item));
                assert(decreases_to!(value_model(value) => value_model(value)->Array_0));
                values.push(from_value(item));
            }
            proof {
                json::array_view(values);
                assert(json::views(values@) =~= models);
            }
            Json::Array(values)
        },
        Node::Object(map) => {
            let entries = entries_of_map(map);
            let ghost models = entry_models(entries@);
            let mut object = JsonObject::new();
            assert(models.take(0) =~= Seq::empty());
            for entry in it: entries
                invariant
                    it.seq() == entries@,
                    models == entry_models(entries@),
                    value_model(value) == JsonView::Object(models),
                    json::distinct_keys(models),
                    object@ == models.take(it.index()),
            {
                let ghost i = it.index();
                assert(models[i] == (entry.0@, value_model(entry.1)));
                assert(decreases_to!(models => models[i]));
                assert(decreases_to!(value_model(value) => value_model(value)->Object_0));
                assert(decreases_to!(models[i] => models[i].1));
                object = object.with(entry.0.as_str(), from_value(entry.1));
                proof {
                    let before = models.take(i);
                    assert forall|j: int| 0 <= j < before.len() implies #[trigger] before[j].0
                        != models[i].0 by {
                        assert(models[j].0 != models[i].0);
                    }
                    assert(models.take(i + 1) =~= before.push(models[i]));
                }
            }
            assert(models.take(models.len() as int) =~= models);
            Json::Object(object)
        },
    }
}

/// The value as `serde_json` holds it.
pub fn to_value(value: &Json) -> (r: serde_json::Value)
    ensures
        value_model(r) == value@,
    decreases value,
{
    match value {
        Json::Null => value_from_node(Node::Null),
        Json::Bool(b) => value_from_node(Node::Bool(*b)),
        Json::Number(n) => value_from_node(Node::Number(n.clone())),
        Json::String(s) => value_from_node(Node::String(s.clone())),
        Json::Array(items) => {
            let mut values: Vec<serde_json::Value> = Vec::new();
            let mut i: usize = 0;
            while i < items.len()
                invariant
                    i <= items.len(),
                    *value == Json::Array(*items),
                    values.len() == i,
                    forall|j: int| 0 <= j < i ==> value_model(#[trigger] values@[j]) == items@[j]@,
                decreases items.len() - i,
            {
                assert(decreases_to!(value => value->Array_0@[i as int]));
                values.push(to_value(&items[i]));
                i = i + 1;
            }
            assert(value@->Array_0 =~= value_models(values@));
            value_from_node(Node::Array(values))
        },
        Json::Object(object) => {
            let map = to_map(object);
            value_from_node(Node::Object(map))
        },
    }
}

/// The entries of an object as `serde_json` holds them.
fn to_map(object: &JsonObject) -> (r: serde_json::Map<String, serde_json::Value>)
    ensures
        map_entries(r) == object@,
    decreases object,
{
    let mut map = empty_map();
    let count = object.len();
    let mut i: usize = 0;
    assert(object@.take(0) =~= Seq::empty());
    while i < count
        invariant
            i <= count,
            count == object@.len(),
            json::distinct_keys(object@),
            map_entries(map) == object@.take(i as int),
        decreases count - i,
    {
        let key = object.key(i);
        let value = object.value(i);
        insert_into_map(&mut map, key.to_owned(), to_value(value));
        proof {
            let before = object@.take(i as int);
            assert(!json::has_key(before, key@)) by {
                assert forall|j: int| 0 <= j < before.len() implies #[trigger] before[j].0
                    != key@ by {
                    assert(object@[j].0 != object@[i as int].0);
                }
            }
            assert(object@.take(i + 1) =~= before.push(object@[i as int]));
        }
        i = i + 1;
    }
    assert(object@.take(i as int) =~= object@);
    map
}

impl Json {
    /// The value as text, as `Display` of `serde_json::Value` writes it.
    pub fn to_text(&self) -> (r: String)
        ensures
            r@ == displayed_text(self@),
    {
        display(&to_value(self))
    }

    /// The value as text, as `serde_json::to_string` writes it.
    pub fn to_compact_text(&self) -> (r: Result<String, serde_json::Error>)
        ensures
            r is Ok,
            r->Ok_0@ == compact_text(self@),
    {
        write_compact(&to_value(self))
    }
}

/// A list of values as text, as `serde_json::to_string_pretty` writes it.
pub fn to_pretty_text(values: &Vec<&Json>) -> (r: Result<String, serde_json::Error>)
    ensures
        r is Ok,
        r->Ok_0@ == pretty_text(values@.map_values(|value: &Json| value@)),
{
    let mut built: Vec<serde_json::Value> = Vec::new();
    let mut i: usize = 0;
    while i < values.len()
        invariant
            i <= values.len(),
            built.len() == i,
            forall|j: int| 0 <= j < i ==> value_model(#[trigger] built@[j]) == values@[j]@,
        decreases values.len() - i,
    {
        built.push(to_value(values[i]));
        i = i + 1;
    }
    assert(value_models(built@) =~= values@.map_values(|value: &Json| value@));
    write_pretty(&built)
}

/// What lists of outside values hold: one model for each value, in order.
pub proof fn each_outside_value_has_its_model(
    values: Seq<serde_json::Value>,
    entries: Seq<(String, serde_json::Value)>,
    i: int,
)
    ensures
        value_models(values).len() == values.len(),
        0 <= i < values.len() ==> value_models(values)[i] == value_model(values[i]),
        entry_models(entries).len() == entries.len(),
        0 <= i < entries.len() ==> {
            &&& entry_models(entries)[i].0 == entries[i].0@
            &&& entry_models(entries)[i].1 == value_model(entries[i].1)
        },
{
}

} // verus!
