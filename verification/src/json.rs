//! JSON values.
//!
//! A message, a tool and an event reach the provider as JSON. [`Json`] holds such a value in a
//! form that the rest of the crate reads; [`JsonView`] is its mathematical model.

use vstd::prelude::*;

use crate::text::same_text;

verus! {

/// `serde_json::Number`, carried through and never looked into.
#[verifier::external_type_specification]
#[verifier::external_body]
pub struct ExNumber(serde_json::Number);

/// `Number::clone` of `serde_json` gives an equal number.
pub assume_specification[ <serde_json::Number as Clone>::clone ](
    n: &serde_json::Number,
) -> (r: serde_json::Number)
    ensures
        r == *n,
;

/// A JSON value.
#[derive(Debug)]
pub enum Json {
    Null,
    Bool(bool),
    Number(serde_json::Number),
    String(String),
    Array(Vec<Json>),
    Object(JsonObject),
}

/// A JSON object: its entries in the order in which their keys were first inserted.
#[derive(Debug)]
pub struct JsonObject {
    entries: Vec<(String, Json)>,
}

/// The model of a JSON value.
pub enum JsonView {
    Null,
    Bool(bool),
    Number(serde_json::Number),
    String(Seq<char>),
    Array(Seq<JsonView>),
    Object(Seq<(Seq<char>, JsonView)>),
}

impl View for Json {
    type V = JsonView;

    open spec fn view(&self) -> JsonView
        decreases self,
    {
        match self {
            Json::Null => JsonView::Null,
            Json::Bool(b) => JsonView::Bool(*b),
            Json::Number(n) => JsonView::Number(*n),
            Json::String(s) => JsonView::String(s@),
            Json::Array(items) => JsonView::Array(
                Seq::new(
                    items@.len(),
                    |i: int|
                        if 0 <= i < items@.len() {
                            items@[i].view()
                        } else {
                            JsonView::Null
                        },
                ),
            ),
            Json::Object(object) => JsonView::Object(object.view()),
        }
    }
}

impl View for JsonObject {
    type V = Seq<(Seq<char>, JsonView)>;

    closed spec fn view(&self) -> Seq<(Seq<char>, JsonView)>
        decreases self,
    {
        Seq::new(
            self.entries@.len(),
            |i: int|
                if 0 <= i < self.entries@.len() {
                    (self.entries@[i].0@, self.entries@[i].1.view())
                } else {
                    (Seq::empty(), JsonView::Null)
                },
        )
    }
}

/// The models of a list of values.
pub open spec fn views(values: Seq<Json>) -> Seq<JsonView> {
    values.map_values(|value: Json| value@)
}

/// No key stands in two entries.
pub open spec fn distinct_keys(entries: Seq<(Seq<char>, JsonView)>) -> bool {
    forall|i: int, j: int|
        0 <= i < j < entries.len() ==> #[trigger] entries[i].0 != #[trigger] entries[j].0
}

/// Some entry has this key.
pub open spec fn has_key(entries: Seq<(Seq<char>, JsonView)>, key: Seq<char>) -> bool {
    exists|i: int| 0 <= i < entries.len() && #[trigger] entries[i].0 == key
}

/// The value of the first entry that has this key.
pub open spec fn value_at(entries: Seq<(Seq<char>, JsonView)>, key: Seq<char>) -> Option<JsonView>
    decreases entries.len(),
{
    if entries.len() == 0 {
        None
    } else if entries.first().0 == key {
        Some(entries.first().1)
    } else {
        value_at(entries.drop_first(), key)
    }
}

/// The entries once a value is put under a key: in the place of the entry that has the key
/// already, else behind the last entry.
pub open spec fn with_value(
    entries: Seq<(Seq<char>, JsonView)>,
    key: Seq<char>,
    value: JsonView,
) -> Seq<(Seq<char>, JsonView)> {
    if has_key(entries, key) {
        entries.map_values(
            |entry: (Seq<char>, JsonView)|
                if entry.0 == key {
                    (key, value)
                } else {
                    entry
                },
        )
    } else {
        entries.push((key, value))
    }
}

impl JsonView {
    /// What an object holds under a key; a value of another kind holds nothing.
    pub open spec fn field(self, key: Seq<char>) -> Option<JsonView> {
        match self {
            JsonView::Object(entries) => value_at(entries, key),
            _ => None,
        }
    }

    /// The text of a string; a value of another kind has none.
    pub open spec fn text(self) -> Option<Seq<char>> {
        match self {
            JsonView::String(s) => Some(s),
            _ => None,
        }
    }

    /// The text that an object holds under a key.
    pub open spec fn field_text(self, key: Seq<char>) -> Option<Seq<char>> {
        match self.field(key) {
            Some(value) => value.text(),
            None => None,
        }
    }
}

/// The model of an array is the list of the models of its items.
pub proof fn array_view(items: Vec<Json>)
    ensures
        Json::Array(items)@ == JsonView::Array(views(items@)),
{
    assert(Json::Array(items)@->Array_0 =~= views(items@));
}

/// A key is found exactly where some entry has it.
pub proof fn found_iff_present(entries: Seq<(Seq<char>, JsonView)>, key: Seq<char>)
    ensures
        value_at(entries, key) is Some <==> has_key(entries, key),
    decreases entries.len(),
{
    if entries.len() > 0 {
        found_iff_present(entries.drop_first(), key);
        if entries.first().0 == key {
            assert(entries[0].0 == key);
        } else {
            if has_key(entries, key) {
                let i = choose|i: int| 0 <= i < entries.len() && #[trigger] entries[i].0 == key;
                assert(entries.drop_first()[i - 1].0 == key);
            }
            if has_key(entries.drop_first(), key) {
                let i = choose|i: int|
                    0 <= i < entries.drop_first().len() && #[trigger] entries.drop_first()[i].0
                        == key;
                assert(entries[i + 1].0 == key);
            }
        }
    }
}

/// Where no two entries share a key, what is found under a key is what its one entry holds.
pub proof fn found_value(entries: Seq<(Seq<char>, JsonView)>, i: int)
    requires
        distinct_keys(entries),
        0 <= i < entries.len(),
    ensures
        value_at(entries, entries[i].0) == Some(entries[i].1),
    decreases entries.len(),
{
    if i > 0 {
        let rest = entries.drop_first();
        assert(distinct_keys(rest)) by {
            assert forall|a: int, b: int| 0 <= a < b < rest.len() implies #[trigger] rest[a].0
                != #[trigger] rest[b].0 by {
                assert(entries[a + 1].0 != entries[b + 1].0);
            }
        }
        assert(entries[0].0 != entries[i].0);
        assert(rest[i - 1] == entries[i]);
        found_value(rest, i - 1);
    }
}

/// Putting a value under a key keeps the keys apart, is found again under that key, and leaves
/// what every other key holds.
pub proof fn put_then_get(
    entries: Seq<(Seq<char>, JsonView)>,
    key: Seq<char>,
    value: JsonView,
    other: Seq<char>,
)
    requires
        distinct_keys(entries),
    ensures
        distinct_keys(with_value(entries, key, value)),
        value_at(with_value(entries, key, value), key) == Some(value),
        other != key ==> value_at(with_value(entries, key, value), other) == value_at(
            entries,
            other,
        ),
{
    let after = with_value(entries, key, value);
    if has_key(entries, key) {
        assert(forall|i: int| 0 <= i < entries.len() ==> #[trigger] after[i].0 == entries[i].0);
        assert(distinct_keys(after));
        let at = choose|i: int| 0 <= i < entries.len() && #[trigger] entries[i].0 == key;
        assert(after[at].0 == key);
        found_value(after, at);
    } else {
        assert(distinct_keys(after)) by {
            assert forall|a: int, b: int| 0 <= a < b < after.len() implies #[trigger] after[a].0
                != #[trigger] after[b].0 by {
                assert(after[a] == entries[a]);
                if b < entries.len() {
                    assert(after[b] == entries[b]);
                }
            }
        }
        assert(after[entries.len() as int].0 == key);
        found_value(after, entries.len() as int);
    }
    if other != key {
        found_iff_present(entries, other);
        found_iff_present(after, other);
        if has_key(entries, other) {
            let i = choose|i: int| 0 <= i < entries.len() && #[trigger] entries[i].0 == other;
            assert(after[i] == entries[i]);
            found_value(entries, i);
            found_value(after, i);
        } else if has_key(after, other) {
            let i = choose|i: int| 0 <= i < after.len() && #[trigger] after[i].0 == other;
            if i < entries.len() {
                assert(after[i].0 == entries[i].0);
            }
            assert(false);
        }
    }
}

impl Json {
    /// What an object holds under a key; a value of another kind holds nothing.
    pub fn get(&self, key: &str) -> (r: Option<&Json>)
        ensures
            match r {
                Some(value) => self@.field(key@) == Some(value@),
                None => self@.field(key@) is None,
            },
    {
        match self {
            Json::Object(object) => object.get(key),
            _ => None,
        }
    }

    /// The text of a string; a value of another kind has none.
    pub fn as_str(&self) -> (r: Option<&str>)
        ensures
            match r {
                Some(s) => self@.text() == Some(s@),
                None => self@.text() is None,
            },
    {
        match self {
            Json::String(s) => Some(s.as_str()),
            _ => None,
        }
    }

    /// The text that an object holds under a key.
    pub fn get_str(&self, key: &str) -> (r: Option<&str>)
        ensures
            match r {
                Some(s) => self@.field_text(key@) == Some(s@),
                None => self@.field_text(key@) is None,
            },
    {
        match self.get(key) {
            Some(value) => value.as_str(),
            None => None,
        }
    }

    /// Whether the value is an object.
    pub fn is_object(&self) -> (r: bool)
        ensures
            r == (self@ is Object),
    {
        match self {
            Json::Object(_) => true,
            _ => false,
        }
    }
}

impl JsonObject {
    #[verifier::type_invariant]
    spec fn keys_are_distinct(self) -> bool {
        distinct_keys(self@)
    }

    /// An object without entries.
    pub fn new() -> (r: JsonObject)
        ensures
            r@ == Seq::<(Seq<char>, JsonView)>::empty(),
    {
        let r = JsonObject { entries: Vec::new() };
        assert(r@ =~= Seq::empty());
        r
    }

    /// What the object holds under a key.
    pub fn get(&self, key: &str) -> (r: Option<&Json>)
        ensures
            match r {
                Some(value) => value_at(self@, key@) == Some(value@),
                None => value_at(self@, key@) is None,
            },
    {
        let mut i: usize = 0;
        assert(self@.skip(0) =~= self@);
        while i < self.entries.len()
            invariant
                i <= self.entries.len(),
                self@.len() == self.entries.len(),
                value_at(self@, key@) == value_at(self@.skip(i as int), key@),
            decreases self.entries.len() - i,
        {
            if same_text(self.entries[i].0.as_str(), key) {
                return Some(&self.entries[i].1);
            }
            assert(self@.skip(i as int).drop_first() =~= self@.skip(i + 1));
            i = i + 1;
        }
        None
    }

    /// The object with a value put under a key.
    pub fn with(self, key: &str, value: Json) -> (r: JsonObject)
        ensures
            r@ == with_value(self@, key@, value@),
    {
        proof {
            use_type_invariant(&self);
            put_then_get(self@, key@, value@, key@);
        }
        let ghost before = self@;
        let ghost put = value@;
        let mut entries = self.entries;
        let mut i: usize = 0;
        while i < entries.len()
            invariant
                i <= entries.len(),
                before == self@,
                before == (JsonObject { entries })@,
                forall|j: int| 0 <= j < i ==> #[trigger] before[j].0 != key@,
                put == value@,
                distinct_keys(before),
                distinct_keys(with_value(before, key@, put)),
            decreases entries.len() - i,
        {
            if same_text(entries[i].0.as_str(), key) {
                entries.set(i, (key.to_owned(), value));
                proof {
                    assert(before[i as int].0 == key@);
                    assert((JsonObject { entries })@ =~= with_value(before, key@, put));
                }
                return JsonObject { entries };
            }
            i = i + 1;
        }
        entries.push((key.to_owned(), value));
        assert((JsonObject { entries })@ =~= with_value(before, key@, put));
        JsonObject { entries }
    }

    /// How many entries the object has. No two of them share a key.
    pub fn len(&self) -> (r: usize)
        ensures
            r == self@.len(),
            distinct_keys(self@),
    {
        proof {
            use_type_invariant(self);
        }
        self.entries.len()
    }

    /// The key of an entry.
    pub fn key(&self, i: usize) -> (r: &str)
        requires
            i < self@.len(),
        ensures
            r@ == self@[i as int].0,
    {
        self.entries[i].0.as_str()
    }

    /// The value of an entry.
    pub fn value(&self, i: usize) -> (r: &Json)
        requires
            i < self@.len(),
        ensures
            r@ == self@[i as int].1,
            decreases_to!(self => r),
    {
        &self.entries[i].1
    }
}

impl Clone for Json {
    fn clone(&self) -> (r: Json)
        ensures
            r@ == self@,
        decreases self,
    {
        match self {
            Json::Null => Json::Null,
            Json::Bool(b) => Json::Bool(*b),
            Json::Number(n) => Json::Number(n.clone()),
            Json::String(s) => Json::String(s.clone()),
            Json::Array(items) => {
                let mut copies: Vec<Json> = Vec::new();
                let mut i: usize = 0;
                while i < items.len()
                    invariant
                        i <= items.len(),
                        *self == Json::Array(*items),
                        copies.len() == i,
                        forall|j: int| 0 <= j < i ==> (#[trigger] copies@[j])@ == items@[j]@,
                    decreases items.len() - i,
                {
                    assert(decreases_to!(self => self->Array_0@[i as int]));
                    copies.push(items[i].clone());
                    i = i + 1;
                }
                let r = Json::Array(copies);
                assert(r@->Array_0 =~= self@->Array_0);
                r
            },
            Json::Object(object) => Json::Object(object.clone()),
        }
    }
}

impl Clone for JsonObject {
    fn clone(&self) -> (r: JsonObject)
        ensures
            r@ == self@,
        decreases self,
    {
        proof {
            use_type_invariant(self);
        }
        let mut entries: Vec<(String, Json)> = Vec::new();
        let mut i: usize = 0;
        while i < self.entries.len()
            invariant
                i <= self.entries.len(),
                entries.len() == i,
                forall|j: int|
                    0 <= j < i ==> {
                        &&& (#[trigger] entries@[j]).0@ == self.entries@[j].0@
                        &&& entries@[j].1@ == self.entries@[j].1@
                    },
            decreases self.entries.len() - i,
        {
            let key = self.entries[i].0.clone();
            let value = self.entries[i].1.clone();
            entries.push((key, value));
            i = i + 1;
        }
        assert((JsonObject { entries })@ =~= self@);
        JsonObject { entries }
    }
}

/// The models of a list of values: one for each value, in order.
pub proof fn each_value_has_its_model(values: Seq<Json>, i: int)
    requires
        0 <= i < values.len(),
    ensures
        views(values).len() == values.len(),
        views(values)[i] == values[i]@,
{
}

/// A model tells what the value holds, and nothing else.
pub proof fn model_holds_what_the_value_holds(value: Json)
    ensures
        value@ is Null <==> value is Null,
        value@ is Bool <==> value is Bool,
        value@ is Number <==> value is Number,
        value@ is String <==> value is String,
        value@ is Array <==> value is Array,
        value@ is Object <==> value is Object,
        value is Bool ==> value@->Bool_0 == value->Bool_0,
        value is Number ==> value@->Number_0 == value->Number_0,
        value is String ==> value@->String_0 == value->String_0@,
        value is Array ==> {
            &&& value@->Array_0.len() == value->Array_0@.len()
            &&& forall|i: int|
                0 <= i < value->Array_0@.len() ==> (#[trigger] value@->Array_0[i])
                    == value->Array_0@[i]@
        },
        value is Object ==> value@->Object_0 == value->Object_0@,
{
}

/// Only an object holds anything under a key: what its first entry with that key holds. Only a
/// string has a text.
pub proof fn only_objects_have_fields_and_strings_texts(
    value: JsonView,
    key: Seq<char>,
    before: Seq<(Seq<char>, JsonView)>,
    held: JsonView,
    after: Seq<(Seq<char>, JsonView)>,
)
    ensures
        !(value is Object) ==> value.field(key) is None,
        !(value is String) ==> value.text() is None,
        value is String ==> value.text() == Some(value->String_0),
        value.field_text(key) is Some <==> value.field(key) is Some && value.field(
            key,
        )->0 is String,
        value.field_text(key) is Some ==> value.field(key) == Some(
            JsonView::String(value.field_text(key)->0),
        ),
        value is Object && !has_key(value->Object_0, key) ==> value.field(key) is None,
        !has_key(before, key) ==> JsonView::Object(before + seq![(key, held)] + after).field(key)
            == Some(held),
    decreases before.len(),
{
    if value is Object {
        found_iff_present(value->Object_0, key);
    }
    let whole = before + seq![(key, held)] + after;
    if !has_key(before, key) {
        if before.len() == 0 {
            assert(whole.first() == (key, held));
        } else {
            let rest = before.drop_first();
            assert(before[0].0 != key);
            assert(!has_key(rest, key)) by {
                assert forall|i: int| 0 <= i < rest.len() implies #[trigger] rest[i].0 != key by {
                    assert(before[i + 1].0 != key);
                }
            }
            only_objects_have_fields_and_strings_texts(value, key, rest, held, after);
            assert(whole.first() == before.first());
            assert(whole.drop_first() =~= rest + seq![(key, held)] + after);
        }
    }
}

/// Putting a value under a key leaves the keys in their order: a key that is there keeps its
/// place, and a new one comes last.
pub proof fn put_keeps_the_order(
    entries: Seq<(Seq<char>, JsonView)>,
    key: Seq<char>,
    value: JsonView,
    i: int,
)
    requires
        0 <= i < entries.len(),
    ensures
        with_value(entries, key, value)[i].0 == entries[i].0,
        entries[i].0 != key ==> with_value(entries, key, value)[i] == entries[i],
        has_key(entries, key) ==> with_value(entries, key, value).len() == entries.len(),
        !has_key(entries, key) ==> {
            &&& with_value(entries, key, value).len() == entries.len() + 1
            &&& with_value(entries, key, value).last() == (key, value)
        },
{
}

} // verus!
