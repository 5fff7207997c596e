//! The JSON value model that the protocol logic reads and builds.
//!
//! Objects keep their entries in a sequence; a lookup finds the first entry
//! with the key, so an object without repeated keys behaves as a map.
use vstd::prelude::*;
use crate::text::{owned, str_eq};

verus! {

/// A JSON number: a non-negative integer, a negative integer, or any other
/// number kept by its decimal text.
#[derive(Debug, PartialEq, Eq)]
pub enum JsonNumber {
    PosInt(u64),
    NegInt(i64),
    Float(String),
}

/// A JSON value.
#[derive(Debug, PartialEq, Eq)]
pub enum Json {
    Null,
    Bool(bool),
    Number(JsonNumber),
    String(String),
    Array(Vec<Json>),
    Object(Vec<(String, Json)>),
}

/// The mathematical value of a JSON number.
pub enum NumberValue {
    PosInt(u64),
    NegInt(i64),
    Float(Seq<char>),
}

/// The mathematical value of a JSON value.
pub enum JsonValue {
    Null,
    Bool(bool),
    Number(NumberValue),
    Str(Seq<char>),
    Array(Seq<JsonValue>),
    Object(Seq<(Seq<char>, JsonValue)>),
}

/// The value of a JSON number.
pub open spec fn number_view(n: JsonNumber) -> NumberValue {
    match n {
        JsonNumber::PosInt(u) => NumberValue::PosInt(u),
        JsonNumber::NegInt(i) => NumberValue::NegInt(i),
        JsonNumber::Float(t) => NumberValue::Float(t@),
    }
}

/// The value of a JSON value.
pub open spec fn json_view(j: Json) -> JsonValue
    decreases j,
{
    match j {
        Json::Null => JsonValue::Null,
        Json::Bool(b) => JsonValue::Bool(b),
        Json::Number(n) => JsonValue::Number(number_view(n)),
        Json::String(s) => JsonValue::Str(s@),
        Json::Array(items) => JsonValue::Array(items_view(items@)),
        Json::Object(entries) => JsonValue::Object(entries_view(entries@)),
    }
}

/// The values of a sequence of JSON values.
pub open spec fn items_view(s: Seq<Json>) -> Seq<JsonValue>
    decreases s,
{
    if s.len() == 0 {
        Seq::empty()
    } else {
        items_view(s.drop_last()).push(json_view(s.last()))
    }
}

/// The keys and values of a sequence of object entries.
pub open spec fn entries_view(s: Seq<(String, Json)>) -> Seq<(Seq<char>, JsonValue)>
    decreases s,
{
    if s.len() == 0 {
        Seq::empty()
    } else {
        entries_view(s.drop_last()).push((s.last().0@, json_view(s.last().1)))
    }
}

impl View for Json {
    type V = JsonValue;

    open spec fn view(&self) -> JsonValue {
        json_view(*self)
    }
}

pub proof fn lemma_items_view(s: Seq<Json>)
    ensures
        items_view(s).len() == s.len(),
        forall|i: int| 0 <= i < s.len() ==> #[trigger] items_view(s)[i] == s[i]@,
    decreases s.len(),
{
    if s.len() > 0 {
        lemma_items_view(s.drop_last());
    }
}

pub proof fn lemma_entries_view(s: Seq<(String, Json)>)
    ensures
        entries_view(s).len() == s.len(),
        forall|i: int|
            0 <= i < s.len() ==> #[trigger] entries_view(s)[i] == (s[i].0@, s[i].1@),
    decreases s.len(),
{
    if s.len() > 0 {
        lemma_entries_view(s.drop_last());
    }
}

/// The value of the first entry with the given key.
pub open spec fn entry_value(entries: Seq<(Seq<char>, JsonValue)>, key: Seq<char>) -> Option<
    JsonValue,
>
    decreases entries.len(),
{
    if entries.len() == 0 {
        None
    } else if entries[0].0 == key {
        Some(entries[0].1)
    } else {
        entry_value(entries.drop_first(), key)
    }
}

impl JsonValue {
    /// `Value::get(key)`: the member of an object, `None` for other values.
    pub open spec fn field(self, key: Seq<char>) -> Option<JsonValue> {
        match self {
            JsonValue::Object(entries) => entry_value(entries, key),
            _ => None,
        }
    }

    /// `Value::as_str`.
    pub open spec fn str_value(self) -> Option<Seq<char>> {
        match self {
            JsonValue::Str(s) => Some(s),
            _ => None,
        }
    }

    /// `Value::as_array`.
    pub open spec fn array_value(self) -> Option<Seq<JsonValue>> {
        match self {
            JsonValue::Array(items) => Some(items),
            _ => None,
        }
    }

    /// `Value::as_u64`.
    pub open spec fn u64_value(self) -> Option<u64> {
        match self {
            JsonValue::Number(NumberValue::PosInt(n)) => Some(n),
            _ => None,
        }
    }

    /// `value.get(key).and_then(Value::as_str)`.
    pub open spec fn str_field(self, key: Seq<char>) -> Option<Seq<char>> {
        match self.field(key) {
            Some(v) => v.str_value(),
            None => None,
        }
    }

    /// `value.get(key).and_then(Value::as_array)`.
    pub open spec fn array_field(self, key: Seq<char>) -> Option<Seq<JsonValue>> {
        match self.field(key) {
            Some(v) => v.array_value(),
            None => None,
        }
    }
}

/// `r` refers to a value whose view is what `s` holds, or both are empty.
pub open spec fn view_opt(r: Option<&Json>, s: Option<JsonValue>) -> bool {
    match r {
        Some(v) => s == Some(v@),
        None => s is None,
    }
}

/// `r` refers to a string whose characters are what `s` holds, or both are empty.
pub open spec fn str_opt(r: Option<&str>, s: Option<Seq<char>>) -> bool {
    match r {
        Some(v) => s == Some(v@),
        None => s is None,
    }
}

impl Json {
    /// Member lookup.
    pub fn get(&self, key: &str) -> (r: Option<&Json>)
        ensures
            view_opt(r, self@.field(key@)),
    {
        match self {
            Json::Object(entries) => {
                proof {
                    lemma_entries_view(entries@);
                }
                let ghost ev = entries_view(entries@);
                let n = entries.len();
                let mut i: usize = 0;
                assert(ev.subrange(0, n as int) =~= ev);
                while i < n
                    invariant
                        n == entries@.len(),
                        ev == entries_view(entries@),
                        ev.len() == n,
                        forall|k: int|
                            0 <= k < n ==> #[trigger] ev[k] == (entries@[k].0@, entries@[k].1@),
                        self@.field(key@) == entry_value(ev, key@),
                        i <= n,
                        entry_value(ev, key@) == entry_value(ev.subrange(i as int, n as int), key@),
                    decreases n - i,
                {
                    let ghost rest = ev.subrange(i as int, n as int);
                    assert(rest[0] == ev[i as int]);
                    if str_eq(entries[i].0.as_str(), key) {
                        return Some(&entries[i].1);
                    }
                    assert(rest.drop_first() =~= ev.subrange(i + 1, n as int));
                    i = i + 1;
                }
                None
            },
            _ => None,
        }
    }

    /// The string held by a string value.
    pub fn as_str(&self) -> (r: Option<&str>)
        ensures
            str_opt(r, self@.str_value()),
    {
        match self {
            Json::String(s) => Some(s.as_str()),
            _ => None,
        }
    }

    /// The items of an array value.
    pub fn as_array(&self) -> (r: Option<&Vec<Json>>)
        ensures
            match r {
                Some(v) => self@.array_value() == Some(items_view(v@)),
                None => self@.array_value() is None,
            },
    {
        match self {
            Json::Array(items) => Some(items),
            _ => None,
        }
    }

    /// The number held by a non-negative integer value.
    pub fn as_u64(&self) -> (r: Option<u64>)
        ensures
            r == self@.u64_value(),
    {
        match self {
            Json::Number(JsonNumber::PosInt(n)) => Some(*n),
            _ => None,
        }
    }

    /// `value.get(key).and_then(Value::as_str)`.
    pub fn get_str(&self, key: &str) -> (r: Option<&str>)
        ensures
            str_opt(r, self@.str_field(key@)),
    {
        match self.get(key) {
            Some(v) => v.as_str(),
            None => None,
        }
    }

    /// `value.get(key).and_then(Value::as_array)`.
    pub fn get_array(&self, key: &str) -> (r: Option<&Vec<Json>>)
        ensures
            match r {
                Some(v) => self@.array_field(key@) == Some(items_view(v@)),
                None => self@.array_field(key@) is None,
            },
    {
        match self.get(key) {
            Some(v) => v.as_array(),
            None => None,
        }
    }

    /// An exact copy of the value.
    pub fn deep_copy(&self) -> (r: Json)
        ensures
            r@ == self@,
        decreases self,
    {
        let ghost me = *self;
        match self {
            Json::Null => Json::Null,
            Json::Bool(b) => Json::Bool(*b),
            Json::Number(JsonNumber::PosInt(n)) => Json::Number(JsonNumber::PosInt(*n)),
            Json::Number(JsonNumber::NegInt(n)) => Json::Number(JsonNumber::NegInt(*n)),
            Json::Number(JsonNumber::Float(t)) => Json::Number(JsonNumber::Float(t.clone())),
            Json::String(s) => Json::String(s.clone()),
            Json::Array(items) => {
                proof {
                    assert(decreases_to!(me => *items));
                    assert(decreases_to!(*items => items@));
                    assert(decreases_to!(me => items@));
                }
                let mut out: Vec<Json> = Vec::new();
                let n = items.len();
                let mut i: usize = 0;
                while i < n
                    invariant
                        n == items@.len(),
                        me == Json::Array(*items),
                        me == *self,
                        decreases_to!(me => items@),
                        i <= n,
                        out@.len() == i,
                        forall|k: int| 0 <= k < i ==> #[trigger] out@[k]@ == items@[k]@,
                    decreases n - i,
                {
                    proof {
                        assert(decreases_to!(items@ => items@[i as int]));
                    }
                    let v = items[i].deep_copy();
                    out.push(v);
                    i = i + 1;
                }
                proof {
                    lemma_items_view(out@);
                    lemma_items_view(items@);
                    assert(items_view(out@) =~= items_view(items@));
                }
                Json::Array(out)
            },
            Json::Object(entries) => {
                proof {
                    assert(decreases_to!(me => *entries));
                    assert(decreases_to!(*entries => entries@));
                    assert(decreases_to!(me => entries@));
                }
                let mut out: Vec<(String, Json)> = Vec::new();
                let n = entries.len();
                let mut i: usize = 0;
                while i < n
                    invariant
                        n == entries@.len(),
                        me == Json::Object(*entries),
                        me == *self,
                        decreases_to!(me => entries@),
                        i <= n,
                        out@.len() == i,
                        forall|k: int|
                            0 <= k < i ==> (#[trigger] out@[k]).0@ == entries@[k].0@ && out@[k].1@
                                == entries@[k].1@,
                    decreases n - i,
                {
                    proof {
                        assert(decreases_to!(entries@ => entries@[i as int]));
                        assert(decreases_to!(entries@[i as int] => entries@[i as int].1));
                    }
                    let k = entries[i].0.clone();
                    let v = entries[i].1.deep_copy();
                    out.push((k, v));
                    i = i + 1;
                }
                proof {
                    lemma_entries_view(out@);
                    lemma_entries_view(entries@);
                    assert(entries_view(out@) =~= entries_view(entries@));
                }
                Json::Object(out)
            },
        }
    }
}

/// Appends an entry to the entries of an object under construction.
pub fn push_entry(entries: &mut Vec<(String, Json)>, key: &str, value: Json)
    ensures
        entries_view(final(entries)@) == entries_view(old(entries)@).push((key@, value@)),
{
    let k = owned(key);
    entries.push((k, value));
    assert(final(entries)@.drop_last() =~= old(entries)@);
}

/// Appends an item to an array under construction.
pub fn push_item(items: &mut Vec<Json>, value: Json)
    ensures
        items_view(final(items)@) == items_view(old(items)@).push(value@),
{
    items.push(value);
    assert(final(items)@.drop_last() =~= old(items)@);
}

/// An empty entry list.
pub fn new_entries() -> (r: Vec<(String, Json)>)
    ensures
        entries_view(r@) == Seq::<(Seq<char>, JsonValue)>::empty(),
{
    Vec::new()
}

/// An empty item list.
pub fn new_items() -> (r: Vec<Json>)
    ensures
        items_view(r@) == Seq::<JsonValue>::empty(),
{
    Vec::new()
}

/// An optional string as JSON: the string, or `null`.
pub open spec fn opt_str_value(s: Option<Seq<char>>) -> JsonValue {
    match s {
        Some(t) => JsonValue::Str(t),
        None => JsonValue::Null,
    }
}

/// An optional string as JSON: the string, or `null`.
pub fn json_opt_str(s: &Option<String>) -> (r: Json)
    ensures
        r@ == opt_str_value(match s {
            Some(t) => Some(t@),
            None => None,
        }),
{
    match s {
        Some(t) => Json::String(t.clone()),
        None => Json::Null,
    }
}

/// A JSON array of strings.
pub open spec fn str_array_value(s: Seq<String>) -> JsonValue {
    JsonValue::Array(s.map_values(|t: String| JsonValue::Str(t@)))
}

/// A JSON array of strings.
pub fn json_str_array(v: &Vec<String>) -> (r: Json)
    ensures
        r@ == str_array_value(v@),
{
    let mut items = new_items();
    let n = v.len();
    let mut i: usize = 0;
    while i < n
        invariant
            n == v@.len(),
            i <= n,
            items_view(items@) == v@.subrange(0, i as int).map_values(|t: String| JsonValue::Str(t@)),
        decreases n - i,
    {
        push_item(&mut items, Json::String(v[i].clone()));
        assert(v@.subrange(0, i + 1).map_values(|t: String| JsonValue::Str(t@)) =~= v@.subrange(
            0,
            i as int,
        ).map_values(|t: String| JsonValue::Str(t@)).push(JsonValue::Str(v@[i as int]@)));
        i = i + 1;
    }
    assert(v@.subrange(0, n as int) =~= v@);
    Json::Array(items)
}

/// Values that have a JSON form.
pub trait ToJson {
    /// The JSON form.
    spec fn json(&self) -> JsonValue;

    /// Builds the JSON form.
    fn to_json(&self) -> (r: Json)
        ensures
            r@ == self.json(),
    ;
}

/// The JSON array of the JSON forms of the items.
pub open spec fn array_of<T: ToJson>(v: Seq<T>) -> JsonValue {
    JsonValue::Array(v.map_values(|x: T| x.json()))
}

/// Builds the JSON array of the JSON forms of the items.
pub fn vec_to_json<T: ToJson>(v: &Vec<T>) -> (r: Json)
    ensures
        r@ == array_of(v@),
{
    let mut items = new_items();
    let n = v.len();
    let mut i: usize = 0;
    while i < n
        invariant
            n == v@.len(),
            i <= n,
            items_view(items@) == v@.subrange(0, i as int).map_values(|x: T| x.json()),
        decreases n - i,
    {
        push_item(&mut items, v[i].to_json());
        assert(v@.subrange(0, i + 1).map_values(|x: T| x.json()) =~= v@.subrange(
            0,
            i as int,
        ).map_values(|x: T| x.json()).push(v@[i as int].json()));
        i = i + 1;
    }
    assert(v@.subrange(0, n as int) =~= v@);
    Json::Array(items)
}

/// A `usize` as a JSON number.
pub open spec fn usize_value(n: usize) -> JsonValue {
    JsonValue::Number(NumberValue::PosInt(n as u64))
}

/// A `usize` as a JSON number.
pub fn json_usize(n: usize) -> (r: Json)
    ensures
        r@ == usize_value(n),
{
    Json::Number(JsonNumber::PosInt(n as u64))
}

/// A string value.
pub fn json_str(s: &str) -> (r: Json)
    ensures
        r@ == JsonValue::Str(s@),
{
    Json::String(owned(s))
}

/// A non-negative integer value.
pub fn json_u64(n: u64) -> (r: Json)
    ensures
        r@ == JsonValue::Number(NumberValue::PosInt(n)),
{
    Json::Number(JsonNumber::PosInt(n))
}

/// Law: a member is looked up by its first entry: the value found is that
/// of some entry `k` with the key, no entry before `k` has the key, and
/// nothing is found only when no entry has it.
pub proof fn law_member_is_its_first_entry(entries: Seq<(Seq<char>, JsonValue)>, key: Seq<char>)
    ensures
        entry_value(entries, key) matches Some(v) ==> exists|k: int|
            0 <= k < entries.len() && entries[k].0 == key && entries[k].1 == v && forall|j: int|
                0 <= j < k ==> #[trigger] entries[j].0 != key,
        entry_value(entries, key) is None ==> forall|k: int|
            0 <= k < entries.len() ==> #[trigger] entries[k].0 != key,
    decreases entries.len(),
{
    if entries.len() > 0 && entries[0].0 != key {
        let rest = entries.drop_first();
        law_member_is_its_first_entry(rest, key);
        if let Some(v) = entry_value(entries, key) {
            let k = choose|k: int|
                0 <= k < rest.len() && rest[k].0 == key && rest[k].1 == v && forall|j: int|
                    0 <= j < k ==> #[trigger] rest[j].0 != key;
            assert(entries[k + 1] == rest[k]);
            assert forall|j: int| 0 <= j < k + 1 implies #[trigger] entries[j].0 != key by {
                if j > 0 {
                    assert(entries[j] == rest[j - 1]);
                }
            }
        } else {
            assert forall|k: int| 0 <= k < entries.len() implies #[trigger] entries[k].0 != key by {
                if k > 0 {
                    assert(entries[k] == rest[k - 1]);
                }
            }
        }
    }
}

} // verus!
