//! A JSON document model with a mathematical view.
//!
//! Objects keep their members as an ordered list of `(key, value)` pairs.
//! A key that occurs more than once denotes the value of its last
//! occurrence, which is what inserting the pairs one after the other into
//! a map yields.

use vstd::prelude::*;

verus! {

/// A JSON number, held exactly as the parser produced it: a
/// non-negative integer, a negative integer, or the IEEE-754 bit pattern
/// of a floating-point value.
#[derive(Clone, Copy, Debug, PartialEq, Eq)]
pub enum JsonNumber {
    PosInt(u64),
    NegInt(i64),
    FloatBits(u64),
}

/// An executable JSON value.
#[derive(Debug, PartialEq)]
pub enum JsonValue {
    Null,
    Bool(bool),
    Number(JsonNumber),
    String(String),
    Array(Vec<JsonValue>),
    Object(Vec<(String, JsonValue)>),
}

/// The mathematical meaning of a JSON value: strings are character
/// sequences and objects are maps from keys to values.
pub enum Json {
    Null,
    Bool(bool),
    Number(JsonNumber),
    Str(Seq<char>),
    Array(Seq<Json>),
    Object(Map<Seq<char>, Json>),
}

/// The meaning of a JSON value.
pub open spec fn json_view(v: JsonValue) -> Json
    decreases v,
{
    match v {
        JsonValue::Null => Json::Null,
        JsonValue::Bool(b) => Json::Bool(b),
        JsonValue::Number(n) => Json::Number(n),
        JsonValue::String(s) => Json::Str(s@),
        JsonValue::Array(items) => Json::Array(items_view(items@)),
        JsonValue::Object(entries) => Json::Object(entries_view(entries@)),
    }
}

/// The meaning of a sequence of array items.
pub open spec fn items_view(s: Seq<JsonValue>) -> Seq<Json>
    decreases s,
{
    if s.len() == 0 {
        Seq::empty()
    } else {
        items_view(s.drop_last()).push(json_view(s.last()))
    }
}

/// The meaning of a list of object members: each pair, in order, is
/// inserted into the map, so the last occurrence of a key wins.
pub open spec fn entries_view(s: Seq<(String, JsonValue)>) -> Map<Seq<char>, Json>
    decreases s,
{
    if s.len() == 0 {
        Map::empty()
    } else {
        entries_view(s.drop_last()).insert(s.last().0@, json_view(s.last().1))
    }
}

impl View for JsonValue {
    type V = Json;

    open spec fn view(&self) -> Json {
        json_view(*self)
    }
}


/// The object members of a JSON value, or no members when it is not an
/// object.
pub open spec fn members(v: Json) -> Map<Seq<char>, Json> {
    match v {
        Json::Object(m) => m,
        _ => Map::empty(),
    }
}

/// The member `key` of a JSON value, when it is an object that has one.
pub open spec fn member(v: Json, key: Seq<char>) -> Option<Json> {
    match v {
        Json::Object(m) => if m.contains_key(key) {
            Some(m[key])
        } else {
            None
        },
        _ => None,
    }
}

/// The position of the last member named `key` in `s`.
pub open spec fn is_last_key_index(s: Seq<(String, JsonValue)>, i: int, key: Seq<char>) -> bool {
    &&& 0 <= i < s.len()
    &&& s[i].0@ == key
    &&& forall|j: int| i < j < s.len() ==> #[trigger] s[j].0@ != key
}

/// The member that occurs last under a key is the one the map holds.
pub proof fn lemma_entries_view_last(s: Seq<(String, JsonValue)>, i: int)
    requires
        is_last_key_index(s, i, s[i].0@),
    ensures
        entries_view(s).contains_key(s[i].0@),
        entries_view(s)[s[i].0@] == json_view(s[i].1),
    decreases s.len(),
{
    if i < s.len() - 1 {
        let t = s.drop_last();
        assert(t[i] == s[i]);
        assert forall|j: int| i < j < t.len() implies #[trigger] t[j].0@ != s[i].0@ by {
            assert(t[j] == s[j]);
        }
        lemma_entries_view_last(t, i);
        assert(s.last() == s[s.len() - 1]);
    }
}

/// A key that names no member is not in the map.
pub proof fn lemma_entries_view_absent(s: Seq<(String, JsonValue)>, key: Seq<char>)
    requires
        forall|j: int| 0 <= j < s.len() ==> #[trigger] s[j].0@ != key,
    ensures
        !entries_view(s).contains_key(key),
    decreases s.len(),
{
    if s.len() > 0 {
        let t = s.drop_last();
        assert forall|j: int| 0 <= j < t.len() implies #[trigger] t[j].0@ != key by {
            assert(t[j] == s[j]);
        }
        lemma_entries_view_absent(t, key);
        assert(s.last() == s[s.len() - 1]);
    }
}

/// Replacing the last member under a key replaces that key's value.
pub proof fn lemma_entries_view_update(s: Seq<(String, JsonValue)>, i: int, e: (String, JsonValue))
    requires
        is_last_key_index(s, i, e.0@),
    ensures
        entries_view(s.update(i, e)) =~= entries_view(s).insert(e.0@, json_view(e.1)),
    decreases s.len(),
{
    let u = s.update(i, e);
    if i == s.len() - 1 {
        assert(u.drop_last() =~= s.drop_last());
    } else {
        let t = s.drop_last();
        assert(u.drop_last() =~= t.update(i, e));
        assert forall|j: int| i < j < t.len() implies #[trigger] t[j].0@ != e.0@ by {
            assert(t[j] == s[j]);
        }
        lemma_entries_view_update(t, i, e);
        assert(u.last() == s.last());
        assert(s.last() == s[s.len() - 1]);
    }
}

/// Looks up `key` among object members; the last occurrence counts.
pub fn members_get<'a>(entries: &'a Vec<(String, JsonValue)>, key: &str) -> (r: Option<&'a JsonValue>)
    ensures
        match r {
            Some(v) => entries_view(entries@).contains_key(key@) && entries_view(entries@)[key@] == v@,
            None => !entries_view(entries@).contains_key(key@),
        },
{
    let k = key.to_owned();
    let mut i = entries.len();
    while i > 0
        invariant
            i <= entries.len(),
            k@ == key@,
            forall|j: int| i <= j < entries.len() ==> #[trigger] entries@[j].0@ != key@,
        decreases i,
    {
        i = i - 1;
        if entries[i].0 == k {
            proof {
                lemma_entries_view_last(entries@, i as int);
            }
            return Some(&entries[i].1);
        }
    }
    proof {
        lemma_entries_view_absent(entries@, key@);
    }
    None
}

/// Inserts `key` with `value` into object members, replacing the value
/// the key had.
pub fn members_insert(entries: &mut Vec<(String, JsonValue)>, key: String, value: JsonValue)
    ensures
        entries_view(final(entries)@) =~= entries_view(old(entries)@).insert(key@, value@),
{
    let mut i = entries.len();
    while i > 0
        invariant
            i <= entries.len(),
            entries@ == old(entries)@,
            forall|j: int| i <= j < entries.len() ==> #[trigger] entries@[j].0@ != key@,
        decreases i,
    {
        i = i - 1;
        if entries[i].0 == key {
            proof {
                lemma_entries_view_update(entries@, i as int, (key, value));
            }
            entries.set(i, (key, value));
            return;
        }
    }
    proof {
        lemma_entries_view_absent(entries@, key@);
    }
    let ghost pre = entries@;
    entries.push((key, value));
    assert(entries@.drop_last() =~= pre);
}

/// Removes every member named `key`.
pub fn members_remove(entries: &mut Vec<(String, JsonValue)>, key: &String)
    ensures
        entries_view(final(entries)@) =~= entries_view(old(entries)@).remove(key@),
{
    broadcast use vstd::std_specs::vec::axiom_spec_into_iter;
    let mut src: Vec<(String, JsonValue)> = Vec::new();
    std::mem::swap(entries, &mut src);
    let ghost s = src@;
    for e in it: src.into_iter()
        invariant
            it.seq() == s,
            entries_view(entries@) =~= entries_view(s.take(it.index())).remove(key@),
    {
        let ghost i = it.index();
        assert(s.take(i + 1).drop_last() =~= s.take(i));
        assert(s.take(i + 1).last() == e);
        if e.0 != *key {
            let ghost pre = entries@;
            entries.push(e);
            assert(entries@.drop_last() =~= pre);
        }
    }
    assert(s.take(s.len() as int) =~= s);
}

/// Inserts every member of `src`, in order, into `out`.
pub fn members_extend(out: &mut Vec<(String, JsonValue)>, src: Vec<(String, JsonValue)>)
    ensures
        entries_view(final(out)@) =~= entries_view(old(out)@).union_prefer_right(entries_view(src@)),
{
    broadcast use vstd::std_specs::vec::axiom_spec_into_iter;
    let ghost base = entries_view(out@);
    let ghost s = src@;
    for e in it: src.into_iter()
        invariant
            it.seq() == s,
            entries_view(out@) =~= base.union_prefer_right(entries_view(s.take(it.index()))),
    {
        let ghost i = it.index();
        assert(s.take(i + 1).drop_last() =~= s.take(i));
        assert(s.take(i + 1).last() == e);
        members_insert(out, e.0, e.1);
    }
    assert(s.take(s.len() as int) =~= s);
}

impl JsonValue {
    /// The member `key` of an object; `None` for a missing key or a value
    /// that is not an object.
    pub fn get<'a>(&'a self, key: &str) -> (r: Option<&'a JsonValue>)
        ensures
            match r {
                Some(v) => member(self@, key@) == Some(v@),
                None => member(self@, key@) is None,
            },
    {
        match self {
            JsonValue::Object(entries) => members_get(entries, key),
            _ => None,
        }
    }

    /// A copy of this value with the same meaning.
    pub fn deep_clone(&self) -> (r: JsonValue)
        ensures
            r@ == self@,
        decreases self,
    {
        match self {
            JsonValue::Null => JsonValue::Null,
            JsonValue::Bool(b) => JsonValue::Bool(*b),
            JsonValue::Number(n) => JsonValue::Number(*n),
            JsonValue::String(s) => JsonValue::String(s.clone()),
            JsonValue::Array(items) => {
                let mut out: Vec<JsonValue> = Vec::new();
                let mut i: usize = 0;
                while i < items.len()
                    invariant
                        i <= items.len(),
                        *self == JsonValue::Array(*items),
                        items_view(out@) =~= items_view(items@.take(i as int)),
                    decreases items.len() - i,
                {
                    proof {
                        broadcast use vstd::std_specs::vec::axiom_vec_decreases_to_view;
                        assert(decreases_to!(*self => (*self)->Array_0));
                        assert(decreases_to!(*items => items@));
                        assert(decreases_to!(items@ => items@[i as int]));
                        assert(decreases_to!(*self => items@[i as int]));
                    }
                    let c = items[i].deep_clone();
                    let ghost pre = out@;
                    out.push(c);
                    assert(out@.drop_last() =~= pre);
                    assert(items@.take(i + 1).drop_last() =~= items@.take(i as int));
                    i = i + 1;
                }
                assert(items@.take(items.len() as int) =~= items@);
                JsonValue::Array(out)
            },
            JsonValue::Object(entries) => {
                let mut out: Vec<(String, JsonValue)> = Vec::new();
                let mut i: usize = 0;
                while i < entries.len()
                    invariant
                        i <= entries.len(),
                        *self == JsonValue::Object(*entries),
                        entries_view(out@) =~= entries_view(entries@.take(i as int)),
                    decreases entries.len() - i,
                {
                    proof {
                        broadcast use vstd::std_specs::vec::axiom_vec_decreases_to_view;
                        assert(decreases_to!(*self => (*self)->Object_0));
                        assert(decreases_to!(*entries => entries@));
                        assert(decreases_to!(entries@ => entries@[i as int]));
                        assert(decreases_to!(entries@[i as int] => entries@[i as int].1));
                        assert(decreases_to!(*self => entries@[i as int].1));
                    }
                    let c = (entries[i].0.clone(), entries[i].1.deep_clone());
                    let ghost pre = out@;
                    out.push(c);
                    assert(out@.drop_last() =~= pre);
                    assert(entries@.take(i + 1).drop_last() =~= entries@.take(i as int));
                    i = i + 1;
                }
                assert(entries@.take(entries.len() as int) =~= entries@);
                JsonValue::Object(out)
            },
        }
    }
}

} // verus!
