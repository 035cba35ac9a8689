//! A JSON document as plain values: what the gates, the citation check and
//! the response builders read and write.

use vstd::prelude::*;

use crate::text::same_text;

verus! {

/// A JSON number: an integer when it fits one, else its decimal text.
#[derive(Debug)]
pub enum JsonNumber {
    Unsigned(u64),
    Signed(i64),
    Decimal(String),
}

/// A JSON value. An object keeps its entries in order; looking a key up
/// finds the first entry with that key.
#[derive(Debug)]
pub enum JsonValue {
    Null,
    Bool(bool),
    Number(JsonNumber),
    Str(String),
    Array(Vec<JsonValue>),
    Object(Vec<(String, JsonValue)>),
}

/// The value of the first entry keyed `key`.
pub open spec fn entry_lookup(entries: Seq<(String, JsonValue)>, key: Seq<char>) -> Option<
    JsonValue,
>
    decreases entries.len(),
{
    if entries.len() == 0 {
        None
    } else if entries[0].0@ == key {
        Some(entries[0].1)
    } else {
        entry_lookup(entries.drop_first(), key)
    }
}

/// The text of a value that is a string.
pub open spec fn text_of(v: Option<JsonValue>) -> Option<Seq<char>> {
    match v {
        Some(JsonValue::Str(s)) => Some(s@),
        _ => None,
    }
}

/// The elements of a value that is an array; no elements otherwise.
pub open spec fn elements_of(v: Option<JsonValue>) -> Seq<JsonValue> {
    match v {
        Some(JsonValue::Array(items)) => items@,
        _ => Seq::empty(),
    }
}

/// The integer of a value that is a non-negative integer.
pub open spec fn unsigned_of(v: Option<JsonValue>) -> Option<u64> {
    match v {
        Some(JsonValue::Number(JsonNumber::Unsigned(n))) => Some(n),
        _ => None,
    }
}

/// The flag of a value that is a boolean.
pub open spec fn bool_of(v: Option<JsonValue>) -> Option<bool> {
    match v {
        Some(JsonValue::Bool(b)) => Some(b),
        _ => None,
    }
}

impl JsonValue {
    /// The member `key` of an object; nothing for other values.
    pub open spec fn field(self, key: Seq<char>) -> Option<JsonValue> {
        match self {
            JsonValue::Object(entries) => entry_lookup(entries@, key),
            _ => None,
        }
    }

    /// The member `key` of an object.
    pub fn get(&self, key: &str) -> (r: Option<&JsonValue>)
        ensures
            r is Some <==> self.field(key@) is Some,
            r matches Some(v) ==> self.field(key@) == Some(*v),
    {
        match self {
            JsonValue::Object(entries) => {
                let mut i: usize = 0;
                assert(entries@.skip(0) =~= entries@);
                while i < entries.len()
                    invariant
                        i <= entries@.len(),
                        entry_lookup(entries@.skip(i as int), key@) == self.field(key@),
                    decreases entries@.len() - i,
                {
                    assert(entries@.skip(i as int).drop_first() =~= entries@.skip(i + 1));
                    assert(entries@.skip(i as int)[0] == entries@[i as int]);
                    if same_text(entries[i].0.as_str(), key) {
                        assert(entry_lookup(entries@.skip(i as int), key@) == Some(
                            entries@[i as int].1,
                        ));
                        return Some(&entries[i].1);
                    }
                    i += 1;
                }
                None
            },
            _ => None,
        }
    }

    pub fn as_str(&self) -> (r: Option<&str>)
        ensures
            r is Some <==> self is Str,
            r matches Some(s) ==> text_of(Some(*self)) == Some(s@),
    {
        match self {
            JsonValue::Str(s) => Some(s.as_str()),
            _ => None,
        }
    }

    pub fn as_array(&self) -> (r: Option<&Vec<JsonValue>>)
        ensures
            r is Some <==> self is Array,
            r matches Some(items) ==> elements_of(Some(*self)) == items@,
    {
        match self {
            JsonValue::Array(items) => Some(items),
            _ => None,
        }
    }

    pub fn as_u64(&self) -> (r: Option<u64>)
        ensures
            r == unsigned_of(Some(*self)),
    {
        match self {
            JsonValue::Number(JsonNumber::Unsigned(n)) => Some(*n),
            _ => None,
        }
    }

    pub fn as_bool(&self) -> (r: Option<bool>)
        ensures
            r == bool_of(Some(*self)),
    {
        match self {
            JsonValue::Bool(b) => Some(*b),
            _ => None,
        }
    }
}

proof fn lemma_lookup_after_remove(es: Seq<(String, JsonValue)>, i: int, k: Seq<char>)
    requires
        0 <= i < es.len(),
        es[i].0@ != k,
    ensures
        entry_lookup(es.remove(i), k) == entry_lookup(es, k),
    decreases i,
{
    if i == 0 {
        assert(es.remove(0) =~= es.drop_first());
    } else {
        assert(es.remove(i)[0] == es[0]);
        if es[0].0@ != k {
            assert(es.remove(i).drop_first() =~= es.drop_first().remove(i - 1));
            lemma_lookup_after_remove(es.drop_first(), i - 1, k);
        }
    }
}

/// Takes out the first entry keyed `key` and returns its value; the other
/// keys keep their values.
pub fn take_entry(entries: &mut Vec<(String, JsonValue)>, key: &str) -> (r: Option<JsonValue>)
    ensures
        r == entry_lookup(old(entries)@, key@),
        forall|k: Seq<char>|
            k != key@ ==> entry_lookup(final(entries)@, k) == entry_lookup(old(entries)@, k),
{
    let mut i: usize = 0;
    assert(entries@.skip(0) =~= entries@);
    while i < entries.len()
        invariant
            i <= entries@.len(),
            entries@ == old(entries)@,
            entry_lookup(entries@.skip(i as int), key@) == entry_lookup(entries@, key@),
        decreases entries@.len() - i,
    {
        assert(entries@.skip(i as int).drop_first() =~= entries@.skip(i + 1));
        assert(entries@.skip(i as int)[0] == entries@[i as int]);
        if same_text(entries[i].0.as_str(), key) {
            let ghost before = entries@;
            let (_, value) = entries.remove(i);
            proof {
                assert forall|k: Seq<char>| k != key@ implies entry_lookup(entries@, k)
                    == entry_lookup(before, k) by {
                    lemma_lookup_after_remove(before, i as int, k);
                }
            }
            return Some(value);
        }
        i += 1;
    }
    None
}

/// In entries whose keys before `i` differ from its key, looking up that
/// key finds entry `i`.
pub proof fn lemma_lookup_first_key(es: Seq<(String, JsonValue)>, i: int)
    requires
        0 <= i < es.len(),
        forall|j: int| 0 <= j < i ==> es[j].0@ != es[i].0@,
    ensures
        entry_lookup(es, es[i].0@) == Some(es[i].1),
    decreases i,
{
    if i > 0 {
        lemma_lookup_first_key(es.drop_first(), i - 1);
    }
}

/// A string value holding a copy of `s`.
pub fn json_str(s: &str) -> (r: JsonValue)
    ensures
        r matches JsonValue::Str(t) && t@ == s@,
{
    JsonValue::Str(String::from_str(s))
}

/// An entry `key: value` of an object.
pub fn entry(key: &str, value: JsonValue) -> (r: (String, JsonValue))
    ensures
        r.0@ == key@,
        r.1 == value,
{
    (String::from_str(key), value)
}

/// Looking up a key that no entry has finds nothing.
pub proof fn lemma_lookup_absent(es: Seq<(String, JsonValue)>, k: Seq<char>)
    requires
        forall|i: int| 0 <= i < es.len() ==> (#[trigger] es[i]).0@ != k,
    ensures
        entry_lookup(es, k) is None,
    decreases es.len(),
{
    if es.len() > 0 {
        assert forall|i: int| 0 <= i < es.drop_first().len() implies (#[trigger] es.drop_first()[i]).0@
            != k by {
            assert(es.drop_first()[i] == es[i + 1]);
        }
        lemma_lookup_absent(es.drop_first(), k);
    }
}

/// An object of one entry.
pub fn object1(k1: &str, v1: JsonValue) -> (r: JsonValue)
    ensures
        r is Object,
        r.field(k1@) == Some(v1),
        forall|k: Seq<char>| k != k1@ ==> (#[trigger] r.field(k)) is None,
{
    let r = JsonValue::Object(vec![entry(k1, v1)]);
    proof {
        lemma_lookup_first_key(r->Object_0@, 0);
        assert forall|k: Seq<char>| k != k1@ implies (#[trigger] r.field(k)) is None by {
            lemma_lookup_absent(r->Object_0@, k);
        }
    }
    r
}

/// An object of two entries with distinct keys.
pub fn object2(k1: &str, v1: JsonValue, k2: &str, v2: JsonValue) -> (r: JsonValue)
    requires
        k1@ != k2@,
    ensures
        r is Object,
        r.field(k1@) == Some(v1),
        r.field(k2@) == Some(v2),
        forall|k: Seq<char>| k != k1@ && k != k2@ ==> (#[trigger] r.field(k)) is None,
{
    let r = JsonValue::Object(vec![entry(k1, v1), entry(k2, v2)]);
    proof {
        lemma_lookup_first_key(r->Object_0@, 0);
        lemma_lookup_first_key(r->Object_0@, 1);
        assert forall|k: Seq<char>| k != k1@ && k != k2@ implies (#[trigger] r.field(k)) is None by {
            lemma_lookup_absent(r->Object_0@, k);
        }
    }
    r
}

/// An object of three entries with distinct keys.
pub fn object3(k1: &str, v1: JsonValue, k2: &str, v2: JsonValue, k3: &str, v3: JsonValue) -> (r:
    JsonValue)
    requires
        k1@ != k2@,
        k1@ != k3@,
        k2@ != k3@,
    ensures
        r is Object,
        r.field(k1@) == Some(v1),
        r.field(k2@) == Some(v2),
        r.field(k3@) == Some(v3),
        forall|k: Seq<char>|
            k != k1@ && k != k2@ && k != k3@ ==> (#[trigger] r.field(k)) is None,
{
    let r = JsonValue::Object(vec![entry(k1, v1), entry(k2, v2), entry(k3, v3)]);
    proof {
        lemma_lookup_first_key(r->Object_0@, 0);
        lemma_lookup_first_key(r->Object_0@, 1);
        lemma_lookup_first_key(r->Object_0@, 2);
        assert forall|k: Seq<char>| k != k1@ && k != k2@ && k != k3@ implies (#[trigger] r.field(
            k,
        )) is None by {
            lemma_lookup_absent(r->Object_0@, k);
        }
    }
    r
}

pub open spec fn is_empty_object(v: JsonValue) -> bool {
    v matches JsonValue::Object(entries) && entries@.len() == 0
}

/// An object of the given entries, whose keys are distinct.
pub fn object_of(entries: Vec<(String, JsonValue)>) -> (r: JsonValue)
    requires
        forall|i: int, j: int|
            0 <= i < j < entries@.len() ==> (#[trigger] entries@[i]).0@ != (#[trigger] entries@[j]).0@,
    ensures
        r is Object,
        forall|i: int|
            0 <= i < entries@.len() ==> r.field((#[trigger] entries@[i]).0@) == Some(entries@[i].1),
{
    let ghost es = entries@;
    let r = JsonValue::Object(entries);
    proof {
        assert forall|i: int| 0 <= i < es.len() implies entry_lookup(es, (#[trigger] es[i]).0@)
            == Some(es[i].1) by {
            lemma_lookup_first_key(es, i);
        }
    }
    r
}

/// The entries of an object; none for other values.
pub fn into_entries(v: JsonValue) -> (r: Vec<(String, JsonValue)>)
    ensures
        forall|k: Seq<char>| entry_lookup(r@, k) == v.field(k),
{
    match v {
        JsonValue::Object(entries) => entries,
        _ => Vec::new(),
    }
}

/// The exact form of a JSON string, array or object, written with plain
/// values: object members in order.
pub enum JsonShape {
    Str(Seq<char>),
    Array(Seq<JsonShape>),
    Object(Seq<(Seq<char>, JsonShape)>),
}

/// `v` is exactly of the form `m`.
pub open spec fn has_shape(v: JsonValue, m: JsonShape) -> bool
    decreases m,
{
    match m {
        JsonShape::Str(s) => v matches JsonValue::Str(t) && t@ == s,
        JsonShape::Array(ms) => v matches JsonValue::Array(items) && items@.len() == ms.len()
            && forall|i: int| 0 <= i < ms.len() ==> #[trigger] has_shape(items@[i], ms[i]),
        JsonShape::Object(es) => v matches JsonValue::Object(entries) && entries@.len() == es.len()
            && forall|i: int|
            0 <= i < es.len() ==> (#[trigger] entries@[i]).0@ == es[i].0 && has_shape(
                entries@[i].1,
                es[i].1,
            ),
    }
}

} // verus!
