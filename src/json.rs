//! A structured value tree in the shape of JSON, the form in which events
//! arrive and leave.
use vstd::prelude::*;
use vstd::string::StringExecFns;

verus! {

/// A JSON number, kept in the form in which it was written.
#[derive(Clone, Debug, PartialEq)]
pub enum JsonNumber {
    /// A non-negative integer.
    PosInt(u64),
    /// An integer held as a signed value. The encoders use it for negative
    /// integers only; readers take it by its value.
    NegInt(i64),
    /// A number with a fraction or an exponent, as its decimal text.
    Float(String),
}

/// A JSON value: an object keeps its entries in order, with their keys.
#[derive(Debug, PartialEq)]
pub enum JsonValue {
    Null,
    Bool(bool),
    Number(JsonNumber),
    String(String),
    Array(Vec<JsonValue>),
    Object(Vec<(String, JsonValue)>),
}

/// The value of the first entry at or after `i` whose key is `key`.
pub open spec fn entry_from(entries: Seq<(String, JsonValue)>, key: Seq<char>, i: int) -> Option<
    JsonValue,
>
    decreases entries.len() - i,
{
    if i < 0 || i >= entries.len() {
        None
    } else if entries[i].0@ == key {
        Some(entries[i].1)
    } else {
        entry_from(entries, key, i + 1)
    }
}

/// The value of the first entry of `entries` whose key is `key`.
pub open spec fn entry_of(entries: Seq<(String, JsonValue)>, key: Seq<char>) -> Option<JsonValue> {
    entry_from(entries, key, 0)
}

/// Where an entry with `key` stands and no earlier entry has that key, the
/// lookup finds that entry.
pub proof fn lemma_entry_first(entries: Seq<(String, JsonValue)>, key: Seq<char>, i: int)
    requires
        0 <= i < entries.len(),
        entries[i].0@ == key,
        forall|j: int| 0 <= j < i ==> entries[j].0@ != key,
    ensures
        entry_of(entries, key) == Some(entries[i].1),
{
    lemma_entry_skip(entries, key, 0, i);
}

proof fn lemma_entry_skip(entries: Seq<(String, JsonValue)>, key: Seq<char>, k: int, i: int)
    requires
        0 <= k <= i < entries.len(),
        entries[i].0@ == key,
        forall|j: int| 0 <= j < i ==> entries[j].0@ != key,
    ensures
        entry_from(entries, key, k) == Some(entries[i].1),
    decreases i - k,
{
    if k < i {
        lemma_entry_skip(entries, key, k + 1, i);
    }
}

/// Where no entry has `key`, the lookup finds nothing.
pub proof fn lemma_entry_absent(entries: Seq<(String, JsonValue)>, key: Seq<char>)
    requires
        forall|j: int| 0 <= j < entries.len() ==> (#[trigger] entries[j]).0@ != key,
    ensures
        entry_of(entries, key) is None,
{
    lemma_entry_absent_from(entries, key, 0);
}

proof fn lemma_entry_absent_from(entries: Seq<(String, JsonValue)>, key: Seq<char>, k: int)
    requires
        0 <= k,
        forall|j: int| 0 <= j < entries.len() ==> (#[trigger] entries[j]).0@ != key,
    ensures
        entry_from(entries, key, k) is None,
    decreases entries.len() - k,
{
    if k < entries.len() {
        lemma_entry_absent_from(entries, key, k + 1);
    }
}

/// No two entries share a key.
pub open spec fn keys_distinct<V>(entries: Seq<(String, V)>) -> bool {
    forall|i: int, k: int|
        0 <= i < k < entries.len() ==> (#[trigger] entries[i]).0@ != (#[trigger] entries[k]).0@
}

/// Whether two entries of an object share a key.
pub fn has_repeated_key(entries: &Vec<(String, JsonValue)>) -> (r: bool)
    ensures
        r == !keys_distinct(entries@),
{
    let mut k: usize = 0;
    while k < entries.len()
        invariant
            0 <= k <= entries.len(),
            forall|a: int, b: int|
                0 <= a < b < k ==> (#[trigger] entries@[a]).0@ != (#[trigger] entries@[b]).0@,
        decreases entries.len() - k,
    {
        let mut i: usize = 0;
        while i < k
            invariant
                0 <= i <= k < entries.len(),
                forall|a: int| 0 <= a < i ==> (#[trigger] entries@[a]).0@ != entries@[k as int].0@,
            decreases k - i,
        {
            if entries[i].0 == entries[k].0 {
                assert(entries@[i as int].0@ == entries@[k as int].0@);
                return true;
            }
            i = i + 1;
        }
        k = k + 1;
    }
    false
}

impl JsonValue {
    /// The value that `get` finds under `key`: none where this is no object.
    pub open spec fn spec_get(&self, key: Seq<char>) -> Option<JsonValue> {
        match self {
            JsonValue::Object(entries) => entry_of(entries@, key),
            _ => None,
        }
    }

    /// Looks up `key` in an object. The first entry with that key is taken;
    /// a value that is no object has no entries.
    pub fn get(&self, key: &str) -> (r: Option<&JsonValue>)
        ensures
            match r {
                Some(v) => self.spec_get(key@) == Some(*v),
                None => self.spec_get(key@) is None,
            },
    {
        match self {
            JsonValue::Object(entries) => {
                let k = String::from_str(key);
                let mut i: usize = 0;
                while i < entries.len()
                    invariant
                        0 <= i <= entries.len(),
                        k@ == key@,
                        self.spec_get(key@) == entry_of(entries@, key@),
                        entry_of(entries@, key@) == entry_from(entries@, key@, i as int),
                    decreases entries.len() - i,
                {
                    if entries[i].0 == k {
                        assert(entry_from(entries@, key@, i as int) == Some(entries@[i as int].1));
                        let v = &entries[i].1;
                        return Some(v);
                    }
                    i = i + 1;
                }
                None
            },
            _ => None,
        }
    }

    /// A string value holding `s`.
    pub fn from_str_slice(s: &str) -> (r: JsonValue)
        ensures
            r matches JsonValue::String(t) && t@ == s@,
    {
        JsonValue::String(String::from_str(s))
    }
}

/// An entry of an object, with its key given as text.
pub fn entry(key: &str, value: JsonValue) -> (r: (String, JsonValue))
    ensures
        r.0@ == key@,
        r.1 == value,
{
    (String::from_str(key), value)
}

} // verus!
