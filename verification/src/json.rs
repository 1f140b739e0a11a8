//! A JSON document model: the settings documents the connector reads and
//! writes are held in these types, so that their merging can be proved.

use vstd::prelude::*;

verus! {

/// A JSON value. Numbers are held by their textual form.
#[derive(Debug)]
pub enum JsonValue {
    Null,
    Bool(bool),
    Number(String),
    Str(String),
    Array(Vec<JsonValue>),
    Object(JsonObject),
}

/// A JSON object: string keys, each present at most once, mapped to values.
/// The members are held in a list of entries of the library's own, since
/// `serde_json::Map` can hold only `serde_json::Value`s, not [`JsonValue`]s.
#[derive(Debug)]
pub struct JsonObject {
    entries: Vec<(String, JsonValue)>,
}

/// No key occurs twice among `e`.
pub open spec fn keys_distinct(e: Seq<(String, JsonValue)>) -> bool {
    forall|i: int, j: int| 0 <= i < j < e.len() ==> e[i].0@ != e[j].0@
}

/// The map that a list of entries denotes (a later entry overrides an earlier one).
pub open spec fn entries_map(e: Seq<(String, JsonValue)>) -> Map<Seq<char>, JsonValue>
    decreases e.len(),
{
    if e.len() == 0 {
        Map::empty()
    } else {
        entries_map(e.drop_last()).insert(e.last().0@, e.last().1)
    }
}

impl View for JsonObject {
    type V = Map<Seq<char>, JsonValue>;

    closed spec fn view(&self) -> Map<Seq<char>, JsonValue> {
        entries_map(self.entries@)
    }
}

impl JsonValue {
    /// `self` is the string `s`.
    pub open spec fn is_str_of(self, s: Seq<char>) -> bool {
        self matches JsonValue::Str(x) && x@ == s
    }

    /// The members of `self` if it is an object, else no member.
    pub open spec fn members(self) -> Map<Seq<char>, JsonValue> {
        match self {
            JsonValue::Object(o) => o@,
            _ => Map::empty(),
        }
    }

    /// Whether `self` is an object.
    pub fn is_object(&self) -> (res: bool)
        ensures
            res == (*self is Object),
    {
        match self {
            JsonValue::Object(_) => true,
            _ => false,
        }
    }

    /// The member `key` of `self`, if `self` is an object that has it.
    pub fn get(&self, key: &str) -> (res: Option<&JsonValue>)
        ensures
            res is Some <==> (*self is Object && self.members().dom().contains(key@)),
            res matches Some(v) ==> *v == self.members()[key@],
    {
        match self {
            JsonValue::Object(o) => o.get(key),
            _ => None,
        }
    }

    /// The text of `self`, if `self` is a string.
    pub fn as_str(&self) -> (res: Option<&str>)
        ensures
            res is Some <==> *self is Str,
            res matches Some(s) ==> self.is_str_of(s@),
    {
        match self {
            JsonValue::Str(s) => Some(s.as_str()),
            _ => None,
        }
    }
}

proof fn lemma_distinct_drop_last(e: Seq<(String, JsonValue)>)
    requires
        keys_distinct(e),
        e.len() > 0,
    ensures
        keys_distinct(e.drop_last()),
{
}

/// In distinct entries, the map holds each entry's key with that entry's value.
proof fn lemma_entries_map_at(e: Seq<(String, JsonValue)>, i: int)
    requires
        keys_distinct(e),
        0 <= i < e.len(),
    ensures
        entries_map(e).dom().contains(e[i].0@),
        entries_map(e)[e[i].0@] == e[i].1,
    decreases e.len(),
{
    if i < e.len() - 1 {
        lemma_distinct_drop_last(e);
        lemma_entries_map_at(e.drop_last(), i);
        assert(e.drop_last()[i] == e[i]);
    }
}

/// A key that no entry has is not in the map.
proof fn lemma_entries_map_absent(e: Seq<(String, JsonValue)>, k: Seq<char>)
    requires
        forall|i: int| 0 <= i < e.len() ==> e[i].0@ != k,
    ensures
        !entries_map(e).dom().contains(k),
    decreases e.len(),
{
    if e.len() > 0 {
        assert forall|i: int| 0 <= i < e.drop_last().len() implies e.drop_last()[i].0@ != k by {
            assert(e.drop_last()[i] == e[i]);
        }
        lemma_entries_map_absent(e.drop_last(), k);
    }
}

/// Replacing the value of an entry (keeping its key) updates that key in the map.
proof fn lemma_entries_map_update(e: Seq<(String, JsonValue)>, i: int, k: String, v: JsonValue)
    requires
        keys_distinct(e),
        0 <= i < e.len(),
        k@ == e[i].0@,
    ensures
        keys_distinct(e.update(i, (k, v))),
        entries_map(e.update(i, (k, v))) == entries_map(e).insert(k@, v),
    decreases e.len(),
{
    let u = e.update(i, (k, v));
    assert(keys_distinct(u)) by {
        assert forall|a: int, b: int| 0 <= a < b < u.len() implies u[a].0@ != u[b].0@ by {
            assert(u[a].0@ == e[a].0@);
            assert(u[b].0@ == e[b].0@);
        }
    }
    if i == e.len() - 1 {
        assert(u.drop_last() =~= e.drop_last());
        assert(entries_map(u) =~= entries_map(e).insert(k@, v));
    } else {
        lemma_distinct_drop_last(e);
        lemma_entries_map_update(e.drop_last(), i, k, v);
        assert(u.drop_last() =~= e.drop_last().update(i, (k, v)));
        assert(e.last().0@ != k@);
        assert(entries_map(u) =~= entries_map(e).insert(k@, v));
    }
}

/// Appending an entry with a new key keeps the keys distinct.
proof fn lemma_push_distinct(e: Seq<(String, JsonValue)>, k: String, v: JsonValue)
    requires
        keys_distinct(e),
        forall|i: int| 0 <= i < e.len() ==> e[i].0@ != k@,
    ensures
        keys_distinct(e.push((k, v))),
        entries_map(e.push((k, v))) == entries_map(e).insert(k@, v),
{
    assert(e.push((k, v)).drop_last() =~= e);
}

/// Removing the entry at `i` removes its key from the map.
proof fn lemma_entries_map_remove(e: Seq<(String, JsonValue)>, i: int)
    requires
        keys_distinct(e),
        0 <= i < e.len(),
    ensures
        keys_distinct(e.remove(i)),
        entries_map(e.remove(i)) == entries_map(e).remove(e[i].0@),
    decreases e.len(),
{
    let r = e.remove(i);
    assert(keys_distinct(r)) by {
        assert forall|a: int, b: int| 0 <= a < b < r.len() implies r[a].0@ != r[b].0@ by {
            let a2 = if a < i { a } else { a + 1 };
            let b2 = if b < i { b } else { b + 1 };
            assert(r[a] == e[a2]);
            assert(r[b] == e[b2]);
        }
    }
    let k = e[i].0@;
    if i == e.len() - 1 {
        assert(r =~= e.drop_last());
        lemma_distinct_drop_last(e);
        assert forall|j: int| 0 <= j < r.len() implies r[j].0@ != k by {
            assert(r[j] == e[j]);
        }
        lemma_entries_map_absent(r, k);
        assert(entries_map(r) =~= entries_map(e).remove(k));
    } else {
        lemma_distinct_drop_last(e);
        lemma_entries_map_remove(e.drop_last(), i);
        assert(r.drop_last() =~= e.drop_last().remove(i));
        assert(r.last() == e.last());
        assert(e.last().0@ != k);
        assert(entries_map(r) =~= entries_map(e).remove(k));
    }
}

impl JsonObject {
    #[verifier::type_invariant]
    spec fn wf(self) -> bool {
        keys_distinct(self.entries@)
    }

    /// An object with no member.
    pub fn new() -> (res: JsonObject)
        ensures
            res@ == Map::<Seq<char>, JsonValue>::empty(),
    {
        JsonObject { entries: Vec::new() }
    }

    /// Index of the entry whose key is `key`, if any.
    fn position(&self, key: &String) -> (res: Option<usize>)
        ensures
            res matches Some(i) ==> i < self.entries@.len() && self.entries@[i as int].0@ == key@,
            res is None ==> forall|i: int| 0 <= i < self.entries@.len() ==> self.entries@[i].0@ != key@,
    {
        let n = self.entries.len();
        let mut i: usize = 0;
        while i < n
            invariant
                n == self.entries@.len(),
                i <= n,
                forall|j: int| 0 <= j < i ==> self.entries@[j].0@ != key@,
            decreases n - i,
        {
            if self.entries[i].0 == *key {
                return Some(i);
            }
            i = i + 1;
        }
        None
    }

    /// The value of member `key`, if present.
    pub fn get(&self, key: &str) -> (res: Option<&JsonValue>)
        ensures
            res is Some <==> self@.dom().contains(key@),
            res matches Some(v) ==> *v == self@[key@],
    {
        proof {
            use_type_invariant(self);
        }
        let k = String::from_str(key);
        match self.position(&k) {
            Some(i) => {
                proof {
                    lemma_entries_map_at(self.entries@, i as int);
                }
                Some(&self.entries[i].1)
            },
            None => {
                proof {
                    lemma_entries_map_absent(self.entries@, key@);
                }
                None
            },
        }
    }

    /// Sets member `key` to `value`, replacing any previous value.
    pub fn insert(&mut self, key: String, value: JsonValue)
        ensures
            final(self)@ == old(self)@.insert(key@, value),
    {
        proof {
            use_type_invariant(&*self);
        }
        let mut entries: Vec<(String, JsonValue)> = Vec::new();
        std::mem::swap(&mut entries, &mut self.entries);
        let ghost before = entries@;
        let found = {
            let probe = JsonObject { entries };
            let p = probe.position(&key);
            entries = probe.entries;
            p
        };
        match found {
            Some(i) => {
                proof {
                    lemma_entries_map_update(before, i as int, key, value);
                }
                entries.set(i, (key, value));
            },
            None => {
                proof {
                    lemma_push_distinct(before, key, value);
                }
                entries.push((key, value));
            },
        }
        self.entries = entries;
    }

    /// Removes member `key` and returns its value, if present.
    pub fn remove(&mut self, key: &str) -> (res: Option<JsonValue>)
        ensures
            final(self)@ == old(self)@.remove(key@),
            res is Some <==> old(self)@.dom().contains(key@),
            res matches Some(v) ==> v == old(self)@[key@],
    {
        proof {
            use_type_invariant(&*self);
        }
        let k = String::from_str(key);
        let mut entries: Vec<(String, JsonValue)> = Vec::new();
        std::mem::swap(&mut entries, &mut self.entries);
        let ghost before = entries@;
        let found = {
            let probe = JsonObject { entries };
            let p = probe.position(&k);
            entries = probe.entries;
            p
        };
        match found {
            Some(i) => {
                proof {
                    lemma_entries_map_at(before, i as int);
                    lemma_entries_map_remove(before, i as int);
                }
                let (_, v) = entries.remove(i);
                self.entries = entries;
                Some(v)
            },
            None => {
                proof {
                    lemma_entries_map_absent(before, key@);
                    assert(entries_map(before).remove(key@) =~= entries_map(before));
                }
                self.entries = entries;
                None
            },
        }
    }

    /// Number of members.
    pub fn len(&self) -> (res: usize)
        ensures
            res == self@.len(),
    {
        proof {
            use_type_invariant(self);
            lemma_entries_map_len(self.entries@);
        }
        self.entries.len()
    }

    /// The members as a list of entries, in no particular order.
    pub fn into_entries(self) -> (res: Vec<(String, JsonValue)>)
        ensures
            keys_distinct(res@),
            entries_map(res@) == self@,
    {
        proof {
            use_type_invariant(&self);
        }
        self.entries
    }
}

/// The map of distinct entries has as many keys as there are entries.
proof fn lemma_entries_map_len(e: Seq<(String, JsonValue)>)
    requires
        keys_distinct(e),
    ensures
        entries_map(e).dom().finite(),
        entries_map(e).len() == e.len(),
    decreases e.len(),
{
    if e.len() > 0 {
        lemma_distinct_drop_last(e);
        lemma_entries_map_len(e.drop_last());
        assert forall|j: int| 0 <= j < e.drop_last().len() implies e.drop_last()[j].0@ != e.last().0@ by {
            assert(e.drop_last()[j] == e[j]);
        }
        lemma_entries_map_absent(e.drop_last(), e.last().0@);
    }
}

/// Reading back a write: after a member is set, reading it gives the value
/// written, and every other member reads as before.
pub proof fn lemma_read_after_write(
    before: JsonObject,
    after: JsonObject,
    key: Seq<char>,
    value: JsonValue,
    other: Seq<char>,
)
    requires
        after@ == before@.insert(key, value),
        other != key,
    ensures
        after@.dom().contains(key),
        after@[key] == value,
        after@.dom().contains(other) == before@.dom().contains(other),
        before@.dom().contains(other) ==> after@[other] == before@[other],
{
}

/// Reading back a removal: after a member is removed it is absent, and every
/// other member reads as before.
pub proof fn lemma_read_after_remove(before: JsonObject, after: JsonObject, key: Seq<char>, other: Seq<char>)
    requires
        after@ == before@.remove(key),
        other != key,
    ensures
        !after@.dom().contains(key),
        after@.dom().contains(other) == before@.dom().contains(other),
        before@.dom().contains(other) ==> after@[other] == before@[other],
{
}

} // verus!
