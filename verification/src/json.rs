//! The JSON values that requests carry and responses return.
//!
//! An object is a list of `(key, value)` entries. A lookup finds the first
//! entry with the key; [`object_insert`] replaces the value of an existing key
//! in place and appends a new key at the end, so objects built with it never
//! hold a key twice.
use vstd::prelude::*;

use crate::text::{owned, str_eq};

verus! {

/// A JSON number: a non-negative integer, a negative integer, or a number
/// with a fraction or exponent, kept as its decimal text.
#[derive(Debug, Clone, PartialEq)]
pub enum Number {
    Unsigned(u64),
    Negative(i64),
    Real(String),
}

/// A JSON value.
#[derive(Debug, PartialEq)]
pub enum Json {
    Null,
    Bool(bool),
    Number(Number),
    Str(String),
    Array(Vec<Json>),
    Object(Vec<(String, Json)>),
}

/// The value of the first entry of `es` whose key is `key`.
pub open spec fn lookup(es: Seq<(String, Json)>, key: Seq<char>) -> Option<Json>
    decreases es.len(),
{
    if es.len() == 0 {
        None
    } else if es[0].0@ == key {
        Some(es[0].1)
    } else {
        lookup(es.drop_first(), key)
    }
}

/// No key occurs twice in `es`.
pub open spec fn keys_unique(es: Seq<(String, Json)>) -> bool {
    forall|i: int, j: int| 0 <= i < es.len() && 0 <= j < es.len() && i != j ==> es[i].0@ != es[j].0@
}

/// `i` is the first index of `key` in `es`.
pub open spec fn first_index(es: Seq<(String, Json)>, key: Seq<char>, i: int) -> bool {
    &&& 0 <= i < es.len()
    &&& es[i].0@ == key
    &&& forall|j: int| 0 <= j < i ==> es[j].0@ != key
}

/// `key` occurs in `es`.
pub open spec fn has_key(es: Seq<(String, Json)>, key: Seq<char>) -> bool {
    exists|i: int| 0 <= i < es.len() && es[i].0@ == key
}

pub proof fn lemma_lookup_first(es: Seq<(String, Json)>, key: Seq<char>, i: int)
    requires
        first_index(es, key, i),
    ensures
        lookup(es, key) == Some(es[i].1),
    decreases i,
{
    if i > 0 {
        let t = es.drop_first();
        assert(first_index(t, key, i - 1)) by {
            assert forall|j: int| 0 <= j < i - 1 implies t[j].0@ != key by {
                assert(t[j] == es[j + 1]);
            }
        }
        lemma_lookup_first(t, key, i - 1);
    }
}

pub proof fn lemma_lookup_absent(es: Seq<(String, Json)>, key: Seq<char>)
    requires
        !has_key(es, key),
    ensures
        lookup(es, key) is None,
    decreases es.len(),
{
    if es.len() > 0 {
        let t = es.drop_first();
        assert(!has_key(t, key)) by {
            if has_key(t, key) {
                let i = choose|i: int| 0 <= i < t.len() && t[i].0@ == key;
                assert(es[i + 1] == t[i]);
            }
        }
        lemma_lookup_absent(t, key);
    }
}

/// Looking a key up in `es` finds its first index, if it has one.
pub proof fn lemma_lookup_some(es: Seq<(String, Json)>, key: Seq<char>)
    ensures
        lookup(es, key) is Some <==> has_key(es, key),
        lookup(es, key) matches Some(v) ==> exists|i: int| first_index(es, key, i) && es[i].1 == v,
    decreases es.len(),
{
    if es.len() > 0 {
        let t = es.drop_first();
        lemma_lookup_some(t, key);
        if es[0].0@ == key {
            assert(first_index(es, key, 0));
        } else {
            if has_key(t, key) {
                let i = choose|i: int| 0 <= i < t.len() && t[i].0@ == key;
                assert(es[i + 1] == t[i]);
            }
            if has_key(es, key) {
                let i = choose|i: int| 0 <= i < es.len() && es[i].0@ == key;
                assert(t[i - 1] == es[i]);
            }
            if lookup(t, key) is Some {
                let i = choose|i: int| first_index(t, key, i) && t[i].1 == lookup(t, key)->0;
                assert(first_index(es, key, i + 1)) by {
                    assert forall|j: int| 0 <= j < i + 1 implies es[j].0@ != key by {
                        if j > 0 {
                            assert(es[j] == t[j - 1]);
                        }
                    }
                }
            }
        }
    }
}

/// Removing the entry at the first index of `key` leaves the lookups of every
/// other key as they were.
pub proof fn lemma_lookup_remove_other(es: Seq<(String, Json)>, key: Seq<char>, i: int, other: Seq<char>)
    requires
        first_index(es, key, i),
        other != key,
    ensures
        lookup(es.remove(i), other) == lookup(es, other),
{
    let r = es.remove(i);
    lemma_lookup_some(es, other);
    lemma_lookup_some(r, other);
    if lookup(es, other) is Some {
        let k = choose|k: int| first_index(es, other, k) && es[k].1 == lookup(es, other)->0;
        let k2 = if k < i { k } else { k - 1 };
        assert(first_index(r, other, k2)) by {
            assert forall|j: int| 0 <= j < k2 implies r[j].0@ != other by {
                if j < i {
                    assert(r[j] == es[j]);
                } else {
                    assert(r[j] == es[j + 1]);
                }
            }
        }
        lemma_lookup_first(r, other, k2);
    } else {
        assert(!has_key(r, other)) by {
            if has_key(r, other) {
                let j = choose|j: int| 0 <= j < r.len() && r[j].0@ == other;
                if j < i {
                    assert(r[j] == es[j]);
                } else {
                    assert(r[j] == es[j + 1]);
                }
            }
        }
        lemma_lookup_absent(r, other);
    }
}

impl Json {
    /// The value under `key` when `self` is an object that has it.
    pub open spec fn field(self, key: Seq<char>) -> Option<Json> {
        match self {
            Json::Object(es) => lookup(es@, key),
            _ => None,
        }
    }

    /// The text of `self` when it is a string.
    pub open spec fn text(self) -> Option<Seq<char>> {
        match self {
            Json::Str(s) => Some(s@),
            _ => None,
        }
    }

    /// The text under `key`, when `self` is an object whose value there is a string.
    pub open spec fn str_field(self, key: Seq<char>) -> Option<Seq<char>> {
        match self.field(key) {
            Some(v) => v.text(),
            None => None,
        }
    }

    /// The value of `self` as an unsigned integer, as `serde_json`'s `as_u64` reads it.
    pub open spec fn unsigned(self) -> Option<u64> {
        match self {
            Json::Number(Number::Unsigned(n)) => Some(n),
            _ => None,
        }
    }

    /// The value of `self` when it is a boolean.
    pub open spec fn boolean(self) -> Option<bool> {
        match self {
            Json::Bool(b) => Some(b),
            _ => None,
        }
    }

    /// The elements of `self` when it is an array.
    pub open spec fn elements(self) -> Option<Seq<Json>> {
        match self {
            Json::Array(v) => Some(v@),
            _ => None,
        }
    }

    /// An object with no entries.
    pub fn empty_object() -> (r: Json)
        ensures
            r matches Json::Object(es) && es@.len() == 0,
            forall|k: Seq<char>| #[trigger] r.field(k) is None,
    {
        let r = Json::Object(Vec::new());
        proof {
            assert forall|k: Seq<char>| #[trigger] r.field(k) is None by {
                reveal_with_fuel(lookup, 1);
            }
        }
        r
    }

    /// A string value holding the characters of `s`.
    pub fn string(s: &str) -> (r: Json)
        ensures
            r.text() == Some(s@),
    {
        Json::Str(owned(s))
    }

    /// The value under `key` (`serde_json::Value::get` with a string index).
    pub fn get(&self, key: &str) -> (r: Option<&Json>)
        ensures
            r is Some <==> self.field(key@) is Some,
            r matches Some(v) ==> self.field(key@) == Some(*v),
    {
        match self {
            Json::Object(es) => {
                match find_key(es, key) {
                    Some(i) => {
                        proof {
                            lemma_lookup_first(es@, key@, i as int);
                        }
                        Some(&es[i].1)
                    },
                    None => {
                        proof {
                            lemma_lookup_absent(es@, key@);
                        }
                        None
                    },
                }
            },
            _ => None,
        }
    }

    /// The text of `self` when it is a string (`as_str`).
    pub fn as_str(&self) -> (r: Option<&str>)
        ensures
            r is Some <==> self.text() is Some,
            r matches Some(s) ==> self.text() == Some(s@),
    {
        match self {
            Json::Str(s) => Some(s.as_str()),
            _ => None,
        }
    }

    /// The elements of `self` when it is an array (`as_array`).
    pub fn as_array(&self) -> (r: Option<&Vec<Json>>)
        ensures
            r is Some <==> self.elements() is Some,
            r matches Some(v) ==> self.elements() == Some(v@),
    {
        match self {
            Json::Array(v) => Some(v),
            _ => None,
        }
    }

    /// `self` as a boolean (`as_bool`).
    pub fn as_bool(&self) -> (r: Option<bool>)
        ensures
            r == self.boolean(),
    {
        match self {
            Json::Bool(b) => Some(*b),
            _ => None,
        }
    }

    /// `self` as an unsigned integer (`as_u64`).
    pub fn as_u64(&self) -> (r: Option<u64>)
        ensures
            r == self.unsigned(),
    {
        match self {
            Json::Number(Number::Unsigned(n)) => Some(*n),
            _ => None,
        }
    }

    /// The text under `key` when the value there is a string.
    pub fn get_str(&self, key: &str) -> (r: Option<&str>)
        ensures
            r is Some <==> self.str_field(key@) is Some,
            r matches Some(s) ==> self.str_field(key@) == Some(s@),
    {
        match self.get(key) {
            Some(v) => v.as_str(),
            None => None,
        }
    }
}

/// The first index of `key` among the entries.
pub fn find_key(es: &Vec<(String, Json)>, key: &str) -> (r: Option<usize>)
    ensures
        r matches Some(i) ==> first_index(es@, key@, i as int),
        r is None ==> !has_key(es@, key@),
{
    let mut i: usize = 0;
    while i < es.len()
        invariant
            i <= es.len(),
            forall|j: int| 0 <= j < i ==> es@[j].0@ != key@,
        decreases es.len() - i,
    {
        if str_eq(es[i].0.as_str(), key) {
            return Some(i);
        }
        i = i + 1;
    }
    None
}

/// Removes the entry of `key` and hands back its value; every other key keeps
/// its value.
pub fn take_field(es: &mut Vec<(String, Json)>, key: &str) -> (r: Option<Json>)
    ensures
        r == lookup(old(es)@, key@),
        forall|k: Seq<char>| k != key@ ==> #[trigger] lookup(final(es)@, k) == lookup(old(es)@, k),
{
    match find_key(es, key) {
        Some(i) => {
            proof {
                lemma_lookup_first(es@, key@, i as int);
                assert forall|k: Seq<char>| k != key@ implies #[trigger] lookup(es@.remove(i as int), k)
                    == lookup(es@, k) by {
                    lemma_lookup_remove_other(es@, key@, i as int, k);
                }
            }
            let entry = es.remove(i);
            Some(entry.1)
        },
        None => {
            proof {
                lemma_lookup_absent(es@, key@);
            }
            None
        },
    }
}

/// `serde_json::Map::insert`: the value of an existing key is replaced where it
/// stands, a new key goes at the end.
pub fn object_insert(es: &mut Vec<(String, Json)>, key: String, value: Json)
    ensures
        lookup(final(es)@, key@) == Some(value),
        forall|k: Seq<char>| k != key@ ==> #[trigger] lookup(final(es)@, k) == lookup(old(es)@, k),
        keys_unique(old(es)@) ==> keys_unique(final(es)@),
        has_key(old(es)@, key@) ==> final(es)@.len() == old(es)@.len(),
        !has_key(old(es)@, key@) ==> final(es)@ == old(es)@.push((key, value)),
{
    let ghost old_es = es@;
    match find_key(es, key.as_str()) {
        Some(i) => {
            let ghost k0 = es@[i as int].0;
            es.set(i, (key, value));
            proof {
                let n = es@;
                assert(first_index(n, key@, i as int)) by {
                    assert forall|j: int| 0 <= j < i implies n[j].0@ != key@ by {
                        assert(n[j] == old_es[j]);
                    }
                }
                lemma_lookup_first(n, key@, i as int);
                assert forall|k: Seq<char>| k != key@ implies #[trigger] lookup(n, k) == lookup(
                    old_es,
                    k,
                ) by {
                    lemma_lookup_some(n, k);
                    lemma_lookup_some(old_es, k);
                    if lookup(old_es, k) is Some {
                        let m = choose|m: int|
                            first_index(old_es, k, m) && old_es[m].1 == lookup(old_es, k)->0;
                        assert(m != i);
                        assert(first_index(n, k, m)) by {
                            assert forall|j: int| 0 <= j < m implies n[j].0@ != k by {
                                if j != i {
                                    assert(n[j] == old_es[j]);
                                }
                            }
                        }
                        lemma_lookup_first(n, k, m);
                    } else {
                        assert(!has_key(n, k)) by {
                            if has_key(n, k) {
                                let j = choose|j: int| 0 <= j < n.len() && n[j].0@ == k;
                                assert(j != i);
                                assert(n[j] == old_es[j]);
                            }
                        }
                        lemma_lookup_absent(n, k);
                    }
                }
                assert(keys_unique(old_es) ==> keys_unique(n)) by {
                    if keys_unique(old_es) {
                        assert forall|a: int, b: int|
                            0 <= a < n.len() && 0 <= b < n.len() && a != b implies n[a].0@
                            != n[b].0@ by {
                            if a != i && b != i {
                                assert(n[a] == old_es[a] && n[b] == old_es[b]);
                            } else if a == i {
                                assert(n[b] == old_es[b]);
                                assert(old_es[i as int].0@ == key@);
                            } else {
                                assert(n[a] == old_es[a]);
                                assert(old_es[i as int].0@ == key@);
                            }
                        }
                    }
                }
            }
        },
        None => {
            let ghost kv = key@;
            es.push((key, value));
            proof {
                let n = es@;
                assert(first_index(n, kv, old_es.len() as int)) by {
                    assert forall|j: int| 0 <= j < old_es.len() implies n[j].0@ != kv by {
                        assert(n[j] == old_es[j]);
                    }
                }
                lemma_lookup_first(n, kv, old_es.len() as int);
                assert forall|k: Seq<char>| k != kv implies #[trigger] lookup(n, k) == lookup(
                    old_es,
                    k,
                ) by {
                    lemma_lookup_some(n, k);
                    lemma_lookup_some(old_es, k);
                    if lookup(old_es, k) is Some {
                        let m = choose|m: int|
                            first_index(old_es, k, m) && old_es[m].1 == lookup(old_es, k)->0;
                        assert(first_index(n, k, m)) by {
                            assert forall|j: int| 0 <= j < m implies n[j].0@ != k by {
                                assert(n[j] == old_es[j]);
                            }
                        }
                        lemma_lookup_first(n, k, m);
                    } else {
                        assert(!has_key(n, k)) by {
                            if has_key(n, k) {
                                let j = choose|j: int| 0 <= j < n.len() && n[j].0@ == k;
                                assert(j != old_es.len());
                                assert(n[j] == old_es[j]);
                            }
                        }
                        lemma_lookup_absent(n, k);
                    }
                }
                assert(keys_unique(old_es) ==> keys_unique(n)) by {
                    if keys_unique(old_es) {
                        assert forall|a: int, b: int|
                            0 <= a < n.len() && 0 <= b < n.len() && a != b implies n[a].0@
                            != n[b].0@ by {
                            if a < old_es.len() && b < old_es.len() {
                                assert(n[a] == old_es[a] && n[b] == old_es[b]);
                            } else if a < old_es.len() {
                                assert(n[a] == old_es[a]);
                            } else {
                                assert(n[b] == old_es[b]);
                            }
                        }
                    }
                }
            }
        },
    }
}

} // verus!
