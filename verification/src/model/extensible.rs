//! What every TM Forum payload carries besides its declared members: its
//! class name, and the members a schema extension added.
use vstd::prelude::*;
use indexmap::IndexMap;
use crate::text::str_eq;

verus! {

/// A TM Forum class: the `@type` its payloads declare, and the `@referredType`
/// a reference to it carries.
pub trait TmfType {
    /// The class name, as `@type` spells it.
    const TYPE_NAME: &'static str;
    /// The class a reference to this one declares.
    const REF_TYPE_NAME: &'static str;
}

/// A body that can be sent as a partial update.
pub trait PatchBody {}

/// The `@type` a payload of class `T` declares when none was given.
pub fn default_type<T: TmfType>() -> (r: String)
    ensures
        r@ == T::TYPE_NAME@,
{
    T::TYPE_NAME.to_owned()
}

/// The `@referredType` a reference to class `T` declares when none was given.
pub fn default_ref_type<T: TmfType>() -> (r: String)
    ensures
        r@ == T::REF_TYPE_NAME@,
{
    T::REF_TYPE_NAME.to_owned()
}

#[verifier::external_type_specification]
#[verifier::external_body]
#[verifier::reject_recursive_types(K)]
#[verifier::reject_recursive_types(V)]
#[verifier::reject_recursive_types(S)]
pub struct ExIndexMap<K, V, S>(IndexMap<K, V, S>);

/// The members of a payload beyond those its class declares, in the order
/// they arrived, each value held as its JSON text.
///
/// TMF630 lets any schema be extended; a member this crate does not model is
/// kept here rather than dropped, so relaying a payload keeps it whole.
#[derive(Debug)]
pub struct Extensions {
    map: IndexMap<String, String>,
}

/// What an insertion-ordered map of member names to JSON texts holds: its
/// entries in the map's order, each by its view.
pub uninterp spec fn index_entries(m: IndexMap<String, String>) -> Seq<(Seq<char>, Seq<char>)>;

/// An empty map.
///
/// Wraps `IndexMap::new`, which holds no entries.
#[verifier::external_body]
fn map_new() -> (r: IndexMap<String, String>)
    ensures
        index_entries(r) == Seq::<(Seq<char>, Seq<char>)>::empty(),
{
    IndexMap::new()
}

/// A copy of `m`.
///
/// Wraps `IndexMap::clone`, which copies every entry in its place; a cloned
/// `String` holds the same text.
#[verifier::external_body]
fn map_clone(m: &IndexMap<String, String>) -> (r: IndexMap<String, String>)
    ensures
        index_entries(r) == index_entries(*m),
{
    m.clone()
}

/// How many entries `m` holds.
///
/// Wraps `IndexMap::len`, the number of key-value pairs.
#[verifier::external_body]
fn map_len(m: &IndexMap<String, String>) -> (r: usize)
    ensures
        r == index_entries(*m).len(),
{
    m.len()
}

/// The text stored under `key`, copied.
///
/// Wraps `IndexMap::get`, the value of the entry whose key equals `key`, if
/// there is one; a map holds each key at most once.
#[verifier::external_body]
fn map_get(m: &IndexMap<String, String>, key: &str) -> (r: Option<String>)
    requires
        keys_distinct(index_entries(*m)),
    ensures
        r matches Some(v) ==> lookup(index_entries(*m), key@) == Some(v@),
        r is None ==> lookup(index_entries(*m), key@) is None,
{
    m.get(key).cloned()
}

/// The entry at position `i`, copied; `None` past the end.
///
/// Wraps `IndexMap::get_index`, the key-value pair at that position in the
/// map's order.
#[verifier::external_body]
fn map_entry(m: &IndexMap<String, String>, i: usize) -> (r: Option<(String, String)>)
    ensures
        r matches Some(p) ==> i < index_entries(*m).len() && p.0@ == index_entries(*m)[i as int].0
            && p.1@ == index_entries(*m)[i as int].1,
        r is None ==> i >= index_entries(*m).len(),
{
    m.get_index(i).map(|(k, v)| (k.clone(), v.clone()))
}

/// Stores `value` under `key`, returning the text it replaced.
///
/// Wraps `IndexMap::insert`: a key already present keeps its place and
/// takes the new value, the old one returned; a new key goes last and
/// `None` is returned.
#[verifier::external_body]
fn map_insert(m: &mut IndexMap<String, String>, key: String, value: String) -> (r: Option<String>)
    requires
        keys_distinct(index_entries(*old(m))),
    ensures
        match key_index(index_entries(*old(m)), key@) {
            Some(i) => r matches Some(v) && v@ == index_entries(*old(m))[i].1 && index_entries(
                *final(m),
            ) == index_entries(*old(m)).update(i, (key@, value@)),
            None => index_entries(*final(m)) == index_entries(*old(m)).push((key@, value@))
                && r is None,
        },
{
    m.insert(key, value)
}

/// Removes the entry under `key`, returning its text.
///
/// Wraps `IndexMap::shift_remove`: the entry is taken out and those after
/// it shift down, keeping their order; `None` when `key` is absent, the map
/// unchanged.
#[verifier::external_body]
fn map_shift_remove(m: &mut IndexMap<String, String>, key: &str) -> (r: Option<String>)
    requires
        keys_distinct(index_entries(*old(m))),
    ensures
        match key_index(index_entries(*old(m)), key@) {
            Some(i) => r matches Some(v) && v@ == index_entries(*old(m))[i].1 && index_entries(
                *final(m),
            ) == index_entries(*old(m)).remove(i),
            None => index_entries(*final(m)) == index_entries(*old(m)) && r is None,
        },
{
    m.shift_remove(key)
}

impl Clone for Extensions {
    fn clone(&self) -> (r: Self)
        ensures
            r@ == self@,
    {
        proof {
            use_type_invariant(self);
        }
        Extensions { map: map_clone(&self.map) }
    }
}

/// The position of `key` among the entries, if it is there.
pub open spec fn key_index(entries: Seq<(Seq<char>, Seq<char>)>, key: Seq<char>) -> Option<int> {
    if exists|i: int| 0 <= i < entries.len() && #[trigger] entries[i].0 == key {
        Some(choose|i: int| 0 <= i < entries.len() && #[trigger] entries[i].0 == key)
    } else {
        None
    }
}

/// No key occurs twice.
pub open spec fn keys_distinct(entries: Seq<(Seq<char>, Seq<char>)>) -> bool {
    forall|i: int, j: int|
        0 <= i < entries.len() && 0 <= j < entries.len() && i != j ==> #[trigger] entries[i].0
            != #[trigger] entries[j].0
}

/// The value stored under `key`.
pub open spec fn lookup(entries: Seq<(Seq<char>, Seq<char>)>, key: Seq<char>) -> Option<Seq<char>> {
    match key_index(entries, key) {
        Some(i) => Some(entries[i].1),
        None => None,
    }
}

/// With no key twice, each entry is found at its own place.
proof fn lemma_found_in_place(entries: Seq<(Seq<char>, Seq<char>)>, j: int)
    requires
        keys_distinct(entries),
        0 <= j < entries.len(),
    ensures
        key_index(entries, entries[j].0) == Some(j),
        lookup(entries, entries[j].0) == Some(entries[j].1),
{
    let k = entries[j].0;
    let i = choose|i: int| 0 <= i < entries.len() && #[trigger] entries[i].0 == k;
    if i != j {
        assert(entries[i].0 != entries[j].0);
    }
}

/// The entries as character sequences.
pub open spec fn entries_view(v: Seq<(String, String)>) -> Seq<(Seq<char>, Seq<char>)> {
    Seq::new(v.len(), |i: int| (v[i].0@, v[i].1@))
}

impl View for Extensions {
    type V = Seq<(Seq<char>, Seq<char>)>;

    closed spec fn view(&self) -> Seq<(Seq<char>, Seq<char>)> {
        index_entries(self.map)
    }
}

/// What the value under a key becomes when the entries change by `update`
/// at the key's own place: the new value there, every other key unchanged.
proof fn lemma_update_in_place(
    before: Seq<(Seq<char>, Seq<char>)>,
    i: int,
    key: Seq<char>,
    value: Seq<char>,
)
    requires
        keys_distinct(before),
        0 <= i < before.len(),
        before[i].0 == key,
    ensures
        keys_distinct(before.update(i, (key, value))),
        lookup(before.update(i, (key, value)), key) == Some(value),
        forall|k: Seq<char>| k != key ==> lookup(before.update(i, (key, value)), k) == lookup(before, k),
{
    let after = before.update(i, (key, value));
    assert forall|a: int, b: int|
        0 <= a < after.len() && 0 <= b < after.len() && a != b implies #[trigger] after[a].0
        != #[trigger] after[b].0 by {
        assert(after[a].0 == before[a].0);
        assert(after[b].0 == before[b].0);
    }
    lemma_found_in_place(after, i);
    assert forall|k: Seq<char>| k != key implies lookup(after, k) == lookup(before, k) by {
        if let Some(j) = key_index(before, k) {
            lemma_found_in_place(before, j);
            lemma_found_in_place(after, j);
        } else if let Some(j) = key_index(after, k) {
            assert(after[j] == before[j]);
        }
    }
}

/// What the value under a key becomes when an absent key is appended.
proof fn lemma_append_new(before: Seq<(Seq<char>, Seq<char>)>, key: Seq<char>, value: Seq<char>)
    requires
        keys_distinct(before),
        key_index(before, key) is None,
    ensures
        keys_distinct(before.push((key, value))),
        lookup(before.push((key, value)), key) == Some(value),
        forall|k: Seq<char>| k != key ==> lookup(before.push((key, value)), k) == lookup(before, k),
{
    let after = before.push((key, value));
    let n = before.len() as int;
    assert forall|a: int, b: int|
        0 <= a < after.len() && 0 <= b < after.len() && a != b implies #[trigger] after[a].0
        != #[trigger] after[b].0 by {
        if a < n {
            assert(after[a] == before[a]);
        }
        if b < n {
            assert(after[b] == before[b]);
        }
    }
    lemma_found_in_place(after, n);
    assert forall|k: Seq<char>| k != key implies lookup(after, k) == lookup(before, k) by {
        if let Some(j) = key_index(before, k) {
            lemma_found_in_place(before, j);
            assert(after[j] == before[j]);
            lemma_found_in_place(after, j);
        } else if let Some(j) = key_index(after, k) {
            if j < n {
                assert(after[j] == before[j]);
            }
        }
    }
}

/// What the value under a key becomes when its entry is removed, the rest
/// shifting down.
proof fn lemma_remove_in_place(before: Seq<(Seq<char>, Seq<char>)>, i: int, key: Seq<char>)
    requires
        keys_distinct(before),
        0 <= i < before.len(),
        before[i].0 == key,
    ensures
        keys_distinct(before.remove(i)),
        lookup(before.remove(i), key) is None,
        forall|k: Seq<char>| k != key ==> lookup(before.remove(i), k) == lookup(before, k),
{
    let after = before.remove(i);
    assert forall|a: int, b: int|
        0 <= a < after.len() && 0 <= b < after.len() && a != b implies #[trigger] after[a].0
        != #[trigger] after[b].0 by {
        let a2 = if a < i { a } else { a + 1 };
        let b2 = if b < i { b } else { b + 1 };
        assert(after[a] == before[a2]);
        assert(after[b] == before[b2]);
    }
    if let Some(j) = key_index(after, key) {
        let j2 = if j < i { j } else { j + 1 };
        assert(after[j] == before[j2]);
    }
    assert forall|k: Seq<char>| k != key implies lookup(after, k) == lookup(before, k) by {
        if let Some(j) = key_index(before, k) {
            lemma_found_in_place(before, j);
            assert(j != i);
            let j2 = if j < i { j } else { j - 1 };
            assert(after[j2] == before[j]);
            lemma_found_in_place(after, j2);
        } else if let Some(j) = key_index(after, k) {
            let j2 = if j < i { j } else { j + 1 };
            assert(after[j] == before[j2]);
        }
    }
}

impl Extensions {
    #[verifier::type_invariant]
    spec fn distinct(&self) -> bool {
        keys_distinct(self@)
    }

    /// No extension members.
    pub fn new() -> (r: Self)
        ensures
            r@.len() == 0,
    {
        Extensions { map: map_new() }
    }

    /// Whether there are none.
    pub fn is_empty(&self) -> (r: bool)
        ensures
            r == (self@.len() == 0),
    {
        map_len(&self.map) == 0
    }

    /// How many members there are.
    pub fn len(&self) -> (r: usize)
        ensures
            r == self@.len(),
    {
        map_len(&self.map)
    }

    /// The JSON text of the member named `key`.
    pub fn get(&self, key: &str) -> (r: Option<String>)
        ensures
            r matches Some(v) ==> lookup(self@, key@) == Some(v@),
            r is None ==> lookup(self@, key@) is None,
    {
        proof {
            use_type_invariant(self);
        }
        map_get(&self.map, key)
    }

    /// Sets the member `key` to the JSON text `value`, returning what it
    /// held. A new key goes last; an existing one keeps its place.
    pub fn insert(&mut self, key: String, value: String) -> (r: Option<String>)
        ensures
            lookup(final(self)@, key@) == Some(value@),
            forall|k: Seq<char>| k != key@ ==> lookup(final(self)@, k) == lookup(old(self)@, k),
            r matches Some(v) ==> lookup(old(self)@, key@) == Some(v@),
            r is None ==> lookup(old(self)@, key@) is None,
            key_index(old(self)@, key@) matches Some(i) ==> final(self)@ == old(self)@.update(
                i,
                (key@, value@),
            ),
            key_index(old(self)@, key@) is None ==> final(self)@ == old(self)@.push((key@, value@)),
    {
        proof {
            use_type_invariant(&*self);
        }
        let ghost before = self@;
        let ghost kv = key@;
        let ghost vv = value@;
        let mut m = map_new();
        std::mem::swap(&mut m, &mut self.map);
        let r = map_insert(&mut m, key, value);
        proof {
            match key_index(before, kv) {
                Some(i) => {
                    lemma_update_in_place(before, i, kv, vv);
                },
                None => {
                    lemma_append_new(before, kv, vv);
                },
            }
        }
        self.map = m;
        r
    }

    /// Removes the member `key`, returning what it held; the others keep
    /// their order.
    pub fn remove(&mut self, key: &str) -> (r: Option<String>)
        ensures
            lookup(final(self)@, key@) is None,
            forall|k: Seq<char>| k != key@ ==> lookup(final(self)@, k) == lookup(old(self)@, k),
            r matches Some(v) ==> lookup(old(self)@, key@) == Some(v@),
            r is None ==> lookup(old(self)@, key@) is None,
            key_index(old(self)@, key@) matches Some(i) ==> final(self)@ == old(self)@.remove(i),
            key_index(old(self)@, key@) is None ==> final(self)@ == old(self)@,
    {
        proof {
            use_type_invariant(&*self);
        }
        let ghost before = self@;
        let mut m = map_new();
        std::mem::swap(&mut m, &mut self.map);
        let r = map_shift_remove(&mut m, key);
        proof {
            if let Some(i) = key_index(before, key@) {
                lemma_remove_in_place(before, i, key@);
            }
        }
        self.map = m;
        r
    }

    /// The members, names and JSON texts, in order.
    pub fn iter(&self) -> (r: Vec<(String, String)>)
        ensures
            entries_view(r@) == self@,
    {
        let n = map_len(&self.map);
        let mut out: Vec<(String, String)> = Vec::new();
        let mut i: usize = 0;
        while i < n
            invariant
                n == self@.len(),
                i <= n,
                entries_view(out@) == self@.take(i as int),
            decreases n - i,
        {
            let ghost before = out@;
            match map_entry(&self.map, i) {
                Some(p) => {
                    out.push(p);
                },
                None => {},
            }
            assert(entries_view(out@) =~= entries_view(before).push(self@[i as int]));
            assert(self@.take(i + 1) =~= self@.take(i as int).push(self@[i as int]));
            i = i + 1;
        }
        assert(self@.take(i as int) =~= self@);
        out
    }

    /// Whether every member of `self` is a member of `other` with the same
    /// value, and the other way round: the same members, in any order.
    pub fn same_members(&self, other: &Extensions) -> (r: bool)
        ensures
            r == (forall|k: Seq<char>| lookup(self@, k) == lookup(other@, k)),
    {
        proof {
            use_type_invariant(self);
            use_type_invariant(other);
        }
        let covered = self.within(other);
        let covering = other.within(self);
        proof {
            if covered && covering {
                assert forall|k: Seq<char>| lookup(self@, k) == lookup(other@, k) by {
                    if let Some(j) = key_index(self@, k) {
                        lemma_found_in_place(self@, j);
                    } else if let Some(j) = key_index(other@, k) {
                        lemma_found_in_place(other@, j);
                    }
                }
            } else if !covered {
                let j = choose|j: int|
                    0 <= j < self@.len() && lookup(other@, #[trigger] self@[j].0) != Some(self@[j].1);
                lemma_found_in_place(self@, j);
            } else {
                let j = choose|j: int|
                    0 <= j < other@.len() && lookup(self@, #[trigger] other@[j].0) != Some(other@[j].1);
                lemma_found_in_place(other@, j);
            }
        }
        covered && covering
    }

    /// Whether each member of `self` is in `other` with the same value.
    fn within(&self, other: &Extensions) -> (r: bool)
        ensures
            r == (forall|j: int|
                0 <= j < self@.len() ==> lookup(other@, #[trigger] self@[j].0) == Some(self@[j].1)),
    {
        let n = map_len(&self.map);
        let mut i: usize = 0;
        while i < n
            invariant
                n == self@.len(),
                i <= n,
                forall|j: int|
                    0 <= j < i ==> lookup(other@, #[trigger] self@[j].0) == Some(self@[j].1),
            decreases n - i,
        {
            let same = match map_entry(&self.map, i) {
                Some(p) => match other.get(p.0.as_str()) {
                    Some(v) => str_eq(v.as_str(), p.1.as_str()),
                    None => false,
                },
                None => false,
            };
            if !same {
                assert(lookup(other@, self@[i as int].0) != Some(self@[i as int].1));
                return false;
            }
            i = i + 1;
        }
        true
    }

    /// The member names, in order.
    pub fn keys(&self) -> (r: Vec<String>)
        ensures
            r@.len() == self@.len(),
            forall|i: int| 0 <= i < r@.len() ==> #[trigger] r@[i]@ == self@[i].0,
    {
        let n = map_len(&self.map);
        let mut out: Vec<String> = Vec::new();
        let mut i: usize = 0;
        while i < n
            invariant
                n == self@.len(),
                i <= n,
                out@.len() == i,
                forall|j: int| 0 <= j < i ==> #[trigger] out@[j]@ == self@[j].0,
            decreases n - i,
        {
            match map_entry(&self.map, i) {
                Some(p) => out.push(p.0),
                None => {},
            }
            i = i + 1;
        }
        out
    }
}

} // verus!
