//! Lists of `(name, value)` entries kept sorted by name.
//!
//! Query parameters are rendered in a stable order: sorted by name, each name
//! once. The entry lists here keep that order as an invariant, and their
//! meaning is the map from each name to its value.
use vstd::prelude::*;
use crate::text::{
    chars_lt, lemma_chars_lt_irreflexive, lemma_chars_lt_transitive, lemma_chars_lt_trichotomy,
    rank_chars, Rank,
};

verus! {

/// The names of `s` strictly increase: sorted, and none repeated.
pub open spec fn sorted_keys<V>(s: Seq<(Seq<char>, V)>) -> bool {
    forall|i: int, j: int| 0 <= i < j < s.len() ==> chars_lt(#[trigger] s[i].0, #[trigger] s[j].0)
}

/// Whether some entry of `s` is named `k`.
pub open spec fn has_key<V>(s: Seq<(Seq<char>, V)>, k: Seq<char>) -> bool {
    exists|i: int| 0 <= i < s.len() && #[trigger] s[i].0 == k
}

/// The map an entry list stands for.
pub open spec fn entry_map<V>(s: Seq<(Seq<char>, V)>) -> Map<Seq<char>, V> {
    Map::new(
        |k: Seq<char>| has_key(s, k),
        |k: Seq<char>| s[choose|i: int| 0 <= i < s.len() && #[trigger] s[i].0 == k].1,
    )
}

/// In a sorted list, the entry at `i` is what the map holds for its name.
pub proof fn lemma_entry_map_at<V>(s: Seq<(Seq<char>, V)>, i: int)
    requires
        sorted_keys(s),
        0 <= i < s.len(),
    ensures
        entry_map(s).contains_key(s[i].0),
        entry_map(s)[s[i].0] == s[i].1,
{
    let k = s[i].0;
    assert(has_key(s, k));
    let j = choose|j: int| 0 <= j < s.len() && #[trigger] s[j].0 == k;
    lemma_chars_lt_irreflexive(k);
    if j < i {
        assert(chars_lt(s[j].0, s[i].0));
    } else if i < j {
        assert(chars_lt(s[i].0, s[j].0));
    }
}

/// Two sorted lists standing for the same map are the same list.
pub proof fn lemma_sorted_unique<V>(a: Seq<(Seq<char>, V)>, b: Seq<(Seq<char>, V)>)
    requires
        sorted_keys(a),
        sorted_keys(b),
        entry_map(a) == entry_map(b),
    ensures
        a == b,
    decreases a.len(),
{
    if a.len() == 0 {
        if b.len() > 0 {
            lemma_entry_map_at(b, 0);
            assert(!entry_map(a).contains_key(b[0].0));
        }
        assert(a =~= b);
    } else if b.len() == 0 {
        lemma_entry_map_at(a, 0);
        assert(!entry_map(b).contains_key(a[0].0));
    } else {
        // The last entries carry the greatest names, so they agree.
        let la = a.len() - 1;
        let lb = b.len() - 1;
        lemma_entry_map_at(a, la);
        lemma_entry_map_at(b, lb);
        let ka = a[la].0;
        let kb = b[lb].0;
        assert(entry_map(b).contains_key(ka));
        let ib = choose|i: int| 0 <= i < b.len() && #[trigger] b[i].0 == ka;
        assert(entry_map(a).contains_key(kb));
        let ia = choose|i: int| 0 <= i < a.len() && #[trigger] a[i].0 == kb;
        lemma_chars_lt_irreflexive(ka);
        lemma_chars_lt_irreflexive(kb);
        if ka != kb {
            lemma_chars_lt_trichotomy(ka, kb);
            if ia < la {
                assert(chars_lt(a[ia].0, a[la].0));
            }
            if ib < lb {
                assert(chars_lt(b[ib].0, b[lb].0));
            }
            assert(false);
        }
        lemma_entry_map_at(a, la);
        lemma_entry_map_at(b, lb);
        let a2 = a.drop_last();
        let b2 = b.drop_last();
        assert(sorted_keys(a2));
        assert(sorted_keys(b2));
        assert forall|k: Seq<char>| #[trigger] has_key(a2, k) == has_key(b2, k) by {
            if has_key(a2, k) {
                let i = choose|i: int| 0 <= i < a2.len() && #[trigger] a2[i].0 == k;
                lemma_entry_map_at(a, i);
                assert(chars_lt(a[i].0, a[la].0));
                assert(entry_map(b).contains_key(k));
                let j = choose|j: int| 0 <= j < b.len() && #[trigger] b[j].0 == k;
                if j == lb {
                    lemma_chars_lt_irreflexive(k);
                }
                assert(b2[j].0 == k);
            }
            if has_key(b2, k) {
                let i = choose|i: int| 0 <= i < b2.len() && #[trigger] b2[i].0 == k;
                lemma_entry_map_at(b, i);
                assert(chars_lt(b[i].0, b[lb].0));
                assert(entry_map(a).contains_key(k));
                let j = choose|j: int| 0 <= j < a.len() && #[trigger] a[j].0 == k;
                if j == la {
                    lemma_chars_lt_irreflexive(k);
                }
                assert(a2[j].0 == k);
            }
        }
        assert forall|k: Seq<char>| has_key(a2, k) implies entry_map(a2)[k] == entry_map(
            b2,
        )[k] by {
            let i = choose|i: int| 0 <= i < a2.len() && #[trigger] a2[i].0 == k;
            let j = choose|j: int| 0 <= j < b2.len() && #[trigger] b2[j].0 == k;
            lemma_entry_map_at(a2, i);
            lemma_entry_map_at(b2, j);
            lemma_entry_map_at(a, i);
            lemma_entry_map_at(b, j);
        }
        assert(entry_map(a2) =~= entry_map(b2));
        lemma_sorted_unique(a2, b2);
        assert(a =~= a2.push(a[la]));
        assert(b =~= b2.push(b[lb]));
    }
}

/// Inserting a new name at its sorted place keeps the list sorted and adds
/// exactly that entry to the map.
pub proof fn lemma_insert_new<V>(s: Seq<(Seq<char>, V)>, pos: int, k: Seq<char>, v: V)
    requires
        sorted_keys(s),
        0 <= pos <= s.len(),
        forall|i: int| 0 <= i < pos ==> chars_lt(#[trigger] s[i].0, k),
        forall|i: int| pos <= i < s.len() ==> chars_lt(k, #[trigger] s[i].0),
    ensures
        sorted_keys(s.insert(pos, (k, v))),
        entry_map(s.insert(pos, (k, v))) == entry_map(s).insert(k, v),
{
    let t = s.insert(pos, (k, v));
    assert forall|i: int, j: int| 0 <= i < j < t.len() implies chars_lt(
        #[trigger] t[i].0,
        #[trigger] t[j].0,
    ) by {
        if i < pos && j == pos {
        } else if i == pos && j > pos {
            assert(t[j] == s[j - 1]);
        } else if i < pos && j > pos {
            assert(t[j] == s[j - 1]);
            assert(chars_lt(s[i].0, s[j - 1].0));
        } else if i > pos {
            assert(t[i] == s[i - 1]);
            assert(t[j] == s[j - 1]);
        }
    }
    assert forall|q: Seq<char>| #[trigger] has_key(t, q) == (has_key(s, q) || q == k) by {
        if has_key(s, q) {
            let i = choose|i: int| 0 <= i < s.len() && #[trigger] s[i].0 == q;
            if i < pos {
                assert(t[i].0 == q);
            } else {
                assert(t[i + 1].0 == q);
            }
        }
        if q == k {
            assert(t[pos].0 == q);
        }
        if has_key(t, q) && q != k {
            let i = choose|i: int| 0 <= i < t.len() && #[trigger] t[i].0 == q;
            if i < pos {
                assert(s[i].0 == q);
            } else {
                assert(s[i - 1].0 == q);
            }
        }
    }
    assert forall|q: Seq<char>| #[trigger] entry_map(t).contains_key(q) implies entry_map(t)[q]
        == entry_map(s).insert(k, v)[q] by {
        if q == k {
            lemma_entry_map_at(t, pos);
        } else {
            let i = choose|i: int| 0 <= i < s.len() && #[trigger] s[i].0 == q;
            lemma_entry_map_at(s, i);
            if i < pos {
                lemma_entry_map_at(t, i);
            } else {
                lemma_entry_map_at(t, i + 1);
            }
        }
    }
    assert(entry_map(t) =~= entry_map(s).insert(k, v));
}

/// Replacing the value of an existing entry keeps the list sorted and
/// updates the map at that name.
pub proof fn lemma_update_value<V>(s: Seq<(Seq<char>, V)>, pos: int, v: V)
    requires
        sorted_keys(s),
        0 <= pos < s.len(),
    ensures
        sorted_keys(s.update(pos, (s[pos].0, v))),
        entry_map(s.update(pos, (s[pos].0, v))) == entry_map(s).insert(s[pos].0, v),
{
    let k = s[pos].0;
    let t = s.update(pos, (k, v));
    assert forall|i: int, j: int| 0 <= i < j < t.len() implies chars_lt(
        #[trigger] t[i].0,
        #[trigger] t[j].0,
    ) by {
        assert(t[i].0 == s[i].0);
        assert(t[j].0 == s[j].0);
    }
    assert forall|q: Seq<char>| #[trigger] has_key(t, q) == has_key(s, q) by {
        if has_key(s, q) {
            let i = choose|i: int| 0 <= i < s.len() && #[trigger] s[i].0 == q;
            assert(t[i].0 == q);
        }
        if has_key(t, q) {
            let i = choose|i: int| 0 <= i < t.len() && #[trigger] t[i].0 == q;
            assert(s[i].0 == q);
        }
    }
    lemma_entry_map_at(s, pos);
    assert forall|q: Seq<char>| #[trigger] entry_map(t).contains_key(q) implies entry_map(t)[q]
        == entry_map(s).insert(k, v)[q] by {
        assert(has_key(t, q));
        assert(has_key(s, q));
        let i = choose|i: int| 0 <= i < s.len() && #[trigger] s[i].0 == q;
        lemma_entry_map_at(s, i);
        lemma_entry_map_at(t, i);
        if i != pos {
            assert(t[i] == s[i]);
            lemma_chars_lt_irreflexive(q);
            if i < pos {
                assert(chars_lt(s[i].0, s[pos].0));
            } else {
                assert(chars_lt(s[pos].0, s[i].0));
            }
            assert(q != k);
        }
    }
    assert(entry_map(t) =~= entry_map(s).insert(k, v));
}

/// Where `key` belongs in a list whose names are sorted: the number of
/// entries named before it, and whether the next one is named `key`.
pub fn locate<V>(entries: &Vec<(String, V)>, key: &[char]) -> (r: (usize, bool))
    requires
        forall|i: int, j: int|
            0 <= i < j < entries@.len() ==> chars_lt(
                #[trigger] entries@[i].0@,
                #[trigger] entries@[j].0@,
            ),
    ensures
        r.0 <= entries@.len(),
        forall|i: int| 0 <= i < r.0 ==> chars_lt(#[trigger] entries@[i].0@, key@),
        r.1 ==> r.0 < entries@.len() && entries@[r.0 as int].0@ == key@,
        !r.1 ==> forall|i: int| r.0 <= i < entries@.len() ==> chars_lt(key@, #[trigger] entries@[i].0@),
{
    let mut i: usize = 0;
    while i < entries.len()
        invariant
            i <= entries@.len(),
            forall|j: int, l: int|
                0 <= j < l < entries@.len() ==> chars_lt(
                    #[trigger] entries@[j].0@,
                    #[trigger] entries@[l].0@,
                ),
            forall|j: int| 0 <= j < i ==> chars_lt(#[trigger] entries@[j].0@, key@),
        decreases entries@.len() - i,
    {
        let name = crate::text::chars_of(entries[i].0.as_str());
        match rank_chars(name.as_slice(), key) {
            Rank::Before => {
                i = i + 1;
            },
            Rank::Same => {
                return (i, true);
            },
            Rank::After => {
                assert forall|j: int| i <= j < entries@.len() implies chars_lt(
                    key@,
                    #[trigger] entries@[j].0@,
                ) by {
                    if j > i {
                        lemma_chars_lt_transitive(key@, entries@[i as int].0@, entries@[j].0@);
                    }
                }
                return (i, false);
            },
        }
    }
    (i, false)
}

} // verus!
