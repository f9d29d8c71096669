//! Optional lists, and lists of entries keyed by text, read the way a map is
//! read: the entry for a key is the first one that carries it.

use vstd::prelude::*;

verus! {

/// The items of an optional list, no list being read as an empty one.
pub open spec fn vec_or_empty<T>(o: Option<Vec<T>>) -> Seq<T> {
    match o {
        Some(v) => v@,
        None => Seq::empty(),
    }
}

/// The optional list `o` with `x` pushed at its end, a new list where there is none.
pub fn push_onto<T>(o: Option<Vec<T>>, x: T) -> (r: Vec<T>)
    ensures
        r@ == vec_or_empty(o).push(x),
{
    let mut v = match o {
        Some(v) => v,
        None => Vec::new(),
    };
    v.push(x);
    v
}

/// Whether `i` is the position of the first entry of `s` keyed `key`.
pub open spec fn is_first_key<V>(s: Seq<(String, V)>, key: Seq<char>, i: int) -> bool {
    &&& 0 <= i < s.len()
    &&& s[i].0@ == key
    &&& forall|j: int| 0 <= j < i ==> s[j].0@ != key
}

/// Whether some entry of `s` is keyed `key`.
pub open spec fn has_key<V>(s: Seq<(String, V)>, key: Seq<char>) -> bool {
    exists|i: int| 0 <= i < s.len() && s[i].0@ == key
}

/// Position of the first entry of `s` keyed `key`, if there is one.
pub open spec fn key_position<V>(s: Seq<(String, V)>, key: Seq<char>) -> Option<int> {
    if has_key(s, key) {
        Some(choose|i: int| is_first_key(s, key, i))
    } else {
        None
    }
}

/// The value stored under `key`: that of the first entry keyed `key`.
pub open spec fn lookup<V>(s: Seq<(String, V)>, key: Seq<char>) -> Option<V> {
    match key_position(s, key) {
        Some(i) => Some(s[i].1),
        None => None,
    }
}

/// The first entry keyed `key` is the one that `key_position` names.
pub proof fn lemma_first_key_is_position<V>(s: Seq<(String, V)>, key: Seq<char>, i: int)
    requires
        is_first_key(s, key, i),
    ensures
        key_position(s, key) == Some(i),
        lookup(s, key) == Some(s[i].1),
{
    assert(has_key(s, key));
    let w = choose|k: int| is_first_key(s, key, k);
    assert(is_first_key(s, key, w));
    if w < i {
        assert(s[w].0@ != key);
    } else if w > i {
        assert(s[i].0@ != key);
    }
}

/// Position of the first entry of `s` keyed `key`, if there is one.
pub fn find_key<V>(s: &Vec<(String, V)>, key: &str) -> (r: Option<usize>)
    ensures
        match r {
            Some(i) => is_first_key(s@, key@, i as int) && key_position(s@, key@) == Some(i as int)
                && lookup(s@, key@) == Some(s@[i as int].1),
            None => !has_key(s@, key@) && key_position(s@, key@) is None && lookup(s@, key@) is None,
        },
{
    let mut i: usize = 0;
    while i < s.len()
        invariant
            i <= s.len(),
            forall|j: int| 0 <= j < i ==> s@[j].0@ != key@,
        decreases s.len() - i,
    {
        if crate::text::str_eq(s[i].0.as_str(), key) {
            proof { lemma_first_key_is_position(s@, key@, i as int); }
            return Some(i);
        }
        i = i + 1;
    }
    None
}

/// The entries after `value` is stored under `key`, the way a map stores it:
/// the first entry keyed `key` is replaced, or an entry is added at the end.
pub open spec fn keyed_insert<V>(s: Seq<(String, V)>, key: String, value: V) -> Seq<(String, V)> {
    match key_position(s, key@) {
        Some(i) => s.update(i, (key, value)),
        None => s.push((key, value)),
    }
}

/// The entries after the first one keyed `key` is taken out.
pub open spec fn keyed_remove<V>(s: Seq<(String, V)>, key: Seq<char>) -> Seq<(String, V)> {
    match key_position(s, key) {
        Some(i) => s.remove(i),
        None => s,
    }
}

/// Stores `value` under `key`, as a map does.
pub fn keyed_insert_exec<V>(s: &mut Vec<(String, V)>, key: String, value: V)
    ensures
        final(s)@ == keyed_insert(old(s)@, key, value),
{
    match find_key(s, key.as_str()) {
        Some(i) => {
            s.set(i, (key, value));
        },
        None => {
            s.push((key, value));
        },
    }
}

/// Takes out the value stored under `key`, as a map does.
pub fn keyed_remove_exec<V>(s: &mut Vec<(String, V)>, key: &str) -> (r: Option<V>)
    ensures
        r == lookup(old(s)@, key@),
        final(s)@ == keyed_remove(old(s)@, key@),
{
    match find_key(s, key) {
        Some(i) => {
            let (_, v) = s.remove(i);
            Some(v)
        },
        None => None,
    }
}

/// When some entry carries `key`, the first of them is the position that `key_position` names.
pub proof fn lemma_has_key_first<V>(s: Seq<(String, V)>, key: Seq<char>)
    requires
        has_key(s, key),
    ensures
        key_position(s, key) matches Some(i) && is_first_key(s, key, i),
    decreases s.len(),
{
    let d = s.drop_last();
    if has_key(d, key) {
        lemma_has_key_first(d, key);
        let i = key_position(d, key)->Some_0;
        assert forall|j: int| 0 <= j <= i implies s[j] == d[j] by {}
        assert(is_first_key(s, key, i));
        lemma_first_key_is_position(s, key, i);
    } else {
        let w = choose|w: int| 0 <= w < s.len() && s[w].0@ == key;
        let i = (s.len() - 1) as int;
        if w < i {
            assert(d[w] == s[w]);
        }
        assert forall|j: int| 0 <= j < i implies s[j].0@ != key by {
            assert(d[j] == s[j]);
        }
        assert(is_first_key(s, key, i));
        lemma_first_key_is_position(s, key, i);
    }
}

/// Reading back what was stored: after `value` is stored under `key`, a lookup of
/// `key` gives `value`, and a lookup of any other key gives what it gave before.
pub proof fn law_keyed_insert_lookup<V>(s: Seq<(String, V)>, key: String, value: V, other: Seq<char>)
    ensures
        lookup(keyed_insert(s, key, value), key@) == Some(value),
        other != key@ ==> lookup(keyed_insert(s, key, value), other) == lookup(s, other),
{
    let t = keyed_insert(s, key, value);
    if has_key(s, key@) {
        lemma_has_key_first(s, key@);
        let i = key_position(s, key@)->Some_0;
        assert(is_first_key(t, key@, i));
        lemma_first_key_is_position(t, key@, i);
    } else {
        assert(is_first_key(t, key@, s.len() as int));
        lemma_first_key_is_position(t, key@, s.len() as int);
    }
    if other != key@ {
        if has_key(s, other) {
            lemma_has_key_first(s, other);
            let j = key_position(s, other)->Some_0;
            assert forall|k: int| 0 <= k <= j implies t[k].0@ == s[k].0@ || t[k].0@ == key@ by {
            }
            assert(t[j].0@ == other) by {
                if has_key(s, key@) {
                    lemma_has_key_first(s, key@);
                }
            }
            assert(is_first_key(t, other, j));
            lemma_first_key_is_position(t, other, j);
            assert(t[j].1 == s[j].1) by {
                if has_key(s, key@) {
                    lemma_has_key_first(s, key@);
                }
            }
        } else {
            assert forall|j: int| 0 <= j < t.len() implies t[j].0@ != other by {
                if has_key(s, key@) {
                    lemma_has_key_first(s, key@);
                }
            }
            assert(!has_key(t, other));
        }
    }
}


/// Whether no key occurs twice among the entries: the entries then stand for a map.
pub open spec fn keys_distinct<V>(s: Seq<(String, V)>) -> bool {
    forall|i: int, j: int| 0 <= i < s.len() && 0 <= j < s.len() && i != j ==> #[trigger] s[i].0@ != #[trigger] s[j].0@
}

/// Storing a value keeps the keys distinct: the entry of a key already present is replaced, and
/// a new key is added at the end.
pub proof fn law_keyed_insert_keeps_keys_distinct<V>(s: Seq<(String, V)>, key: String, value: V)
    requires
        keys_distinct(s),
    ensures
        keys_distinct(keyed_insert(s, key, value)),
{
    let t = keyed_insert(s, key, value);
    if has_key(s, key@) {
        lemma_has_key_first(s, key@);
        let p = key_position(s, key@)->Some_0;
        assert forall|i: int| 0 <= i < t.len() implies #[trigger] t[i].0@ == s[i].0@ by {
            if i == p {
                assert(s[p].0@ == key@);
            }
        }
    } else {
        assert forall|i: int, j: int| 0 <= i < t.len() && 0 <= j < t.len() && i != j
            implies #[trigger] t[i].0@ != #[trigger] t[j].0@ by {
            if i == s.len() {
                assert(t[j] == s[j]);
                assert(!(0 <= j < s.len() && s[j].0@ == key@));
            } else if j == s.len() {
                assert(t[i] == s[i]);
                assert(!(0 <= i < s.len() && s[i].0@ == key@));
            } else {
                assert(t[i] == s[i] && t[j] == s[j]);
            }
        }
    }
}

/// Taking out the entry of a key keeps the other keys distinct.
pub proof fn law_keyed_remove_keeps_keys_distinct<V>(s: Seq<(String, V)>, key: Seq<char>)
    requires
        keys_distinct(s),
    ensures
        keys_distinct(keyed_remove(s, key)),
{
    let t = keyed_remove(s, key);
    if has_key(s, key) {
        lemma_has_key_first(s, key);
        let p = key_position(s, key)->Some_0;
        assert forall|i: int, j: int| 0 <= i < t.len() && 0 <= j < t.len() && i != j
            implies #[trigger] t[i].0@ != #[trigger] t[j].0@ by {
            let a = if i < p { i } else { i + 1 };
            let b = if j < p { j } else { j + 1 };
            assert(t[i] == s[a] && t[j] == s[b]);
        }
    }
}

} // verus!
