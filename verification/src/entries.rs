//! Name-keyed tables kept in ascending key order, as the configuration's maps and sets are
//! walked in that order when code is emitted.

use vstd::prelude::*;
use vstd::string::*;

verus! {

/// Strict lexicographic order on character sequences (the order of `String`'s `Ord`: UTF-8
/// byte order and code-point order agree).
pub open spec fn key_lt(a: Seq<char>, b: Seq<char>) -> bool
    decreases a.len(),
{
    if b.len() == 0 {
        false
    } else if a.len() == 0 {
        true
    } else if a[0] < b[0] {
        true
    } else if a[0] == b[0] {
        key_lt(a.drop_first(), b.drop_first())
    } else {
        false
    }
}

pub proof fn lemma_key_lt_irreflexive(a: Seq<char>)
    ensures
        !key_lt(a, a),
    decreases a.len(),
{
    if a.len() > 0 {
        lemma_key_lt_irreflexive(a.drop_first());
    }
}

pub proof fn lemma_key_lt_transitive(a: Seq<char>, b: Seq<char>, c: Seq<char>)
    requires
        key_lt(a, b),
        key_lt(b, c),
    ensures
        key_lt(a, c),
    decreases a.len(),
{
    if a.len() > 0 && b.len() > 0 && c.len() > 0 && a[0] == b[0] && b[0] == c[0] {
        lemma_key_lt_transitive(a.drop_first(), b.drop_first(), c.drop_first());
    }
}

pub proof fn lemma_key_lt_total(a: Seq<char>, b: Seq<char>)
    ensures
        key_lt(a, b) || key_lt(b, a) || a == b,
    decreases a.len(),
{
    if a.len() > 0 && b.len() > 0 && a[0] == b[0] {
        lemma_key_lt_total(a.drop_first(), b.drop_first());
        if a.drop_first() == b.drop_first() {
            assert(a =~= seq![a[0]] + a.drop_first());
            assert(b =~= seq![b[0]] + b.drop_first());
        }
    } else if a.len() > 0 && b.len() > 0 {
    } else if a.len() == 0 && b.len() == 0 {
        assert(a =~= b);
    }
}

/// The keys of a table of entries, in the table's order.
pub open spec fn entry_keys<V>(s: Seq<(String, V)>) -> Seq<Seq<char>> {
    s.map_values(|e: (String, V)| e.0@)
}

/// The characters of each name in a list of names.
pub open spec fn names_view(v: Seq<String>) -> Seq<Seq<char>> {
    v.map_values(|s: String| s@)
}

/// Keys strictly ascending: sorted, and no key twice.
pub open spec fn ascending(keys: Seq<Seq<char>>) -> bool {
    forall|i: int, j: int| 0 <= i < j < keys.len() ==> key_lt(#[trigger] keys[i], #[trigger] keys[j])
}

/// Compares two strings in the order of `key_lt`.
pub fn str_lt(a: &str, b: &str) -> (r: bool)
    ensures
        r == key_lt(a@, b@),
{
    let n = a.unicode_len();
    let m = b.unicode_len();
    let mut i: usize = 0;
    proof {
        assert(a@.subrange(0, n as int) =~= a@);
        assert(b@.subrange(0, m as int) =~= b@);
        assert(a@.subrange(0, 0) =~= b@.subrange(0, 0));
    }
    while i < n && i < m
        invariant
            n == a@.len(),
            m == b@.len(),
            i <= n,
            i <= m,
            a@.subrange(0, i as int) == b@.subrange(0, i as int),
            key_lt(a@, b@) == key_lt(a@.subrange(i as int, n as int), b@.subrange(i as int, m as int)),
        decreases n - i,
    {
        let x = a.get_char(i);
        let y = b.get_char(i);
        proof {
            let sa = a@.subrange(i as int, n as int);
            let sb = b@.subrange(i as int, m as int);
            assert(sa[0] == x && sb[0] == y);
            assert(sa.drop_first() =~= a@.subrange(i + 1, n as int));
            assert(sb.drop_first() =~= b@.subrange(i + 1, m as int));
        }
        if x < y {
            return true;
        }
        if x != y {
            return false;
        }
        proof {
            assert(a@.subrange(0, i + 1) =~= a@.subrange(0, i as int).push(x));
            assert(b@.subrange(0, i + 1) =~= b@.subrange(0, i as int).push(y));
        }
        i = i + 1;
    }
    proof {
        let sa = a@.subrange(i as int, n as int);
        let sb = b@.subrange(i as int, m as int);
        assert(i == n ==> sa.len() == 0);
        assert(i == m ==> sb.len() == 0);
    }
    i == n && i < m
}

/// Position at which `key` belongs in an ascending table: every earlier key is smaller, and
/// the key there (if any) is not smaller.
pub open spec fn slot<V>(s: Seq<(String, V)>, key: Seq<char>, i: int) -> bool {
    &&& 0 <= i <= s.len()
    &&& forall|j: int| 0 <= j < i ==> key_lt(#[trigger] s[j].0@, key)
    &&& i < s.len() ==> !key_lt(s[i].0@, key)
}

/// Finds the slot of `key` in an ascending table.
pub fn find_slot<V>(entries: &Vec<(String, V)>, key: &str) -> (i: usize)
    requires
        ascending(entry_keys(entries@)),
    ensures
        slot(entries@, key@, i as int),
{
    let n = entries.len();
    let mut i: usize = 0;
    while i < n
        invariant
            n == entries@.len(),
            i <= n,
            forall|j: int| 0 <= j < i ==> key_lt(#[trigger] entries@[j].0@, key@),
        decreases n - i,
    {
        if !str_lt(entries[i].0.as_str(), key) {
            return i;
        }
        i = i + 1;
    }
    i
}

/// The value a table holds under `key`, if any (in an ascending table no key occurs twice).
pub open spec fn lookup<V>(s: Seq<(String, V)>, key: Seq<char>) -> Option<V> {
    if exists|i: int| key_at(s, key, i) {
        Some(s[choose|i: int| key_at(s, key, i)].1)
    } else {
        None
    }
}

/// Whether the entry at position `i` has the key `key`.
pub open spec fn key_at<V>(s: Seq<(String, V)>, key: Seq<char>, i: int) -> bool {
    0 <= i < s.len() && s[i].0@ == key
}

/// In an ascending table, the entry found under a key is the one at the key's position.
pub proof fn lemma_lookup_at<V>(s: Seq<(String, V)>, key: Seq<char>, i: int)
    requires
        ascending(entry_keys(s)),
        0 <= i < s.len(),
        s[i].0@ == key,
    ensures
        lookup(s, key) == Some(s[i].1),
{
    let ks = entry_keys(s);
    assert(ks[i] == key);
    assert(key_at(s, key, i));
    let j = choose|j: int| key_at(s, key, j);
    assert(ks[j] == key);
    if j < i {
        assert(key_lt(ks[j], ks[i]));
        lemma_key_lt_irreflexive(key);
    } else if j > i {
        assert(key_lt(ks[i], ks[j]));
        lemma_key_lt_irreflexive(key);
    }
}

proof fn lemma_lookup_after_update<V>(s0: Seq<(String, V)>, s1: Seq<(String, V)>, key: Seq<char>, value: V, i: int)
    requires
        ascending(entry_keys(s0)),
        0 <= i < s0.len(),
        s0[i].0@ == key,
        s1 == s0.update(i, (s0[i].0, value)),
    ensures
        ascending(entry_keys(s1)),
        lookup(s1, key) == Some(value),
        lookup(s0, key) == Some(s0[i].1),
        forall|k: Seq<char>| k != key ==> #[trigger] lookup(s1, k) == lookup(s0, k),
{
    assert(entry_keys(s1) =~= entry_keys(s0));
    lemma_lookup_at(s1, key, i);
    lemma_lookup_at(s0, key, i);
    assert forall|k: Seq<char>| k != key implies #[trigger] lookup(s1, k) == lookup(s0, k) by {
        if exists|j: int| key_at(s0, k, j) {
            let j = choose|j: int| key_at(s0, k, j);
            lemma_lookup_at(s0, k, j);
            assert(s1[j] == s0[j]);
            lemma_lookup_at(s1, k, j);
        } else {
            assert forall|j: int| !key_at(s1, k, j) by {
                if 0 <= j < s1.len() {
                    assert(s1[j].0@ == s0[j].0@);
                    assert(!key_at(s0, k, j));
                }
            }
        }
    }
}

proof fn lemma_lookup_after_insert<V>(s0: Seq<(String, V)>, s1: Seq<(String, V)>, key: Seq<char>, value: V, i: int)
    requires
        ascending(entry_keys(s0)),
        ascending(entry_keys(s1)),
        0 <= i <= s0.len(),
        key == s1[i].0@,
        s1 == s0.insert(i, s1[i]),
        s1[i].1 == value,
        forall|j: int| 0 <= j < s0.len() ==> s0[j].0@ != key,
    ensures
        lookup(s1, key) == Some(value),
        lookup(s0, key) is None,
        forall|k: Seq<char>| k != key ==> #[trigger] lookup(s1, k) == lookup(s0, k),
{
    lemma_lookup_at(s1, key, i);
    assert forall|k: Seq<char>| k != key implies #[trigger] lookup(s1, k) == lookup(s0, k) by {
        if exists|j: int| key_at(s0, k, j) {
            let j = choose|j: int| key_at(s0, k, j);
            lemma_lookup_at(s0, k, j);
            if j < i {
                assert(s1[j] == s0[j]);
                lemma_lookup_at(s1, k, j);
            } else {
                assert(s1[j + 1] == s0[j]);
                lemma_lookup_at(s1, k, j + 1);
            }
        } else {
            assert forall|j: int| !key_at(s1, k, j) by {
                if 0 <= j < i {
                    assert(s1[j] == s0[j]);
                    assert(!key_at(s0, k, j));
                } else if i < j < s1.len() {
                    assert(s1[j] == s0[j - 1]);
                    assert(!key_at(s0, k, j - 1));
                }
            }
        }
    }
}

/// Inserts `value` under `key`, as `BTreeMap::insert` does: an entry with an equal key keeps
/// its key and gets the new value, whose former value is returned; otherwise a new entry is
/// placed where the keys stay ascending.
pub fn insert_entry<V>(entries: &mut Vec<(String, V)>, key: String, value: V) -> (r: Option<V>)
    requires
        ascending(entry_keys(old(entries)@)),
    ensures
        ascending(entry_keys(final(entries)@)),
        match r {
            Some(prev) => exists|i: int|
                0 <= i < old(entries)@.len() && old(entries)@[i].0@ == key@
                    && prev == old(entries)@[i].1
                    && final(entries)@ == old(entries)@.update(i, (old(entries)@[i].0, value)),
            None => (forall|j: int| 0 <= j < old(entries)@.len() ==> old(entries)@[j].0@ != key@)
                && exists|i: int|
                0 <= i <= old(entries)@.len() && final(entries)@ == old(entries)@.insert(i, (key, value)),
        },
        lookup(final(entries)@, key@) == Some(value),
        forall|k: Seq<char>| k != key@ ==> #[trigger] lookup(final(entries)@, k) == lookup(old(entries)@, k),
        r == lookup(old(entries)@, key@),
{
    let ghost s0 = entries@;
    let i = find_slot(entries, key.as_str());
    if i < entries.len() && str_eq_string(&entries[i].0, &key) {
        let (k, prev) = entries.remove(i);
        entries.insert(i, (k, value));
        proof {
            assert(entries@ =~= s0.update(i as int, (s0[i as int].0, value)));
            assert(entry_keys(entries@) =~= entry_keys(s0));
            lemma_lookup_after_update(s0, entries@, key@, value, i as int);
        }
        Some(prev)
    } else {
        entries.insert(i, (key, value));
        proof {
            let ks = entry_keys(entries@);
            let k0 = entry_keys(s0);
            assert forall|j: int| 0 <= j < s0.len() implies s0[j].0@ != key@ by {
                if j < i {
                    lemma_key_lt_irreflexive(key@);
                } else {
                    assert(k0[j] == s0[j].0@);
                    if j > i {
                        assert(key_lt(k0[i as int], k0[j]));
                        if s0[j].0@ == key@ {
                            lemma_key_lt_total(s0[i as int].0@, key@);
                        }
                    }
                }
            }
            assert forall|a: int, b: int| 0 <= a < b < ks.len() implies key_lt(
                #[trigger] ks[a],
                #[trigger] ks[b],
            ) by {
                if b < i {
                    assert(ks[a] == k0[a] && ks[b] == k0[b]);
                } else if b == i {
                    assert(ks[a] == k0[a]);
                    assert(key_lt(s0[a].0@, key@));
                } else if a == i {
                    assert(ks[b] == k0[b - 1]);
                    lemma_key_lt_total(s0[i as int].0@, key@);
                    if b - 1 > i {
                        assert(key_lt(k0[i as int], k0[b - 1]));
                        if s0[i as int].0@ != key@ {
                            lemma_key_lt_transitive(key@, k0[i as int], k0[b - 1]);
                        }
                    }
                } else if a < i {
                    assert(ks[a] == k0[a] && ks[b] == k0[b - 1]);
                } else {
                    assert(ks[a] == k0[a - 1] && ks[b] == k0[b - 1]);
                }
            }
            lemma_lookup_after_insert(s0, entries@, key@, entries@[i as int].1, i as int);
        }
        None
    }
}

/// Adds a name to an ascending list of names unless it is there already, as
/// `BTreeSet::insert` does; returns whether it was added.
pub fn insert_name(names: &mut Vec<String>, name: String) -> (added: bool)
    requires
        ascending(names_view(old(names)@)),
    ensures
        ascending(names_view(final(names)@)),
        added == (forall|j: int| 0 <= j < old(names)@.len() ==> old(names)@[j]@ != name@),
        names_view(final(names)@).to_set() == names_view(old(names)@).to_set().insert(name@),
{
    let ghost s0 = names@;
    let ghost k0 = names_view(s0);
    let n = names.len();
    let i = find_name_slot(names, name.as_str());
    if i < n && str_eq_string(&names[i], &name) {
        proof {
            assert(k0[i as int] == name@);
            assert(k0.to_set().insert(name@) =~= k0.to_set());
        }
        false
    } else {
        names.insert(i, name);
        proof {
            let ks = names_view(names@);
            assert(ks =~= k0.insert(i as int, name@));
            assert forall|j: int| 0 <= j < s0.len() implies s0[j]@ != name@ by {
                if j < i {
                    lemma_key_lt_irreflexive(name@);
                } else if j > i {
                    assert(key_lt(k0[i as int], k0[j]));
                    if k0[j] == name@ {
                        lemma_key_lt_total(k0[i as int], name@);
                    }
                }
            }
            assert forall|a: int, b: int| 0 <= a < b < ks.len() implies key_lt(
                #[trigger] ks[a],
                #[trigger] ks[b],
            ) by {
                if b < i {
                } else if b == i {
                    assert(key_lt(s0[a]@, name@));
                } else if a == i {
                    lemma_key_lt_total(k0[i as int], name@);
                    if b - 1 > i {
                        assert(key_lt(k0[i as int], k0[b - 1]));
                        if k0[i as int] != name@ {
                            lemma_key_lt_transitive(name@, k0[i as int], k0[b - 1]);
                        }
                    }
                } else if a < i {
                } else {
                }
            }
            assert(ks.to_set() =~= k0.to_set().insert(name@)) by {
                assert forall|x: Seq<char>| ks.to_set().contains(x) implies k0.to_set().insert(
                    name@,
                ).contains(x) by {
                    let j = choose|j: int| 0 <= j < ks.len() && ks[j] == x;
                    if j < i {
                        assert(k0[j] == x);
                    } else if j > i {
                        assert(k0[j - 1] == x);
                    }
                }
                assert forall|x: Seq<char>| k0.to_set().insert(name@).contains(x) implies ks.to_set().contains(
                    x,
                ) by {
                    if x == name@ {
                        assert(ks[i as int] == x);
                    } else {
                        let j = choose|j: int| 0 <= j < k0.len() && k0[j] == x;
                        if j < i {
                            assert(ks[j] == x);
                        } else {
                            assert(ks[j + 1] == x);
                        }
                    }
                }
            }
        }
        true
    }
}

/// Finds where `key` belongs in an ascending list of names.
pub fn find_name_slot(names: &Vec<String>, key: &str) -> (i: usize)
    requires
        ascending(names_view(names@)),
    ensures
        i <= names@.len(),
        forall|j: int| 0 <= j < i ==> key_lt(#[trigger] names@[j]@, key@),
        i < names@.len() ==> !key_lt(names@[i as int]@, key@),
{
    let n = names.len();
    let mut i: usize = 0;
    while i < n
        invariant
            n == names@.len(),
            i <= n,
            forall|j: int| 0 <= j < i ==> key_lt(#[trigger] names@[j]@, key@),
        decreases n - i,
    {
        if !str_lt(names[i].as_str(), key) {
            return i;
        }
        i = i + 1;
    }
    i
}

/// Whether two `String`s hold the same characters.
pub fn str_eq_string(a: &String, b: &String) -> (r: bool)
    ensures
        r == (a@ == b@),
{
    a.eq(b)
}

} // verus!
