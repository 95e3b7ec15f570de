//! A map with `String` keys kept in ascending key order, the way a
//! `BTreeMap<String, V>` orders its entries. Header sets are held in it, and
//! the order matters: it is the order in which headers are checked and searched.

use vstd::prelude::*;
use crate::text::{char_seq_less, str_equal, str_less};

verus! {

proof fn lemma_less_irreflexive(a: Seq<char>)
    ensures
        !char_seq_less(a, a),
    decreases a.len(),
{
    if a.len() > 0 {
        lemma_less_irreflexive(a.drop_first());
    }
}

proof fn lemma_less_transitive(a: Seq<char>, b: Seq<char>, c: Seq<char>)
    requires
        char_seq_less(a, b),
        char_seq_less(b, c),
    ensures
        char_seq_less(a, c),
    decreases a.len(),
{
    if a.len() > 0 && b.len() > 0 && c.len() > 0 {
        if a[0] == b[0] && b[0] == c[0] {
            lemma_less_transitive(a.drop_first(), b.drop_first(), c.drop_first());
        }
    }
}

proof fn lemma_less_total(a: Seq<char>, b: Seq<char>)
    requires
        a != b,
    ensures
        char_seq_less(a, b) || char_seq_less(b, a),
    decreases a.len(),
{
    if a.len() > 0 && b.len() > 0 && a[0] == b[0] {
        if a.drop_first() == b.drop_first() {
            assert(a =~= seq![a[0]] + a.drop_first());
            assert(b =~= seq![b[0]] + b.drop_first());
            assert(a =~= b);
        }
        lemma_less_total(a.drop_first(), b.drop_first());
    } else if a.len() == 0 && b.len() == 0 {
        assert(a =~= b);
    } else if a.len() > 0 && b.len() > 0 {
        assert((a[0] as int) != (b[0] as int));
    }
}

/// Keys strictly ascending: every key occurs once, in `String` order.
pub open spec fn keys_ascending<V>(es: Seq<(Seq<char>, V)>) -> bool {
    forall|i: int, j: int|
        0 <= i < j < es.len() ==> char_seq_less(#[trigger] es[i].0, #[trigger] es[j].0)
}

/// What `BTreeMap::insert` does to the ordered entries: the value of an equal
/// key is replaced in place, and a new key goes before the first larger key.
pub open spec fn entry_insert<V>(es: Seq<(Seq<char>, V)>, k: Seq<char>, v: V) -> Seq<
    (Seq<char>, V),
>
    decreases es.len(),
{
    if es.len() == 0 {
        seq![(k, v)]
    } else if es[0].0 == k {
        seq![(k, v)] + es.drop_first()
    } else if char_seq_less(es[0].0, k) {
        seq![es[0]] + entry_insert(es.drop_first(), k, v)
    } else {
        seq![(k, v)] + es
    }
}

/// The value of the first entry with key `k`.
pub open spec fn entry_lookup<V>(es: Seq<(Seq<char>, V)>, k: Seq<char>) -> Option<V>
    decreases es.len(),
{
    if es.len() == 0 {
        None
    } else if es[0].0 == k {
        Some(es[0].1)
    } else {
        entry_lookup(es.drop_first(), k)
    }
}

proof fn lemma_insert_at<V>(es: Seq<(Seq<char>, V)>, k: Seq<char>, v: V, i: int)
    requires
        keys_ascending(es),
        0 <= i <= es.len(),
        forall|j: int| 0 <= j < i ==> char_seq_less(#[trigger] es[j].0, k),
        i == es.len() || !char_seq_less(es[i].0, k),
    ensures
        entry_insert(es, k, v) == es.subrange(0, i) + seq![(k, v)] + es.subrange(
            if i < es.len() && es[i].0 == k {
                i + 1
            } else {
                i
            },
            es.len() as int,
        ),
    decreases i,
{
    if i == 0 {
        if es.len() > 0 && es[0].0 == k {
            assert(es.subrange(1, es.len() as int) =~= es.drop_first());
        }
        assert(es.subrange(0, 0) =~= Seq::<(Seq<char>, V)>::empty());
        assert(es.subrange(0, es.len() as int) =~= es);
    } else {
        let t = es.drop_first();
        assert(char_seq_less(es[0].0, k));
        lemma_less_irreflexive(k);
        assert forall|j: int| 0 <= j < i - 1 implies char_seq_less(#[trigger] t[j].0, k) by {
            assert(t[j] == es[j + 1]);
        }
        assert(keys_ascending(t)) by {
            assert forall|a: int, b: int| 0 <= a < b < t.len() implies char_seq_less(
                #[trigger] t[a].0,
                #[trigger] t[b].0,
            ) by {
                assert(t[a] == es[a + 1] && t[b] == es[b + 1]);
            }
        }
        if i < es.len() {
            assert(t[i - 1] == es[i]);
        }
        lemma_insert_at(t, k, v, i - 1);
        let c = if i < es.len() && es[i].0 == k {
            i + 1
        } else {
            i
        };
        assert(t.subrange(0, i - 1) =~= es.subrange(1, i));
        assert(t.subrange(c - 1, t.len() as int) =~= es.subrange(c, es.len() as int));
        assert(es.subrange(0, i) =~= seq![es[0]] + es.subrange(1, i));
    }
}

proof fn lemma_lookup_at<V>(es: Seq<(Seq<char>, V)>, k: Seq<char>, i: int)
    requires
        keys_ascending(es),
        0 <= i <= es.len(),
        forall|j: int| 0 <= j < i ==> char_seq_less(#[trigger] es[j].0, k),
        i == es.len() || !char_seq_less(es[i].0, k),
    ensures
        entry_lookup(es, k) == if i < es.len() && es[i].0 == k {
            Some(es[i].1)
        } else {
            None::<V>
        },
    decreases es.len(),
{
    if es.len() > 0 {
        let t = es.drop_first();
        assert(keys_ascending(t)) by {
            assert forall|a: int, b: int| 0 <= a < b < t.len() implies char_seq_less(
                #[trigger] t[a].0,
                #[trigger] t[b].0,
            ) by {
                assert(t[a] == es[a + 1] && t[b] == es[b + 1]);
            }
        }
        if i > 0 {
            lemma_less_irreflexive(k);
            assert(es[0].0 != k);
            assert forall|j: int| 0 <= j < i - 1 implies char_seq_less(#[trigger] t[j].0, k) by {
                assert(t[j] == es[j + 1]);
            }
            if i < es.len() {
                assert(t[i - 1] == es[i]);
            }
            lemma_lookup_at(t, k, i - 1);
        } else if es[0].0 != k {
            // k is below the first key, so below every key
            lemma_less_total(es[0].0, k);
            assert(char_seq_less(k, es[0].0));
            assert(entry_lookup(t, k) is None) by {
                lemma_lookup_absent(t, k, es[0].0);
            }
        }
    }
}

proof fn lemma_lookup_absent<V>(t: Seq<(Seq<char>, V)>, k: Seq<char>, low: Seq<char>)
    requires
        char_seq_less(k, low),
        forall|j: int| 0 <= j < t.len() ==> char_seq_less(low, #[trigger] t[j].0),
    ensures
        entry_lookup(t, k) is None,
    decreases t.len(),
{
    if t.len() > 0 {
        lemma_less_transitive(k, low, t[0].0);
        lemma_less_irreflexive(k);
        assert forall|j: int| 0 <= j < t.drop_first().len() implies char_seq_less(
            low,
            #[trigger] t.drop_first()[j].0,
        ) by {
            assert(t.drop_first()[j] == t[j + 1]);
        }
        lemma_lookup_absent(t.drop_first(), k, low);
    }
}

/// Reading a key back after inserting it gives the inserted value.
pub proof fn law_lookup_after_insert<V>(es: Seq<(Seq<char>, V)>, k: Seq<char>, v: V)
    ensures
        entry_lookup(entry_insert(es, k, v), k) == Some(v),
    decreases es.len(),
{
    if es.len() > 0 && es[0].0 != k && char_seq_less(es[0].0, k) {
        law_lookup_after_insert(es.drop_first(), k, v);
        assert((seq![es[0]] + entry_insert(es.drop_first(), k, v)).drop_first() =~= entry_insert(
            es.drop_first(),
            k,
            v,
        ));
    }
}

/// Inserting a key leaves the value of every other key as it was.
pub proof fn law_lookup_other_after_insert<V>(
    es: Seq<(Seq<char>, V)>,
    k: Seq<char>,
    v: V,
    other: Seq<char>,
)
    requires
        other != k,
    ensures
        entry_lookup(entry_insert(es, k, v), other) == entry_lookup(es, other),
    decreases es.len(),
{
    if es.len() == 0 {
    } else if es[0].0 == k {
        assert((seq![(k, v)] + es.drop_first()).drop_first() =~= es.drop_first());
    } else if char_seq_less(es[0].0, k) {
        law_lookup_other_after_insert(es.drop_first(), k, v, other);
        assert((seq![es[0]] + entry_insert(es.drop_first(), k, v)).drop_first() =~= entry_insert(
            es.drop_first(),
            k,
            v,
        ));
    } else {
        assert((seq![(k, v)] + es).drop_first() =~= es);
    }
}

/// Entries whose values are strings, with the values taken by their chars.
pub open spec fn text_entries(es: Seq<(Seq<char>, String)>) -> Seq<(Seq<char>, Seq<char>)> {
    es.map_values(|e: (Seq<char>, String)| (e.0, e.1@))
}

/// Inserting commutes with taking the values by their chars.
pub(crate) proof fn lemma_text_entries_insert(es: Seq<(Seq<char>, String)>, k: Seq<char>, v: String)
    ensures
        text_entries(entry_insert(es, k, v)) == entry_insert(text_entries(es), k, v@),
    decreases es.len(),
{
    if es.len() > 0 {
        assert(text_entries(es.drop_first()) =~= text_entries(es).drop_first());
        if es[0].0 != k && char_seq_less(es[0].0, k) {
            lemma_text_entries_insert(es.drop_first(), k, v);
            assert(text_entries(seq![es[0]] + entry_insert(es.drop_first(), k, v)) =~= seq![
                text_entries(es)[0],
            ] + text_entries(entry_insert(es.drop_first(), k, v)));
        } else if es[0].0 == k {
            assert(text_entries(seq![(k, v)] + es.drop_first()) =~= seq![(k, v@)] + text_entries(
                es,
            ).drop_first());
        } else {
            assert(text_entries(seq![(k, v)] + es) =~= seq![(k, v@)] + text_entries(es));
        }
    } else {
        assert(text_entries(seq![(k, v)]) =~= seq![(k, v@)]);
    }
}

/// Entries of strings keyed by strings, in ascending key order.
#[derive(Debug, PartialEq, Eq)]
pub struct StrMap<V> {
    entries: Vec<(String, V)>,
}

impl<V> StrMap<V> {
    /// The entries in ascending key order, keys taken by their chars.
    pub closed spec fn entries(self) -> Seq<(Seq<char>, V)> {
        self.entries@.map_values(|e: (String, V)| (e.0@, e.1))
    }

    #[verifier::type_invariant]
    closed spec fn ascending(self) -> bool {
        keys_ascending(self.entries())
    }

    /// An empty map.
    pub fn new() -> (m: Self)
        ensures
            m.entries() == Seq::<(Seq<char>, V)>::empty(),
            keys_ascending(m.entries()),
    {
        let m = StrMap { entries: Vec::new() };
        assert(m.entries() =~= Seq::<(Seq<char>, V)>::empty());
        m
    }

    /// Number of entries.
    pub fn len(&self) -> (n: usize)
        ensures
            n == self.entries().len(),
    {
        self.entries.len()
    }

    /// Whether the map has no entry.
    pub fn is_empty(&self) -> (b: bool)
        ensures
            b == (self.entries().len() == 0),
    {
        self.entries.len() == 0
    }

    /// The key of the `i`-th entry in key order.
    pub fn key_at(&self, i: usize) -> (k: &String)
        requires
            i < self.entries().len(),
        ensures
            k@ == self.entries()[i as int].0,
    {
        &self.entries[i].0
    }

    /// The value of the `i`-th entry in key order.
    pub fn value_at(&self, i: usize) -> (v: &V)
        requires
            i < self.entries().len(),
        ensures
            *v == self.entries()[i as int].1,
    {
        &self.entries[i].1
    }

    /// `BTreeMap::get`.
    pub fn get(&self, key: &str) -> (r: Option<&V>)
        ensures
            match r {
                Some(v) => entry_lookup(self.entries(), key@) == Some(*v),
                None => entry_lookup(self.entries(), key@) is None,
            },
    {
        let n = self.entries.len();
        let mut i: usize = 0;
        assert(self.entries().subrange(0, n as int) =~= self.entries());
        while i < n
            invariant
                n == self.entries().len(),
                i <= n,
                entry_lookup(self.entries(), key@) == entry_lookup(
                    self.entries().subrange(i as int, n as int),
                    key@,
                ),
            decreases n - i,
        {
            let ghost rest = self.entries().subrange(i as int, n as int);
            assert(rest.drop_first() =~= self.entries().subrange(i + 1, n as int));
            if str_equal(self.entries[i].0.as_str(), key) {
                return Some(&self.entries[i].1);
            }
            i = i + 1;
        }
        None
    }

    /// `BTreeMap::insert`: returns the value that the key had before.
    pub fn insert(&mut self, key: String, value: V) -> (r: Option<V>)
        ensures
            final(self).entries() == entry_insert(old(self).entries(), key@, value),
            r == entry_lookup(old(self).entries(), key@),
            keys_ascending(final(self).entries()),
    {
        proof {
            use_type_invariant(&*self);
        }
        let ghost es = self.entries();
        let mut items: Vec<(String, V)> = Vec::new();
        std::mem::swap(&mut items, &mut self.entries);
        assert(items@.map_values(|e: (String, V)| (e.0@, e.1)) == es);
        let n = items.len();
        let mut i: usize = 0;
        while i < n
            invariant
                n == es.len(),
                n == items@.len(),
                es == items@.map_values(|e: (String, V)| (e.0@, e.1)),
                i <= n,
                forall|j: int| 0 <= j < i ==> char_seq_less(#[trigger] es[j].0, key@),
            ensures
                i <= n,
                forall|j: int| 0 <= j < i ==> char_seq_less(#[trigger] es[j].0, key@),
                i == n || !char_seq_less(es[i as int].0, key@),
            decreases n - i,
        {
            assert(es[i as int].0 == items@[i as int].0@);
            if !str_less(items[i].0.as_str(), key.as_str()) {
                break;
            }
            i = i + 1;
        }
        proof {
            lemma_insert_at(es, key@, value, i as int);
            lemma_lookup_at(es, key@, i as int);
        }
        let found = i < n && items[i].0 == key;
        let ghost kv = key@;
        let previous = if found {
            let old_entry = items.remove(i);
            items.insert(i, (key, value));
            Some(old_entry.1)
        } else {
            items.insert(i, (key, value));
            None
        };
        let ghost result = items@.map_values(|e: (String, V)| (e.0@, e.1));
        proof {
            let c = if found {
                i + 1
            } else {
                i as int
            };
            let expected = es.subrange(0, i as int) + seq![(kv, value)] + es.subrange(
                c,
                n as int,
            );
            assert(result =~= expected);
            // the new key sits between the smaller and the larger keys
            assert(keys_ascending(expected)) by {
                assert forall|a: int, b: int|
                    0 <= a < b < expected.len() implies char_seq_less(
                    #[trigger] expected[a].0,
                    #[trigger] expected[b].0,
                ) by {
                    if b < i {
                        assert(expected[a] == es[a] && expected[b] == es[b]);
                    } else if b == i {
                        assert(expected[a] == es[a]);
                    } else {
                        let bb = b - i - 1 + c;
                        assert(expected[b] == es[bb]);
                        if i < n {
                            if !found {
                                lemma_less_total(es[i as int].0, kv);
                            }
                            if bb > i {
                                assert(char_seq_less(es[i as int].0, es[bb].0));
                                if !found {
                                    lemma_less_transitive(kv, es[i as int].0, es[bb].0);
                                }
                            }
                        }
                        assert(char_seq_less(kv, es[bb].0));
                        if a < i {
                            assert(expected[a] == es[a]);
                            lemma_less_transitive(es[a].0, kv, es[bb].0);
                        } else if a > i {
                            let aa = a - i - 1 + c;
                            assert(expected[a] == es[aa]);
                        }
                    }
                }
            }
        }
        self.entries = items;
        previous
    }
}

impl<V: Clone> Clone for StrMap<V> {
    /// Copies the entries; keys are kept exactly, values are cloned.
    fn clone(&self) -> (m: Self)
        ensures
            m.entries().len() == self.entries().len(),
            forall|i: int|
                0 <= i < self.entries().len() ==> (#[trigger] m.entries()[i]).0
                    == self.entries()[i].0,
    {
        proof {
            use_type_invariant(self);
        }
        let n = self.entries.len();
        let mut items: Vec<(String, V)> = Vec::new();
        let mut i: usize = 0;
        while i < n
            invariant
                n == self.entries().len(),
                i <= n,
                items@.len() == i,
                forall|j: int| 0 <= j < i ==> (#[trigger] items@[j]).0@ == self.entries()[j].0,
            decreases n - i,
        {
            let key = self.entries[i].0.clone();
            let value = self.entries[i].1.clone();
            items.push((key, value));
            i = i + 1;
        }
        let m = StrMap { entries: items };
        assert forall|j: int| 0 <= j < n implies (#[trigger] m.entries()[j]).0
            == self.entries()[j].0 by {
            assert(m.entries()[j].0 == items@[j].0@);
        }
        m
    }
}

impl<V> Default for StrMap<V> {
    fn default() -> (m: Self)
        ensures
            m.entries() == Seq::<(Seq<char>, V)>::empty(),
    {
        StrMap::new()
    }
}

} // verus!
