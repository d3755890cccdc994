//! Path-keyed collections kept in ascending key order, so that the same
//! contents always have the same layout (and the same text in state
//! hashes) whatever order they were inserted in.
use crate::text::{chars_eq, chars_of};
use crate::types::{FileRecord, FileSnapshot};
use vstd::prelude::*;

verus! {

/// Lexicographic order on character sequences by code point (the order of
/// `str`'s comparison operators).
pub open spec fn seq_less(a: Seq<char>, b: Seq<char>) -> bool
    decreases a.len(),
{
    if a.len() == 0 {
        b.len() > 0
    } else if b.len() == 0 {
        false
    } else if a[0] != b[0] {
        a[0] < b[0]
    } else {
        seq_less(a.drop_first(), b.drop_first())
    }
}

pub proof fn lemma_seq_less_irreflexive(a: Seq<char>)
    ensures
        !seq_less(a, a),
    decreases a.len(),
{
    if a.len() > 0 {
        lemma_seq_less_irreflexive(a.drop_first());
    }
}

pub proof fn lemma_seq_less_transitive(a: Seq<char>, b: Seq<char>, c: Seq<char>)
    requires
        seq_less(a, b),
        seq_less(b, c),
    ensures
        seq_less(a, c),
    decreases a.len(),
{
    if a.len() > 0 && b.len() > 0 && c.len() > 0 {
        if a[0] == b[0] && b[0] == c[0] {
            lemma_seq_less_transitive(a.drop_first(), b.drop_first(), c.drop_first());
        }
    }
}

pub proof fn lemma_seq_less_total(a: Seq<char>, b: Seq<char>)
    ensures
        a == b || seq_less(a, b) || seq_less(b, a),
    decreases a.len(),
{
    if a.len() > 0 && b.len() > 0 {
        if a[0] == b[0] {
            lemma_seq_less_total(a.drop_first(), b.drop_first());
            if a.drop_first() == b.drop_first() {
                assert(a =~= seq![a[0]] + a.drop_first());
                assert(b =~= seq![b[0]] + b.drop_first());
            }
        }
    } else if a.len() == 0 && b.len() == 0 {
        assert(a =~= b);
    }
}

/// `a` sorts before `b`.
pub fn chars_less(a: &[char], b: &[char]) -> (r: bool)
    ensures
        r == seq_less(a@, b@),
{
    let mut i: usize = 0;
    assert(a@.subrange(0, a@.len() as int) =~= a@);
    assert(b@.subrange(0, b@.len() as int) =~= b@);
    while i < a.len() && i < b.len()
        invariant
            i <= a.len(),
            i <= b.len(),
            forall|k: int| 0 <= k < i ==> a@[k] == b@[k],
            seq_less(a@, b@) == seq_less(a@.subrange(i as int, a@.len() as int), b@.subrange(
                i as int,
                b@.len() as int,
            )),
        decreases a.len() - i,
    {
        let ghost sa = a@.subrange(i as int, a@.len() as int);
        let ghost sb = b@.subrange(i as int, b@.len() as int);
        if a[i] != b[i] {
            assert(sa[0] == a@[i as int] && sb[0] == b@[i as int]);
            return a[i] < b[i];
        }
        assert(sa.drop_first() =~= a@.subrange(i + 1, a@.len() as int));
        assert(sb.drop_first() =~= b@.subrange(i + 1, b@.len() as int));
        i = i + 1;
    }
    let ghost sa = a@.subrange(i as int, a@.len() as int);
    let ghost sb = b@.subrange(i as int, b@.len() as int);
    if i == a.len() {
        assert(sa.len() == 0);
        i < b.len()
    } else {
        assert(sb.len() == 0);
        false
    }
}

/// Keys in strictly ascending order.
pub open spec fn keys_sorted<V>(entries: Seq<(Seq<char>, V)>) -> bool {
    forall|i: int, j: int|
        0 <= i < j < entries.len() ==> seq_less(#[trigger] entries[i].0, #[trigger] entries[j].0)
}

/// Index of `key` among the entries, if present.
pub open spec fn key_index<V>(entries: Seq<(Seq<char>, V)>, key: Seq<char>) -> int {
    choose|i: int| 0 <= i < entries.len() && entries[i].0 == key
}

pub open spec fn has_key<V>(entries: Seq<(Seq<char>, V)>, key: Seq<char>) -> bool {
    exists|i: int| 0 <= i < entries.len() && entries[i].0 == key
}

/// Sorted keys are distinct.
pub proof fn lemma_sorted_distinct<V>(entries: Seq<(Seq<char>, V)>, i: int, j: int)
    requires
        keys_sorted(entries),
        0 <= i < entries.len(),
        0 <= j < entries.len(),
        entries[i].0 == entries[j].0,
    ensures
        i == j,
{
    if i < j {
        lemma_seq_less_irreflexive(entries[i].0);
    } else if j < i {
        lemma_seq_less_irreflexive(entries[j].0);
    }
}

/// A map from path text to values, kept sorted by path.
#[derive(Debug)]
pub struct PathMap<V> {
    entries: Vec<(String, V)>,
}

impl<V> View for PathMap<V> {
    type V = Seq<(Seq<char>, V)>;

    closed spec fn view(&self) -> Seq<(Seq<char>, V)> {
        self.entries@.map_values(|e: (String, V)| (e.0@, e.1))
    }
}

impl<V> PathMap<V> {
    #[verifier::type_invariant]
    closed spec fn sorted(&self) -> bool {
        keys_sorted(self@)
    }

    /// The value stored under `key`, if any.
    pub open spec fn lookup(&self, key: Seq<char>) -> Option<V> {
        if has_key(self@, key) {
            Some(self@[key_index(self@, key)].1)
        } else {
            None
        }
    }

    pub fn new() -> (r: Self)
        ensures
            r@.len() == 0,
    {
        let r = PathMap { entries: Vec::new() };
        assert(r@.len() == 0);
        r
    }

    pub fn len(&self) -> (r: usize)
        ensures
            r == self@.len(),
    {
        self.entries.len()
    }

    pub fn is_empty(&self) -> (r: bool)
        ensures
            r == (self@.len() == 0),
    {
        self.entries.len() == 0
    }

    /// The entry at position `i` in key order.
    pub fn entry_at(&self, i: usize) -> (r: (&str, &V))
        requires
            i < self@.len(),
        ensures
            r.0@ == self@[i as int].0,
            *r.1 == self@[i as int].1,
    {
        let e = &self.entries[i];
        (e.0.as_str(), &e.1)
    }

    /// Position of the first key not below `key`, and whether it equals it.
    fn position(&self, key: &[char]) -> (r: (usize, bool))
        ensures
            r.0 <= self@.len(),
            forall|k: int| 0 <= k < r.0 ==> seq_less(#[trigger] self@[k].0, key@),
            r.1 ==> r.0 < self@.len() && self@[r.0 as int].0 == key@,
            !r.1 ==> forall|k: int| r.0 <= k < self@.len() ==> seq_less(key@, #[trigger] self@[k].0),
    {
        proof {
            use_type_invariant(self);
        }
        let mut i: usize = 0;
        while i < self.entries.len()
            invariant
                i <= self@.len(),
                keys_sorted(self@),
                forall|k: int| 0 <= k < i ==> seq_less(#[trigger] self@[k].0, key@),
            decreases self.entries.len() - i,
        {
            let ek = chars_of(self.entries[i].0.as_str());
            if chars_less(ek.as_slice(), key) {
                i = i + 1;
            } else {
                let eq = chars_eq(ek.as_slice(), key);
                proof {
                    if !eq {
                        lemma_seq_less_total(self@[i as int].0, key@);
                        assert forall|k: int| i <= k < self@.len() implies seq_less(
                            key@,
                            #[trigger] self@[k].0,
                        ) by {
                            if k > i {
                                lemma_seq_less_transitive(key@, self@[i as int].0, self@[k].0);
                            }
                        }
                    }
                }
                return (i, eq);
            }
        }
        (i, false)
    }

    /// Whether `key` is present.
    pub fn contains_key(&self, key: &str) -> (r: bool)
        ensures
            r == has_key(self@, key@),
    {
        let kc = chars_of(key);
        let (p, found) = self.position(kc.as_slice());
        proof {
            if !found {
                assert forall|k: int| 0 <= k < self@.len() implies self@[k].0 != key@ by {
                    if k < p {
                        lemma_seq_less_irreflexive(key@);
                    } else {
                        lemma_seq_less_irreflexive(key@);
                    }
                }
            }
        }
        found
    }

    /// The value stored under `key`, if any.
    pub fn get(&self, key: &str) -> (r: Option<&V>)
        ensures
            r matches Some(v) ==> self.lookup(key@) == Some(*v),
            r is None ==> self.lookup(key@) is None,
    {
        proof {
            use_type_invariant(self);
        }
        let kc = chars_of(key);
        let (p, found) = self.position(kc.as_slice());
        if found {
            proof {
                let j = key_index(self@, key@);
                lemma_sorted_distinct(self@, j, p as int);
            }
            Some(&self.entries[p].1)
        } else {
            proof {
                assert forall|k: int| 0 <= k < self@.len() implies self@[k].0 != key@ by {
                    lemma_seq_less_irreflexive(key@);
                }
            }
            None
        }
    }

    /// Stores `value` under `key`, replacing any value already there.
    pub fn insert(&mut self, key: String, value: V)
        ensures
            final(self).lookup(key@) == Some(value),
            forall|k: Seq<char>| k != key@ ==> final(self).lookup(k) == old(self).lookup(k),
            has_key(old(self)@, key@) ==> final(self)@.len() == old(self)@.len(),
            !has_key(old(self)@, key@) ==> final(self)@.len() == old(self)@.len() + 1,
            (forall|j: int|
                0 <= j < old(self)@.len() ==> seq_less(#[trigger] old(self)@[j].0, key@))
                ==> final(self)@ == old(self)@.push((key@, value)),
    {
        proof {
            use_type_invariant(&*self);
        }
        let ghost old_view = self@;
        let kc = chars_of(key.as_str());
        let (p, found) = self.position(kc.as_slice());
        proof {
            if forall|j: int| 0 <= j < old_view.len() ==> seq_less(#[trigger] old_view[j].0, key@) {
                if found {
                    assert(seq_less(old_view[p as int].0, key@));
                    lemma_seq_less_irreflexive(key@);
                } else if p < old_view.len() {
                    assert(seq_less(old_view[p as int].0, key@));
                    lemma_seq_less_transitive(key@, old_view[p as int].0, key@);
                    lemma_seq_less_irreflexive(key@);
                }
            }
        }
        let mut entries: Vec<(String, V)> = Vec::new();
        std::mem::swap(&mut entries, &mut self.entries);
        let ghost kv = key@;
        if found {
            entries.set(p, (key, value));
        } else {
            entries.insert(p, (key, value));
        }
        let ghost nv = entries@.map_values(|e: (String, V)| (e.0@, e.1));
        proof {
            if found {
                assert(nv =~= old_view.update(p as int, (kv, value)));
                assert forall|i: int, j: int| 0 <= i < j < nv.len() implies seq_less(
                    #[trigger] nv[i].0,
                    #[trigger] nv[j].0,
                ) by {}
            } else {
                assert(nv =~= old_view.insert(p as int, (kv, value)));
                if p == old_view.len() {
                    assert(nv =~= old_view.push((kv, value)));
                }
                assert forall|i: int, j: int| 0 <= i < j < nv.len() implies seq_less(
                    #[trigger] nv[i].0,
                    #[trigger] nv[j].0,
                ) by {
                    if j < p {
                    } else if j == p {
                        assert(nv[i] == old_view[i]);
                    } else if i < p {
                        assert(nv[j] == old_view[j - 1]);
                        lemma_seq_less_transitive(nv[i].0, kv, nv[j].0);
                    } else if i == p {
                        assert(nv[j] == old_view[j - 1]);
                    } else {
                        assert(nv[i] == old_view[i - 1]);
                        assert(nv[j] == old_view[j - 1]);
                    }
                }
            }
        }
        self.entries = entries;
        proof {
            assert(self@ == nv);
            assert(nv[p as int].0 == kv);
            let j = key_index(nv, kv);
            lemma_sorted_distinct(nv, j, p as int);
            assert forall|k: Seq<char>| k != kv implies self.lookup(k) == old(self).lookup(k) by {
                if has_key(old_view, k) {
                    let i = key_index(old_view, k);
                    let i2 = if found || i < p {
                        i
                    } else {
                        i + 1
                    };
                    assert(nv[i2].0 == k);
                    let j2 = key_index(nv, k);
                    lemma_sorted_distinct(nv, j2, i2);
                } else {
                    if has_key(nv, k) {
                        let j2 = key_index(nv, k);
                        if found || j2 < p {
                            assert(old_view[j2].0 == k);
                        } else {
                            assert(old_view[j2 - 1].0 == k);
                        }
                    }
                }
            }
            if has_key(old_view, kv) {
                let i = key_index(old_view, kv);
                if !found {
                    if i < p {
                        lemma_seq_less_irreflexive(kv);
                    } else {
                        lemma_seq_less_irreflexive(kv);
                    }
                }
            }
        }
    }

    /// Removes the entry under `key`, if any.
    pub fn remove(&mut self, key: &str)
        ensures
            final(self).lookup(key@) is None,
            forall|k: Seq<char>| k != key@ ==> final(self).lookup(k) == old(self).lookup(k),
    {
        proof {
            use_type_invariant(&*self);
        }
        let ghost old_view = self@;
        let kc = chars_of(key);
        let (p, found) = self.position(kc.as_slice());
        if !found {
            proof {
                assert forall|k: int| 0 <= k < old_view.len() implies old_view[k].0 != key@ by {
                    lemma_seq_less_irreflexive(key@);
                }
            }
            return ;
        }
        let mut entries: Vec<(String, V)> = Vec::new();
        std::mem::swap(&mut entries, &mut self.entries);
        entries.remove(p);
        let ghost nv = entries@.map_values(|e: (String, V)| (e.0@, e.1));
        proof {
            assert(nv =~= old_view.remove(p as int));
            assert forall|i: int, j: int| 0 <= i < j < nv.len() implies seq_less(
                #[trigger] nv[i].0,
                #[trigger] nv[j].0,
            ) by {
                if j < p {
                } else if i < p {
                    assert(nv[j] == old_view[j + 1]);
                } else {
                    assert(nv[i] == old_view[i + 1]);
                    assert(nv[j] == old_view[j + 1]);
                }
            }
        }
        self.entries = entries;
        proof {
            assert(self@ == nv);
            assert forall|k: int| 0 <= k < nv.len() implies nv[k].0 != key@ by {
                let k2 = if k < p {
                    k
                } else {
                    k + 1
                };
                assert(nv[k] == old_view[k2]);
                if nv[k].0 == key@ {
                    lemma_sorted_distinct(old_view, k2, p as int);
                }
            }
            assert forall|k: Seq<char>| k != key@ implies self.lookup(k) == old(self).lookup(k) by {
                if has_key(old_view, k) {
                    let i = key_index(old_view, k);
                    assert(i != p);
                    let i2 = if i < p {
                        i
                    } else {
                        i - 1
                    };
                    assert(nv[i2].0 == k);
                    let j2 = key_index(nv, k);
                    lemma_sorted_distinct(nv, j2, i2);
                } else {
                    if has_key(nv, k) {
                        let j2 = key_index(nv, k);
                        if j2 < p {
                            assert(old_view[j2].0 == k);
                        } else {
                            assert(old_view[j2 + 1].0 == k);
                        }
                    }
                }
            }
        }
    }
}

impl PathMap<FileRecord> {
    /// A copy of this map.
    pub fn duplicate(&self) -> (r: Self)
        ensures
            r@ == self@,
    {
        proof {
            use_type_invariant(self);
        }
        let mut entries: Vec<(String, FileRecord)> = Vec::new();
        let mut i: usize = 0;
        while i < self.entries.len()
            invariant
                i <= self.entries.len(),
                entries@.map_values(|e: (String, FileRecord)| (e.0@, e.1)) == self@.take(i as int),
            decreases self.entries.len() - i,
        {
            let e = &self.entries[i];
            let k = e.0.clone();
            let v = e.1.clone();
            assert(v == e.1);
            let ghost before = entries@;
            entries.push((k, v));
            assert(entries@ == before.push((k, v)));
            assert(self@[i as int] == (e.0@, e.1));
            assert(entries@.map_values(|e: (String, FileRecord)| (e.0@, e.1)) =~= before.map_values(
                |e: (String, FileRecord)| (e.0@, e.1),
            ).push((k@, v)));
            assert(self@.take(i + 1) =~= self@.take(i as int).push(self@[i as int]));
            assert(entries@.map_values(|e: (String, FileRecord)| (e.0@, e.1)) =~= self@.take(
                i + 1,
            ));
            i = i + 1;
        }
        assert(self@.take(self@.len() as int) =~= self@);
        PathMap { entries }
    }
}

impl PathMap<FileSnapshot> {
    /// A copy of this map.
    pub fn duplicate(&self) -> (r: Self)
        ensures
            r@ == self@,
    {
        proof {
            use_type_invariant(self);
        }
        let mut entries: Vec<(String, FileSnapshot)> = Vec::new();
        let mut i: usize = 0;
        while i < self.entries.len()
            invariant
                i <= self.entries.len(),
                entries@.map_values(|e: (String, FileSnapshot)| (e.0@, e.1)) == self@.take(
                    i as int,
                ),
            decreases self.entries.len() - i,
        {
            let e = &self.entries[i];
            let k = e.0.clone();
            let v = e.1.clone();
            assert(v == e.1);
            let ghost before = entries@;
            entries.push((k, v));
            assert(entries@ == before.push((k, v)));
            assert(self@[i as int] == (e.0@, e.1));
            assert(entries@.map_values(|e: (String, FileSnapshot)| (e.0@, e.1)) =~= before.map_values(
                |e: (String, FileSnapshot)| (e.0@, e.1),
            ).push((k@, v)));
            assert(self@.take(i + 1) =~= self@.take(i as int).push(self@[i as int]));
            assert(entries@.map_values(|e: (String, FileSnapshot)| (e.0@, e.1)) =~= self@.take(
                i + 1,
            ));
            i = i + 1;
        }
        assert(self@.take(self@.len() as int) =~= self@);
        PathMap { entries }
    }
}

/// A set of path texts, kept in ascending order.
#[derive(Debug)]
pub struct PathSet {
    map: PathMap<()>,
}

impl View for PathSet {
    type V = Seq<Seq<char>>;

    /// The paths, in ascending order.
    closed spec fn view(&self) -> Seq<Seq<char>> {
        self.map@.map_values(|e: (Seq<char>, ())| e.0)
    }
}

impl PathSet {
    /// The set holds `path`.
    pub open spec fn has(&self, path: Seq<char>) -> bool {
        self@.contains(path)
    }

    pub fn new() -> (r: Self)
        ensures
            r@.len() == 0,
    {
        PathSet { map: PathMap::new() }
    }

    pub fn len(&self) -> (r: usize)
        ensures
            r == self@.len(),
    {
        self.map.len()
    }

    pub fn is_empty(&self) -> (r: bool)
        ensures
            r == (self@.len() == 0),
    {
        self.map.is_empty()
    }

    /// The path at position `i` in ascending order.
    pub fn item_at(&self, i: usize) -> (r: &str)
        requires
            i < self@.len(),
        ensures
            r@ == self@[i as int],
    {
        self.map.entry_at(i).0
    }

    /// Whether `path` is in the set.
    pub fn contains(&self, path: &str) -> (r: bool)
        ensures
            r == self.has(path@),
    {
        let r = self.map.contains_key(path);
        proof {
            if r {
                let i = key_index(self.map@, path@);
                assert(self@[i] == path@);
            }
            if self.has(path@) {
                let i = choose|i: int| 0 <= i < self@.len() && self@[i] == path@;
                assert(self.map@[i].0 == path@);
            }
        }
        r
    }

    /// Adds `path`; the set is otherwise unchanged.
    pub fn insert(&mut self, path: String)
        ensures
            final(self).has(path@),
            forall|p: Seq<char>| p != path@ ==> (final(self).has(p) == old(self).has(p)),
            (forall|j: int| 0 <= j < old(self)@.len() ==> seq_less(#[trigger] old(self)@[j], path@))
                ==> final(self)@ == old(self)@.push(path@),
    {
        let ghost pv = path@;
        let ghost old_map = self.map;
        proof {
            if forall|j: int| 0 <= j < old(self)@.len() ==> seq_less(#[trigger] old(self)@[j], pv) {
                assert forall|j: int| 0 <= j < old_map@.len() implies seq_less(
                    #[trigger] old_map@[j].0,
                    pv,
                ) by {
                    assert(old(self)@[j] == old_map@[j].0);
                }
            }
        }
        self.map.insert(path, ());
        proof {
            if forall|j: int| 0 <= j < old(self)@.len() ==> seq_less(#[trigger] old(self)@[j], pv) {
                assert(self@ =~= old(self)@.push(pv));
            }
            let nm = self.map@;
            assert(has_key(nm, pv));
            let i = key_index(nm, pv);
            assert(self@[i] == pv);
            assert forall|p: Seq<char>| p != pv implies (self.has(p) == old(self).has(p)) by {
                if self.has(p) {
                    let j = choose|j: int| 0 <= j < self@.len() && self@[j] == p;
                    assert(nm[j].0 == p);
                    assert(has_key(nm, p));
                    assert(self.map.lookup(p) == old_map.lookup(p));
                    assert(has_key(old_map@, p));
                    let k = key_index(old_map@, p);
                    assert(old(self)@[k] == p);
                }
                if old(self).has(p) {
                    let j = choose|j: int| 0 <= j < old(self)@.len() && old(self)@[j] == p;
                    assert(old_map@[j].0 == p);
                    assert(has_key(old_map@, p));
                    assert(self.map.lookup(p) == old_map.lookup(p));
                    assert(has_key(nm, p));
                    let k = key_index(nm, p);
                    assert(self@[k] == p);
                }
            }
        }
    }

    /// A copy of this set.
    pub fn duplicate(&self) -> (r: Self)
        ensures
            r@ == self@,
    {
        proof {
            use_type_invariant(&self.map);
        }
        let mut out = PathSet::new();
        let mut i: usize = 0;
        let n = self.map.len();
        let mut m: PathMap<()> = PathMap::new();
        while i < n
            invariant
                n == self.map@.len(),
                i <= n,
                keys_sorted(self.map@),
                m@ == self.map@.take(i as int),
            decreases n - i,
        {
            let (k, _) = self.map.entry_at(i);
            m.append_last(to_string_owned(k), ());
            assert(m@ =~= self.map@.take(i + 1));
            i = i + 1;
        }
        assert(self.map@.take(n as int) =~= self.map@);
        out.map = m;
        out
    }
}

fn to_string_owned(s: &str) -> (r: String)
    ensures
        r@ == s@,
{
    crate::text::to_owned_string(s)
}

impl<V> PathMap<V> {
    /// Appends an entry whose key sorts after every key present, and whose
    /// position the caller already knows to be last.
    fn append_last(&mut self, key: String, value: V)
        requires
            forall|i: int| 0 <= i < old(self)@.len() ==> seq_less(#[trigger] old(self)@[i].0, key@),
        ensures
            final(self)@ == old(self)@.push((key@, value)),
    {
        proof {
            use_type_invariant(&*self);
        }
        let ghost kv = key@;
        let ghost old_view = self@;
        let mut entries: Vec<(String, V)> = Vec::new();
        std::mem::swap(&mut entries, &mut self.entries);
        entries.push((key, value));
        proof {
            let nv = entries@.map_values(|e: (String, V)| (e.0@, e.1));
            assert(nv =~= old_view.push((kv, value)));
        }
        self.entries = entries;
    }
}

/// `x` inserted into `s` before the first element it sorts before.
pub open spec fn insert_sorted(s: Seq<Seq<char>>, x: Seq<char>) -> Seq<Seq<char>>
    decreases s.len(),
{
    if s.len() == 0 {
        seq![x]
    } else if seq_less(x, s[0]) {
        seq![x] + s
    } else {
        seq![s[0]] + insert_sorted(s.drop_first(), x)
    }
}

/// The texts in ascending order (insertion sort, equal texts kept in
/// their order).
pub open spec fn sort_seqs(s: Seq<Seq<char>>) -> Seq<Seq<char>>
    decreases s.len(),
{
    if s.len() == 0 {
        s
    } else {
        insert_sorted(sort_seqs(s.drop_last()), s.last())
    }
}

proof fn lemma_insert_at(s: Seq<Seq<char>>, x: Seq<char>, p: int)
    requires
        0 <= p <= s.len(),
        forall|j: int| 0 <= j < p ==> !seq_less(x, #[trigger] s[j]),
        p < s.len() ==> seq_less(x, s[p]),
    ensures
        insert_sorted(s, x) == s.insert(p, x),
    decreases s.len(),
{
    if s.len() == 0 {
        assert(s.insert(p, x) =~= seq![x]);
    } else if p == 0 {
        assert(s.insert(p, x) =~= seq![x] + s);
    } else {
        let t = s.drop_first();
        assert forall|j: int| 0 <= j < p - 1 implies !seq_less(x, #[trigger] t[j]) by {
            assert(t[j] == s[j + 1]);
        }
        lemma_insert_at(t, x, p - 1);
        assert(seq![s[0]] + t.insert(p - 1, x) =~= s.insert(p, x));
    }
}

fn own_text(s: &str) -> (r: String)
    ensures
        r@ == s@,
{
    crate::text::to_owned_string(s)
}

/// The texts sorted in ascending order.
pub fn sort_texts(v: &Vec<String>) -> (r: Vec<String>)
    ensures
        r@.map_values(|s: String| s@) == sort_seqs(v@.map_values(|s: String| s@)),
{
    let ghost vv = v@.map_values(|s: String| s@);
    let mut out: Vec<String> = Vec::new();
    let mut i: usize = 0;
    while i < v.len()
        invariant
            i <= v@.len(),
            vv == v@.map_values(|s: String| s@),
            out@.map_values(|s: String| s@) == sort_seqs(vv.take(i as int)),
        decreases v.len() - i,
    {
        let x = own_text(v[i].as_str());
        let xc = chars_of(x.as_str());
        let ghost cur = out@.map_values(|s: String| s@);
        let mut p: usize = 0;
        while p < out.len()
            invariant
                p <= out@.len(),
                cur == out@.map_values(|s: String| s@),
                xc@ == x@,
                forall|j: int| 0 <= j < p ==> !seq_less(x@, #[trigger] cur[j]),
            ensures
                p <= out@.len(),
                forall|j: int| 0 <= j < p ==> !seq_less(x@, #[trigger] cur[j]),
                p < out@.len() ==> seq_less(x@, cur[p as int]),
            decreases out.len() - p,
        {
            let oc = chars_of(out[p].as_str());
            if chars_less(&xc, &oc) {
                break;
            }
            p = p + 1;
        }
        proof {
            lemma_insert_at(cur, x@, p as int);
            assert(vv.take(i + 1).drop_last() =~= vv.take(i as int));
        }
        let ghost xv = x@;
        out.insert(p, x);
        assert(out@.map_values(|s: String| s@) =~= cur.insert(p as int, xv));
        i = i + 1;
    }
    assert(vv.take(v.len() as int) =~= vv);
    out
}

/// No text sorts before an earlier one.
pub open spec fn ascending(s: Seq<Seq<char>>) -> bool {
    forall|i: int, j: int| 0 <= i < j < s.len() ==> !seq_less(#[trigger] s[j], #[trigger] s[i])
}

proof fn lemma_insert_sorted(s: Seq<Seq<char>>, x: Seq<char>)
    requires
        ascending(s),
    ensures
        ascending(insert_sorted(s, x)),
        insert_sorted(s, x).to_multiset() == s.to_multiset().insert(x),
    decreases s.len(),
{
    if s.len() == 0 {
        assert(seq![x] =~= s.push(x));
        vstd::seq_lib::to_multiset_build(s, x);
    } else if seq_less(x, s[0]) {
        let r = seq![x] + s;
        assert(r =~= s.insert(0, x));
        vstd::seq_lib::to_multiset_insert(s, 0, x);
        assert forall|i: int, j: int| 0 <= i < j < r.len() implies !seq_less(
            #[trigger] r[j],
            #[trigger] r[i],
        ) by {
            if i == 0 {
                assert(r[j] == s[j - 1]);
                if seq_less(s[j - 1], x) {
                    lemma_seq_less_transitive(s[j - 1], x, s[0]);
                    if j - 1 > 0 {
                        assert(!seq_less(s[j - 1], s[0]));
                    } else {
                        lemma_seq_less_irreflexive(s[0]);
                    }
                }
            } else {
                assert(r[i] == s[i - 1] && r[j] == s[j - 1]);
            }
        }
    } else {
        let t = s.drop_first();
        assert forall|i: int, j: int| 0 <= i < j < t.len() implies !seq_less(
            #[trigger] t[j],
            #[trigger] t[i],
        ) by {
            assert(t[i] == s[i + 1] && t[j] == s[j + 1]);
        }
        lemma_insert_sorted(t, x);
        let rt = insert_sorted(t, x);
        let r = seq![s[0]] + rt;
        assert(r =~= rt.insert(0, s[0]));
        vstd::seq_lib::to_multiset_insert(rt, 0, s[0]);
        assert(s =~= t.insert(0, s[0]));
        vstd::seq_lib::to_multiset_insert(t, 0, s[0]);
        assert(r.to_multiset() =~= s.to_multiset().insert(x));
        assert forall|i: int, j: int| 0 <= i < j < r.len() implies !seq_less(
            #[trigger] r[j],
            #[trigger] r[i],
        ) by {
            if i == 0 {
                let e = rt[j - 1];
                assert(r[j] == e);
                vstd::seq_lib::to_multiset_contains(rt, e);
                assert(rt.contains(e));
                assert(rt.to_multiset().count(e) > 0);
                if e != x {
                    assert(t.to_multiset().count(e) > 0);
                    vstd::seq_lib::to_multiset_contains(t, e);
                    let k = choose|k: int| 0 <= k < t.len() && t[k] == e;
                    assert(s[k + 1] == e);
                }
            } else {
                assert(r[i] == rt[i - 1] && r[j] == rt[j - 1]);
            }
        }
    }
}

/// Sorting gives ascending texts, the same texts as before.
pub proof fn lemma_sort_seqs(s: Seq<Seq<char>>)
    ensures
        ascending(sort_seqs(s)),
        sort_seqs(s).to_multiset() == s.to_multiset(),
    decreases s.len(),
{
    if s.len() == 0 {
    } else {
        lemma_sort_seqs(s.drop_last());
        lemma_insert_sorted(sort_seqs(s.drop_last()), s.last());
        assert(s =~= s.drop_last().push(s.last()));
        vstd::seq_lib::to_multiset_build(s.drop_last(), s.last());
    }
}

/// Two ascending arrangements of the same texts are the same sequence.
pub proof fn lemma_ascending_unique(a: Seq<Seq<char>>, b: Seq<Seq<char>>)
    requires
        ascending(a),
        ascending(b),
        a.to_multiset() == b.to_multiset(),
    ensures
        a == b,
    decreases a.len(),
{
    vstd::seq_lib::to_multiset_len(a);
    vstd::seq_lib::to_multiset_len(b);
    if a.len() > 0 {
        let x = a[0];
        let y = b[0];
        vstd::seq_lib::to_multiset_contains(a, x);
        vstd::seq_lib::to_multiset_contains(b, x);
        vstd::seq_lib::to_multiset_contains(a, y);
        vstd::seq_lib::to_multiset_contains(b, y);
        assert(a.contains(x));
        assert(b.contains(y));
        let k = choose|k: int| 0 <= k < b.len() && b[k] == x;
        let m = choose|m: int| 0 <= m < a.len() && a[m] == y;
        if k > 0 {
            assert(!seq_less(b[k], b[0]));
        } else {
            lemma_seq_less_irreflexive(x);
        }
        if m > 0 {
            assert(!seq_less(a[m], a[0]));
        } else {
            lemma_seq_less_irreflexive(y);
        }
        lemma_seq_less_total(x, y);
        vstd::seq_lib::to_multiset_remove(a, 0);
        vstd::seq_lib::to_multiset_remove(b, 0);
        assert(a.remove(0) =~= a.drop_first());
        assert(b.remove(0) =~= b.drop_first());
        assert forall|i: int, j: int| 0 <= i < j < a.drop_first().len() implies !seq_less(
            #[trigger] a.drop_first()[j],
            #[trigger] a.drop_first()[i],
        ) by {
            assert(!seq_less(a[j + 1], a[i + 1]));
        }
        assert forall|i: int, j: int| 0 <= i < j < b.drop_first().len() implies !seq_less(
            #[trigger] b.drop_first()[j],
            #[trigger] b.drop_first()[i],
        ) by {
            assert(!seq_less(b[j + 1], b[i + 1]));
        }
        lemma_ascending_unique(a.drop_first(), b.drop_first());
        assert(a =~= seq![x] + a.drop_first());
        assert(b =~= seq![y] + b.drop_first());
    } else {
        assert(a =~= b);
    }
}

/// Sorting depends only on which texts there are, not on their order.
pub proof fn lemma_sort_seqs_permutation(a: Seq<Seq<char>>, b: Seq<Seq<char>>)
    requires
        a.to_multiset() == b.to_multiset(),
    ensures
        sort_seqs(a) == sort_seqs(b),
{
    lemma_sort_seqs(a);
    lemma_sort_seqs(b);
    lemma_ascending_unique(sort_seqs(a), sort_seqs(b));
}

} // verus!
