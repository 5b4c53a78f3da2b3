//! The reconciliation base: for each mirrored ball, the last state balls and
//! GitHub agreed on. It is the common ancestor of the three-way comparison,
//! the idempotency oracle of push, and the issue-number cache of the join.
//!
//! The base is a map from ball id to [`Snapshot`], kept as a vector of entries
//! strictly ordered by id (the order std's `BTreeMap` keeps its `String` keys
//! in), so that the reverse lookup by issue number finds the least such id.

use vstd::prelude::*;
use crate::text::{chars_of, string_of};

verus! {

broadcast use vstd::string::group_string_axioms;

/// The last-agreed state of one mirrored issue.
#[derive(Debug, Clone, PartialEq, Eq)]
pub struct Snapshot {
    /// The GitHub issue number (the join cache; the title marker is the truth).
    pub number: u64,
    /// The bare title both sides last agreed on.
    pub title: String,
    /// Hash of the body both sides last agreed on.
    pub body_hash: String,
    /// The GitHub issue state (`open`/`closed`) last observed.
    pub state: String,
}

/// The mathematical value of a [`Snapshot`].
pub struct SnapshotView {
    pub number: u64,
    pub title: Seq<char>,
    pub body_hash: Seq<char>,
    pub state: Seq<char>,
}

impl View for Snapshot {
    type V = SnapshotView;

    open spec fn view(&self) -> SnapshotView {
        SnapshotView {
            number: self.number,
            title: self.title@,
            body_hash: self.body_hash@,
            state: self.state@,
        }
    }
}

impl Snapshot {
    /// A copy of this snapshot.
    pub fn duplicate(&self) -> (r: Snapshot)
        ensures
            r@ == self@,
    {
        Snapshot {
            number: self.number,
            title: self.title.clone(),
            body_hash: self.body_hash.clone(),
            state: self.state.clone(),
        }
    }
}

/// Strict lexicographic order of char sequences by code point, which is the
/// byte order of their UTF-8 encodings (std's order on `String`).
pub open spec fn key_lt(a: Seq<char>, b: Seq<char>) -> bool
    decreases a.len(),
{
    if a.len() == 0 {
        b.len() > 0
    } else if b.len() == 0 {
        false
    } else if a[0] != b[0] {
        a[0] < b[0]
    } else {
        key_lt(a.drop_first(), b.drop_first())
    }
}

pub proof fn lemma_key_lt_irreflexive(a: Seq<char>)
    ensures
        !key_lt(a, a),
    decreases a.len(),
{
    if a.len() > 0 {
        lemma_key_lt_irreflexive(a.drop_first());
    }
}

pub proof fn lemma_key_lt_trichotomy(a: Seq<char>, b: Seq<char>)
    ensures
        key_lt(a, b) || key_lt(b, a) || a == b,
    decreases a.len(),
{
    if a.len() > 0 && b.len() > 0 {
        if a[0] == b[0] {
            lemma_key_lt_trichotomy(a.drop_first(), b.drop_first());
            if a.drop_first() == b.drop_first() {
                assert(a == seq![a[0]] + a.drop_first());
                assert(b == seq![b[0]] + b.drop_first());
            }
        }
    } else if a.len() == 0 && b.len() == 0 {
        assert(a == b);
    }
}

pub proof fn lemma_key_lt_asymmetric(a: Seq<char>, b: Seq<char>)
    ensures
        !(key_lt(a, b) && key_lt(b, a)),
    decreases a.len(),
{
    if a.len() > 0 && b.len() > 0 && a[0] == b[0] {
        lemma_key_lt_asymmetric(a.drop_first(), b.drop_first());
    }
}

pub proof fn lemma_key_lt_transitive(a: Seq<char>, b: Seq<char>, c: Seq<char>)
    requires
        key_lt(a, b),
        key_lt(b, c),
    ensures
        key_lt(a, c),
    decreases a.len(),
{
    if a.len() > 0 && b.len() > 0 && c.len() > 0 {
        if a[0] == b[0] && b[0] == c[0] {
            lemma_key_lt_transitive(a.drop_first(), b.drop_first(), c.drop_first());
        }
    }
}

fn key_less(a: &Vec<char>, b: &Vec<char>) -> (r: bool)
    ensures
        r == key_lt(a@, b@),
{
    let mut i: usize = 0;
    assert(a@.skip(0) == a@ && b@.skip(0) == b@);
    while i < a.len() && i < b.len() && a[i] == b[i]
        invariant
            i <= a.len(),
            i <= b.len(),
            key_lt(a@, b@) == key_lt(a@.skip(i as int), b@.skip(i as int)),
        decreases a.len() - i,
    {
        assert(a@.skip(i as int).drop_first() == a@.skip(i + 1));
        assert(b@.skip(i as int).drop_first() == b@.skip(i + 1));
        i += 1;
    }
    if i == a.len() {
        i < b.len()
    } else if i == b.len() {
        false
    } else {
        a[i] < b[i]
    }
}

/// Whether `id` is a key of the entries.
pub open spec fn has_key(es: Seq<(String, Snapshot)>, id: Seq<char>) -> bool {
    exists|i: int| 0 <= i < es.len() && (#[trigger] es[i]).0@ == id
}

/// The snapshot stored under `id` (meaningful when `has_key`).
pub open spec fn value_at(es: Seq<(String, Snapshot)>, id: Seq<char>) -> SnapshotView {
    es[choose|i: int| 0 <= i < es.len() && (#[trigger] es[i]).0@ == id].1@
}

/// Entries strictly increasing by key.
pub open spec fn sorted_keys(es: Seq<(String, Snapshot)>) -> bool {
    forall|i: int, j: int| 0 <= i < j < es.len() ==> key_lt(es[i].0@, es[j].0@)
}

/// The map an entry sequence stands for.
pub open spec fn entries_map(es: Seq<(String, Snapshot)>) -> Map<Seq<char>, SnapshotView> {
    Map::new(|id: Seq<char>| has_key(es, id), |id: Seq<char>| value_at(es, id))
}

/// The whole base: ball id → [`Snapshot`]. An absent file is an empty base.
#[derive(Debug)]
pub struct Base {
    entries: Vec<(String, Snapshot)>,
}

impl View for Base {
    type V = Map<Seq<char>, SnapshotView>;

    closed spec fn view(&self) -> Map<Seq<char>, SnapshotView> {
        entries_map(self.entries@)
    }
}

impl Default for Base {
    /// The empty base, as a fresh clone starts.
    fn default() -> (b: Base)
        ensures
            b@ == Map::<Seq<char>, SnapshotView>::empty(),
    {
        Base::new()
    }
}

/// Where a base lives in its territory: `<dir>/base.json`.
pub fn base_path(dir: &str) -> (r: String)
    ensures
        r@ == crate::text::path_join_spec(dir@, "base.json"@),
{
    crate::text::string_of(&crate::text::path_join(&crate::text::chars_of(dir), "base.json"))
}

proof fn lemma_sorted_unique(es: Seq<(String, Snapshot)>, i: int, j: int)
    requires
        sorted_keys(es),
        0 <= i < es.len(),
        0 <= j < es.len(),
        es[i].0@ == es[j].0@,
    ensures
        i == j,
{
    if i < j {
        lemma_key_lt_irreflexive(es[i].0@);
    } else if j < i {
        lemma_key_lt_irreflexive(es[i].0@);
    }
}

proof fn lemma_value_at_index(es: Seq<(String, Snapshot)>, i: int)
    requires
        sorted_keys(es),
        0 <= i < es.len(),
    ensures
        has_key(es, es[i].0@),
        value_at(es, es[i].0@) == es[i].1@,
{
    let k = choose|k: int| 0 <= k < es.len() && (#[trigger] es[k]).0@ == es[i].0@;
    lemma_sorted_unique(es, i, k);
}

impl Base {
    #[verifier::type_invariant]
    spec fn well_ordered(self) -> bool {
        sorted_keys(self.entries@)
    }

    /// The empty base.
    pub fn new() -> (b: Base)
        ensures
            b@ == Map::<Seq<char>, SnapshotView>::empty(),
    {
        let b = Base { entries: Vec::new() };
        assert(b@ =~= Map::<Seq<char>, SnapshotView>::empty());
        b
    }

    /// Whether the base holds no entry.
    pub fn is_empty(&self) -> (r: bool)
        ensures
            r == (self@.dom() == Set::<Seq<char>>::empty()),
    {
        proof {
            use_type_invariant(self);
        }
        if self.entries.len() == 0 {
            assert(self@.dom() =~= Set::<Seq<char>>::empty());
            true
        } else {
            proof {
                lemma_value_at_index(self.entries@, 0);
                assert(self@.dom().contains(self.entries@[0].0@));
            }
            false
        }
    }

    /// The number of entries.
    pub fn len(&self) -> (r: usize)
        ensures
            r == self@.dom().len(),
    {
        proof {
            use_type_invariant(self);
            self.lemma_dom_len();
        }
        self.entries.len()
    }

    proof fn lemma_dom_len(&self)
        requires
            sorted_keys(self.entries@),
        ensures
            self@.dom().len() == self.entries@.len(),
            self@.dom().finite(),
    {
        let es = self.entries@;
        let keys = es.map_values(|e: (String, Snapshot)| e.0@);
        assert(self@.dom() =~= keys.to_set()) by {
            assert forall|k: Seq<char>| self@.dom().contains(k) implies keys.to_set().contains(k) by {
                let i = choose|i: int| 0 <= i < es.len() && (#[trigger] es[i]).0@ == k;
                assert(keys[i] == k);
            }
            assert forall|k: Seq<char>| keys.to_set().contains(k) implies self@.dom().contains(k) by {
                let i = choose|i: int| 0 <= i < keys.len() && keys[i] == k;
                assert(es[i].0@ == k);
            }
        }
        assert(keys.no_duplicates()) by {
            assert forall|i: int, j: int| 0 <= i < keys.len() && 0 <= j < keys.len() && i != j implies keys[i]
                != keys[j] by {
                if keys[i] == keys[j] {
                    lemma_sorted_unique(es, i, j);
                }
            }
        }
        keys.unique_seq_to_set();
    }

    /// The snapshot stored for ball `id`, if any.
    pub fn get(&self, id: &str) -> (r: Option<&Snapshot>)
        ensures
            match r {
                Some(s) => self@.contains_key(id@) && self@[id@] == s@,
                None => !self@.contains_key(id@),
            },
    {
        proof {
            use_type_invariant(self);
        }
        let key = chars_of(id);
        for i in 0..self.entries.len()
            invariant
                key@ == id@,
                sorted_keys(self.entries@),
                forall|j: int| 0 <= j < i ==> self.entries@[j].0@ != id@,
        {
            let k = chars_of(self.entries[i].0.as_str());
            if crate::text::chars_eq(&k, &key) {
                proof {
                    lemma_value_at_index(self.entries@, i as int);
                }
                return Some(&self.entries[i].1);
            }
        }
        None
    }

    /// Record `snap` as the agreed state of ball `id`, replacing any previous one.
    pub fn set(&mut self, id: &str, snap: Snapshot)
        ensures
            final(self)@ == old(self)@.insert(id@, snap@),
    {
        proof {
            use_type_invariant(&*self);
        }
        let mut es: Vec<(String, Snapshot)> = Vec::new();
        std::mem::swap(&mut es, &mut self.entries);
        let ghost old_es = es@;
        assert(old_es == old(self).entries@);
        let key = chars_of(id);
        let mut i: usize = 0;
        while i < es.len() && key_less(&chars_of(es[i].0.as_str()), &key)
            invariant
                es@ == old_es,
                sorted_keys(old_es),
                key@ == id@,
                i <= es.len(),
                forall|j: int| 0 <= j < i ==> key_lt(old_es[j].0@, id@),
            decreases es.len() - i,
        {
            i += 1;
        }
        let replace = i < es.len() && crate::text::chars_eq(&chars_of(es[i].0.as_str()), &key);
        if replace {
            es.remove(i);
        }
        let ghost mid = es@;
        es.insert(i, (string_of(&key), snap));
        proof {
            let new_es = es@;
            if i < old_es.len() && !replace {
                lemma_key_lt_trichotomy(id@, old_es[i as int].0@);
            }
            // every old key after position i is above `id`
            assert forall|j: int| i <= j < old_es.len() && !(replace && j == i) implies key_lt(
                id@,
                #[trigger] old_es[j].0@,
            ) by {
                if j == i {
                    lemma_key_lt_trichotomy(id@, old_es[j].0@);
                    lemma_key_lt_asymmetric(id@, old_es[j].0@);
                } else {
                    lemma_key_lt_trichotomy(id@, old_es[i as int].0@);
                    if replace {
                        assert(key_lt(old_es[i as int].0@, old_es[j].0@));
                    } else {
                        lemma_key_lt_transitive(id@, old_es[i as int].0@, old_es[j].0@);
                    }
                }
            }
            assert(sorted_keys(new_es)) by {
                assert forall|a: int, b: int| 0 <= a < b < new_es.len() implies key_lt(
                    new_es[a].0@,
                    new_es[b].0@,
                ) by {
                    let off: int = if replace {
                        1
                    } else {
                        0
                    };
                    let oa = if a < i {
                        a
                    } else {
                        a - 1 + off
                    };
                    let ob = if b < i {
                        b
                    } else {
                        b - 1 + off
                    };
                    if a < i && b < i {
                        assert(new_es[a] == old_es[oa] && new_es[b] == old_es[ob]);
                    } else if a < i && b == i {
                    } else if a < i {
                        assert(new_es[a] == old_es[oa] && new_es[b] == old_es[ob]);
                        lemma_key_lt_transitive(old_es[oa].0@, id@, old_es[ob].0@);
                    } else if a == i {
                        assert(new_es[b] == old_es[ob]);
                    } else {
                        assert(new_es[a] == old_es[oa] && new_es[b] == old_es[ob]);
                    }
                }
            }
            assert(entries_map(new_es) =~= entries_map(old_es).insert(id@, snap@)) by {
                assert forall|k: Seq<char>| #[trigger] has_key(new_es, k) == (has_key(old_es, k)
                    || k == id@) by {
                    if has_key(old_es, k) && k != id@ {
                        let j = choose|j: int| 0 <= j < old_es.len() && (#[trigger] old_es[j]).0@ == k;
                        if j < i {
                            assert(new_es[j] == old_es[j]);
                        } else if replace && j == i {
                            assert(false);
                        } else {
                            let off: int = if replace {
                                1
                            } else {
                                0
                            };
                            assert(new_es[j + 1 - off] == old_es[j]);
                        }
                    }
                    if k == id@ {
                        assert(new_es[i as int].0@ == id@);
                    }
                    if has_key(new_es, k) && k != id@ {
                        let j = choose|j: int| 0 <= j < new_es.len() && (#[trigger] new_es[j]).0@ == k;
                        if j < i {
                            assert(new_es[j] == old_es[j]);
                        } else if j == i {
                        } else {
                            let off: int = if replace {
                                1
                            } else {
                                0
                            };
                            assert(new_es[j] == old_es[j - 1 + off]);
                        }
                    }
                }
                assert forall|k: Seq<char>| has_key(new_es, k) implies #[trigger] value_at(new_es, k)
                    == (if k == id@ {
                    snap@
                } else {
                    value_at(old_es, k)
                }) by {
                    let j = choose|j: int| 0 <= j < new_es.len() && (#[trigger] new_es[j]).0@ == k;
                    lemma_value_at_index(new_es, j);
                    if k == id@ {
                        lemma_sorted_unique(new_es, j, i as int);
                    } else {
                        let off: int = if replace {
                            1
                        } else {
                            0
                        };
                        let oj = if j < i {
                            j
                        } else {
                            j - 1 + off
                        };
                        assert(new_es[j] == old_es[oj]);
                        lemma_value_at_index(old_es, oj);
                    }
                }
            }
        }
        self.entries = es;
    }

    /// Forget ball `id`.
    pub fn remove(&mut self, id: &str)
        ensures
            final(self)@ == old(self)@.remove(id@),
    {
        proof {
            use_type_invariant(&*self);
        }
        let mut es: Vec<(String, Snapshot)> = Vec::new();
        std::mem::swap(&mut es, &mut self.entries);
        let ghost old_es = es@;
        let key = chars_of(id);
        let mut i: usize = 0;
        while i < es.len()
            invariant
                es@ == old_es,
                sorted_keys(old_es),
                key@ == id@,
                i <= es.len(),
                forall|j: int| 0 <= j < i ==> old_es[j].0@ != id@,
            ensures
                i <= es.len(),
                forall|j: int| 0 <= j < i ==> old_es[j].0@ != id@,
                i < es.len() ==> old_es[i as int].0@ == id@,
            decreases es.len() - i,
        {
            if crate::text::chars_eq(&chars_of(es[i].0.as_str()), &key) {
                break;
            }
            i += 1;
        }
        if i < es.len() {
            es.remove(i);
            proof {
                let new_es = es@;
                assert(sorted_keys(new_es)) by {
                    assert forall|a: int, b: int| 0 <= a < b < new_es.len() implies key_lt(
                        new_es[a].0@,
                        new_es[b].0@,
                    ) by {
                        let oa = if a < i {
                            a
                        } else {
                            a + 1
                        };
                        let ob = if b < i {
                            b
                        } else {
                            b + 1
                        };
                        assert(new_es[a] == old_es[oa] && new_es[b] == old_es[ob]);
                    }
                }
                assert(entries_map(new_es) =~= entries_map(old_es).remove(id@)) by {
                    assert forall|k: Seq<char>| #[trigger] has_key(new_es, k) == (has_key(old_es, k)
                        && k != id@) by {
                        if has_key(new_es, k) {
                            let j = choose|j: int| 0 <= j < new_es.len() && (#[trigger] new_es[j]).0@ == k;
                            let oj = if j < i {
                                j
                            } else {
                                j + 1
                            };
                            assert(new_es[j] == old_es[oj]);
                            if k == id@ {
                                lemma_sorted_unique(old_es, oj, i as int);
                            }
                        }
                        if has_key(old_es, k) && k != id@ {
                            let j = choose|j: int| 0 <= j < old_es.len() && (#[trigger] old_es[j]).0@ == k;
                            if j < i {
                                assert(new_es[j] == old_es[j]);
                            } else {
                                assert(j != i);
                                assert(new_es[j - 1] == old_es[j]);
                            }
                        }
                    }
                    assert forall|k: Seq<char>| has_key(new_es, k) implies #[trigger] value_at(new_es, k)
                        == value_at(old_es, k) by {
                        let j = choose|j: int| 0 <= j < new_es.len() && (#[trigger] new_es[j]).0@ == k;
                        lemma_value_at_index(new_es, j);
                        let oj = if j < i {
                            j
                        } else {
                            j + 1
                        };
                        assert(new_es[j] == old_es[oj]);
                        lemma_value_at_index(old_es, oj);
                    }
                }
            }
        } else {
            assert(entries_map(old_es) =~= entries_map(old_es).remove(id@));
        }
        self.entries = es;
    }

    /// The ball id linked to GitHub issue `number`: the least such id in key
    /// order, if any. The fallback join when an issue title lost its marker.
    pub fn id_for_number(&self, number: u64) -> (r: Option<String>)
        ensures
            match r {
                Some(id) => {
                    &&& self@.contains_key(id@)
                    &&& self@[id@].number == number
                    &&& forall|k: Seq<char>|
                        #![trigger self@[k]]
                        self@.contains_key(k) && self@[k].number == number ==> !key_lt(k, id@)
                },
                None => forall|k: Seq<char>|
                    #![trigger self@[k]]
                    self@.contains_key(k) ==> self@[k].number != number,
            },
    {
        proof {
            use_type_invariant(self);
        }
        let ghost es = self.entries@;
        for i in 0..self.entries.len()
            invariant
                es == self.entries@,
                sorted_keys(es),
                forall|j: int| 0 <= j < i ==> es[j].1.number != number,
        {
            if self.entries[i].1.number == number {
                proof {
                    lemma_value_at_index(es, i as int);
                    assert forall|k: Seq<char>|
                        #![trigger self@[k]]
                        self@.contains_key(k) && self@[k].number == number implies !key_lt(
                        k,
                        es[i as int].0@,
                    ) by {
                        let j = choose|j: int| 0 <= j < es.len() && (#[trigger] es[j]).0@ == k;
                        lemma_value_at_index(es, j);
                        if j > i {
                            lemma_key_lt_asymmetric(es[i as int].0@, k);
                        } else if j == i {
                            lemma_key_lt_irreflexive(k);
                        }
                    }
                }
                return Some(self.entries[i].0.clone());
            }
        }
        proof {
            assert forall|k: Seq<char>| #![trigger self@[k]] self@.contains_key(k) implies self@[k].number
                != number by {
                let j = choose|j: int| 0 <= j < es.len() && (#[trigger] es[j]).0@ == k;
                lemma_value_at_index(es, j);
            }
        }
        None
    }

    /// The ids of the base in key order.
    pub fn ids(&self) -> (r: Vec<String>)
        ensures
            forall|k: Seq<char>| self@.contains_key(k) <==> exists|i: int| 0 <= i < r@.len() && (
            #[trigger] r@[i])@ == k,
            r@.len() == self@.dom().len(),
            forall|i: int, j: int| 0 <= i < j < r@.len() ==> key_lt(r@[i]@, r@[j]@),
    {
        proof {
            use_type_invariant(self);
            self.lemma_dom_len();
        }
        let mut r: Vec<String> = Vec::new();
        for i in 0..self.entries.len()
            invariant
                r@.len() == i,
                forall|j: int| 0 <= j < i ==> (#[trigger] r@[j])@ == self.entries@[j].0@,
        {
            r.push(self.entries[i].0.clone());
        }
        proof {
            assert forall|k: Seq<char>| self@.contains_key(k) implies exists|i: int|
                0 <= i < r@.len() && (#[trigger] r@[i])@ == k by {
                let j = choose|j: int| 0 <= j < self.entries@.len() && (#[trigger] self.entries@[j]).0@ == k;
                assert(r@[j]@ == k);
            }
            assert forall|k: Seq<char>| (exists|i: int| 0 <= i < r@.len() && (#[trigger] r@[i])@ == k) implies self@.contains_key(k) by {
                let i = choose|i: int| 0 <= i < r@.len() && (#[trigger] r@[i])@ == k;
                assert(self.entries@[i].0@ == k);
            }
        }
        r
    }

    /// The entries in key order, as `(id, snapshot)` pairs.
    pub fn to_entries(&self) -> (r: Vec<(String, Snapshot)>)
        ensures
            entries_map(r@) == self@,
            sorted_keys(r@),
    {
        proof {
            use_type_invariant(self);
        }
        let mut r: Vec<(String, Snapshot)> = Vec::new();
        for i in 0..self.entries.len()
            invariant
                r@.len() == i,
                forall|j: int|
                    0 <= j < i ==> (#[trigger] r@[j]).0@ == self.entries@[j].0@ && r@[j].1@
                        == self.entries@[j].1@,
        {
            r.push((self.entries[i].0.clone(), self.entries[i].1.duplicate()));
        }
        proof {
            lemma_same_views(self.entries@, r@);
        }
        r
    }

    /// A base holding `entries`, inserted in order (so a later entry for an id
    /// replaces an earlier one).
    pub fn from_entries(entries: &Vec<(String, Snapshot)>) -> (b: Base)
        ensures
            b@ == inserted(entries@),
    {
        let mut b = Base::new();
        for i in 0..entries.len()
            invariant
                b@ == inserted(entries@.take(i as int)),
        {
            b.set(entries[i].0.as_str(), entries[i].1.duplicate());
            assert(entries@.take(i + 1).drop_last() == entries@.take(i as int));
        }
        assert(entries@.take(entries.len() as int) == entries@);
        b
    }
}

/// The map built by inserting `es` in order.
pub open spec fn inserted(es: Seq<(String, Snapshot)>) -> Map<Seq<char>, SnapshotView>
    decreases es.len(),
{
    if es.len() == 0 {
        Map::empty()
    } else {
        inserted(es.drop_last()).insert(es.last().0@, es.last().1@)
    }
}

proof fn lemma_same_views(a: Seq<(String, Snapshot)>, b: Seq<(String, Snapshot)>)
    requires
        a.len() == b.len(),
        forall|j: int| 0 <= j < a.len() ==> (#[trigger] b[j]).0@ == a[j].0@ && b[j].1@ == a[j].1@,
    ensures
        sorted_keys(a) ==> sorted_keys(b),
        sorted_keys(a) ==> entries_map(a) == entries_map(b),
{
    if sorted_keys(a) {
        assert forall|i: int, j: int| 0 <= i < j < b.len() implies key_lt(b[i].0@, b[j].0@) by {
            assert(b[i].0@ == a[i].0@ && b[j].0@ == a[j].0@);
        }
        assert(entries_map(a) =~= entries_map(b)) by {
            assert forall|k: Seq<char>| #[trigger] has_key(a, k) == has_key(b, k) by {
                if has_key(a, k) {
                    let j = choose|j: int| 0 <= j < a.len() && (#[trigger] a[j]).0@ == k;
                    assert(b[j].0@ == k);
                }
                if has_key(b, k) {
                    let j = choose|j: int| 0 <= j < b.len() && (#[trigger] b[j]).0@ == k;
                    assert(a[j].0@ == k);
                }
            }
            assert forall|k: Seq<char>| has_key(a, k) implies #[trigger] value_at(a, k) == value_at(b, k) by {
                let j = choose|j: int| 0 <= j < a.len() && (#[trigger] a[j]).0@ == k;
                lemma_value_at_index(a, j);
                lemma_value_at_index(b, j);
            }
        }
    }
}

/// Inserting sorted, distinct entries one by one yields the map they stand for.
proof fn lemma_inserted_sorted(es: Seq<(String, Snapshot)>)
    requires
        sorted_keys(es),
    ensures
        inserted(es) == entries_map(es),
    decreases es.len(),
{
    if es.len() > 0 {
        let init = es.drop_last();
        assert(sorted_keys(init));
        lemma_inserted_sorted(init);
        let n = es.len() - 1;
        assert(entries_map(es) =~= entries_map(init).insert(es.last().0@, es.last().1@)) by {
            assert forall|k: Seq<char>| #[trigger] has_key(es, k) == (has_key(init, k) || k
                == es.last().0@) by {
                if has_key(es, k) && k != es.last().0@ {
                    let j = choose|j: int| 0 <= j < es.len() && (#[trigger] es[j]).0@ == k;
                    assert(init[j] == es[j]);
                }
                if has_key(init, k) {
                    let j = choose|j: int| 0 <= j < init.len() && (#[trigger] init[j]).0@ == k;
                    assert(es[j] == init[j]);
                }
                if k == es.last().0@ {
                    assert(es[n].0@ == k);
                }
            }
            assert forall|k: Seq<char>| has_key(es, k) implies #[trigger] value_at(es, k) == (if k
                == es.last().0@ {
                es.last().1@
            } else {
                value_at(init, k)
            }) by {
                let j = choose|j: int| 0 <= j < es.len() && (#[trigger] es[j]).0@ == k;
                lemma_value_at_index(es, j);
                if k == es.last().0@ {
                    lemma_sorted_unique(es, j, n);
                } else {
                    assert(j < n);
                    assert(init[j] == es[j]);
                    lemma_value_at_index(init, j);
                }
            }
        }
    } else {
        assert(entries_map(es) =~= Map::empty());
    }
}

/// Saving a base and loading it back gives the same base: rebuilding from
/// the exported entries yields the same map.
pub proof fn law_entries_round_trip(m: Map<Seq<char>, SnapshotView>, es: Seq<(String, Snapshot)>)
    requires
        entries_map(es) == m,
        sorted_keys(es),
    ensures
        inserted(es) == m,
{
    lemma_inserted_sorted(es);
}

/// The base is a map: a read after `set` gives back what was set, a read
/// after `remove` finds nothing, and neither touches another id.
pub proof fn law_read_after_write(
    m: Map<Seq<char>, SnapshotView>,
    id: Seq<char>,
    other: Seq<char>,
    snap: SnapshotView,
)
    requires
        other != id,
    ensures
        m.insert(id, snap).contains_key(id) && m.insert(id, snap)[id] == snap,
        !m.remove(id).contains_key(id),
        m.insert(id, snap).contains_key(other) == m.contains_key(other),
        m.contains_key(other) ==> m.insert(id, snap)[other] == m[other] && m.remove(id)[other]
            == m[other],
        m.remove(id).contains_key(other) == m.contains_key(other),
{
}

} // verus!
