//! A table of header names to values: each name occurs at most once, and
//! setting a name that is already present replaces its value.

use vstd::prelude::*;
use crate::text::ascii_lower;

verus! {

/// The plain view of a list of header pairs.
pub open spec fn pairs_view(v: Seq<(String, String)>) -> Seq<(Seq<char>, Seq<char>)> {
    v.map_values(|p: (String, String)| (p.0@, p.1@))
}

/// No two pairs of the list carry the same name.
pub open spec fn names_distinct(s: Seq<(Seq<char>, Seq<char>)>) -> bool {
    forall|i: int, j: int| 0 <= i < j < s.len() ==> #[trigger] s[i].0 != #[trigger] s[j].0
}

/// Some pair of the list carries the name `k`.
pub open spec fn has_name(s: Seq<(Seq<char>, Seq<char>)>, k: Seq<char>) -> bool {
    exists|i: int| 0 <= i < s.len() && #[trigger] s[i].0 == k
}

/// The map that a list of pairs with distinct names stands for.
pub open spec fn pairs_map(s: Seq<(Seq<char>, Seq<char>)>) -> Map<Seq<char>, Seq<char>> {
    Map::new(
        |k: Seq<char>| has_name(s, k),
        |k: Seq<char>| s[choose|i: int| 0 <= i < s.len() && #[trigger] s[i].0 == k].1,
    )
}

/// Where the names are distinct, the pair at `i` gives the map's value at its name.
pub proof fn lemma_pairs_map_at(s: Seq<(Seq<char>, Seq<char>)>, i: int)
    requires
        names_distinct(s),
        0 <= i < s.len(),
    ensures
        pairs_map(s).contains_key(s[i].0),
        pairs_map(s)[s[i].0] == s[i].1,
{
    assert(has_name(s, s[i].0));
    let j = choose|j: int| 0 <= j < s.len() && #[trigger] s[j].0 == s[i].0;
    if j != i {
        if j < i {
            assert(s[j].0 != s[i].0);
        } else {
            assert(s[i].0 != s[j].0);
        }
    }
}

/// Appending a pair with a fresh name inserts it into the map.
pub proof fn lemma_pairs_map_push(s: Seq<(Seq<char>, Seq<char>)>, k: Seq<char>, v: Seq<char>)
    requires
        names_distinct(s),
        !has_name(s, k),
    ensures
        names_distinct(s.push((k, v))),
        pairs_map(s.push((k, v))) == pairs_map(s).insert(k, v),
{
    let t = s.push((k, v));
    assert forall|a: int, b: int| 0 <= a < b < t.len() implies #[trigger] t[a].0 != #[trigger] t[b].0 by {
        if b == s.len() {
            assert(s[a].0 != k);
        } else {
            assert(s[a].0 != s[b].0);
        }
    }
    assert(pairs_map(t) =~= pairs_map(s).insert(k, v)) by {
        assert forall|x: Seq<char>| #[trigger] pairs_map(t).contains_key(x) <==> pairs_map(s).insert(k, v).contains_key(x) by {
            if has_name(t, x) {
                let j = choose|j: int| 0 <= j < t.len() && #[trigger] t[j].0 == x;
                if j < s.len() { assert(s[j].0 == x); }
            }
            if has_name(s, x) {
                let j = choose|j: int| 0 <= j < s.len() && #[trigger] s[j].0 == x;
                assert(t[j].0 == x);
            }
            assert(t[s.len() as int].0 == k);
        }
        assert forall|x: Seq<char>| #[trigger] pairs_map(t).contains_key(x) implies pairs_map(t)[x] == pairs_map(s).insert(k, v)[x] by {
            let j = choose|j: int| 0 <= j < t.len() && #[trigger] t[j].0 == x;
            lemma_pairs_map_at(t, j);
            if j < s.len() {
                assert(s[j].0 == x);
                lemma_pairs_map_at(s, j);
            }
        }
    }
}

/// Some name of the map is `name` when both are ASCII lower-cased.
pub open spec fn has_name_ignore_case(m: Map<Seq<char>, Seq<char>>, name: Seq<char>) -> bool {
    exists|k: Seq<char>| #[trigger] m.contains_key(k) && ascii_lower(k) == ascii_lower(name)
}

/// A list of header pairs in which every name occurs once.
pub struct HeaderTable {
    entries: Vec<(String, String)>,
}

impl View for HeaderTable {
    type V = Map<Seq<char>, Seq<char>>;

    open spec fn view(&self) -> Map<Seq<char>, Seq<char>> {
        pairs_map(self.entries_view())
    }
}

impl HeaderTable {
    /// The pairs of the table, in the order in which their names were first set.
    pub closed spec fn entries_view(&self) -> Seq<(Seq<char>, Seq<char>)> {
        pairs_view(self.entries@)
    }

    /// Every name occurs once.
    pub open spec fn wf(&self) -> bool {
        names_distinct(self.entries_view())
    }

    /// An empty table.
    pub fn new() -> (t: HeaderTable)
        ensures
            t.wf(),
            t@ == Map::<Seq<char>, Seq<char>>::empty(),
            t.entries_view() == Seq::<(Seq<char>, Seq<char>)>::empty(),
    {
        let t = HeaderTable { entries: Vec::new() };
        assert(t.entries_view() =~= Seq::<(Seq<char>, Seq<char>)>::empty());
        assert(t@ =~= Map::<Seq<char>, Seq<char>>::empty());
        t
    }

    /// The number of names in the table.
    pub fn len(&self) -> (n: usize)
        requires
            self.wf(),
        ensures
            n == self.entries_view().len(),
            n == self@.len(),
    {
        proof { self.lemma_len(); }
        self.entries.len()
    }

    proof fn lemma_len(&self)
        requires
            self.wf(),
        ensures
            self@.len() == self.entries_view().len(),
            self@.dom().finite(),
    {
        let s = self.entries_view();
        let f = |i: int| s[i].0;
        let idx = Set::new(|i: int| 0 <= i < s.len());
        assert(idx =~= vstd::set_lib::set_int_range(0, s.len() as int));
        vstd::set_lib::lemma_int_range(0, s.len() as int);
        assert(self@.dom() =~= idx.map(f)) by {
            assert forall|k: Seq<char>| self@.dom().contains(k) implies idx.map(f).contains(k) by {
                let i = choose|i: int| 0 <= i < s.len() && #[trigger] s[i].0 == k;
                assert(idx.contains(i));
            }
            assert forall|k: Seq<char>| idx.map(f).contains(k) implies self@.dom().contains(k) by {
                let i = choose|i: int| idx.contains(i) && f(i) == k;
                assert(has_name(s, s[i].0));
            }
        }
        assert(vstd::relations::injective_on(f, idx)) by {
            assert forall|a: int, b: int| idx.contains(a) && idx.contains(b) && #[trigger] f(a) == #[trigger] f(b) implies a == b by {
                if a < b {
                    assert(s[a].0 != s[b].0);
                } else if b < a {
                    assert(s[b].0 != s[a].0);
                }
            }
        }
        vstd::set_lib::lemma_map_size(idx, idx.map(f), f);
    }

    /// Position of the pair named `key`, if any.
    fn position(&self, key: &str) -> (r: Option<usize>)
        requires
            self.wf(),
        ensures
            match r {
                Some(i) => i < self.entries_view().len() && self.entries_view()[i as int].0 == key@,
                None => !has_name(self.entries_view(), key@),
            },
    {
        let n = self.entries.len();
        let mut i: usize = 0;
        while i < n
            invariant
                n == self.entries@.len(),
                i <= n,
                forall|j: int| 0 <= j < i ==> self.entries_view()[j].0 != key@,
            decreases n - i,
        {
            if crate::text::str_eq(self.entries[i].0.as_str(), key) {
                return Some(i);
            }
            i = i + 1;
        }
        None
    }

    /// The value set for `key`, if any.
    pub fn get(&self, key: &str) -> (r: Option<&String>)
        requires
            self.wf(),
        ensures
            match r {
                Some(v) => self@.contains_key(key@) && self@[key@] == v@,
                None => !self@.contains_key(key@),
            },
    {
        match self.position(key) {
            Some(i) => {
                proof { lemma_pairs_map_at(self.entries_view(), i as int); }
                Some(&self.entries[i].1)
            },
            None => None,
        }
    }

    /// Whether some name of the table is `name`, ignoring ASCII case.
    pub fn contains_ignore_case(&self, name: &str) -> (r: bool)
        requires
            self.wf(),
        ensures
            r == has_name_ignore_case(self@, name@),
    {
        let n = self.entries.len();
        let mut i: usize = 0;
        while i < n
            invariant
                self.wf(),
                n == self.entries@.len(),
                i <= n,
                forall|j: int| 0 <= j < i ==> ascii_lower(#[trigger] self.entries_view()[j].0) != ascii_lower(name@),
            decreases n - i,
        {
            if crate::text::eq_ignore_ascii_case(self.entries[i].0.as_str(), name) {
                proof {
                    lemma_pairs_map_at(self.entries_view(), i as int);
                    assert(self@.contains_key(self.entries_view()[i as int].0));
                }
                return true;
            }
            i = i + 1;
        }
        proof {
            let s = self.entries_view();
            assert forall|k: Seq<char>| #[trigger] self@.contains_key(k) implies ascii_lower(k) != ascii_lower(name@) by {
                let j = choose|j: int| 0 <= j < s.len() && #[trigger] s[j].0 == k;
                assert(ascii_lower(s[j].0) != ascii_lower(name@));
            }
        }
        false
    }

    /// Sets `key` to `value`, replacing any value it had.
    pub fn insert(&mut self, key: String, value: String)
        requires
            old(self).wf(),
        ensures
            final(self).wf(),
            final(self)@ == old(self)@.insert(key@, value@),
            has_name(old(self).entries_view(), key@) ==> final(self).entries_view().len()
                == old(self).entries_view().len(),
            !has_name(old(self).entries_view(), key@) ==> final(self).entries_view()
                == old(self).entries_view().push((key@, value@)),
    {
        let ghost s = self.entries_view();
        let ghost k = key@;
        let ghost v = value@;
        match self.position(key.as_str()) {
            Some(i) => {
                self.entries.set(i, (key, value));
                let ghost t = self.entries_view();
                assert(t =~= s.update(i as int, (k, v)));
                assert forall|a: int, b: int| 0 <= a < b < t.len() implies #[trigger] t[a].0 != #[trigger] t[b].0 by {
                    if a == i {
                        assert(s[b].0 != s[a].0);
                    } else if b == i {
                        assert(s[a].0 != s[b].0);
                    } else {
                        assert(s[a].0 != s[b].0);
                    }
                }
                assert(pairs_map(t) =~= pairs_map(s).insert(k, v)) by {
                    assert forall|x: Seq<char>| #[trigger] pairs_map(t).contains_key(x) <==> pairs_map(s).insert(k, v).contains_key(x) by {
                        if has_name(t, x) {
                            let j = choose|j: int| 0 <= j < t.len() && #[trigger] t[j].0 == x;
                            if j != i { assert(s[j].0 == x); }
                        }
                        if has_name(s, x) && x != k {
                            let j = choose|j: int| 0 <= j < s.len() && #[trigger] s[j].0 == x;
                            assert(t[j].0 == x);
                        }
                        assert(t[i as int].0 == k);
                    }
                    assert forall|x: Seq<char>| #[trigger] pairs_map(t).contains_key(x) implies pairs_map(t)[x] == pairs_map(s).insert(k, v)[x] by {
                        let j = choose|j: int| 0 <= j < t.len() && #[trigger] t[j].0 == x;
                        lemma_pairs_map_at(t, j);
                        if j != i {
                            assert(s[j].0 == x);
                            lemma_pairs_map_at(s, j);
                        }
                    }
                }
            },
            None => {
                self.entries.push((key, value));
                proof {
                    assert(self.entries_view() =~= s.push((k, v)));
                    lemma_pairs_map_push(s, k, v);
                }
            },
        }
    }

    /// Removes every pair.
    pub fn clear(&mut self)
        ensures
            final(self).wf(),
            final(self)@ == Map::<Seq<char>, Seq<char>>::empty(),
            final(self).entries_view() == Seq::<(Seq<char>, Seq<char>)>::empty(),
    {
        self.entries.clear();
        assert(self.entries_view() =~= Seq::<(Seq<char>, Seq<char>)>::empty());
        assert(self@ =~= Map::<Seq<char>, Seq<char>>::empty());
    }

    /// Sets every name of `other` to its value there, in `other`'s order.
    pub fn extend(&mut self, other: &HeaderTable)
        requires
            old(self).wf(),
            other.wf(),
        ensures
            final(self).wf(),
            final(self)@ == old(self)@.union_prefer_right(other@),
    {
        let ghost s0 = self@;
        let ghost o = other.entries_view();
        let n = other.entries.len();
        let mut i: usize = 0;
        while i < n
            invariant
                n == other.entries@.len(),
                o == other.entries_view(),
                names_distinct(o),
                i <= n,
                self.wf(),
                self@ == s0.union_prefer_right(pairs_map(o.take(i as int))),
            decreases n - i,
        {
            let k = other.entries[i].0.clone();
            let v = other.entries[i].1.clone();
            proof {
                assert(o.take(i + 1) =~= o.take(i as int).push(o[i as int]));
                assert(names_distinct(o.take(i as int)));
                assert(!has_name(o.take(i as int), o[i as int].0)) by {
                    if has_name(o.take(i as int), o[i as int].0) {
                        let j = choose|j: int| 0 <= j < i && #[trigger] o.take(i as int)[j].0 == o[i as int].0;
                        assert(o[j].0 != o[i as int].0);
                    }
                }
                lemma_pairs_map_push(o.take(i as int), o[i as int].0, o[i as int].1);
            }
            self.insert(k, v);
            i = i + 1;
            proof {
                assert(self@ =~= s0.union_prefer_right(pairs_map(o.take(i as int))));
            }
        }
        proof {
            assert(o.take(n as int) =~= o);
        }
    }

    /// A copy of the table.
    pub fn duplicate(&self) -> (r: HeaderTable)
        requires
            self.wf(),
        ensures
            r.wf(),
            r@ == self@,
            r.entries_view() == self.entries_view(),
    {
        HeaderTable { entries: self.to_pairs() }
    }

    /// The pairs of the table, in order.
    pub fn to_pairs(&self) -> (r: Vec<(String, String)>)
        requires
            self.wf(),
        ensures
            pairs_view(r@) == self.entries_view(),
    {
        clone_pairs(&self.entries)
    }
}

/// A copy of a list of pairs.
pub fn clone_pairs(v: &Vec<(String, String)>) -> (r: Vec<(String, String)>)
    ensures
        pairs_view(r@) == pairs_view(v@),
{
    let n = v.len();
    let mut out: Vec<(String, String)> = Vec::new();
    let mut i: usize = 0;
    while i < n
        invariant
            n == v@.len(),
            i <= n,
            pairs_view(out@) == pairs_view(v@).take(i as int),
        decreases n - i,
    {
        let k = v[i].0.clone();
        let x = v[i].1.clone();
        let ghost before = out@;
        out.push((k, x));
        proof {
            assert(out@ == before.push((k, x)));
            assert(pairs_view(out@) =~= pairs_view(before).push((k@, x@)));
            assert(pairs_view(v@)[i as int] == (k@, x@));
            assert(pairs_view(v@).take(i + 1) =~= pairs_view(v@).take(i as int).push((k@, x@)));
        }
        i = i + 1;
    }
    proof {
        assert(pairs_view(v@).take(n as int) =~= pairs_view(v@));
    }
    out
}

} // verus!
