//! A set of path identifiers, backed by a duplicate-free vector of
//! strings.  The engine keeps three of these: Loading, Failed and Loaded.

use vstd::prelude::*;

verus! {

/// A set of path identifiers.  The view is the underlying sequence of
/// character sequences; well-formed values hold no duplicates, so the
/// sequence may be read as a set and its length as the set's size.
pub struct PathSet {
    pub items: Vec<String>,
}

impl View for PathSet {
    type V = Seq<Seq<char>>;

    open spec fn view(&self) -> Seq<Seq<char>> {
        self.items.deep_view()
    }
}

impl PathSet {
    /// No path occurs twice.
    pub open spec fn wf(&self) -> bool {
        self@.no_duplicates()
    }

    /// Creates an empty set.
    pub fn new() -> (s: Self)
        ensures
            s@ == Seq::<Seq<char>>::empty(),
            s.wf(),
    {
        let s = PathSet { items: Vec::new() };
        proof {
            assert(s@ =~= Seq::<Seq<char>>::empty());
        }
        s
    }

    /// Number of paths in the set.
    pub fn len(&self) -> (n: usize)
        ensures
            n == self@.len(),
    {
        self.items.len()
    }

    /// Membership test.
    pub fn contains(&self, p: &String) -> (b: bool)
        ensures
            b == self@.contains(p@),
    {
        let n = self.items.len();
        let mut i: usize = 0;
        while i < n
            invariant
                n == self.items.len(),
                i <= n,
                forall|j: int| 0 <= j < i ==> self@[j] != p@,
            decreases n - i,
        {
            assert(self@[i as int] == self.items@[i as int]@);
            if self.items[i].eq(p) {
                assert(self@.contains(p@));
                return true;
            }
            i = i + 1;
        }
        false
    }

    /// Inserts `p` unless it is already a member.
    pub fn insert(&mut self, p: String)
        ensures
            old(self)@.contains(p@) ==> final(self)@ == old(self)@,
            !old(self)@.contains(p@) ==> final(self)@ == old(self)@.push(p@),
            final(self)@.contains(p@),
            old(self).wf() ==> final(self).wf(),
    {
        let present = self.contains(&p);
        if !present {
            let ghost pre = self@;
            let ghost pv = p@;
            self.items.push(p);
            proof {
                assert(self@ =~= pre.push(pv));
                assert(self@[pre.len() as int] == pv);
                assert(self@.contains(pv));
                if pre.no_duplicates() {
                    assert forall|j: int, k: int| 0 <= j < k < self@.len() implies self@[j]
                        != self@[k] by {
                        if k == self@.len() - 1 {
                            assert(self@[j] == pre[j]);
                            assert(pre.contains(pre[j]));
                        }
                    }
                }
            }
        } else {
            assert(self@ =~= old(self)@);
        }
    }

    /// Removes `p` if it is a member.  On a well-formed set the result
    /// holds exactly the other members, in their old order.
    pub fn remove(&mut self, p: &String)
        requires
            old(self).wf(),
        ensures
            final(self).wf(),
            final(self)@ == old(self)@.remove_value(p@),
            forall|q: Seq<char>|
                final(self)@.contains(q) == (old(self)@.contains(q) && q != p@),
            final(self)@.len() == if old(self)@.contains(p@) {
                old(self)@.len() - 1
            } else {
                old(self)@.len() as int
            },
    {
        let ghost pre = self@;
        let n = self.items.len();
        let mut i: usize = 0;
        while i < n
            invariant
                n == self.items.len(),
                i <= n,
                self@ == pre,
                pre == old(self)@,
                pre.no_duplicates(),
                forall|j: int| 0 <= j < i ==> self@[j] != p@,
            decreases n - i,
        {
            assert(self@[i as int] == self.items@[i as int]@);
            if self.items[i].eq(p) {
                proof {
                    assert(pre[i as int] == p@);
                    assert(pre.contains(p@));
                    pre.index_of_first_ensures(p@);
                    let idx = pre.index_of_first(p@)->0;
                    if idx < i {
                        assert(pre[idx] != p@);
                        assert(false);
                    }
                    if idx > i {
                        assert(pre[i as int] != p@);
                        assert(false);
                    }
                    assert(pre.index_of_first(p@) == Some(i as int));
                }
                self.items.remove(i);
                proof {
                    assert(self@ =~= pre.remove(i as int));
                    lemma_remove_keeps_rest(pre, i as int);
                    assert(pre[i as int] == p@);
                }
                return;
            }
            i = i + 1;
        }
        proof {
            assert(!pre.contains(p@));
            pre.index_of_first_ensures(p@);
            assert(pre.remove_value(p@) == pre);
        }
    }

    /// Empties the set.
    pub fn clear(&mut self)
        ensures
            final(self)@ == Seq::<Seq<char>>::empty(),
            final(self).wf(),
    {
        self.items.clear();
        proof {
            assert(self@ =~= Seq::<Seq<char>>::empty());
        }
    }

    /// Keeps only the members of `keep`, in their old order.
    pub fn retain_members(&mut self, keep: &PathSet)
        requires
            old(self).wf(),
        ensures
            final(self).wf(),
            final(self)@ == old(self)@.filter(|q: Seq<char>| keep@.contains(q)),
            forall|q: Seq<char>|
                final(self)@.contains(q) == (old(self)@.contains(q) && keep@.contains(q)),
            final(self)@.len() <= old(self)@.len(),
    {
        let ghost pre = self@;
        let ghost pred = |q: Seq<char>| keep@.contains(q);
        let n = self.items.len();
        let mut kept: Vec<String> = Vec::new();
        let mut i: usize = 0;
        proof {
            assert(kept.deep_view() =~= pre.take(0).filter(pred));
        }
        while i < n
            invariant
                n == self.items.len(),
                i <= n,
                self@ == pre,
                pre.no_duplicates(),
                pred == (|q: Seq<char>| keep@.contains(q)),
                kept.deep_view() == pre.take(i as int).filter(pred),
            decreases n - i,
        {
            assert(self@[i as int] == self.items@[i as int]@);
            let ghost kept_pre = kept.deep_view();
            let member = keep.contains(&self.items[i]);
            if member {
                let item = self.items[i].clone();
                assert(item@ == pre[i as int]);
                kept.push(item);
                proof {
                    assert(kept.deep_view() =~= kept_pre.push(pre[i as int]));
                }
            }
            proof {
                reveal_with_fuel(Seq::filter, 2);
                assert(pre.take(i + 1).drop_last() =~= pre.take(i as int));
                assert(pre.take(i + 1).last() == pre[i as int]);
                assert(kept.deep_view() =~= pre.take(i + 1).filter(pred));
            }
            i = i + 1;
        }
        proof {
            assert(pre.take(n as int) =~= pre);
        }
        self.items = kept;
        proof {
            lemma_filter_no_duplicates(pre, pred);
            lemma_filter_membership(pre, pred);
            pre.lemma_filter_len(pred);
        }
    }
}

/// Removing a value that is not present leaves a sequence unchanged.
pub proof fn lemma_remove_value_absent(s: Seq<Seq<char>>, p: Seq<char>)
    requires
        !s.contains(p),
    ensures
        s.remove_value(p) == s,
{
    s.index_of_first_ensures(p);
}

/// Membership after a push: the pushed value, and everything already
/// present.
pub proof fn lemma_push_membership(s: Seq<Seq<char>>, p: Seq<char>)
    ensures
        forall|q: Seq<char>| s.push(p).contains(q) == (s.contains(q) || q == p),
{
    assert forall|q: Seq<char>| s.push(p).contains(q) == (s.contains(q) || q == p) by {
        if s.push(p).contains(q) {
            let j = choose|j: int| 0 <= j < s.push(p).len() && s.push(p)[j] == q;
            if j < s.len() {
                assert(s[j] == q);
                assert(s.contains(q));
            } else {
                assert(q == p);
            }
        }
        if s.contains(q) {
            let j = choose|j: int| 0 <= j < s.len() && s[j] == q;
            assert(s.push(p)[j] == q);
            assert(s.push(p).contains(q));
        }
        if q == p {
            assert(s.push(p)[s.len() as int] == q);
            assert(s.push(p).contains(q));
        }
    }
}

/// Removing one element of a duplicate-free sequence keeps the sequence
/// duplicate-free and keeps exactly the other elements.
proof fn lemma_remove_keeps_rest(s: Seq<Seq<char>>, i: int)
    requires
        s.no_duplicates(),
        0 <= i < s.len(),
    ensures
        s.remove(i).no_duplicates(),
        forall|q: Seq<char>| s.remove(i).contains(q) == (s.contains(q) && q != s[i]),
{
    let t = s.remove(i);
    s.remove_ensures(i);
    assert forall|q: Seq<char>| t.contains(q) == (s.contains(q) && q != s[i]) by {
        if t.contains(q) {
            let j = choose|j: int| 0 <= j < t.len() && t[j] == q;
            if j < i {
                assert(s[j] == q);
                assert(s.contains(q));
                if q == s[i] {
                    assert(false);
                }
            } else {
                assert(s[j + 1] == q);
                assert(s.contains(q));
                if q == s[i] {
                    assert(false);
                }
            }
        }
        if s.contains(q) && q != s[i] {
            let j = choose|j: int| 0 <= j < s.len() && s[j] == q;
            if j < i {
                assert(t[j] == q);
                assert(t.contains(q));
            } else {
                assert(j != i);
                assert(t[j - 1] == q);
                assert(t.contains(q));
            }
        }
    }
    assert forall|j: int, k: int| 0 <= j < k < t.len() implies t[j] != t[k] by {
        if k < i {
            assert(t[j] == s[j] && t[k] == s[k]);
        } else if j < i {
            assert(t[j] == s[j] && t[k] == s[k + 1]);
        } else {
            assert(t[j] == s[j + 1] && t[k] == s[k + 1]);
        }
    }
}

/// Everything in a filtered sequence comes from the original sequence.
proof fn lemma_filter_subset(s: Seq<Seq<char>>, pred: spec_fn(Seq<char>) -> bool)
    ensures
        forall|q: Seq<char>| #[trigger] s.filter(pred).contains(q) ==> s.contains(q),
    decreases s.len(),
{
    reveal(Seq::filter);
    if s.len() > 0 {
        let t = s.drop_last();
        lemma_filter_subset(t, pred);
        assert forall|q: Seq<char>| #[trigger] s.filter(pred).contains(q) implies s.contains(
            q,
        ) by {
            if q == s.last() {
                assert(s[s.len() - 1] == q);
            } else {
                assert(s.filter(pred) == if pred(s.last()) {
                    t.filter(pred).push(s.last())
                } else {
                    t.filter(pred)
                });
                if pred(s.last()) {
                    let j = choose|j: int|
                        0 <= j < s.filter(pred).len() && s.filter(pred)[j] == q;
                    assert(t.filter(pred)[j] == q);
                }
                assert(t.filter(pred).contains(q));
                assert(t.contains(q));
                let m = choose|m: int| 0 <= m < t.len() && t[m] == q;
                assert(s[m] == q);
            }
        }
    }
}

/// Filtering a duplicate-free sequence keeps it duplicate-free.
proof fn lemma_filter_no_duplicates(s: Seq<Seq<char>>, pred: spec_fn(Seq<char>) -> bool)
    requires
        s.no_duplicates(),
    ensures
        s.filter(pred).no_duplicates(),
    decreases s.len(),
{
    reveal(Seq::filter);
    if s.len() > 0 {
        let t = s.drop_last();
        assert(t.no_duplicates());
        lemma_filter_no_duplicates(t, pred);
        if pred(s.last()) {
            let f = t.filter(pred);
            if f.contains(s.last()) {
                lemma_filter_subset(t, pred);
                assert(t.contains(s.last()));
                let m = choose|m: int| 0 <= m < t.len() && t[m] == s.last();
                assert(s[m] == s[s.len() - 1]);
                assert(false);
            }
            let g = f.push(s.last());
            assert forall|j: int, k: int| 0 <= j < k < g.len() implies g[j] != g[k] by {
                if k == g.len() - 1 {
                    assert(g[j] == f[j]);
                    assert(f.contains(f[j]));
                }
            }
        }
    }
}

/// An element is in the filtered sequence exactly when it is in the
/// original and satisfies the predicate.
proof fn lemma_filter_membership(s: Seq<Seq<char>>, pred: spec_fn(Seq<char>) -> bool)
    ensures
        forall|q: Seq<char>| #[trigger] s.filter(pred).contains(q) == (s.contains(q) && pred(q)),
{
    lemma_filter_subset(s, pred);
    assert forall|q: Seq<char>| #[trigger] s.filter(pred).contains(q) == (s.contains(q) && pred(
        q,
    )) by {
        if s.filter(pred).contains(q) {
            let j = choose|j: int| 0 <= j < s.filter(pred).len() && s.filter(pred)[j] == q;
            s.lemma_filter_pred(pred, j);
            assert(pred(q));
        }
        if s.contains(q) && pred(q) {
            let m = choose|m: int| 0 <= m < s.len() && s[m] == q;
            s.lemma_filter_contains(pred, m);
        }
    }
}

} // verus!
