use vstd::prelude::*;
use vstd::string::StringExecFns;

use crate::ty::{kind_below, CTyKind, CTyKindV, StrId};

verus! {

/// A well-formed table of interned types: no description occurs twice, and each
/// entry only refers to entries before it.
pub open spec fn table_wf(t: Seq<CTyKindV>) -> bool {
    &&& t.no_duplicates()
    &&& forall|i: int| 0 <= i < t.len() ==> kind_below(#[trigger] t[i], i as nat)
}

/// What interning `k` into the table `old` gives: the table `new` and the index `r`.
/// An equal description already present is reused; otherwise `k` is appended.
pub open spec fn intern_post(old: Seq<CTyKindV>, k: CTyKindV, new: Seq<CTyKindV>, r: int) -> bool {
    &&& 0 <= r < new.len()
    &&& new[r] == k
    &&& if old.contains(k) {
        new == old
    } else {
        new == old.push(k)
    }
}

/// Interning twice gives the same index exactly when the two descriptions are
/// structurally equal: equal descriptions share one entry, different ones never do.
pub proof fn lemma_intern_identity(
    t0: Seq<CTyKindV>,
    k1: CTyKindV,
    t1: Seq<CTyKindV>,
    r1: int,
    k2: CTyKindV,
    t2: Seq<CTyKindV>,
    r2: int,
)
    requires
        t0.no_duplicates(),
        intern_post(t0, k1, t1, r1),
        intern_post(t1, k2, t2, r2),
    ensures
        (r1 == r2) <==> (k1 == k2),
{
    if !t0.contains(k1) {
        assert forall|i: int, j: int| 0 <= i < t1.len() && 0 <= j < t1.len() && i != j implies t1[i]
            != t1[j] by {
            if i < t0.len() && j < t0.len() {
            } else if i == t0.len() {
                assert(t0[j] == t1[j]);
            } else {
                assert(t0[i] == t1[i]);
            }
        }
    }
    assert(t1.no_duplicates());
    assert(t2[r1] == k1);
    if k1 == k2 {
        assert(t1.contains(k2));
        assert(t1[r2] == t1[r1]);
    }
}

/// Owns the strings and the interned compound types of one module.
pub struct Arena {
    strs: Vec<String>,
    tys: Vec<CTyKind>,
}

impl Arena {
    /// The strings allocated so far, by handle.
    pub closed spec fn strs_view(&self) -> Seq<Seq<char>> {
        self.strs@.map_values(|s: String| s@)
    }

    /// The interned compound types, by index.
    pub closed spec fn tys_view(&self) -> Seq<CTyKindV> {
        self.tys@.map_values(|k: CTyKind| k@)
    }

    pub open spec fn wf(&self) -> bool {
        table_wf(self.tys_view())
    }

    /// An empty arena.
    pub fn new() -> (r: Arena)
        ensures
            r.wf(),
            r.strs_view() == Seq::<Seq<char>>::empty(),
            r.tys_view() == Seq::<CTyKindV>::empty(),
    {
        let r = Arena { strs: Vec::new(), tys: Vec::new() };
        assert(r.strs_view() =~= Seq::<Seq<char>>::empty());
        assert(r.tys_view() =~= Seq::<CTyKindV>::empty());
        r
    }

    /// Stores a copy of `s` and returns its handle.
    pub fn alloc_str(&mut self, s: &str) -> (r: StrId)
        ensures
            r.index == old(self).strs_view().len(),
            final(self).strs_view() == old(self).strs_view().push(s@),
            final(self).tys_view() == old(self).tys_view(),
    {
        let r = StrId { index: self.strs.len() };
        self.strs.push(String::from_str(s));
        assert(self.strs_view() =~= old(self).strs_view().push(s@));
        r
    }

    /// The number of strings allocated so far.
    pub fn num_strs(&self) -> (r: usize)
        ensures
            r == self.strs_view().len(),
    {
        self.strs.len()
    }

    /// The string behind a handle.
    pub fn get_str(&self, id: StrId) -> (r: &str)
        requires
            id.index < self.strs_view().len(),
        ensures
            r@ == self.strs_view()[id.index as int],
    {
        self.strs[id.index].as_str()
    }

    /// The number of interned compound types.
    pub fn num_tys(&self) -> (r: usize)
        ensures
            r == self.tys_view().len(),
    {
        self.tys.len()
    }

    /// The compound type at an index of the table.
    pub fn get_ty(&self, i: usize) -> (r: &CTyKind)
        requires
            i < self.tys_view().len(),
        ensures
            r@ == self.tys_view()[i as int],
    {
        &self.tys[i]
    }

    /// Interns a compound type: returns the index of the structurally equal entry
    /// if there is one, else stores `k` and returns its new index.
    pub fn intern_ty(&mut self, k: CTyKind) -> (r: usize)
        requires
            old(self).wf(),
            kind_below(k@, old(self).tys_view().len()),
        ensures
            final(self).wf(),
            intern_post(old(self).tys_view(), k@, final(self).tys_view(), r as int),
            final(self).strs_view() == old(self).strs_view(),
    {
        let mut i: usize = 0;
        while i < self.tys.len()
            invariant
                i <= self.tys@.len(),
                self.wf(),
                self.tys_view() == old(self).tys_view(),
                self.strs_view() == old(self).strs_view(),
                forall|j: int| 0 <= j < i ==> self.tys_view()[j] != k@,
            decreases self.tys@.len() - i,
        {
            if self.tys[i].same_as(&k) {
                assert(self.tys_view().contains(k@)) by {
                    assert(self.tys_view()[i as int] == k@);
                }
                return i;
            }
            i = i + 1;
        }
        let ghost old_view = self.tys_view();
        assert(!old_view.contains(k@));
        let ghost kv = k@;
        let r = self.tys.len();
        self.tys.push(k);
        assert(self.tys_view() =~= old_view.push(kv));
        assert forall|a: int| 0 <= a < self.tys_view().len() implies kind_below(
            #[trigger] self.tys_view()[a],
            a as nat,
        ) by {
            if a < old_view.len() {
                assert(self.tys_view()[a] == old_view[a]);
            }
        }
        assert(self.tys_view().no_duplicates()) by {
            assert forall|a: int, b: int|
                0 <= a < self.tys_view().len() && 0 <= b < self.tys_view().len() && a
                    != b implies self.tys_view()[a] != self.tys_view()[b] by {
                if a < old_view.len() && b < old_view.len() {
                } else if a == old_view.len() {
                    assert(old_view[b] == self.tys_view()[b]);
                } else {
                    assert(old_view[a] == self.tys_view()[a]);
                }
            }
        }
        r
    }
}

} // verus!
