//! User identities and duplicate-free user sets.

use vstd::prelude::*;

verus! {

/// An opaque, string-equal user identity.
pub type UserID = String;

/// An unordered set of user identities, represented as a duplicate-free
/// vector.  The view of a `UserList` is the mathematical set of the
/// character sequences of its members.
pub struct UserList {
    pub users: Vec<String>,
}

impl View for UserList {
    type V = Set<Seq<char>>;

    open spec fn view(&self) -> Set<Seq<char>> {
        self.users@.map_values(|u: String| u@).to_set()
    }
}

impl UserList {
    /// The representation holds each identity at most once.
    pub open spec fn wf(&self) -> bool {
        forall|i: int, j: int|
            0 <= i < j < self.users@.len() ==> self.users@[i]@ != self.users@[j]@
    }

    /// Membership restated over the underlying vector; equivalent to
    /// `self@.contains(u)`.
    pub open spec fn spec_contains(&self, u: Seq<char>) -> bool {
        exists|i: int| 0 <= i < self.users@.len() && self.users@[i]@ == u
    }

    proof fn lemma_view_contains(&self)
        ensures
            forall|u: Seq<char>| #[trigger] self@.contains(u) <==> self.spec_contains(u),
    {
        let mapped = self.users@.map_values(|x: String| x@);
        assert forall|u: Seq<char>| #[trigger] self@.contains(u) <==> self.spec_contains(u) by {
            if self@.contains(u) {
                let i = choose|i: int| 0 <= i < mapped.len() && mapped[i] == u;
                assert(self.users@[i]@ == u);
            }
            if self.spec_contains(u) {
                let i = choose|i: int| 0 <= i < self.users@.len() && self.users@[i]@ == u;
                assert(mapped[i] == u);
                assert(mapped.contains(u));
            }
        }
    }

    pub fn new() -> (r: UserList)
        ensures
            r@ == Set::<Seq<char>>::empty(),
            r.wf(),
    {
        let r = UserList { users: Vec::new() };
        proof {
            r.lemma_view_contains();
            assert(r@ =~= Set::<Seq<char>>::empty());
        }
        r
    }

    pub fn contains(&self, u: &String) -> (r: bool)
        ensures
            r == self@.contains(u@),
    {
        proof {
            self.lemma_view_contains();
        }
        let mut i: usize = 0;
        while i < self.users.len()
            invariant
                i <= self.users.len(),
                forall|k: int| 0 <= k < i ==> self.users@[k]@ != u@,
            decreases self.users.len() - i,
        {
            if self.users[i] == *u {
                proof {
                    self.lemma_view_contains();
                    assert(self.spec_contains(u@));
                    assert(self@.contains(u@));
                }
                return true;
            }
            i += 1;
        }
        false
    }

    /// Inserts an identity; a no-op when it is already a member.
    pub fn insert(&mut self, u: String)
        requires
            old(self).wf(),
        ensures
            final(self).wf(),
            final(self)@ == old(self)@.insert(u@),
    {
        proof {
            old(self).lemma_view_contains();
        }
        if !self.contains(&u) {
            let ghost prev = self.users@;
            let ghost uv = u@;
            self.users.push(u);
            proof {
                self.lemma_view_contains();
                assert forall|x: Seq<char>|
                    #[trigger] self@.contains(x) == old(self)@.insert(uv).contains(x) by {
                    if self.spec_contains(x) {
                        let i = choose|i: int| 0 <= i < self.users@.len() && self.users@[i]@ == x;
                        if i < prev.len() {
                            assert(old(self).spec_contains(x));
                        } else {
                            assert(x == uv);
                        }
                    }
                    if old(self).spec_contains(x) {
                        let k = choose|k: int| 0 <= k < prev.len() && prev[k]@ == x;
                        assert(self.users@[k]@ == x);
                        assert(self.spec_contains(x));
                    }
                    if x == uv {
                        assert(self.users@[prev.len() as int]@ == x);
                        assert(self.spec_contains(x));
                    }
                }
                assert(self@ =~= old(self)@.insert(uv));
            }
        } else {
            proof {
                assert(self@ =~= old(self)@.insert(u@));
            }
        }
    }

    /// The number of distinct members.
    pub fn len(&self) -> (r: usize)
        requires
            self.wf(),
        ensures
            r == self@.len(),
    {
        proof {
            let mapped = self.users@.map_values(|x: String| x@);
            assert(mapped.no_duplicates());
            mapped.unique_seq_to_set();
        }
        self.users.len()
    }

    pub fn is_subset_of(&self, other: &UserList) -> (r: bool)
        ensures
            r == self@.subset_of(other@),
    {
        proof {
            self.lemma_view_contains();
        }
        let mut i: usize = 0;
        while i < self.users.len()
            invariant
                i <= self.users.len(),
                forall|k: int| 0 <= k < i ==> other@.contains(#[trigger] self.users@[k]@),
            decreases self.users.len() - i,
        {
            if !other.contains(&self.users[i]) {
                proof {
                    self.lemma_view_contains();
                    assert(self.spec_contains(self.users@[i as int]@));
                    assert(self@.contains(self.users@[i as int]@));
                }
                return false;
            }
            i += 1;
        }
        proof {
            assert forall|u: Seq<char>| #[trigger] self@.contains(u) implies other@.contains(u) by {
                let k = choose|k: int| 0 <= k < self.users@.len() && self.users@[k]@ == u;
                assert(other@.contains(self.users@[k]@));
            }
        }
        true
    }

    /// Set equality of the two member sets.
    pub fn set_eq(&self, other: &UserList) -> (r: bool)
        ensures
            r == (self@ == other@),
    {
        let fwd = self.is_subset_of(other);
        let bwd = other.is_subset_of(self);
        proof {
            if fwd && bwd {
                assert(self@ =~= other@);
            }
        }
        fwd && bwd
    }

    /// Adds every member of `other` to `self`.
    pub fn union_with(&mut self, other: &UserList)
        requires
            old(self).wf(),
        ensures
            final(self).wf(),
            final(self)@ == old(self)@.union(other@),
    {
        proof {
            other.lemma_view_contains();
        }
        let mut i: usize = 0;
        while i < other.users.len()
            invariant
                i <= other.users.len(),
                self.wf(),
                forall|u: Seq<char>|
                    #[trigger] self@.contains(u) <==> (old(self)@.contains(u) || exists|k: int|
                        0 <= k < i && other.users@[k]@ == u),
            decreases other.users.len() - i,
        {
            self.insert(other.users[i].clone());
            i += 1;
        }
        proof {
            assert forall|u: Seq<char>|
                #[trigger] self@.contains(u) <==> old(self)@.union(other@).contains(u) by {
                if self@.contains(u) && !old(self)@.contains(u) {
                    let k = choose|k: int| 0 <= k < other.users@.len() && other.users@[k]@ == u;
                    assert(other.spec_contains(u));
                }
                if other@.contains(u) {
                    assert(other.spec_contains(u));
                }
            }
            assert(self@ =~= old(self)@.union(other@));
        }
    }

    /// A fresh list with the same members.
    pub fn dup(&self) -> (r: UserList)
        ensures
            r@ == self@,
            r.wf() == self.wf(),
            r.users@.len() == self.users@.len(),
            forall|i: int| 0 <= i < self.users@.len() ==> r.users@[i]@ == self.users@[i]@,
    {
        let mut out: Vec<String> = Vec::new();
        let mut i: usize = 0;
        while i < self.users.len()
            invariant
                i <= self.users.len(),
                out@.len() == i,
                forall|k: int| 0 <= k < i ==> out@[k]@ == self.users@[k]@,
            decreases self.users.len() - i,
        {
            out.push(self.users[i].clone());
            i += 1;
        }
        let r = UserList { users: out };
        proof {
            r.lemma_view_contains();
            self.lemma_view_contains();
            assert forall|x: Seq<char>| #[trigger] r@.contains(x) == self@.contains(x) by {
                if r.spec_contains(x) {
                    let i = choose|i: int| 0 <= i < r.users@.len() && r.users@[i]@ == x;
                    assert(self.users@[i]@ == x);
                    assert(self.spec_contains(x));
                }
                if self.spec_contains(x) {
                    let i = choose|i: int| 0 <= i < self.users@.len() && self.users@[i]@ == x;
                    assert(r.users@[i]@ == x);
                    assert(r.spec_contains(x));
                }
            }
            assert(r@ =~= self@);
            if self.wf() {
                assert forall|i: int, j: int|
                    0 <= i < j < r.users@.len() implies r.users@[i]@ != r.users@[j]@ by {
                    assert(self.users@[i]@ != self.users@[j]@);
                }
            }
            if r.wf() {
                assert forall|i: int, j: int|
                    0 <= i < j < self.users@.len() implies self.users@[i]@ != self.users@[j]@ by {
                    assert(r.users@[i]@ != r.users@[j]@);
                }
            }
        }
        r
    }
}

} // verus!
