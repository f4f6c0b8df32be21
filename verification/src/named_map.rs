//! A name-keyed association container.
//!
//! Argument bindings, ownership declarations and file assignments are all
//! maps from a parameter name to some value.  `NamedMap` holds such a map as
//! a vector of entries with pairwise distinct names; its view is the
//! mathematical `Map` from name to value view.

use vstd::prelude::*;

use crate::errors::TaskError;

verus! {

/// One binding of a parameter name to a value.
pub struct MapEntry<V> {
    pub name: String,
    pub value: V,
}

/// A parameter-name-keyed map with single-assignment semantics.
pub struct NamedMap<V> {
    pub entries: Vec<MapEntry<V>>,
}

/// The map described by a sequence of entries; a later entry wins, though a
/// well-formed `NamedMap` never holds a name twice.
pub open spec fn entries_map<V: View>(s: Seq<MapEntry<V>>) -> Map<Seq<char>, V::V>
    decreases s.len(),
{
    if s.len() == 0 {
        Map::empty()
    } else {
        entries_map(s.drop_last()).insert(s.last().name@, s.last().value@)
    }
}

/// The set of character sequences of a list of names.
pub open spec fn string_set(s: Seq<String>) -> Set<Seq<char>> {
    Set::new(|k: Seq<char>| exists|i: int| 0 <= i < s.len() && s[i]@ == k)
}

/// A name is free exactly when the map does not bind it yet.
pub open spec fn can_assign<T>(m: Map<Seq<char>, T>, name: Seq<char>) -> bool {
    !m.dom().contains(name)
}

/// A key is in the map of a sequence of entries exactly when some entry
/// carries it.
pub proof fn lemma_entries_map_dom<V: View>(s: Seq<MapEntry<V>>)
    ensures
        forall|k: Seq<char>|
            #[trigger] entries_map(s).dom().contains(k) <==> exists|i: int|
                0 <= i < s.len() && s[i].name@ == k,
    decreases s.len(),
{
    if s.len() > 0 {
        lemma_entries_map_dom(s.drop_last());
        assert forall|k: Seq<char>|
            #[trigger] entries_map(s).dom().contains(k) <==> exists|i: int|
                0 <= i < s.len() && s[i].name@ == k by {
            if entries_map(s).dom().contains(k) {
                if k == s.last().name@ {
                    assert(s[s.len() - 1].name@ == k);
                } else {
                    assert(entries_map(s.drop_last()).dom().contains(k));
                    let i = choose|i: int| 0 <= i < s.drop_last().len() && s.drop_last()[i].name@ == k;
                    assert(s.drop_last()[i] == s[i]);
                    assert(s[i].name@ == k);
                }
            }
            if exists|i: int| 0 <= i < s.len() && s[i].name@ == k {
                let i = choose|i: int| 0 <= i < s.len() && s[i].name@ == k;
                if i == s.len() - 1 {
                    assert(entries_map(s).dom().contains(k));
                } else {
                    assert(s.drop_last()[i] == s[i]);
                    assert(s.drop_last()[i].name@ == k);
                    assert(entries_map(s.drop_last()).dom().contains(k));
                }
            }
        }
    }
}

/// With pairwise distinct names, the entry at index `i` gives the value the
/// map binds to its name.
pub proof fn lemma_entries_map_index<V: View>(s: Seq<MapEntry<V>>, i: int)
    requires
        0 <= i < s.len(),
        forall|p: int, q: int| 0 <= p < q < s.len() ==> s[p].name@ != s[q].name@,
    ensures
        entries_map(s).dom().contains(s[i].name@),
        entries_map(s)[s[i].name@] == s[i].value@,
    decreases s.len(),
{
    if i == s.len() - 1 {
    } else {
        lemma_entries_map_index(s.drop_last(), i);
        assert(s.drop_last()[i] == s[i]);
        assert(s[i].name@ != s.last().name@);
    }
}

/// Two entry sequences whose names and value views agree index by index
/// describe the same map.
pub proof fn lemma_entries_map_congruence<V: View>(a: Seq<MapEntry<V>>, b: Seq<MapEntry<V>>)
    requires
        a.len() == b.len(),
        forall|i: int| 0 <= i < a.len() ==> #[trigger] a[i].name@ == b[i].name@,
        forall|i: int| 0 <= i < a.len() ==> #[trigger] a[i].value@ == b[i].value@,
    ensures
        entries_map(a) == entries_map(b),
    decreases a.len(),
{
    if a.len() > 0 {
        lemma_entries_map_congruence(a.drop_last(), b.drop_last());
        assert(a[a.len() - 1].name@ == b[b.len() - 1].name@);
        assert(a[a.len() - 1].value@ == b[b.len() - 1].value@);
    }
}

impl<V: View> View for NamedMap<V> {
    type V = Map<Seq<char>, V::V>;

    open spec fn view(&self) -> Map<Seq<char>, V::V> {
        entries_map(self.entries@)
    }
}

impl<V: View> NamedMap<V> {
    /// Entry names are pairwise distinct.
    pub open spec fn wf(&self) -> bool {
        forall|i: int, j: int|
            0 <= i < j < self.entries@.len() ==> self.entries@[i].name@ != self.entries@[j].name@
    }

    pub fn new() -> (r: Self)
        ensures
            r@ == Map::<Seq<char>, V::V>::empty(),
            r.wf(),
            r.entries@.len() == 0,
    {
        NamedMap { entries: Vec::new() }
    }

    pub fn contains_key(&self, name: &String) -> (r: bool)
        ensures
            r == self@.dom().contains(name@),
    {
        let mut i: usize = 0;
        while i < self.entries.len()
            invariant
                i <= self.entries.len(),
                forall|k: int| 0 <= k < i ==> self.entries@[k].name@ != name@,
            decreases self.entries.len() - i,
        {
            if self.entries[i].name == *name {
                proof {
                    lemma_entries_map_dom(self.entries@);
                }
                return true;
            }
            i += 1;
        }
        proof {
            lemma_entries_map_dom(self.entries@);
        }
        false
    }

    /// Looks the name up; `None` exactly when the name is unbound.
    pub fn get(&self, name: &String) -> (r: Option<&V>)
        requires
            self.wf(),
        ensures
            match r {
                Some(v) => self@.dom().contains(name@) && v@ == self@[name@],
                None => !self@.dom().contains(name@),
            },
    {
        let mut i: usize = 0;
        while i < self.entries.len()
            invariant
                self.wf(),
                i <= self.entries.len(),
                forall|k: int| 0 <= k < i ==> self.entries@[k].name@ != name@,
            decreases self.entries.len() - i,
        {
            if self.entries[i].name == *name {
                proof {
                    lemma_entries_map_index(self.entries@, i as int);
                }
                return Some(&self.entries[i].value);
            }
            i += 1;
        }
        proof {
            lemma_entries_map_dom(self.entries@);
        }
        None
    }

    /// Binds a value to a free name; refuses a second binding of the same
    /// name.
    pub fn assign(&mut self, name: String, value: V) -> (r: Result<(), TaskError>)
        requires
            old(self).wf(),
        ensures
            final(self).wf(),
            r is Ok <==> can_assign(old(self)@, name@),
            r is Ok ==> final(self)@ == old(self)@.insert(name@, value@),
            r is Err ==> *final(self) == *old(self) && r == Err::<(), TaskError>(
                TaskError::AlreadyAssigned,
            ),
    {
        if self.contains_key(&name) {
            return Err(TaskError::AlreadyAssigned);
        }
        proof {
            lemma_entries_map_dom(self.entries@);
        }
        let ghost prev = self.entries@;
        self.entries.push(MapEntry { name, value });
        proof {
            assert(self.entries@.drop_last() =~= prev);
        }
        Ok(())
    }

    /// Whether every bound name of `self` is also bound in `other`.
    pub fn dom_subset_of<W: View>(&self, other: &NamedMap<W>) -> (r: bool)
        ensures
            r == self@.dom().subset_of(other@.dom()),
    {
        let mut i: usize = 0;
        while i < self.entries.len()
            invariant
                i <= self.entries.len(),
                forall|k: int| 0 <= k < i ==> other@.dom().contains(#[trigger] self.entries@[k].name@),
            decreases self.entries.len() - i,
        {
            if !other.contains_key(&self.entries[i].name) {
                proof {
                    lemma_entries_map_dom(self.entries@);
                    assert(self@.dom().contains(self.entries@[i as int].name@));
                }
                return false;
            }
            i += 1;
        }
        proof {
            lemma_entries_map_dom(self.entries@);
            assert forall|k: Seq<char>| #[trigger] self@.dom().contains(k) implies other@.dom().contains(
                k,
            ) by {
                let j = choose|j: int| 0 <= j < self.entries@.len() && self.entries@[j].name@ == k;
                assert(other@.dom().contains(self.entries@[j].name@));
            }
        }
        true
    }

    /// Whether the bound names are exactly the names of the list.
    pub fn keys_match_list(&self, names: &Vec<String>) -> (r: bool)
        ensures
            r == (self@.dom() == string_set(names@)),
    {
        let mut i: usize = 0;
        while i < names.len()
            invariant
                i <= names.len(),
                forall|k: int| 0 <= k < i ==> self@.dom().contains(#[trigger] names@[k]@),
            decreases names.len() - i,
        {
            if !self.contains_key(&names[i]) {
                proof {
                    assert(string_set(names@).contains(names@[i as int]@));
                }
                return false;
            }
            i += 1;
        }
        let mut j: usize = 0;
        while j < self.entries.len()
            invariant
                j <= self.entries.len(),
                forall|k: int| 0 <= k < names@.len() ==> self@.dom().contains(#[trigger] names@[k]@),
                forall|k: int|
                    0 <= k < j ==> string_set(names@).contains(#[trigger] self.entries@[k].name@),
            decreases self.entries.len() - j,
        {
            if !list_contains(names, &self.entries[j].name) {
                proof {
                    lemma_entries_map_dom(self.entries@);
                    assert(self@.dom().contains(self.entries@[j as int].name@));
                }
                return false;
            }
            j += 1;
        }
        proof {
            lemma_entries_map_dom(self.entries@);
            assert forall|k: Seq<char>| #[trigger] self@.dom().contains(k) implies string_set(
                names@,
            ).contains(k) by {
                let p = choose|p: int| 0 <= p < self.entries@.len() && self.entries@[p].name@ == k;
                assert(string_set(names@).contains(self.entries@[p].name@));
            }
            assert forall|k: Seq<char>| #[trigger] string_set(names@).contains(k) implies self@.dom()
                .contains(k) by {
                let p = choose|p: int| 0 <= p < names@.len() && names@[p]@ == k;
                assert(self@.dom().contains(names@[p]@));
            }
            assert(self@.dom() =~= string_set(names@));
        }
        true
    }
}

impl<V: View + Dup> NamedMap<V> {
    /// A fresh map with the same bindings.
    pub fn dup(&self) -> (r: Self)
        ensures
            r@ == self@,
            r.wf() == self.wf(),
            r.entries@.len() == self.entries@.len(),
            forall|i: int|
                0 <= i < self.entries@.len() ==> #[trigger] r.entries@[i].name@
                    == self.entries@[i].name@,
            forall|i: int|
                0 <= i < self.entries@.len() ==> #[trigger] r.entries@[i].value@
                    == self.entries@[i].value@,
    {
        let mut out: Vec<MapEntry<V>> = Vec::new();
        let mut i: usize = 0;
        while i < self.entries.len()
            invariant
                i <= self.entries.len(),
                out@.len() == i,
                forall|k: int| 0 <= k < i ==> #[trigger] out@[k].name@ == self.entries@[k].name@,
                forall|k: int| 0 <= k < i ==> #[trigger] out@[k].value@ == self.entries@[k].value@,
            decreases self.entries.len() - i,
        {
            out.push(
                MapEntry { name: self.entries[i].name.clone(), value: self.entries[i].value.dup() },
            );
            i += 1;
        }
        let r = NamedMap { entries: out };
        proof {
            lemma_entries_map_congruence(r.entries@, self.entries@);
            if self.wf() {
                assert forall|p: int, q: int|
                    0 <= p < q < r.entries@.len() implies r.entries@[p].name@ != r.entries@[q].name@ by {
                    assert(self.entries@[p].name@ != self.entries@[q].name@);
                }
            }
            if r.wf() {
                assert forall|p: int, q: int|
                    0 <= p < q < self.entries@.len() implies self.entries@[p].name@
                    != self.entries@[q].name@ by {
                    assert(r.entries@[p].name@ != r.entries@[q].name@);
                }
            }
        }
        r
    }
}

/// Whether the list holds the name.
pub fn list_contains(names: &Vec<String>, target: &String) -> (r: bool)
    ensures
        r == string_set(names@).contains(target@),
{
    let mut i: usize = 0;
    while i < names.len()
        invariant
            i <= names.len(),
            forall|k: int| 0 <= k < i ==> names@[k]@ != target@,
        decreases names.len() - i,
    {
        if names[i] == *target {
            proof {
                assert(string_set(names@).contains(target@));
            }
            return true;
        }
        i += 1;
    }
    false
}

/// A value that can hand out a fresh copy with the same view.
pub trait Dup: View + Sized {
    fn dup(&self) -> (r: Self)
        ensures
            r@ == self@,
    ;
}

impl Dup for String {
    fn dup(&self) -> (r: String)
        ensures
            r@ == self@,
    {
        self.clone()
    }
}

} // verus!
