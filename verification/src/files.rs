//! File-binding primitives: ownership declarations and concrete file
//! assignments, both keyed by parameter name.

use vstd::prelude::*;
use vstd::pervasive::VecAdditionalExecFns;

use crate::errors::TaskError;
use crate::named_map::{entries_map, lemma_entries_map_dom, lemma_entries_map_index, Dup, MapEntry,
    NamedMap};
use crate::users::UserList;

verus! {

/// An authentication tag attached to a finalized output file.
pub type FileAuthTag = Vec<u8>;

/// The mathematical content of an input file record.
pub struct InputFileView {
    pub external_id: Seq<char>,
    pub owner: Set<Seq<char>>,
}

/// The mathematical content of an output file record.
pub struct OutputFileView {
    pub external_id: Seq<char>,
    pub owner: Set<Seq<char>>,
    pub cmac: Option<Seq<u8>>,
}

/// A concrete input file record, shared by reference with the file-metadata
/// subsystem; the core reads only its identity and its owner set.
pub struct InputFile {
    pub external_id: String,
    pub owner: UserList,
}

/// A concrete output file record; the core attaches an authentication tag to
/// it once the executor finalizes the file.
pub struct OutputFile {
    pub external_id: String,
    pub owner: UserList,
    pub cmac: Option<FileAuthTag>,
}

impl View for InputFile {
    type V = InputFileView;

    open spec fn view(&self) -> InputFileView {
        InputFileView { external_id: self.external_id@, owner: self.owner@ }
    }
}

impl View for OutputFile {
    type V = OutputFileView;

    open spec fn view(&self) -> OutputFileView {
        OutputFileView {
            external_id: self.external_id@,
            owner: self.owner@,
            cmac: match self.cmac {
                Option::None => Option::None,
                Option::Some(t) => Option::Some(t@),
            },
        }
    }
}

/// Copies a byte string.
pub fn dup_bytes(v: &Vec<u8>) -> (r: Vec<u8>)
    ensures
        r@ == v@,
{
    let mut out: Vec<u8> = Vec::new();
    let mut i: usize = 0;
    while i < v.len()
        invariant
            i <= v.len(),
            out@ =~= v@.subrange(0, i as int),
        decreases v.len() - i,
    {
        out.push(v[i]);
        i += 1;
    }
    proof {
        assert(out@ =~= v@);
    }
    out
}

impl Dup for InputFile {
    fn dup(&self) -> (r: Self)
        ensures
            r@ == self@,
    {
        InputFile { external_id: self.external_id.clone(), owner: self.owner.dup() }
    }
}

impl Dup for OutputFile {
    fn dup(&self) -> (r: Self)
        ensures
            r@ == self@,
    {
        let cmac = match &self.cmac {
            Option::None => Option::None,
            Option::Some(t) => Option::Some(dup_bytes(t)),
        };
        OutputFile { external_id: self.external_id.clone(), owner: self.owner.dup(), cmac }
    }
}

/// A mapping from parameter name to the set of users any supplied file for
/// that name must be owned by.
pub type TaskFileOwners = NamedMap<UserList>;

/// A mapping from parameter name to a bound concrete file record.
pub type TaskFiles<T> = NamedMap<T>;

impl NamedMap<UserList> {
    /// Every declared owner list is well formed.
    pub open spec fn values_wf(&self) -> bool {
        forall|i: int| 0 <= i < self.entries@.len() ==> (#[trigger] self.entries@[i].value).wf()
    }

    /// Fails when the name has no declaration, or when the supplied file's
    /// owner set is not equal to the declared owner set for that name.
    pub fn check(&self, name: &String, owners: &UserList) -> (r: Result<(), TaskError>)
        requires
            self.wf(),
        ensures
            r is Ok <==> self@.dom().contains(name@) && self@[name@] == owners@,
            r is Err ==> r == Err::<(), TaskError>(
                if !self@.dom().contains(name@) {
                    TaskError::UnknownName
                } else {
                    TaskError::OwnerMismatch
                },
            ),
    {
        match self.get(name) {
            Option::None => Err(TaskError::UnknownName),
            Option::Some(declared) => {
                if declared.set_eq(owners) {
                    Ok(())
                } else {
                    Err(TaskError::OwnerMismatch)
                }
            },
        }
    }

    /// The union of all declared owner sets.
    pub fn all_owners(&self) -> (r: UserList)
        requires
            self.wf(),
        ensures
            r.wf(),
            forall|u: Seq<char>|
                #[trigger] r@.contains(u) <==> exists|k: Seq<char>|
                    #[trigger] self@.dom().contains(k) && self@[k].contains(u),
    {
        let mut acc = UserList::new();
        let mut i: usize = 0;
        while i < self.entries.len()
            invariant
                self.wf(),
                i <= self.entries.len(),
                acc.wf(),
                forall|u: Seq<char>|
                    #[trigger] acc@.contains(u) <==> exists|j: int|
                        0 <= j < i && (#[trigger] self.entries@[j].value)@.contains(u),
            decreases self.entries.len() - i,
        {
            let ghost prev = acc@;
            acc.union_with(&self.entries[i].value);
            proof {
                assert forall|u: Seq<char>|
                    #[trigger] acc@.contains(u) <==> exists|j: int|
                        0 <= j < i + 1 && (#[trigger] self.entries@[j].value)@.contains(u) by {
                    if acc@.contains(u) {
                        if prev.contains(u) {
                            let j = choose|j: int|
                                0 <= j < i && (#[trigger] self.entries@[j].value)@.contains(u);
                            assert(0 <= j < i + 1 && self.entries@[j].value@.contains(u));
                        } else {
                            assert(self.entries@[i as int].value@.contains(u));
                        }
                    }
                    if exists|j: int|
                        0 <= j < i + 1 && (#[trigger] self.entries@[j].value)@.contains(u) {
                        let j = choose|j: int|
                            0 <= j < i + 1 && (#[trigger] self.entries@[j].value)@.contains(u);
                        if j < i {
                            assert(prev.contains(u));
                        } else {
                            assert(self.entries@[i as int].value@.contains(u));
                        }
                    }
                }
            }
            i += 1;
        }
        proof {
            assert forall|u: Seq<char>|
                #[trigger] acc@.contains(u) <==> exists|k: Seq<char>|
                    #[trigger] self@.dom().contains(k) && self@[k].contains(u) by {
                if acc@.contains(u) {
                    let j = choose|j: int|
                        0 <= j < self.entries@.len() && (#[trigger] self.entries@[j].value)@.contains(
                            u,
                        );
                    lemma_entries_map_index(self.entries@, j);
                    assert(self@.dom().contains(self.entries@[j].name@) && self@[self.entries@[j].name@].contains(
                        u,
                    ));
                }
                if exists|k: Seq<char>| #[trigger] self@.dom().contains(k) && self@[k].contains(u) {
                    let k = choose|k: Seq<char>|
                        #[trigger] self@.dom().contains(k) && self@[k].contains(u);
                    lemma_entries_map_dom(self.entries@);
                    let j = choose|j: int|
                        0 <= j < self.entries@.len() && self.entries@[j].name@ == k;
                    lemma_entries_map_index(self.entries@, j);
                    assert(self.entries@[j].value@.contains(u));
                }
            }
        }
        acc
    }
}

/// The map after an update that swaps in an entry with the same name.
pub proof fn lemma_entries_map_update<V: View>(s: Seq<MapEntry<V>>, i: int, e: MapEntry<V>)
    requires
        0 <= i < s.len(),
        forall|p: int, q: int| 0 <= p < q < s.len() ==> s[p].name@ != s[q].name@,
        e.name@ == s[i].name@,
    ensures
        entries_map(s.update(i, e)) == entries_map(s).insert(e.name@, e.value@),
    decreases s.len(),
{
    let t = s.update(i, e);
    if i == s.len() - 1 {
        assert(t.drop_last() =~= s.drop_last());
        assert(entries_map(t) == entries_map(s.drop_last()).insert(e.name@, e.value@));
        assert(entries_map(s).insert(e.name@, e.value@) =~= entries_map(s.drop_last()).insert(
            e.name@,
            e.value@,
        ));
    } else {
        lemma_entries_map_update(s.drop_last(), i, e);
        assert(t.drop_last() =~= s.drop_last().update(i, e));
        assert(s[i].name@ != s.last().name@);
        assert(entries_map(t) == entries_map(s.drop_last()).insert(e.name@, e.value@).insert(
            s.last().name@,
            s.last().value@,
        ));
        assert(entries_map(s.drop_last()).insert(e.name@, e.value@).insert(
            s.last().name@,
            s.last().value@,
        ) =~= entries_map(s).insert(e.name@, e.value@));
    }
}

impl NamedMap<OutputFile> {
    /// Attaches an authentication tag to the named output file; fails when
    /// the name has no file bound to it.
    pub fn update_cmac(&mut self, name: &String, auth_tag: &FileAuthTag) -> (r: Result<
        (),
        TaskError,
    >)
        requires
            old(self).wf(),
        ensures
            final(self).wf(),
            r is Ok <==> old(self)@.dom().contains(name@),
            r is Ok ==> final(self)@ == old(self)@.insert(
                name@,
                OutputFileView {
                    external_id: old(self)@[name@].external_id,
                    owner: old(self)@[name@].owner,
                    cmac: Option::Some(auth_tag@),
                },
            ),
            r is Err ==> *final(self) == *old(self) && r == Err::<(), TaskError>(
                TaskError::UnknownName,
            ),
    {
        let mut i: usize = 0;
        while i < self.entries.len()
            invariant
                self.wf(),
                *self == *old(self),
                i <= self.entries.len(),
                forall|k: int| 0 <= k < i ==> self.entries@[k].name@ != name@,
            decreases self.entries.len() - i,
        {
            if self.entries[i].name == *name {
                let nm = self.entries[i].name.clone();
                let mut nf = self.entries[i].value.dup();
                nf.cmac = Some(dup_bytes(auth_tag));
                let ghost prev = self.entries@;
                let ghost entry_view = nf@;
                let e = MapEntry { name: nm, value: nf };
                proof {
                    lemma_entries_map_index(prev, i as int);
                    lemma_entries_map_update(prev, i as int, e);
                }
                self.entries.set(i, e);
                proof {
                    assert forall|p: int, q: int|
                        0 <= p < q < self.entries@.len() implies self.entries@[p].name@
                        != self.entries@[q].name@ by {
                        assert(prev[p].name@ != prev[q].name@);
                    }
                    assert(self@ == old(self)@.insert(name@, entry_view));
                }
                return Ok(());
            }
            i += 1;
        }
        proof {
            lemma_entries_map_dom(self.entries@);
        }
        Err(TaskError::UnknownName)
    }
}

} // verus!
