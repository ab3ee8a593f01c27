use vstd::prelude::*;
use crate::value::Val;
use crate::value::snap_model;
use crate::value::snap_wf;
use crate::queryable::Queryable;

verus! {

broadcast use vstd::std_specs::vec::group_vec_axioms, vstd::seq::group_seq_axioms;

/// The registry of checks: each queryable under a registration name,
/// names pairwise distinct, insertion order preserved so that iteration
/// is deterministic. The manager holds no other state; queries mutate
/// only the queried entry's own retained snapshot.
pub struct Manager {
    entries: Vec<(String, Queryable)>,
}

impl Manager {
    /// The registry, for contracts.
    pub closed spec fn reg(self) -> Seq<(String, Queryable)> {
        self.entries@
    }

    /// Names pairwise distinct and every queryable well formed.
    pub closed spec fn wf(self) -> bool {
        &&& (forall|i: int, j: int|
            0 <= i < j < self.entries@.len() ==> self.entries@[i].0@ != self.entries@[j].0@)
        &&& (forall|i: int|
            #![trigger self.entries@[i]]
            0 <= i < self.entries@.len() ==> self.entries@[i].1.wf())
    }

    /// An empty registry.
    pub fn new() -> (r: Manager)
        ensures
            r.wf(),
            r.reg().len() == 0,
    {
        Manager { entries: Vec::new() }
    }

    /// The index of a registered name, scanning in order.
    fn index_of(&self, name: &String) -> (r: Option<usize>)
        ensures
            (r matches Some(i) ==> i < self.reg().len() && self.reg()[i as int].0@ == name@),
            (r is None ==> forall|j: int|
                #![trigger self.reg()[j]]
                0 <= j < self.reg().len() ==> self.reg()[j].0@ != name@),
    {
        let mut i: usize = 0;
        while i < self.entries.len()
            invariant
                i <= self.entries@.len(),
                forall|j: int|
                    #![trigger self.entries@[j]]
                    0 <= j < i ==> self.entries@[j].0@ != name@,
            decreases self.entries@.len() - i,
        {
            if self.entries[i].0.eq(name) {
                return Some(i);
            }
            i = i + 1;
        }
        None
    }

    /// Register a queryable under a name; refused when the name is taken,
    /// so names stay distinct and earlier entries keep their order.
    pub fn register(&mut self, name: String, q: Queryable) -> (added: bool)
        requires
            old(self).wf(),
            q.wf(),
        ensures
            final(self).wf(),
            added ==> final(self).reg() == old(self).reg().push((name, q)),
            !added ==> final(self).reg() == old(self).reg(),
            added <==> (forall|j: int|
                #![trigger old(self).reg()[j]]
                0 <= j < old(self).reg().len() ==> old(self).reg()[j].0@ != name@),
    {
        match self.index_of(&name) {
            Some(i) => {
                proof {
                    assert(old(self).reg()[i as int].0@ == name@);
                }
                false
            },
            None => {
                self.entries.push((name, q));
                true
            },
        }
    }

    /// Remove the entry registered under a name, keeping the order of the
    /// others; tells whether anything was removed.
    pub fn deregister(&mut self, name: &String) -> (removed: bool)
        requires
            old(self).wf(),
        ensures
            final(self).wf(),
            !removed ==> final(self).reg() == old(self).reg(),
            removed <==> (exists|j: int|
                #![trigger old(self).reg()[j]]
                0 <= j < old(self).reg().len() && old(self).reg()[j].0@ == name@),
            removed ==> final(self).reg().len() == old(self).reg().len() - 1,
    {
        match self.index_of(name) {
            Some(i) => {
                self.entries.remove(i);
                proof {
                    assert(old(self).reg()[i as int].0@ == name@);
                }
                true
            },
            None => false,
        }
    }

    /// The retained snapshot of the queryable registered under a name, or
    /// nothing when the name is not registered.
    pub fn get_snapshot(&self, name: &String) -> (r: Option<Vec<(String, Val)>>)
        requires
            self.wf(),
        ensures
            (r is Some <==> exists|j: int|
                #![trigger self.reg()[j]]
                0 <= j < self.reg().len() && self.reg()[j].0@ == name@),
            (r matches Some(s) ==> snap_wf(s@) && forall|j: int|
                #![trigger self.reg()[j]]
                0 <= j < self.reg().len() && self.reg()[j].0@ == name@ ==> snap_model(s@)
                    == snap_model(self.reg()[j].1.last_view())),
    {
        match self.index_of(name) {
            Some(i) => {
                let s = self.entries[i].1.get_last_info();
                proof {
                    assert forall|j: int|
                        0 <= j < self.reg().len() && self.reg()[j].0@ == name@
                            implies snap_model(s@) == snap_model(
                            self.reg()[j].1.last_view(),
                        ) by {
                        if j != i as int {
                            assert(self.reg()[j].0@ != self.reg()[i as int].0@);
                        }
                    }
                }
                Some(s)
            },
            None => None,
        }
    }

    /// One query cycle for the queryable registered under a name. Every
    /// entry under a different name is left exactly as it was: queries
    /// never touch another queryable's state.
    pub fn query_one(&mut self, name: &String, info: &Vec<(String, Val)>) -> (r: Option<
        Vec<(String, Val)>,
    >)
        requires
            old(self).wf(),
        ensures
            final(self).wf(),
            final(self).reg().len() == old(self).reg().len(),
            (r is Some <==> exists|j: int|
                #![trigger old(self).reg()[j]]
                0 <= j < old(self).reg().len() && old(self).reg()[j].0@ == name@),
            (r is None ==> final(self).reg() == old(self).reg()),
            forall|j: int|
                #![trigger final(self).reg()[j]]
                0 <= j < old(self).reg().len() && old(self).reg()[j].0@ != name@
                    ==> final(self).reg()[j] == old(self).reg()[j],
            forall|j: int|
                #![trigger final(self).reg()[j]]
                0 <= j < old(self).reg().len()
                    ==> final(self).reg()[j].0@ == old(self).reg()[j].0@,
            (r matches Some(s) ==> snap_wf(s@) && forall|j: int|
                #![trigger final(self).reg()[j]]
                0 <= j < old(self).reg().len() && old(self).reg()[j].0@ == name@
                    ==> snap_model(final(self).reg()[j].1.last_view()) == snap_model(s@)),
    {
        match self.index_of(name) {
            None => None,
            Some(i) => {
                let pair = self.entries.remove(i);
                let (q2, snap) = pair.1.query_owned(info);
                self.entries.insert(i, (pair.0, q2));
                proof {
                    assert(old(self).reg()[i as int].0@ == name@);
                    assert(final(self).reg() =~= old(self).reg().update(
                        i as int,
                        (old(self).reg()[i as int].0, q2),
                    ));
                }
                Some(snap)
            },
        }
    }

    /// One query cycle for every registered queryable, in registry order:
    /// each is queried with the context registered under its name (an
    /// empty map when none is given), and the snapshots come back paired
    /// with the registry names. Each queryable retains exactly the
    /// snapshot reported for it.
    #[verifier::loop_isolation(false)]
    pub fn query_all(&mut self, contexts: &Vec<(String, Vec<(String, Val)>)>) -> (r: Vec<
        (String, Vec<(String, Val)>),
    >)
        requires
            old(self).wf(),
        ensures
            final(self).wf(),
            final(self).reg().len() == old(self).reg().len(),
            r@.len() == old(self).reg().len(),
            forall|j: int|
                #![trigger final(self).reg()[j]]
                0 <= j < old(self).reg().len()
                    ==> final(self).reg()[j].0@ == old(self).reg()[j].0@,
            forall|j: int|
                #![trigger r@[j]]
                0 <= j < r@.len() ==> r@[j].0@ == old(self).reg()[j].0@,
            forall|j: int|
                #![trigger final(self).reg()[j]]
                0 <= j < old(self).reg().len() ==> final(self).reg()[j].1.name_view()
                    == old(self).reg()[j].1.name_view(),
            forall|j: int| #![trigger r@[j]] 0 <= j < r@.len() ==> snap_wf(r@[j].1@),
            forall|j: int|
                #![trigger r@[j]]
                0 <= j < r@.len() ==> snap_model(final(self).reg()[j].1.last_view())
                    == snap_model(r@[j].1@),
    {
        let mut work: Vec<(String, Queryable)> = Vec::new();
        core::mem::swap(&mut self.entries, &mut work);
        let ghost orig = work@;
        let empty: Vec<(String, Val)> = Vec::new();
        let mut results: Vec<(String, Vec<(String, Val)>)> = Vec::new();
        while work.len() > 0
            invariant
                work@ =~= orig.skip(self.entries@.len() as int),
                self.entries@.len() + work@.len() == orig.len(),
                results@.len() == self.entries@.len(),
                forall|i: int, j: int| 0 <= i < j < orig.len() ==> orig[i].0@ != orig[j].0@,
                forall|i: int| #![trigger orig[i]] 0 <= i < orig.len() ==> orig[i].1.wf(),
                forall|i: int|
                    #![trigger self.entries@[i]]
                    0 <= i < self.entries@.len() ==> self.entries@[i].1.wf(),
                forall|i: int|
                    #![trigger self.entries@[i]]
                    0 <= i < self.entries@.len() ==> self.entries@[i].0@ == orig[i].0@,
                forall|i: int|
                    #![trigger self.entries@[i]]
                    0 <= i < self.entries@.len() ==> self.entries@[i].1.name_view()
                        == orig[i].1.name_view(),
                forall|i: int| #![trigger results@[i]] 0 <= i < results@.len() ==> results@[i].0@
                    == orig[i].0@,
                forall|i: int| #![trigger results@[i]] 0 <= i < results@.len() ==> snap_wf(
                    results@[i].1@,
                ),
                forall|i: int|
                    #![trigger results@[i]]
                    0 <= i < results@.len() ==> snap_model(self.entries@[i].1.last_view())
                        == snap_model(results@[i].1@),
            decreases work@.len(),
        {
            let pair = work.remove(0);
            let name2 = pair.0;
            let info_idx = context_index(contexts, &name2);
            let (q2, snap) = match info_idx {
                Some(ci) => pair.1.query_owned(&contexts[ci].1),
                None => pair.1.query_owned(&empty),
            };
            results.push((name2.clone(), snap));
            self.entries.push((name2, q2));
        }
        results
    }
}

/// The index of a name among the given contexts, scanning in order.
fn context_index(contexts: &Vec<(String, Vec<(String, Val)>)>, name: &String) -> (r: Option<
    usize,
>)
    ensures
        r matches Some(i) ==> i < contexts@.len() && contexts@[i as int].0@ == name@,
        (r is None ==> forall|j: int|
            #![trigger contexts@[j]]
            0 <= j < contexts@.len() ==> contexts@[j].0@ != name@),
{
    let mut i: usize = 0;
    while i < contexts.len()
        invariant
            i <= contexts@.len(),
            forall|j: int| #![trigger contexts@[j]] 0 <= j < i ==> contexts@[j].0@ != name@,
        decreases contexts@.len() - i,
    {
        if contexts[i].0.eq(name) {
            return Some(i);
        }
        i = i + 1;
    }
    None
}

} // verus!
