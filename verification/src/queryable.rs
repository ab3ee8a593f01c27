use vstd::prelude::*;
use crate::value::Val;
use crate::value::ValModel;
use crate::value::snap_model;
use crate::value::snap_wf;
use crate::value::clone_entries;
use crate::value::error_snapshot;
use crate::errors::ScriptError;
use crate::engine::rhai_decls;
use crate::engine::entries_to_dynamic;
use crate::engine::execute_run;

verus! {

broadcast use vstd::std_specs::vec::group_vec_axioms, vstd::seq::group_seq_axioms;

/// Whether a set of declared functions holds the required entry point:
/// exactly one parameter, under the name `run`.
pub open spec fn has_run_entry(decls: Set<(Seq<char>, int)>) -> bool {
    decls.contains(("run"@, 1int))
}

/// A validated check script: its source compiled and declares `run` with
/// one parameter. Construction is the only way to get one, so a `Script`
/// in hand is always valid; the source is never mutated afterwards, and a
/// changed source means a new `Script`.
pub struct Script {
    name: String,
    source: String,
    last_info: Vec<(String, Val)>,
}

impl Script {
    /// The snapshot retained from the last query is well formed.
    pub closed spec fn wf(self) -> bool {
        snap_wf(self.last_info@)
    }

    /// The script's name.
    pub closed spec fn name_view(self) -> Seq<char> {
        self.name@
    }

    /// The script's source text.
    pub closed spec fn source_view(self) -> Seq<char> {
        self.source@
    }

    /// The retained snapshot.
    pub closed spec fn last_view(self) -> Seq<(String, Val)> {
        self.last_info@
    }

    /// Compile and validate a script. A source that does not compile is a
    /// `Compile` error; one that compiles but does not declare `run` with
    /// exactly one parameter is a `Validation` error; only a source with
    /// that entry point yields a `Script`, with an empty retained
    /// snapshot.
    pub fn new(name: String, source: String) -> (r: Result<Script, ScriptError>)
        ensures
            (match rhai_decls(source@) {
                Err(e) => r matches Err(err) && err is Compile && err.message_view() == e,
                Ok(decls) => {
                    &&& (r is Ok <==> has_run_entry(decls))
                    &&& (r matches Ok(s) ==> s.name_view() == name@ && s.source_view() == source@
                        && s.last_view().len() == 0 && s.wf())
                    &&& (!has_run_entry(decls) ==> (r matches Err(err) && err is Validation
                        && err.message_view()
                        == "no 'run' function with exactly one parameter was declared"@))
                },
            }),
    {
        let listing = crate::engine::rhai_declared_fns(source.as_str());
        match listing {
            Err(m) => Err(ScriptError::Compile(m)),
            Ok(decls) => {
                let present = find_run(&decls);
                proof {
                    let d = rhai_decls(source@)->Ok_0;
                    if present {
                        let j = choose|j: int|
                            #![trigger decls@[j]]
                            0 <= j < decls@.len() && decls@[j].0@ == "run"@ && decls@[j].1 == 1;
                        assert(d.contains((decls@[j].0@, decls@[j].1 as int)));
                        assert((decls@[j].0@, decls@[j].1 as int) == ("run"@, 1int));
                    }
                    if has_run_entry(d) {
                        assert(d.contains(("run"@, 1int)));
                        let j = choose|j: int|
                            #![trigger decls@[j]]
                            0 <= j < decls@.len() && (decls@[j].0@, decls@[j].1 as int) == (
                            "run"@,
                            1int,
                        );
                        assert(decls@[j].0@ == "run"@ && decls@[j].1 == 1);
                    }
                }
                if present {
                    Ok(Script { name, source, last_info: Vec::new() })
                } else {
                    Err(ScriptError::Validation(
                        "no 'run' function with exactly one parameter was declared".to_owned(),
                    ))
                }
            },
        }
    }

    /// One query cycle: a fresh interpreter runs `run(info)`; its map
    /// result is the snapshot, and any failure on the way (a context
    /// value the interpreter cannot hold, a compile or runtime error, a
    /// result that is not a map) becomes an error-shaped snapshot instead
    /// of a propagated failure. The snapshot is retained whole before it
    /// is returned.
    pub fn query(&mut self, info: &Vec<(String, Val)>) -> (r: Vec<(String, Val)>)
        requires
            old(self).wf(),
        ensures
            final(self).wf(),
            snap_wf(r@),
            final(self).name_view() == old(self).name_view(),
            final(self).source_view() == old(self).source_view(),
            snap_model(final(self).last_view()) == snap_model(r@),
            !crate::engine::entries_representable(info@) ==> r@.len() == 1 && r@[0].0@
                == "error"@,
    {
        let snap = match entries_to_dynamic(info) {
            Err(e) => error_snapshot(e.message()),
            Ok(ctx) => snapshot_of_run_result(execute_run(self.source.as_str(), ctx)),
        };
        self.last_info = clone_entries(&snap);
        snap
    }

    /// The retained snapshot: what the last query produced, or the empty
    /// map before any query ran.
    pub fn get_last_info(&self) -> (r: Vec<(String, Val)>)
        requires
            self.wf(),
        ensures
            snap_wf(r@),
            snap_model(r@) == snap_model(self.last_view()),
    {
        clone_entries(&self.last_info)
    }
}

/// The snapshot a run outcome decides: a map value's own entries; an
/// error-shaped snapshot naming the failure when the run failed; an
/// error-shaped snapshot saying so when the run returned something other
/// than a map. This is the whole of the engine's result handling, so a
/// query never propagates a raw failure.
pub fn snapshot_of_run_result(res: Result<Val, String>) -> (r: Vec<(String, Val)>)
    requires
        res matches Ok(v) ==> v.wf(),
    ensures
        snap_wf(r@),
        (res matches Ok(v) ==> (v is Obj ==> r@ == v->Obj_0@) && (!(v is Obj) ==> snap_model(
            r@,
        ) == Map::<Seq<char>, ValModel>::empty().insert(
            "error"@,
            ValModel::Str("script did not return a map"@),
        ))),
        (res matches Err(m) ==> snap_model(r@) == Map::<Seq<char>, ValModel>::empty().insert(
            "error"@,
            ValModel::Str(m@),
        )),
{
    match res {
        Ok(v) => {
            match v {
                Val::Obj(entries) => {
                    proof {
                        crate::value::lemma_wf_obj(Val::Obj(entries));
                    }
                    entries
                },
                _ => error_snapshot("script did not return a map".to_owned()),
            }
        },
        Err(m) => error_snapshot(m),
    }
}

/// Whether a declared-function listing holds `run` with one parameter,
/// decided by a scan.
#[verifier::loop_isolation(false)]
fn find_run(decls: &Vec<(String, usize)>) -> (r: bool)
    ensures
        r == (exists|j: int|
            #![trigger decls@[j]]
            0 <= j < decls@.len() && decls@[j].0@ == "run"@ && decls@[j].1 == 1),
{
    let run_name: String = "run".to_owned();
    let mut i: usize = 0;
    let mut found = false;
    while i < decls.len()
        invariant
            i <= decls.len(),
            found == (exists|j: int|
                #![trigger decls@[j]]
                0 <= j < i && decls@[j].0@ == "run"@ && decls@[j].1 == 1),
        decreases decls.len() - i,
    {
        let is_run = decls[i].0.eq(&run_name);
        if is_run && decls[i].1 == 1 {
            found = true;
            proof {
                assert(decls@[i as int].0@ == "run"@ && decls@[i as int].1 == 1);
            }
        }
        i = i + 1;
    }
    found
}

/// A query's returned snapshot and the one it retained describe one map,
/// so a read of the retained snapshot straight after a query sees a
/// snapshot identical to the one the query returned.
pub proof fn law_query_then_read(
    retained: Seq<(String, Val)>,
    returned: Seq<(String, Val)>,
    read: Seq<(String, Val)>,
)
    requires
        snap_model(retained) == snap_model(returned),
        snap_model(read) == snap_model(retained),
    ensures
        snap_model(read) == snap_model(returned),
{
}

/// A native check that aggregates named children: querying it queries
/// every child and merges each child's snapshot under that child's name;
/// a child whose run failed contributes its own error-shaped snapshot
/// under its key instead of aborting the whole query.
pub struct Endpoint {
    name: String,
    children: Vec<Queryable>,
    last_info: Vec<(String, Val)>,
}

/// The closed set of check kinds: a native `Endpoint` aggregate or a
/// `Script`-backed check. Each owns the snapshot its last query produced;
/// nothing else writes it.
pub enum Queryable {
    Endpoint(Endpoint),
    Script(Script),
}

impl Endpoint {
    /// Children carry pairwise distinct names, every child is well
    /// formed, and the retained snapshot is well formed.
    pub closed spec fn wf(self) -> bool
        decreases self,
    {
        &&& snap_wf(self.last_info@)
        &&& (forall|i: int|
            #![trigger self.children@[i]]
            0 <= i < self.children@.len() ==> self.children@[i].wf())
        &&& (forall|i: int, j: int|
            0 <= i < j < self.children@.len() ==> self.children@[i].name_view()
                != self.children@[j].name_view())
    }

    /// The endpoint's name.
    pub closed spec fn name_view(self) -> Seq<char> {
        self.name@
    }

    /// The retained snapshot.
    pub closed spec fn last_view(self) -> Seq<(String, Val)> {
        self.last_info@
    }

    /// The children, for contracts.
    pub closed spec fn children_view(self) -> Seq<Queryable> {
        self.children@
    }

    /// A fresh endpoint with no children and an empty retained snapshot.
    pub fn new(name: String) -> (r: Endpoint)
        ensures
            r.wf(),
            r.name_view() == name@,
            r.children_view().len() == 0,
            r.last_view().len() == 0,
    {
        Endpoint { name, children: Vec::new(), last_info: Vec::new() }
    }

    /// Add a child under its own name; refused when a child of that name
    /// is already present, so names stay distinct.
    #[verifier::loop_isolation(false)]
    pub fn add_child(&mut self, q: Queryable) -> (added: bool)
        requires
            old(self).wf(),
            q.wf(),
        ensures
            final(self).wf(),
            final(self).name_view() == old(self).name_view(),
            final(self).last_view() == old(self).last_view(),
            added ==> final(self).children_view() == old(self).children_view().push(q),
            !added ==> final(self).children_view() == old(self).children_view(),
            added <==> (forall|i: int|
                #![trigger old(self).children_view()[i]]
                0 <= i < old(self).children_view().len()
                    ==> old(self).children_view()[i].name_view() != q.name_view()),
    {
        let mut i: usize = 0;
        let n = self.children.len();
        let mut clash = false;
        while i < n
            invariant
                i <= n,
                clash == (exists|j: int|
                    #![trigger old(self).children_view()[j]]
                    0 <= j < i && old(self).children_view()[j].name_view() == q.name_view()),
            decreases n - i,
        {
            let same = queryable_name(&self.children[i]).eq(queryable_name(&q));
            if same {
                clash = true;
                proof {
                    assert(old(self).children_view()[i as int].name_view() == q.name_view());
                }
            }
            i = i + 1;
        }
        proof {
            if clash {
                let j = choose|j: int|
                    #![trigger old(self).children_view()[j]]
                    0 <= j < n && old(self).children_view()[j].name_view() == q.name_view();
                assert(old(self).children_view()[j].name_view() == q.name_view());
            } else {
                assert forall|k: int| 0 <= k < n implies old(self).children_view()[
                    k
                ].name_view() != q.name_view() by {
                    if old(self).children_view()[k].name_view() == q.name_view() {
                        assert(false);
                    }
                }
            }
        }
        if clash {
            false
        } else {
            self.children.push(q);
            true
        }
    }
}

/// The name of a queryable, shared by both kinds.
pub fn queryable_name(q: &Queryable) -> (r: &String)
    ensures
        r@ == q.name_view(),
{
    match q {
        Queryable::Endpoint(e) => &e.name,
        Queryable::Script(s) => &s.name,
    }
}

impl Queryable {
    /// Well-formedness of either kind.
    pub closed spec fn wf(self) -> bool
        decreases self,
    {
        match self {
            Queryable::Endpoint(e) => e.wf(),
            Queryable::Script(s) => s.wf(),
        }
    }

    /// The name of either kind.
    pub closed spec fn name_view(self) -> Seq<char> {
        match self {
            Queryable::Endpoint(e) => e.name_view(),
            Queryable::Script(s) => s.name_view(),
        }
    }

    /// The retained snapshot of either kind.
    pub closed spec fn last_view(self) -> Seq<(String, Val)> {
        match self {
            Queryable::Endpoint(e) => e.last_view(),
            Queryable::Script(s) => s.last_view(),
        }
    }

    /// One query cycle, by value: the queryable after the cycle and the
    /// snapshot it produced, which it also retains. A script runs its
    /// entry point; an endpoint queries every child in order and merges
    /// each child's snapshot under that child's name, and the merge never
    /// fails even when a child's run did.
    #[verifier::loop_isolation(false)]
    pub fn query_owned(self, info: &Vec<(String, Val)>) -> (res: (Queryable, Vec<(String, Val)>))
        requires
            self.wf(),
        ensures
            res.0.wf(),
            snap_wf(res.1@),
            res.0.name_view() == self.name_view(),
            snap_model(res.0.last_view()) == snap_model(res.1@),
            (self is Endpoint ==> res.0 is Endpoint && {
                let before = self->Endpoint_0.children_view();
                let after = res.0->Endpoint_0.children_view();
                &&& after.len() == before.len()
                &&& res.1@.len() == before.len()
                &&& (forall|i: int|
                    0 <= i < before.len() ==> #[trigger] after[i].name_view()
                        == before[i].name_view())
                &&& (forall|i: int|
                    0 <= i < before.len() ==> #[trigger] res.1@[i].0@ == before[i].name_view())
                &&& (forall|i: int|
                    0 <= i < before.len() ==> #[trigger] res.1@[i].1.model() == ValModel::Obj(
                        snap_model(after[i].last_view()),
                    ))
            }),
            (self is Script ==> res.0 is Script
                && res.0->Script_0.source_view() == self->Script_0.source_view()),
        decreases self,
    {
        match self {
            Queryable::Script(s_at_entry) => {
                proof {
                    assert(self->Script_0 == s_at_entry);
                }
                let mut s = s_at_entry;
                let snap = s.query(info);
                (Queryable::Script(s), snap)
            },
            Queryable::Endpoint(e) => {
                proof {
                    assert(decreases_to!(self => self->Endpoint_0));
                    assert(decreases_to!(self->Endpoint_0 => self->Endpoint_0.children));
                    assert(self->Endpoint_0 == e);
                }
                let Endpoint { name, children, last_info } = e;
                let ghost orig = children@;
                let mut remaining = children;
                let mut new_children: Vec<Queryable> = Vec::new();
                let mut merged: Vec<(String, Val)> = Vec::new();
                let ghost total = orig.len();
                while remaining.len() > 0
                    invariant
                        remaining@ =~= orig.skip(new_children@.len() as int),
                        new_children@.len() + remaining@.len() == total,
                        merged@.len() == new_children@.len(),
                        forall|i: int|
                            #![trigger orig[i]]
                            0 <= i < total ==> orig[i].wf(),
                        forall|i: int, j: int|
                            0 <= i < j < total ==> orig[i].name_view() != orig[j].name_view(),
                        forall|i: int|
                            #![trigger new_children@[i]]
                            0 <= i < new_children@.len() ==> new_children@[i].wf(),
                        forall|i: int|
                            0 <= i < new_children@.len() ==> #[trigger] new_children@[i].name_view()
                                == orig[i].name_view(),
                        forall|i: int|
                            0 <= i < merged@.len() ==> #[trigger] merged@[i].0@
                                == orig[i].name_view(),
                        forall|i: int|
                            0 <= i < merged@.len() ==> #[trigger] merged@[i].1.model()
                                == ValModel::Obj(snap_model(new_children@[i].last_view())),
                        forall|i: int|
                            #![trigger merged@[i]]
                            0 <= i < merged@.len() ==> merged@[i].1.wf(),
                        decreases_to!(self->Endpoint_0.children => self->Endpoint_0.children@),
                        self->Endpoint_0.children@ == orig,
                    decreases remaining@.len(),
                {
                    let c = remaining.remove(0);
                    proof {
                        let ghost k = new_children@.len() as int;
                        assert(c == orig[k]);
                        assert(decreases_to!(self->Endpoint_0.children@ => self
                            ->Endpoint_0.children@[k]));
                    }
                    let (c2, snap) = c.query_owned(info);
                    let key = queryable_name(&c2).clone();
                    merged.push((key, Val::Obj(snap)));
                    new_children.push(c2);
                    proof {
                        crate::value::lemma_wf_obj_build(merged@.last().1);
                    }
                }
                let stored = clone_entries(&merged);
                proof {
                    assert forall|i: int, j: int| 0 <= i < j < merged@.len()
                        implies merged@[i].0@ != merged@[j].0@ by {
                        assert(merged@[i].0@ == orig[i].name_view());
                        assert(merged@[j].0@ == orig[j].name_view());
                    }
                    crate::value::lemma_snap_wf_build(merged@);
                }
                let ep = Endpoint { name, children: new_children, last_info: stored };
                (Queryable::Endpoint(ep), merged)
            },
        }
    }

    /// One query cycle in place: as `query_owned`, on a borrowed
    /// queryable.
    pub fn query(&mut self, info: &Vec<(String, Val)>) -> (r: Vec<(String, Val)>)
        requires
            old(self).wf(),
        ensures
            final(self).wf(),
            snap_wf(r@),
            final(self).name_view() == old(self).name_view(),
            snap_model(final(self).last_view()) == snap_model(r@),
    {
        let mut taken = Queryable::Endpoint(Endpoint::new(String::new()));
        core::mem::swap(self, &mut taken);
        let (q2, snap) = taken.query_owned(info);
        *self = q2;
        snap
    }

    /// The retained snapshot of either kind: what the last query
    /// produced, or the empty map before any query ran.
    pub fn get_last_info(&self) -> (r: Vec<(String, Val)>)
        requires
            self.wf(),
        ensures
            snap_wf(r@),
            snap_model(r@) == snap_model(self.last_view()),
    {
        match self {
            Queryable::Endpoint(e) => clone_entries(&e.last_info),
            Queryable::Script(s) => s.get_last_info(),
        }
    }
}

} // verus!
