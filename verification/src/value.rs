use vstd::prelude::*;

verus! {

broadcast use vstd::std_specs::vec::group_vec_axioms, vstd::seq::group_seq_axioms;

/// A dynamic value as scripts and snapshots carry it: the tagged, recursive
/// sum of null, booleans, integers, floating-point numbers, strings,
/// sequences and string-keyed maps.
///
/// A floating-point number is held by its decimal text, exactly as the
/// interpreter or the wire prints it; the verified logic never computes with
/// it, it only carries and compares it.
pub enum Val {
    Null,
    Bool(bool),
    Int(i64),
    Float(String),
    Str(String),
    Arr(Vec<Val>),
    Obj(Vec<(String, Val)>),
}

/// The mathematical model of a `Val`: strings become sequences of
/// characters, arrays become sequences, and maps become finite maps, so that
/// two objects with the same keys and values have one model whatever order
/// their entries stand in.
pub enum ValModel {
    Null,
    Bool(bool),
    Int(int),
    Float(Seq<char>),
    Str(Seq<char>),
    Arr(Seq<ValModel>),
    Obj(Map<Seq<char>, ValModel>),
}

/// No two entries share a key.
pub open spec fn unique_keys(s: Seq<(String, Val)>) -> bool {
    forall|i: int, j: int| 0 <= i < j < s.len() ==> s[i].0@ != s[j].0@
}

/// The model of a snapshot: the finite map its entries describe. A later
/// entry overrides an earlier one with the same key; well-formed snapshots
/// have no such pair.
pub open spec fn snap_model(s: Seq<(String, Val)>) -> Map<Seq<char>, ValModel>
    decreases s,
{
    if s.len() == 0 {
        Map::empty()
    } else {
        snap_model(s.drop_last()).insert(s.last().0@, s.last().1.model())
    }
}

impl Val {
    /// The model of this value.
    pub open spec fn model(self) -> ValModel
        decreases self,
    {
        match self {
            Val::Null => ValModel::Null,
            Val::Bool(b) => ValModel::Bool(b),
            Val::Int(i) => ValModel::Int(i as int),
            Val::Float(t) => ValModel::Float(t@),
            Val::Str(s) => ValModel::Str(s@),
            Val::Arr(items) => ValModel::Arr(
                Seq::new(
                    items@.len(),
                    |i: int|
                        if 0 <= i < items@.len() {
                            items@[i].model()
                        } else {
                            ValModel::Null
                        },
                ),
            ),
            Val::Obj(entries) => ValModel::Obj(snap_model(entries@)),
        }
    }

    /// Every map inside this value has pairwise distinct keys.
    pub open spec fn wf(self) -> bool
        decreases self,
    {
        match self {
            Val::Arr(items) => forall|i: int| #![trigger items@[i]]
                0 <= i < items@.len() ==> items@[i].wf(),
            Val::Obj(entries) => snap_wf(entries@),
            _ => true,
        }
    }
}

/// A snapshot is well formed when its keys are distinct and its values are.
pub open spec fn snap_wf(s: Seq<(String, Val)>) -> bool
    decreases s,
{
    unique_keys(s) && forall|i: int| #![trigger s[i]] 0 <= i < s.len() ==> s[i].1.wf()
}

/// In a well-formed snapshot every entry's value is well formed.
pub proof fn lemma_snap_wf_index(s: Seq<(String, Val)>, i: int)
    requires
        snap_wf(s),
        0 <= i < s.len(),
    ensures
        s[i].1.wf(),
{
}

/// In a well-formed array value every element is well formed.
pub proof fn lemma_wf_arr_index(v: Val, i: int)
    requires
        v.wf(),
        v is Arr,
        0 <= i < v->Arr_0@.len(),
    ensures
        v->Arr_0@[i].wf(),
{
}

/// A well-formed object value carries a well-formed snapshot.
pub proof fn lemma_wf_obj(v: Val)
    requires
        v.wf(),
        v is Obj,
    ensures
        snap_wf(v->Obj_0@),
{
}

/// Distinct keys and well-formed values make a well-formed snapshot.
pub proof fn lemma_snap_wf_build(s: Seq<(String, Val)>)
    requires
        unique_keys(s),
        forall|i: int| #![trigger s[i]] 0 <= i < s.len() ==> s[i].1.wf(),
    ensures
        snap_wf(s),
{
}

/// An array value whose elements are all well formed is well formed.
pub proof fn lemma_wf_arr_build(v: Val)
    requires
        v is Arr,
        forall|i: int| #![trigger v->Arr_0@[i]] 0 <= i < v->Arr_0@.len() ==> v->Arr_0@[i].wf(),
    ensures
        v.wf(),
{
}

/// An object value over a well-formed snapshot is well formed.
pub proof fn lemma_wf_obj_build(v: Val)
    requires
        v is Obj,
        snap_wf(v->Obj_0@),
    ensures
        v.wf(),
{
}

/// Two entry sequences with equal keys in order and equal value models in
/// order describe the same finite map.
pub proof fn lemma_snap_model_pointwise(a: Seq<(String, Val)>, b: Seq<(String, Val)>)
    requires
        a.len() == b.len(),
        forall|j: int| 0 <= j < a.len() ==> #[trigger] a[j].0@ == b[j].0@,
        forall|j: int| 0 <= j < a.len() ==> #[trigger] a[j].1.model() == b[j].1.model(),
    ensures
        snap_model(a) == snap_model(b),
    decreases a.len(),
{
    if a.len() > 0 {
        assert(forall|j: int| 0 <= j < a.drop_last().len()
            ==> #[trigger] a.drop_last()[j].0@ == b.drop_last()[j].0@);
        assert(forall|j: int| 0 <= j < a.drop_last().len()
            ==> #[trigger] a.drop_last()[j].1.model() == b.drop_last()[j].1.model());
        lemma_snap_model_pointwise(a.drop_last(), b.drop_last());
        assert(a.last().0@ == b.last().0@);
        assert(a.last().1.model() == b.last().1.model());
    }
}

/// Deep copy of a value: the copy has the same model, and a well-formed
/// value's copy stays well formed.
#[verifier::rlimit(60)]
#[verifier::loop_isolation(false)]
pub fn clone_value(v: &Val) -> (r: Val)
    ensures
        r.model() == v.model(),
        v.wf() ==> r.wf(),
    decreases v,
{
    match v {
        Val::Null => Val::Null,
        Val::Bool(b) => Val::Bool(*b),
        Val::Int(i) => Val::Int(*i),
        Val::Float(t) => Val::Float(t.clone()),
        Val::Str(s) => Val::Str(s.clone()),
        Val::Arr(items) => {
            proof {
                assert(v->Arr_0 == *items);
                assert(decreases_to!(*v => v->Arr_0));
            }
            let mut out: Vec<Val> = Vec::new();
            let mut i: usize = 0;
            while i < items.len()
                invariant
                    i <= items.len(),
                    out@.len() == i,
                    forall|j: int| 0 <= j < i ==> #[trigger] out@[j].model() == items@[j].model(),
                    forall|j: int| 0 <= j < i && v.wf() ==> #[trigger] out@[j].wf(),
                decreases items.len() - i,
            {
                proof {
                    assert(decreases_to!(*items => items@[i as int]));
                    if v.wf() {
                        lemma_wf_arr_index(*v, i as int);
                        assert(items@[i as int].wf());
                    }
                }
                out.push(clone_value(&items[i]));
                i = i + 1;
            }
            let r = Val::Arr(out);
            proof {
                let rm = r.model()->Arr_0;
                let vm = v.model()->Arr_0;
                assert(rm.len() == vm.len());
                assert forall|j: int| 0 <= j < rm.len() implies rm[j] == vm[j] by {
                    assert(out@[j].model() == items@[j].model());
                }
                assert(rm =~= vm);
                assert(r.model() == v.model());
                if v.wf() {
                    lemma_wf_arr_build(r);
                }
            }
            r
        },
        Val::Obj(entries) => {
            proof {
                assert(v->Obj_0 == *entries);
                assert(decreases_to!(*v => v->Obj_0));
            }
            let mut out: Vec<(String, Val)> = Vec::new();
            let mut i: usize = 0;
            while i < entries.len()
                invariant
                    i <= entries.len(),
                    out@.len() == i,
                    forall|j: int| 0 <= j < i ==> #[trigger] out@[j].0@ == entries@[j].0@,
                    forall|j: int| 0 <= j < i
                        ==> #[trigger] out@[j].1.model() == entries@[j].1.model(),
                    forall|j: int| 0 <= j < i && v.wf() ==> #[trigger] out@[j].1.wf(),
                decreases entries.len() - i,
            {
                proof {
                    assert(decreases_to!(*entries => entries@[i as int]));
                    if v.wf() {
                        lemma_wf_obj(*v);
                        lemma_snap_wf_index(entries@, i as int);
                    }
                }
                let pair = (entries[i].0.clone(), clone_value(&entries[i].1));
                out.push(pair);
                i = i + 1;
            }
            let r = Val::Obj(out);
            proof {
                lemma_snap_model_pointwise(out@, entries@);
                assert(r.model() == v.model());
                if v.wf() {
                    lemma_wf_obj(*v);
                    lemma_snap_wf_build(out@);
                    lemma_wf_obj_build(r);
                }
            }
            r
        },
    }
}

/// Deep copy of a snapshot's entries: same keys in the same order, each
/// value with the same model.
#[verifier::rlimit(60)]
#[verifier::loop_isolation(false)]
pub fn clone_entries(entries: &Vec<(String, Val)>) -> (r: Vec<(String, Val)>)
    ensures
        r@.len() == entries@.len(),
        forall|j: int| 0 <= j < entries@.len() ==> #[trigger] r@[j].0@ == entries@[j].0@,
        forall|j: int| 0 <= j < entries@.len()
            ==> #[trigger] r@[j].1.model() == entries@[j].1.model(),
        snap_model(r@) == snap_model(entries@),
        snap_wf(entries@) ==> snap_wf(r@),
{
    let mut out: Vec<(String, Val)> = Vec::new();
    let mut i: usize = 0;
    while i < entries.len()
        invariant
            i <= entries.len(),
            out@.len() == i,
            forall|j: int| 0 <= j < i ==> #[trigger] out@[j].0@ == entries@[j].0@,
            forall|j: int| 0 <= j < i ==> #[trigger] out@[j].1.model() == entries@[j].1.model(),
            forall|j: int| 0 <= j < i && snap_wf(entries@) ==> #[trigger] out@[j].1.wf(),
        decreases entries.len() - i,
    {
        proof {
            if snap_wf(entries@) {
                lemma_snap_wf_index(entries@, i as int);
            }
        }
        let pair = (entries[i].0.clone(), clone_value(&entries[i].1));
        out.push(pair);
        i = i + 1;
    }
    proof {
        lemma_snap_model_pointwise(out@, entries@);
        if snap_wf(entries@) {
            lemma_snap_wf_build(out@);
        }
    }
    out
}

/// A snapshot with a single entry: the error message under the key
/// `error`.
pub fn error_snapshot(msg: String) -> (r: Vec<(String, Val)>)
    ensures
        snap_wf(r@),
        r@.len() == 1,
        r@[0].0@ == "error"@,
        r@[0].1 == Val::Str(msg),
        snap_model(r@) == Map::<Seq<char>, ValModel>::empty().insert(
            "error"@,
            ValModel::Str(msg@),
        ),
{
    let mut out: Vec<(String, Val)> = Vec::new();
    out.push(("error".to_owned(), Val::Str(msg)));
    proof {
        reveal_with_fuel(snap_model, 2);
        assert(out@.drop_last() =~= Seq::<(String, Val)>::empty());
        assert(snap_model(out@) =~= Map::<Seq<char>, ValModel>::empty().insert(
            "error"@,
            ValModel::Str(out@[0].1->Str_0@),
        ));
    }
    out
}

} // verus!
