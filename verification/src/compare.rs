use vstd::prelude::*;
use vstd::map::*;
use crate::value::Val;
use crate::value::snap_model;
use crate::value::snap_wf;
use crate::value::unique_keys;
use crate::value::lemma_snap_wf_index;
use crate::value::lemma_wf_arr_index;
use crate::value::lemma_wf_obj;

verus! {

broadcast use vstd::std_specs::vec::group_vec_axioms, vstd::seq::group_seq_axioms;

/// In a sequence of entries with distinct keys, the map holds each entry's
/// key with exactly that entry's value.
pub proof fn lemma_snap_model_entry(s: Seq<(String, Val)>, i: int)
    requires
        unique_keys(s),
        0 <= i < s.len(),
    ensures
        snap_model(s).dom().contains(s[i].0@),
        snap_model(s)[s[i].0@] == s[i].1.model(),
    decreases s.len(),
{
    if i < s.len() - 1 {
        assert(forall|a: int, b: int|
            0 <= a < b < s.drop_last().len() ==> s.drop_last()[a].0@ != s.drop_last()[b].0@);
        lemma_snap_model_entry(s.drop_last(), i);
        assert(s.drop_last()[i] == s[i]);
        assert(s.last().0@ != s[i].0@);
    }
}

/// Every key of the map comes from some entry.
pub proof fn lemma_snap_model_dom_entry(s: Seq<(String, Val)>, k: Seq<char>)
    requires
        snap_model(s).dom().contains(k),
    ensures
        exists|i: int| 0 <= i < s.len() && #[trigger] s[i].0@ == k,
    decreases s.len(),
{
    if s.len() == 0 {
        assert(false);
    } else if k == s.last().0@ {
        assert(s[s.len() - 1].0@ == k);
    } else {
        assert(snap_model(s.drop_last()).dom().contains(k));
        lemma_snap_model_dom_entry(s.drop_last(), k);
        let i = choose|i: int| 0 <= i < s.drop_last().len() && #[trigger] s.drop_last()[i].0@
            == k;
        assert(s[i].0@ == k);
    }
}

/// The index of a key among entries, scanning in order.
fn entry_index_of(entries: &Vec<(String, Val)>, key: &String) -> (r: Option<usize>)
    ensures
        (r matches Some(i) ==> i < entries@.len() && entries@[i as int].0@ == key@),
        (r is None ==> forall|j: int|
            #![trigger entries@[j]]
            0 <= j < entries@.len() ==> entries@[j].0@ != key@),
{
    let mut i: usize = 0;
    while i < entries.len()
        invariant
            i <= entries@.len(),
            forall|j: int| #![trigger entries@[j]] 0 <= j < i ==> entries@[j].0@ != key@,
        decreases entries@.len() - i,
    {
        if entries[i].0.eq(key) {
            return Some(i);
        }
        i = i + 1;
    }
    None
}

/// Structural equality of two well-formed values, as the data model defines
/// it: scalars by value, floating-point numbers by their text, arrays in
/// order, maps by key whatever order their entries stand in. The answer is
/// exactly whether the two models are one.
#[verifier::loop_isolation(false)]
pub fn values_equal(x: &Val, y: &Val) -> (r: bool)
    requires
        x.wf(),
        y.wf(),
    ensures
        r == (x.model() == y.model()),
    decreases x,
{
    match x {
        Val::Null => match y {
            Val::Null => true,
            _ => false,
        },
        Val::Bool(bx) => match y {
            Val::Bool(by) => *bx == *by,
            _ => false,
        },
        Val::Int(ix) => match y {
            Val::Int(iy) => *ix == *iy,
            _ => false,
        },
        Val::Float(tx) => match y {
            Val::Float(ty) => tx.eq(ty),
            _ => false,
        },
        Val::Str(sx) => match y {
            Val::Str(sy) => sx.eq(sy),
            _ => false,
        },
        Val::Arr(xs) => match y {
            Val::Arr(ys) => {
                proof {
                    assert(x->Arr_0 == *xs);
                    assert(decreases_to!(*x => x->Arr_0));
                }
                if xs.len() != ys.len() {
                    proof {
                        assert(x.model()->Arr_0.len() != y.model()->Arr_0.len());
                    }
                    return false;
                }
                let mut i: usize = 0;
                while i < xs.len()
                    invariant
                        i <= xs@.len(),
                        xs@.len() == ys@.len(),
                        forall|j: int|
                            #![trigger xs@[j]]
                            0 <= j < i ==> xs@[j].model() == ys@[j].model(),
                    decreases xs@.len() - i,
                {
                    proof {
                        assert(decreases_to!(*xs => xs@[i as int]));
                        lemma_wf_arr_index(*x, i as int);
                        lemma_wf_arr_index(*y, i as int);
                    }
                    if !values_equal(&xs[i], &ys[i]) {
                        proof {
                            assert(x.model()->Arr_0[i as int] == xs@[i as int].model());
                            assert(y.model()->Arr_0[i as int] == ys@[i as int].model());
                        }
                        return false;
                    }
                    i = i + 1;
                }
                proof {
                    assert(x.model()->Arr_0 =~= y.model()->Arr_0);
                }
                true
            },
            _ => false,
        },
        Val::Obj(xe) => match y {
            Val::Obj(ye) => {
                proof {
                    assert(x->Obj_0 == *xe);
                    assert(decreases_to!(*x => x->Obj_0));
                    lemma_wf_obj(*x);
                    lemma_wf_obj(*y);
                }
                let ghost mut ms: Seq<int> = Seq::empty();
                let mut i: usize = 0;
                while i < xe.len()
                    invariant
                        i <= xe@.len(),
                        ms.len() == i,
                        forall|j: int|
                            #![trigger ms[j]]
                            0 <= j < i ==> 0 <= ms[j] < ye@.len() && ye@[ms[j]].0@ == xe@[j].0@
                                && ye@[ms[j]].1.model() == xe@[j].1.model(),
                    decreases xe@.len() - i,
                {
                    proof {
                        assert(decreases_to!(*xe => xe@[i as int]));
                        lemma_snap_wf_index(xe@, i as int);
                    }
                    match entry_index_of(ye, &xe[i].0) {
                        None => {
                            proof {
                                lemma_snap_model_entry(xe@, i as int);
                                if snap_model(ye@).dom().contains(xe@[i as int].0@) {
                                    lemma_snap_model_dom_entry(ye@, xe@[i as int].0@);
                                }
                            }
                            return false;
                        },
                        Some(l) => {
                            proof {
                                lemma_snap_wf_index(ye@, l as int);
                            }
                            if !values_equal(&xe[i].1, &ye[l].1) {
                                proof {
                                    lemma_snap_model_entry(xe@, i as int);
                                    lemma_snap_model_entry(ye@, l as int);
                                }
                                return false;
                            }
                            proof {
                                ms = ms.push(l as int);
                            }
                        },
                    }
                    i = i + 1;
                }
                let ghost mut ns: Seq<int> = Seq::empty();
                let mut j: usize = 0;
                while j < ye.len()
                    invariant
                        j <= ye@.len(),
                        ns.len() == j,
                        forall|l: int|
                            #![trigger ns[l]]
                            0 <= l < j ==> 0 <= ns[l] < xe@.len() && xe@[ns[l]].0@ == ye@[l].0@,
                    decreases ye@.len() - j,
                {
                    match entry_index_of(xe, &ye[j].0) {
                        None => {
                            proof {
                                lemma_snap_model_entry(ye@, j as int);
                                if snap_model(xe@).dom().contains(ye@[j as int].0@) {
                                    lemma_snap_model_dom_entry(xe@, ye@[j as int].0@);
                                }
                            }
                            return false;
                        },
                        Some(m) => {
                            proof {
                                ns = ns.push(m as int);
                            }
                        },
                    }
                    j = j + 1;
                }
                proof {
                    lemma_obj_models_equal(xe@, ye@, ms, ns);
                }
                true
            },
            _ => false,
        },
    }
}

/// Entries whose keys cover each other, witnessed index for index, with
/// equal values under equal keys and distinct keys on each side, describe
/// the same map.
proof fn lemma_obj_models_equal(
    xe: Seq<(String, Val)>,
    ye: Seq<(String, Val)>,
    ms: Seq<int>,
    ns: Seq<int>,
)
    requires
        unique_keys(xe),
        unique_keys(ye),
        ms.len() == xe.len(),
        ns.len() == ye.len(),
        forall|j: int|
            #![trigger ms[j]]
            0 <= j < xe.len() ==> 0 <= ms[j] < ye.len() && ye[ms[j]].0@ == xe[j].0@
                && ye[ms[j]].1.model() == xe[j].1.model(),
        forall|l: int|
            #![trigger ns[l]]
            0 <= l < ye.len() ==> 0 <= ns[l] < xe.len() && xe[ns[l]].0@ == ye[l].0@,
    ensures
        snap_model(xe) == snap_model(ye),
{
    assert_maps_equal!(snap_model(xe), snap_model(ye), k => {
        if snap_model(xe).dom().contains(k) {
            lemma_snap_model_dom_entry(xe, k);
            let l = choose|l: int| 0 <= l < xe.len() && #[trigger] xe[l].0@ == k;
            lemma_snap_model_entry(xe, l);
            assert(0 <= ms[l] < ye.len());
            lemma_snap_model_entry(ye, ms[l]);
        }
        if snap_model(ye).dom().contains(k) {
            lemma_snap_model_dom_entry(ye, k);
            let l = choose|l: int| 0 <= l < ye.len() && #[trigger] ye[l].0@ == k;
            assert(0 <= ns[l] < xe.len());
            lemma_snap_model_entry(xe, ns[l]);
        }
    });
}

/// Whether two well-formed snapshots are equal: same keys and, under each
/// key, structurally equal values, whatever order the entries stand in.
/// The answer is exactly whether the two snapshot models are one map.
pub fn snapshots_equal(a: &Vec<(String, Val)>, b: &Vec<(String, Val)>) -> (r: bool)
    requires
        snap_wf(a@),
        snap_wf(b@),
    ensures
        r == (snap_model(a@) == snap_model(b@)),
{
    let xa = Val::Obj(crate::value::clone_entries(a));
    let xb = Val::Obj(crate::value::clone_entries(b));
    proof {
        crate::value::lemma_wf_obj_build(xa);
        crate::value::lemma_wf_obj_build(xb);
    }
    values_equal(&xa, &xb)
}

} // verus!
