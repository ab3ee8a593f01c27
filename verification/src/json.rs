use vstd::prelude::*;
use crate::value::Val;
use crate::value::ValModel;
use crate::value::snap_model;
use crate::errors::HostError;

verus! {

broadcast use vstd::std_specs::vec::group_vec_axioms, vstd::seq::group_seq_axioms;

/// The JSON document type of the wire library, held opaquely.
#[verifier::external_type_specification]
#[verifier::external_body]
pub struct ExJsonValue(serde_json::Value);

/// The value a JSON document stands for, in the library's model.
pub uninterp spec fn jmodel(j: serde_json::Value) -> ValModel;

/// What the wire library makes of a number written as text: nothing when
/// it rejects the text, else the model of the document it parses — an
/// integer model for a text it reads as an integer, a floating-point
/// model, under the canonical text it will print, for one it reads as a
/// float.
pub uninterp spec fn json_num_model(t: Seq<char>) -> Option<ValModel>;

/// The text the wire library prints for a document with the given model.
pub uninterp spec fn json_text_of(m: ValModel) -> Seq<char>;

/// The finite map described by a sequence of key/document pairs; a later
/// entry overrides an earlier one.
pub open spec fn jobj_map(s: Seq<(String, serde_json::Value)>) -> Map<Seq<char>, ValModel>
    decreases s,
{
    if s.len() == 0 {
        Map::empty()
    } else {
        jobj_map(s.drop_last()).insert(s.last().0@, jmodel(s.last().1))
    }
}

/// Whether this value stays inside the wire-representable subset: every
/// floating-point text in it must be a number the wire library accepts.
pub open spec fn value_serializable(v: Val) -> bool
    decreases v,
{
    match v {
        Val::Float(t) => json_num_model(t@) is Some,
        Val::Arr(items) => forall|i: int|
            #![trigger items@[i]]
            0 <= i < items@.len() ==> value_serializable(items@[i]),
        Val::Obj(entries) => entries_serializable(entries@),
        _ => true,
    }
}

/// Whether every value among these entries is serializable.
pub open spec fn entries_serializable(s: Seq<(String, Val)>) -> bool
    decreases s,
{
    forall|i: int| #![trigger s[i]] 0 <= i < s.len() ==> value_serializable(s[i].1)
}

/// Whether this value carries no floating-point number anywhere.
pub open spec fn float_free(v: Val) -> bool
    decreases v,
{
    match v {
        Val::Float(t) => false,
        Val::Arr(items) => forall|i: int|
            #![trigger items@[i]]
            0 <= i < items@.len() ==> float_free(items@[i]),
        Val::Obj(entries) => entries_float_free(entries@),
        _ => true,
    }
}

/// Whether every value among these entries is float-free.
pub open spec fn entries_float_free(s: Seq<(String, Val)>) -> bool
    decreases s,
{
    forall|i: int| #![trigger s[i]] 0 <= i < s.len() ==> float_free(s[i].1)
}

/// In a float-free array every element is float-free; same for entries.
pub proof fn lemma_float_free_index(v: Val, i: int)
    requires
        float_free(v),
        v is Arr ==> 0 <= i < v->Arr_0@.len(),
        v is Obj ==> 0 <= i < v->Obj_0@.len(),
    ensures
        v is Arr ==> float_free(v->Arr_0@[i]),
        v is Obj ==> float_free(v->Obj_0@[i].1),
{
    if v is Obj {
        assert(entries_float_free(v->Obj_0@));
        lemma_entries_float_free_index(v->Obj_0@, i);
    }
}

/// A witness of a non-serializable element makes the whole value
/// non-serializable.
pub proof fn lemma_not_serializable(v: Val, i: int)
    requires
        v is Arr ==> 0 <= i < v->Arr_0@.len() && !value_serializable(v->Arr_0@[i]),
        v is Obj ==> 0 <= i < v->Obj_0@.len() && !value_serializable(v->Obj_0@[i].1),
        v is Arr || v is Obj,
    ensures
        !value_serializable(v),
{
    if v is Arr {
        if value_serializable(v) {
            assert(value_serializable(v->Arr_0@[i]));
        }
    } else {
        if value_serializable(v) {
            assert(entries_serializable(v->Obj_0@));
            lemma_entries_serializable_index(v->Obj_0@, i);
        }
    }
}

/// A value whose elements or entries are all serializable is serializable.
pub proof fn lemma_serializable_build(v: Val)
    requires
        v is Arr ==> forall|i: int|
            #![trigger v->Arr_0@[i]]
            0 <= i < v->Arr_0@.len() ==> value_serializable(v->Arr_0@[i]),
        v is Obj ==> entries_serializable(v->Obj_0@),
        v is Arr || v is Obj,
    ensures
        value_serializable(v),
{
}

/// Among serializable entries every value is serializable.
pub proof fn lemma_entries_serializable_index(s: Seq<(String, Val)>, i: int)
    requires
        entries_serializable(s),
        0 <= i < s.len(),
    ensures
        value_serializable(s[i].1),
{
}

/// A witness of a non-serializable value makes the entries non-serializable.
pub proof fn lemma_entries_not_serializable(s: Seq<(String, Val)>, i: int)
    requires
        0 <= i < s.len(),
        !value_serializable(s[i].1),
    ensures
        !entries_serializable(s),
{
}

/// Entries whose values are all serializable are serializable.
pub proof fn lemma_entries_serializable_build(s: Seq<(String, Val)>)
    requires
        forall|i: int| #![trigger s[i]] 0 <= i < s.len() ==> value_serializable(s[i].1),
    ensures
        entries_serializable(s),
{
}

/// Among float-free entries every value is float-free.
pub proof fn lemma_entries_float_free_index(s: Seq<(String, Val)>, i: int)
    requires
        entries_float_free(s),
        0 <= i < s.len(),
    ensures
        float_free(s[i].1),
{
}

/// Key/document pairs that mirror snapshot entries key for key and model
/// for model describe the same finite map.
pub proof fn lemma_jmap_matches_snap(a: Seq<(String, serde_json::Value)>, b: Seq<(String, Val)>)
    requires
        a.len() == b.len(),
        forall|j: int| 0 <= j < a.len() ==> #[trigger] a[j].0@ == b[j].0@,
        forall|j: int| 0 <= j < a.len() ==> #[trigger] jmodel(a[j].1) == b[j].1.model(),
    ensures
        jobj_map(a) == snap_model(b),
    decreases a.len(),
{
    if a.len() > 0 {
        assert(forall|j: int| 0 <= j < a.drop_last().len()
            ==> #[trigger] a.drop_last()[j].0@ == b.drop_last()[j].0@);
        assert(forall|j: int| 0 <= j < a.drop_last().len()
            ==> #[trigger] jmodel(a.drop_last()[j].1) == b.drop_last()[j].1.model());
        lemma_jmap_matches_snap(a.drop_last(), b.drop_last());
        assert(a.last().0@ == b.last().0@);
        assert(jmodel(a.last().1) == b.last().1.model());
    }
}

/// Relies on serde_json::Value::Null: the unit document.
#[verifier::external_body]
fn json_null() -> (r: serde_json::Value)
    ensures
        jmodel(r) == ValModel::Null,
{
    serde_json::Value::Null
}

/// Relies on serde_json::Value::Bool: the boolean document.
#[verifier::external_body]
fn json_bool(b: bool) -> (r: serde_json::Value)
    ensures
        jmodel(r) == ValModel::Bool(b),
{
    serde_json::Value::Bool(b)
}

/// Relies on serde_json::Value::from for i64: the integer document.
#[verifier::external_body]
fn json_int(i: i64) -> (r: serde_json::Value)
    ensures
        jmodel(r) == ValModel::Int(i as int),
{
    serde_json::Value::from(i)
}

/// Relies on serde_json's number parser (Deserialize for Number): it
/// accepts exactly the number texts the wire format allows,
/// deterministically; an integer text yields the same integer document an
/// i64 would, so the parsed document's model is whatever numeric model
/// `json_num_model` names for the text, integer or float.
#[verifier::external_body]
fn json_num_from_text(t: &str) -> (r: Option<serde_json::Value>)
    ensures
        r is Some <==> json_num_model(t@) is Some,
        r matches Some(j) && json_num_model(t@) matches Some(m) ==> jmodel(j) == m && (m is Int
            || m is Float),
{
    match serde_json::from_str::<serde_json::Number>(t) {
        Ok(n) => Some(serde_json::Value::Number(n)),
        Err(_) => None,
    }
}

/// Relies on serde_json::Value::from for &str: the string document.
#[verifier::external_body]
fn json_str(s: &str) -> (r: serde_json::Value)
    ensures
        jmodel(r) == ValModel::Str(s@),
{
    serde_json::Value::from(s)
}

/// Relies on serde_json::Value::Array: the array document over the given
/// elements in order.
#[verifier::external_body]
fn json_arr(items: Vec<serde_json::Value>) -> (r: serde_json::Value)
    ensures
        jmodel(r) == ValModel::Arr(Seq::new(items@.len(), |i: int| jmodel(items@[i]))),
{
    serde_json::Value::Array(items)
}

/// Relies on serde_json::Map collected from pairs: the object document;
/// with a repeated key the later pair wins.
#[verifier::external_body]
fn json_obj(entries: Vec<(String, serde_json::Value)>) -> (r: serde_json::Value)
    ensures
        jmodel(r) == ValModel::Obj(jobj_map(entries@)),
{
    let m: serde_json::Map<String, serde_json::Value> = entries.into_iter().collect();
    serde_json::Value::Object(m)
}

/// Relies on serde_json::Value::to_string: the compact text of the
/// document, a function of the document alone.
#[verifier::external_body]
fn json_to_text(j: &serde_json::Value) -> (r: String)
    ensures
        r@ == json_text_of(jmodel(*j)),
{
    j.to_string()
}

/// Turn a value into a wire document. Fails exactly on values outside the
/// serializable subset; for float-free values the document's model is the
/// value's own.
#[verifier::loop_isolation(false)]
pub fn value_to_json(v: &Val) -> (r: Result<serde_json::Value, HostError>)
    ensures
        r is Ok <==> value_serializable(*v),
        r matches Err(e) ==> e is Serialization,
        r matches Ok(j) ==> (float_free(*v) ==> jmodel(j) == v.model()),
    decreases v,
{
    match v {
        Val::Null => Ok(json_null()),
        Val::Bool(b) => Ok(json_bool(*b)),
        Val::Int(i) => Ok(json_int(*i)),
        Val::Str(s) => Ok(json_str(s.as_str())),
        Val::Float(t) => {
            match json_num_from_text(t.as_str()) {
                Some(j) => Ok(j),
                None => Err(HostError::Serialization(
                    "number text cannot be represented in JSON".to_owned(),
                )),
            }
        },
        Val::Arr(items) => {
            proof {
                assert(v->Arr_0 == *items);
                assert(decreases_to!(*v => v->Arr_0));
            }
            let mut out: Vec<serde_json::Value> = Vec::new();
            let mut i: usize = 0;
            while i < items.len()
                invariant
                    i <= items.len(),
                    out@.len() == i,
                    forall|j: int| #![trigger items@[j]] 0 <= j < i ==> value_serializable(items@[j]),
                    forall|j: int| #![trigger out@[j]] 0 <= j < i && float_free(*v)
                        ==> jmodel(out@[j]) == items@[j].model(),
                decreases items.len() - i,
            {
                proof {
                    assert(decreases_to!(*items => items@[i as int]));
                }
                match value_to_json(&items[i]) {
                    Ok(j) => {
                        proof {
                            if float_free(*v) {
                                lemma_float_free_index(*v, i as int);
                            }
                        }
                        out.push(j);
                    },
                    Err(e) => {
                        proof {
                            lemma_not_serializable(*v, i as int);
                        }
                        return Err(e);
                    },
                }
                i = i + 1;
            }
            let r = json_arr(out);
            proof {
                lemma_serializable_build(*v);
                if float_free(*v) {
                    assert(Seq::new(out@.len(), |i: int| jmodel(out@[i]))
                        =~= v.model()->Arr_0);
                }
            }
            Ok(r)
        },
        Val::Obj(entries) => {
            proof {
                assert(v->Obj_0 == *entries);
                assert(decreases_to!(*v => v->Obj_0));
            }
            let mut out: Vec<(String, serde_json::Value)> = Vec::new();
            let mut i: usize = 0;
            while i < entries.len()
                invariant
                    i <= entries.len(),
                    out@.len() == i,
                    forall|j: int| #![trigger entries@[j]] 0 <= j < i ==> value_serializable(entries@[j].1),
                    forall|j: int| 0 <= j < i ==> #[trigger] out@[j].0@ == entries@[j].0@,
                    forall|j: int| #![trigger out@[j]] 0 <= j < i && float_free(*v)
                        ==> jmodel(out@[j].1) == entries@[j].1.model(),
                decreases entries.len() - i,
            {
                proof {
                    assert(decreases_to!(*entries => entries@[i as int]));
                }
                let key = entries[i].0.clone();
                match value_to_json(&entries[i].1) {
                    Ok(j) => {
                        proof {
                            if float_free(*v) {
                                lemma_float_free_index(*v, i as int);
                            }
                        }
                        out.push((key, j));
                    },
                    Err(e) => {
                        proof {
                            lemma_not_serializable(*v, i as int);
                        }
                        return Err(e);
                    },
                }
                i = i + 1;
            }
            let r = json_obj(out);
            proof {
                lemma_entries_serializable_build(entries@);
                lemma_serializable_build(*v);
                if float_free(*v) {
                    lemma_jmap_matches_snap(out@, entries@);
                }
            }
            Ok(r)
        },
    }
}

/// Turn snapshot entries into the compact JSON text of the object they
/// describe. Fails exactly on entries outside the serializable subset; for
/// float-free entries the text is pinned to the object's model.
#[verifier::loop_isolation(false)]
pub fn entries_to_json_text(map: &Vec<(String, Val)>) -> (r: Result<String, HostError>)
    ensures
        r is Ok <==> entries_serializable(map@),
        r matches Err(e) ==> e is Serialization,
        r matches Ok(s) ==> (entries_float_free(map@) ==> s@ == json_text_of(
            ValModel::Obj(snap_model(map@)),
        )),
{
    let mut out: Vec<(String, serde_json::Value)> = Vec::new();
    let mut i: usize = 0;
    while i < map.len()
        invariant
            i <= map.len(),
            out@.len() == i,
            forall|j: int| #![trigger map@[j]] 0 <= j < i ==> value_serializable(map@[j].1),
            forall|j: int| 0 <= j < i ==> #[trigger] out@[j].0@ == map@[j].0@,
            forall|j: int| #![trigger out@[j]] 0 <= j < i && entries_float_free(map@)
                ==> jmodel(out@[j].1) == map@[j].1.model(),
        decreases map.len() - i,
    {
        let key = map[i].0.clone();
        match value_to_json(&map[i].1) {
            Ok(j) => {
                proof {
                    if entries_float_free(map@) {
                        lemma_entries_float_free_index(map@, i as int);
                    }
                }
                out.push((key, j));
            },
            Err(e) => {
                proof {
                    lemma_entries_not_serializable(map@, i as int);
                }
                return Err(e);
            },
        }
        i = i + 1;
    }
    let j = json_obj(out);
    proof {
        assert(entries_serializable(map@)) by {
            lemma_entries_serializable_build(map@);
        }
        if entries_float_free(map@) {
            lemma_jmap_matches_snap(out@, map@);
        }
    }
    Ok(json_to_text(&j))
}

} // verus!
