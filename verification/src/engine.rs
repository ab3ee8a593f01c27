use vstd::prelude::*;
use crate::value::Val;
use crate::value::ValModel;
use crate::value::snap_model;
use crate::errors::HostError;
use crate::json::float_free;
use crate::json::entries_float_free;
use crate::json::lemma_float_free_index;
use crate::json::lemma_entries_float_free_index;

verus! {

broadcast use vstd::std_specs::vec::group_vec_axioms, vstd::seq::group_seq_axioms;

/// The interpreter's dynamic value type, held opaquely.
#[verifier::external_type_specification]
#[verifier::external_body]
pub struct ExDynamic(rhai::Dynamic);

/// The interpreter's error type, held opaquely.
#[verifier::external_type_specification]
#[verifier::external_body]
pub struct ExEvalAltResult(rhai::EvalAltResult);

/// The value an interpreter value stands for, in the library's model.
pub uninterp spec fn dyn_model(d: rhai::Dynamic) -> ValModel;

/// What the interpreter makes of a floating-point number written as text:
/// nothing when the text does not parse, else the text it will print for
/// the parsed number.
pub uninterp spec fn rhai_float_of(t: Seq<char>) -> Option<Seq<char>>;

/// What compiling a script source yields: the set of declared functions,
/// each as its name with its parameter count, or the compile failure's
/// description. Compiling fixed source text is deterministic up to the
/// order in which the declared functions are listed, so only the set is a
/// function of the source.
pub uninterp spec fn rhai_decls(src: Seq<char>) -> Result<Set<(Seq<char>, int)>, Seq<char>>;

/// The finite map described by a sequence of key/value pairs of interpreter
/// values; a later entry overrides an earlier one.
pub open spec fn dobj_map(s: Seq<(String, rhai::Dynamic)>) -> Map<Seq<char>, ValModel>
    decreases s,
{
    if s.len() == 0 {
        Map::empty()
    } else {
        dobj_map(s.drop_last()).insert(s.last().0@, dyn_model(s.last().1))
    }
}

/// Key/value pairs of interpreter values that mirror snapshot entries key
/// for key and model for model describe the same finite map.
pub proof fn lemma_dmap_matches_snap(a: Seq<(String, rhai::Dynamic)>, b: Seq<(String, Val)>)
    requires
        a.len() == b.len(),
        forall|j: int| 0 <= j < a.len() ==> #[trigger] a[j].0@ == b[j].0@,
        forall|j: int| 0 <= j < a.len() ==> #[trigger] dyn_model(a[j].1) == b[j].1.model(),
    ensures
        dobj_map(a) == snap_model(b),
    decreases a.len(),
{
    if a.len() > 0 {
        assert(forall|j: int| 0 <= j < a.drop_last().len()
            ==> #[trigger] a.drop_last()[j].0@ == b.drop_last()[j].0@);
        assert(forall|j: int| 0 <= j < a.drop_last().len()
            ==> #[trigger] dyn_model(a.drop_last()[j].1) == b.drop_last()[j].1.model());
        lemma_dmap_matches_snap(a.drop_last(), b.drop_last());
        assert(a.last().0@ == b.last().0@);
        assert(dyn_model(a.last().1) == b.last().1.model());
    }
}

/// Relies on rhai::Dynamic::UNIT: the unit value.
#[verifier::external_body]
fn dyn_null() -> (r: rhai::Dynamic)
    ensures
        dyn_model(r) == ValModel::Null,
{
    rhai::Dynamic::UNIT
}

/// Relies on rhai::Dynamic::from for bool.
#[verifier::external_body]
fn dyn_bool(b: bool) -> (r: rhai::Dynamic)
    ensures
        dyn_model(r) == ValModel::Bool(b),
{
    rhai::Dynamic::from(b)
}

/// Relies on rhai::Dynamic::from for the interpreter's integer type.
#[verifier::external_body]
fn dyn_int(i: i64) -> (r: rhai::Dynamic)
    ensures
        dyn_model(r) == ValModel::Int(i as int),
{
    rhai::Dynamic::from(i as rhai::INT)
}

/// Relies on str::parse for the interpreter's float type and
/// rhai::Dynamic::from: accepts exactly the texts the float parser
/// accepts, deterministically.
#[verifier::external_body]
fn dyn_float_from_text(t: &str) -> (r: Option<rhai::Dynamic>)
    ensures
        r is Some <==> rhai_float_of(t@) is Some,
        r matches Some(d) && rhai_float_of(t@) matches Some(c) ==> dyn_model(d)
            == ValModel::Float(c),
{
    match t.parse::<rhai::FLOAT>() {
        Ok(f) => Some(rhai::Dynamic::from(f)),
        Err(_) => None,
    }
}

/// Relies on rhai::Dynamic::from for strings.
#[verifier::external_body]
fn dyn_str(s: &str) -> (r: rhai::Dynamic)
    ensures
        dyn_model(r) == ValModel::Str(s@),
{
    rhai::Dynamic::from(s.to_string())
}

/// Relies on rhai::Dynamic::from for arrays: the array value over the
/// given elements in order.
#[verifier::external_body]
fn dyn_arr(items: Vec<rhai::Dynamic>) -> (r: rhai::Dynamic)
    ensures
        dyn_model(r) == ValModel::Arr(Seq::new(items@.len(), |i: int| dyn_model(items@[i]))),
{
    rhai::Dynamic::from(items)
}

/// Relies on rhai::Map collected from pairs and rhai::Dynamic::from: the
/// map value; with a repeated key the later pair wins.
#[verifier::external_body]
fn dyn_obj(entries: Vec<(String, rhai::Dynamic)>) -> (r: rhai::Dynamic)
    ensures
        dyn_model(r) == ValModel::Obj(dobj_map(entries@)),
{
    let m: rhai::Map = entries.into_iter().map(|(k, v)| (k.into(), v)).collect();
    rhai::Dynamic::from(m)
}

/// Relies on rhai::Dynamic's scalar inspection methods (is_unit, as_bool,
/// as_int, is_float, into_string): a scalar value is read back as the
/// plain value it holds.
#[verifier::external_body]
fn dynamic_scalar(d: rhai::Dynamic) -> (r: Result<Val, String>)
    ensures
        r matches Ok(v) ==> v.model() == dyn_model(d) && v.wf(),
{
    if d.is_unit() { return Ok(Val::Null); }
    if let Ok(b) = d.as_bool() { return Ok(Val::Bool(b)); }
    if let Ok(i) = d.as_int() { return Ok(Val::Int(i)); }
    if d.is_float() { return Ok(Val::Float(d.to_string())); }
    d.into_string().map(Val::Str).map_err(|t| format!("unsupported scripting value type {}", t))
}

/// Relies on iterating a decoded interpreter array: each element is read
/// back in order.
#[verifier::external_body]
fn dynamic_list_to_values(a: Vec<rhai::Dynamic>) -> (r: Result<Vec<Val>, String>)
    ensures
        r matches Ok(vs) ==> vs@.len() == a@.len(),
{
    a.into_iter().map(dynamic_to_value).collect()
}

/// Relies on iterating a decoded interpreter map's pairs: each value is
/// read back under its key, keys staying pairwise distinct and in order.
#[verifier::external_body]
fn dynamic_pairs_to_entries(pairs: Vec<(String, rhai::Dynamic)>) -> (r: Result<
    Vec<(String, Val)>,
    String,
>)
    ensures
        r matches Ok(es) ==> es@.len() == pairs@.len(),
{
    pairs.into_iter().map(|(k, v)| Ok((k, dynamic_to_value(v)?))).collect()
}

/// Relies on rhai::Dynamic::try_cast for arrays and maps, falling back to
/// the scalar readers: any interpreter value is read back as the plain
/// value it holds, or rejected when it holds a type outside the model.
/// Map keys are pairwise distinct, so the result is well formed.
#[verifier::external_body]
fn dynamic_to_value(d: rhai::Dynamic) -> (r: Result<Val, String>)
    ensures
        r matches Ok(v) ==> v.model() == dyn_model(d) && v.wf(),
{
    if let Some(a) = d.clone().try_cast::<rhai::Array>() {
        return dynamic_list_to_values(a).map(Val::Arr);
    }
    if let Some(m) = d.clone().try_cast::<rhai::Map>() {
        let pairs: Vec<(String, rhai::Dynamic)> =
            m.into_iter().map(|(k, v)| (k.to_string(), v)).collect();
        return dynamic_pairs_to_entries(pairs).map(Val::Obj);
    }
    dynamic_scalar(d)
}

/// Relies on rhai::Engine::compile and rhai::AST::iter_functions: whether
/// the source compiles, the failure's description, and which functions it
/// declares are functions of the source alone; the listing walks a table
/// whose order is not, so the listing is tied to `rhai_decls` only as a
/// set, in both directions.
#[verifier::external_body]
pub(crate) fn rhai_declared_fns(source: &str) -> (r: Result<Vec<(String, usize)>, String>)
    ensures
        (r is Ok <==> rhai_decls(source@) is Ok),
        (r matches Err(e) ==> rhai_decls(source@) matches Err(m) && e@ == m),
        (r matches Ok(v) ==> rhai_decls(source@) matches Ok(s) && (forall|j: int|
            #![trigger v@[j]]
            0 <= j < v@.len() ==> s.contains((v@[j].0@, v@[j].1 as int))) && (forall|p: (
            Seq<char>,
            int,
        )|
            #![trigger s.contains(p)]
            s.contains(p) ==> exists|j: int|
                #![trigger v@[j]]
                0 <= j < v@.len() && (v@[j].0@, v@[j].1 as int) == p)),
{
    match rhai::Engine::new().compile(source) {
        Ok(ast) => Ok(ast.iter_functions().map(|f| (f.name.to_string(), f.params.len())).collect()),
        Err(e) => Err(e.to_string()),
    }
}

/// Relies on the conversion from a message to a boxed interpreter error.
#[verifier::external_body]
fn eval_error(msg: &str) -> (r: Box<rhai::EvalAltResult>)
{
    msg.into()
}

/// The `get` capability as the interpreter calls it: a success becomes a
/// two-element array of status and body, an error aborts the script call.
pub fn host_get(url: &str) -> (r: Result<Vec<rhai::Dynamic>, Box<rhai::EvalAltResult>>)
    ensures
        r matches Ok(a) ==> a@.len() == 2 && dyn_model(a@[0]) is Str && dyn_model(a@[1]) is Str
            && dyn_model(a@[0])->Str_0.len() == 3,
{
    match crate::bridge::get(url) {
        Ok(p) => {
            let mut a: Vec<rhai::Dynamic> = Vec::new();
            a.push(dyn_str(p.0.as_str()));
            a.push(dyn_str(p.1.as_str()));
            Ok(a)
        },
        Err(e) => Err(eval_error(e.message().as_str())),
    }
}

/// The `post_text` capability as the interpreter calls it.
pub fn host_post_text(url: &str, text: &str) -> (r: Result<
    Vec<rhai::Dynamic>,
    Box<rhai::EvalAltResult>,
>)
    ensures
        r matches Ok(a) ==> a@.len() == 2 && dyn_model(a@[0]) is Str && dyn_model(a@[1]) is Str
            && dyn_model(a@[0])->Str_0.len() == 3,
{
    match crate::bridge::post_text(url, text) {
        Ok(p) => {
            let mut a: Vec<rhai::Dynamic> = Vec::new();
            a.push(dyn_str(p.0.as_str()));
            a.push(dyn_str(p.1.as_str()));
            Ok(a)
        },
        Err(e) => Err(eval_error(e.message().as_str())),
    }
}

/// The `post_json` capability as the interpreter calls it: the argument
/// must read back as a map value, which is then posted as JSON.
pub fn host_post_json(url: &str, data: rhai::Dynamic) -> (r: Result<
    Vec<rhai::Dynamic>,
    Box<rhai::EvalAltResult>,
>)
    ensures
        r matches Ok(a) ==> a@.len() == 2 && dyn_model(a@[0]) is Str && dyn_model(a@[1]) is Str
            && dyn_model(a@[0])->Str_0.len() == 3,
{
    match dynamic_to_value(data) {
        Err(m) => Err(eval_error(m.as_str())),
        Ok(v) => {
            match v {
                Val::Obj(entries) => {
                    proof {
                        crate::value::lemma_wf_obj(Val::Obj(entries));
                    }
                    match crate::bridge::post_json(url, &entries) {
                        Ok(p) => {
                            let mut a: Vec<rhai::Dynamic> = Vec::new();
                            a.push(dyn_str(p.0.as_str()));
                            a.push(dyn_str(p.1.as_str()));
                            Ok(a)
                        },
                        Err(e) => Err(eval_error(e.message().as_str())),
                    }
                },
                _ => Err(eval_error("post_json expects a map")),
            }
        },
    }
}

/// Relies on rhai::Engine (register_fn, compile, call_fn) and rhai::Scope:
/// a fresh interpreter wired to the host capabilities compiles the source
/// and calls `run` once with the given map as its argument; what comes
/// back depends on the script and on the network, so nothing is promised
/// of it. A fresh engine and scope per call keeps state from leaking
/// between executions.
#[verifier::external_body]
fn rhai_call_run(source: &str, context: Vec<(String, rhai::Dynamic)>) -> (r: Result<
    rhai::Dynamic,
    String,
>) {
    let mut engine = rhai::Engine::new();
    engine.register_fn("get", host_get);
    engine.register_fn("post_text", host_post_text);
    engine.register_fn("post_json", host_post_json);
    let ast = match engine.compile(source) {
        Ok(a) => a,
        Err(e) => return Err(e.to_string()),
    };
    let map: rhai::Map = context.into_iter().map(|(k, v)| (k.into(), v)).collect();
    let mut scope = rhai::Scope::new();
    engine.call_fn::<rhai::Dynamic>(&mut scope, &ast, "run", (map,)).map_err(|e| e.to_string())
}

/// Whether this value can be handed to the interpreter: every
/// floating-point text in it must parse as a float.
pub open spec fn value_representable(v: Val) -> bool
    decreases v,
{
    match v {
        Val::Float(t) => rhai_float_of(t@) is Some,
        Val::Arr(items) => forall|i: int|
            #![trigger items@[i]]
            0 <= i < items@.len() ==> value_representable(items@[i]),
        Val::Obj(entries) => entries_representable(entries@),
        _ => true,
    }
}

/// Whether every value among these entries is representable.
pub open spec fn entries_representable(s: Seq<(String, Val)>) -> bool
    decreases s,
{
    forall|i: int| #![trigger s[i]] 0 <= i < s.len() ==> value_representable(s[i].1)
}

/// Among representable entries every value is representable.
pub proof fn lemma_entries_representable_index(s: Seq<(String, Val)>, i: int)
    requires
        entries_representable(s),
        0 <= i < s.len(),
    ensures
        value_representable(s[i].1),
{
}

/// A witness of a non-representable value makes the entries
/// non-representable.
pub proof fn lemma_entries_not_representable(s: Seq<(String, Val)>, i: int)
    requires
        0 <= i < s.len(),
        !value_representable(s[i].1),
    ensures
        !entries_representable(s),
{
}

/// A witness of a non-representable element makes the whole value
/// non-representable.
pub proof fn lemma_not_representable(v: Val, i: int)
    requires
        v is Arr ==> 0 <= i < v->Arr_0@.len() && !value_representable(v->Arr_0@[i]),
        v is Obj ==> 0 <= i < v->Obj_0@.len() && !value_representable(v->Obj_0@[i].1),
        v is Arr || v is Obj,
    ensures
        !value_representable(v),
{
    if v is Arr {
        if value_representable(v) {
            assert(value_representable(v->Arr_0@[i]));
        }
    } else {
        if value_representable(v) {
            assert(entries_representable(v->Obj_0@));
            lemma_entries_representable_index(v->Obj_0@, i);
        }
    }
}

/// A value whose elements or entries are all representable is
/// representable.
pub proof fn lemma_representable_build(v: Val)
    requires
        v is Arr ==> forall|i: int|
            #![trigger v->Arr_0@[i]]
            0 <= i < v->Arr_0@.len() ==> value_representable(v->Arr_0@[i]),
        v is Obj ==> entries_representable(v->Obj_0@),
        v is Arr || v is Obj,
    ensures
        value_representable(v),
{
}

/// Entries whose values are all representable are representable.
pub proof fn lemma_entries_representable_build(s: Seq<(String, Val)>)
    requires
        forall|i: int| #![trigger s[i]] 0 <= i < s.len() ==> value_representable(s[i].1),
    ensures
        entries_representable(s),
{
}

/// Turn a value into an interpreter value. Fails exactly on values outside
/// the representable subset; for float-free values the interpreter value's
/// model is the value's own.
#[verifier::loop_isolation(false)]
pub fn value_to_dynamic(v: &Val) -> (r: Result<rhai::Dynamic, HostError>)
    ensures
        r is Ok <==> value_representable(*v),
        r matches Err(e) ==> e is Serialization,
        r matches Ok(d) ==> (float_free(*v) ==> dyn_model(d) == v.model()),
    decreases v,
{
    match v {
        Val::Null => Ok(dyn_null()),
        Val::Bool(b) => Ok(dyn_bool(*b)),
        Val::Int(i) => Ok(dyn_int(*i)),
        Val::Str(s) => Ok(dyn_str(s.as_str())),
        Val::Float(t) => {
            match dyn_float_from_text(t.as_str()) {
                Some(d) => Ok(d),
                None => Err(HostError::Serialization(
                    "number text cannot be read by the interpreter".to_owned(),
                )),
            }
        },
        Val::Arr(items) => {
            proof {
                assert(v->Arr_0 == *items);
                assert(decreases_to!(*v => v->Arr_0));
            }
            let mut out: Vec<rhai::Dynamic> = Vec::new();
            let mut i: usize = 0;
            while i < items.len()
                invariant
                    i <= items.len(),
                    out@.len() == i,
                    forall|j: int| #![trigger items@[j]] 0 <= j < i ==> value_representable(
                        items@[j],
                    ),
                    forall|j: int| #![trigger out@[j]] 0 <= j < i && float_free(*v) ==> dyn_model(
                        out@[j],
                    ) == items@[j].model(),
                decreases items.len() - i,
            {
                proof {
                    assert(decreases_to!(*items => items@[i as int]));
                }
                match value_to_dynamic(&items[i]) {
                    Ok(d) => {
                        proof {
                            if float_free(*v) {
                                lemma_float_free_index(*v, i as int);
                            }
                        }
                        out.push(d);
                    },
                    Err(e) => {
                        proof {
                            lemma_not_representable(*v, i as int);
                        }
                        return Err(e);
                    },
                }
                i = i + 1;
            }
            let r = dyn_arr(out);
            proof {
                lemma_representable_build(*v);
                if float_free(*v) {
                    assert(Seq::new(out@.len(), |i: int| dyn_model(out@[i]))
                        =~= v.model()->Arr_0);
                }
            }
            Ok(r)
        },
        Val::Obj(entries) => {
            proof {
                assert(v->Obj_0 == *entries);
                assert(decreases_to!(*v => v->Obj_0));
            }
            match entries_to_dynamic(entries) {
                Ok(ctx) => {
                    let r = dyn_obj(ctx);
                    proof {
                        lemma_representable_build(*v);
                    }
                    Ok(r)
                },
                Err(e) => {
                    proof {
                        assert(!value_representable(*v));
                    }
                    Err(e)
                },
            }
        },
    }
}

/// Turn snapshot entries into interpreter key/value pairs, key for key.
/// Fails exactly on entries outside the representable subset; for
/// float-free entries the pairs describe the entries' own map.
#[verifier::loop_isolation(false)]
pub fn entries_to_dynamic(map: &Vec<(String, Val)>) -> (r: Result<
    Vec<(String, rhai::Dynamic)>,
    HostError,
>)
    ensures
        r is Ok <==> entries_representable(map@),
        r matches Err(e) ==> e is Serialization,
        r matches Ok(ctx) ==> (entries_float_free(map@) ==> dobj_map(ctx@) == snap_model(map@)),
    decreases map,
{
    let mut out: Vec<(String, rhai::Dynamic)> = Vec::new();
    let mut i: usize = 0;
    while i < map.len()
        invariant
            i <= map.len(),
            out@.len() == i,
            forall|j: int| #![trigger map@[j]] 0 <= j < i ==> value_representable(map@[j].1),
            forall|j: int| 0 <= j < i ==> #[trigger] out@[j].0@ == map@[j].0@,
            forall|j: int| #![trigger out@[j]] 0 <= j < i && entries_float_free(map@)
                ==> dyn_model(out@[j].1) == map@[j].1.model(),
        decreases map.len() - i,
    {
        proof {
            assert(decreases_to!(*map => map@[i as int]));
        }
        let key = map[i].0.clone();
        match value_to_dynamic(&map[i].1) {
            Ok(d) => {
                proof {
                    if entries_float_free(map@) {
                        lemma_entries_float_free_index(map@, i as int);
                    }
                }
                out.push((key, d));
            },
            Err(e) => {
                proof {
                    lemma_entries_not_representable(map@, i as int);
                }
                return Err(e);
            },
        }
        i = i + 1;
    }
    proof {
        lemma_entries_representable_build(map@);
        if entries_float_free(map@) {
            lemma_dmap_matches_snap(out@, map@);
        }
    }
    Ok(out)
}

/// Run a compiled-from-source script's `run` entry point once, under a
/// fresh interpreter wired to the host capabilities, with the given
/// entries as its single map argument. What comes back is the script's
/// returned value or the failure's description.
pub fn execute_run(source: &str, context: Vec<(String, rhai::Dynamic)>) -> (r: Result<
    Val,
    String,
>)
    ensures
        r matches Ok(v) ==> v.wf(),
{
    match rhai_call_run(source, context) {
        Ok(d) => {
            match dynamic_to_value(d) {
                Ok(v) => Ok(v),
                Err(m) => Err(m),
            }
        },
        Err(m) => Err(m),
    }
}

} // verus!
