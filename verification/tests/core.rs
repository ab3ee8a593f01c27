use probe_core::bridge::{
    combine_command_outputs, get, interpret_fetch, post_json, remote_command_result, ssh_connect,
    BodyOutcome, CommandOutcome, FetchOutcome,
};
use probe_core::compare::{snapshots_equal, values_equal};
use probe_core::errors::{HostError, ScriptError};
use probe_core::json::entries_to_json_text;
use probe_core::manager::Manager;
use probe_core::queryable::{snapshot_of_run_result, Endpoint, Queryable, Script};
use probe_core::value::{clone_entries, error_snapshot, Val};

fn val_eq(a: &Val, b: &Val) -> bool {
    match (a, b) {
        (Val::Null, Val::Null) => true,
        (Val::Bool(x), Val::Bool(y)) => x == y,
        (Val::Int(x), Val::Int(y)) => x == y,
        (Val::Float(x), Val::Float(y)) => x == y,
        (Val::Str(x), Val::Str(y)) => x == y,
        (Val::Arr(x), Val::Arr(y)) => {
            x.len() == y.len() && x.iter().zip(y.iter()).all(|(p, q)| val_eq(p, q))
        }
        (Val::Obj(x), Val::Obj(y)) => {
            x.len() == y.len()
                && x.iter().all(|(k, v)| match y.iter().find(|(k2, _)| k2 == k) {
                    Some((_, v2)) => val_eq(v, v2),
                    None => false,
                })
        }
        _ => false,
    }
}

fn lookup<'a>(snap: &'a [(String, Val)], key: &str) -> Option<&'a Val> {
    snap.iter().find(|(k, _)| k == key).map(|(_, v)| v)
}

#[test]
fn construction_fails_without_run() {
    let r = Script::new("a".to_string(), "fn other(x) { x }".to_string());
    assert!(matches!(r, Err(ScriptError::Validation(_))));
}

#[test]
fn construction_fails_with_wrong_arity() {
    let r = Script::new("a".to_string(), "fn run(a, b) { a }".to_string());
    assert!(matches!(r, Err(ScriptError::Validation(_))));
    let r2 = Script::new("a".to_string(), "fn run() { 1 }".to_string());
    assert!(matches!(r2, Err(ScriptError::Validation(_))));
}

#[test]
fn construction_fails_on_syntax_error() {
    let r = Script::new("a".to_string(), "fn run(info) {".to_string());
    assert!(matches!(r, Err(ScriptError::Compile(_))));
}

#[test]
fn construction_succeeds_with_run() {
    let r = Script::new(
        "a".to_string(),
        "fn run(info) { #{\"ok\": true} }".to_string(),
    );
    assert!(r.is_ok());
}

#[test]
fn query_returns_script_result_and_retains_it() {
    let mut s = Script::new(
        "probe".to_string(),
        "fn run(info) { #{\"status\": \"ok\", \"ip\": info.ip} }".to_string(),
    )
    .unwrap();
    let ctx = vec![("ip".to_string(), Val::Str("1.2.3.4".to_string()))];
    let snap = s.query(&ctx);
    assert_eq!(snap.len(), 2);
    assert!(val_eq(
        lookup(&snap, "status").unwrap(),
        &Val::Str("ok".to_string())
    ));
    assert!(val_eq(
        lookup(&snap, "ip").unwrap(),
        &Val::Str("1.2.3.4".to_string())
    ));
    let again = s.get_last_info();
    assert_eq!(again.len(), 2);
    assert!(val_eq(
        lookup(&again, "status").unwrap(),
        &Val::Str("ok".to_string())
    ));
    assert!(val_eq(
        lookup(&again, "ip").unwrap(),
        &Val::Str("1.2.3.4".to_string())
    ));
}

#[test]
fn query_converts_runtime_error_to_error_snapshot() {
    let mut s = Script::new(
        "boom".to_string(),
        "fn run(info) { throw \"boom\" }".to_string(),
    )
    .unwrap();
    let snap = s.query(&Vec::new());
    let msg = lookup(&snap, "error").expect("error entry");
    match msg {
        Val::Str(m) => assert!(m.contains("boom")),
        _ => panic!("error entry is not a string"),
    }
}

#[test]
fn query_rejects_non_map_result_as_error_snapshot() {
    let mut s = Script::new("n".to_string(), "fn run(info) { 42 }".to_string()).unwrap();
    let snap = s.query(&Vec::new());
    assert!(lookup(&snap, "error").is_some());
}

#[test]
fn get_against_unreachable_host_is_transport_error() {
    let r = get("http://name-that-does-not-resolve.invalid/");
    match r {
        Err(HostError::Transport(_)) => {}
        _ => panic!("expected a transport error"),
    }
}

#[test]
fn reply_of_any_status_is_success_with_nonempty_status() {
    let r = interpret_fetch(FetchOutcome::Reply(
        "404".to_string(),
        BodyOutcome::Text("not found".to_string()),
    ));
    let (status, body) = r.unwrap();
    assert_eq!(status, "404");
    assert!(!status.is_empty());
    assert_eq!(body, "not found");
}

#[test]
fn undecodable_body_is_still_success_with_message_as_body() {
    let r = interpret_fetch(FetchOutcome::Reply(
        "200".to_string(),
        BodyOutcome::Undecodable("bad charset".to_string()),
    ));
    let (status, body) = r.unwrap();
    assert_eq!(status, "200");
    assert_eq!(body, "bad charset");
}

#[test]
fn post_json_rejects_unserializable_value_without_crashing() {
    let map = vec![("x".to_string(), Val::Float("not-a-number".to_string()))];
    let r = post_json("http://name-that-does-not-resolve.invalid/", &map);
    match r {
        Err(HostError::Serialization(_)) => {}
        _ => panic!("expected a serialization error"),
    }
}

#[test]
fn json_text_of_simple_map_is_exact() {
    let map = vec![
        ("a".to_string(), Val::Int(1)),
        ("b".to_string(), Val::Str("x".to_string())),
        ("c".to_string(), Val::Bool(true)),
        ("d".to_string(), Val::Null),
    ];
    let t = entries_to_json_text(&map).unwrap();
    assert_eq!(t, "{\"a\":1,\"b\":\"x\",\"c\":true,\"d\":null}");
}

#[test]
fn json_text_of_nested_value_is_exact() {
    let map = vec![(
        "v".to_string(),
        Val::Arr(vec![Val::Int(-2), Val::Obj(vec![("k".to_string(), Val::Str("q".to_string()))])]),
    )];
    let t = entries_to_json_text(&map).unwrap();
    assert_eq!(t, "{\"v\":[-2,{\"k\":\"q\"}]}");
}

#[test]
fn json_accepts_valid_float_text() {
    let map = vec![("f".to_string(), Val::Float("1.5".to_string()))];
    let t = entries_to_json_text(&map).unwrap();
    assert_eq!(t, "{\"f\":1.5}");
}

#[test]
fn distinct_queryables_do_not_disturb_each_other() {
    let mut m = Manager::new();
    let one = Script::new(
        "one".to_string(),
        "fn run(info) { #{\"n\": 1} }".to_string(),
    )
    .unwrap();
    let two = Script::new(
        "two".to_string(),
        "fn run(info) { #{\"n\": 2} }".to_string(),
    )
    .unwrap();
    assert!(m.register("one".to_string(), Queryable::Script(one)));
    assert!(m.register("two".to_string(), Queryable::Script(two)));
    let empty: Vec<(String, Val)> = Vec::new();
    let first = m.query_one(&"one".to_string(), &empty).unwrap();
    assert!(val_eq(lookup(&first, "n").unwrap(), &Val::Int(1)));
    let before = m.get_snapshot(&"two".to_string()).unwrap();
    assert_eq!(before.len(), 0);
    let second = m.query_one(&"two".to_string(), &empty).unwrap();
    assert!(val_eq(lookup(&second, "n").unwrap(), &Val::Int(2)));
    let one_again = m.get_snapshot(&"one".to_string()).unwrap();
    assert!(val_eq(lookup(&one_again, "n").unwrap(), &Val::Int(1)));
}

#[test]
fn endpoint_merges_children_and_keeps_failures_local() {
    let mut e = Endpoint::new("top".to_string());
    let good1 = Script::new(
        "good1".to_string(),
        "fn run(info) { #{\"v\": 1} }".to_string(),
    )
    .unwrap();
    let good2 = Script::new(
        "good2".to_string(),
        "fn run(info) { #{\"v\": 2} }".to_string(),
    )
    .unwrap();
    let bad = Script::new(
        "bad".to_string(),
        "fn run(info) { throw \"down\" }".to_string(),
    )
    .unwrap();
    assert!(e.add_child(Queryable::Script(good1)));
    assert!(e.add_child(Queryable::Script(bad)));
    assert!(e.add_child(Queryable::Script(good2)));
    let mut q = Queryable::Endpoint(e);
    let merged = q.query(&Vec::new());
    assert_eq!(merged.len(), 3);
    match lookup(&merged, "good1").unwrap() {
        Val::Obj(sub) => assert!(val_eq(lookup(sub, "v").unwrap(), &Val::Int(1))),
        _ => panic!("child entry is not a map"),
    }
    match lookup(&merged, "good2").unwrap() {
        Val::Obj(sub) => assert!(val_eq(lookup(sub, "v").unwrap(), &Val::Int(2))),
        _ => panic!("child entry is not a map"),
    }
    match lookup(&merged, "bad").unwrap() {
        Val::Obj(sub) => match lookup(sub, "error").unwrap() {
            Val::Str(m) => assert!(m.contains("down")),
            _ => panic!("error entry is not a string"),
        },
        _ => panic!("failing child entry is not a map"),
    }
    let retained = q.get_last_info();
    assert_eq!(retained.len(), 3);
}

#[test]
fn endpoint_refuses_duplicate_child_names() {
    let mut e = Endpoint::new("top".to_string());
    let a = Script::new("same".to_string(), "fn run(info) { #{} }".to_string()).unwrap();
    let b = Script::new("same".to_string(), "fn run(info) { #{} }".to_string()).unwrap();
    assert!(e.add_child(Queryable::Script(a)));
    assert!(!e.add_child(Queryable::Script(b)));
}

#[test]
fn manager_register_refuses_duplicate_names() {
    let mut m = Manager::new();
    let a = Script::new("s".to_string(), "fn run(info) { #{} }".to_string()).unwrap();
    let b = Script::new("s".to_string(), "fn run(info) { #{} }".to_string()).unwrap();
    assert!(m.register("k".to_string(), Queryable::Script(a)));
    assert!(!m.register("k".to_string(), Queryable::Script(b)));
}

#[test]
fn manager_query_all_pairs_names_with_snapshots() {
    let mut m = Manager::new();
    let a = Script::new(
        "a".to_string(),
        "fn run(info) { #{\"ip\": info.ip} }".to_string(),
    )
    .unwrap();
    let b = Script::new("b".to_string(), "fn run(info) { #{\"k\": 7} }".to_string()).unwrap();
    assert!(m.register("a".to_string(), Queryable::Script(a)));
    assert!(m.register("b".to_string(), Queryable::Script(b)));
    let contexts = vec![(
        "a".to_string(),
        vec![("ip".to_string(), Val::Str("9.9.9.9".to_string()))],
    )];
    let out = m.query_all(&contexts);
    assert_eq!(out.len(), 2);
    assert_eq!(out[0].0, "a");
    assert_eq!(out[1].0, "b");
    assert!(val_eq(
        lookup(&out[0].1, "ip").unwrap(),
        &Val::Str("9.9.9.9".to_string())
    ));
    assert!(val_eq(lookup(&out[1].1, "k").unwrap(), &Val::Int(7)));
}

#[test]
fn manager_get_snapshot_unknown_name_is_none() {
    let m = Manager::new();
    assert!(m.get_snapshot(&"missing".to_string()).is_none());
}

#[test]
fn manager_deregister_removes_entry() {
    let mut m = Manager::new();
    let a = Script::new("s".to_string(), "fn run(info) { #{} }".to_string()).unwrap();
    assert!(m.register("k".to_string(), Queryable::Script(a)));
    assert!(m.deregister(&"k".to_string()));
    assert!(m.get_snapshot(&"k".to_string()).is_none());
    assert!(!m.deregister(&"k".to_string()));
}

#[test]
fn combine_command_outputs_concatenates_with_failure_markers() {
    let results = vec![
        CommandOutcome::Output("uptime ok\n".to_string()),
        CommandOutcome::Failed("no such file".to_string()),
        CommandOutcome::Output("done".to_string()),
    ];
    let combined = combine_command_outputs(&results);
    assert_eq!(combined, "uptime ok\n[command failed: no such file]done");
}

#[test]
fn remote_command_result_reports_connection_failure_as_transport() {
    let r = remote_command_result(Err("connection refused".to_string()));
    match r {
        Err(HostError::Transport(m)) => assert_eq!(m, "connection refused"),
        _ => panic!("expected a transport error"),
    }
    let ok = remote_command_result(Ok(vec![CommandOutcome::Output("x".to_string())]));
    assert_eq!(ok.unwrap(), "x");
}

#[test]
fn ssh_connect_placeholder_yields_empty_output() {
    let out = ssh_connect("10.0.0.1", "root", "pw", vec!["ls".to_string()]);
    assert_eq!(out, "");
}

#[test]
fn error_snapshot_has_single_error_entry() {
    let s = error_snapshot("why".to_string());
    assert_eq!(s.len(), 1);
    assert_eq!(s[0].0, "error");
    assert!(val_eq(&s[0].1, &Val::Str("why".to_string())));
}

#[test]
fn clone_entries_is_deep_and_equal() {
    let original = vec![
        ("a".to_string(), Val::Arr(vec![Val::Int(1), Val::Null])),
        ("b".to_string(), Val::Obj(vec![("c".to_string(), Val::Bool(false))])),
    ];
    let copy = clone_entries(&original);
    assert_eq!(copy.len(), 2);
    assert!(val_eq(&copy[0].1, &original[0].1));
    assert!(val_eq(&copy[1].1, &original[1].1));
}

#[test]
fn scripts_pass_values_of_every_kind_back() {
    let mut s = Script::new(
        "kinds".to_string(),
        "fn run(info) { #{\"n\": (), \"b\": true, \"i\": 3, \"f\": 1.5, \"s\": \"t\", \"a\": [1, 2], \"m\": #{\"x\": 0}} }"
            .to_string(),
    )
    .unwrap();
    let snap = s.query(&Vec::new());
    assert!(val_eq(lookup(&snap, "n").unwrap(), &Val::Null));
    assert!(val_eq(lookup(&snap, "b").unwrap(), &Val::Bool(true)));
    assert!(val_eq(lookup(&snap, "i").unwrap(), &Val::Int(3)));
    assert!(val_eq(lookup(&snap, "f").unwrap(), &Val::Float("1.5".to_string())));
    assert!(val_eq(lookup(&snap, "s").unwrap(), &Val::Str("t".to_string())));
    assert!(val_eq(
        lookup(&snap, "a").unwrap(),
        &Val::Arr(vec![Val::Int(1), Val::Int(2)])
    ));
    assert!(val_eq(
        lookup(&snap, "m").unwrap(),
        &Val::Obj(vec![("x".to_string(), Val::Int(0))])
    ));
}

#[test]
fn run_result_decision_is_exact() {
    let entries = vec![("k".to_string(), Val::Int(5))];
    let ok = snapshot_of_run_result(Ok(Val::Obj(entries)));
    assert_eq!(ok.len(), 1);
    assert_eq!(ok[0].0, "k");
    assert!(val_eq(&ok[0].1, &Val::Int(5)));
    let non_map = snapshot_of_run_result(Ok(Val::Int(7)));
    assert_eq!(non_map.len(), 1);
    assert_eq!(non_map[0].0, "error");
    assert!(val_eq(
        &non_map[0].1,
        &Val::Str("script did not return a map".to_string())
    ));
    let failed = snapshot_of_run_result(Err("engine stopped".to_string()));
    assert_eq!(failed.len(), 1);
    assert_eq!(failed[0].0, "error");
    assert!(val_eq(&failed[0].1, &Val::Str("engine stopped".to_string())));
}

#[test]
fn last_info_is_empty_before_any_query() {
    let s = Script::new("s".to_string(), "fn run(info) { #{} }".to_string()).unwrap();
    assert_eq!(s.get_last_info().len(), 0);
    let e = Endpoint::new("e".to_string());
    assert_eq!(Queryable::Endpoint(e).get_last_info().len(), 0);
}

#[test]
fn snapshot_equality_ignores_map_entry_order() {
    let a = vec![
        ("x".to_string(), Val::Int(1)),
        ("y".to_string(), Val::Obj(vec![
            ("p".to_string(), Val::Bool(true)),
            ("q".to_string(), Val::Str("s".to_string())),
        ])),
    ];
    let b = vec![
        ("y".to_string(), Val::Obj(vec![
            ("q".to_string(), Val::Str("s".to_string())),
            ("p".to_string(), Val::Bool(true)),
        ])),
        ("x".to_string(), Val::Int(1)),
    ];
    assert!(snapshots_equal(&a, &b));
}

#[test]
fn snapshot_equality_respects_array_order_and_values() {
    let a = vec![("v".to_string(), Val::Arr(vec![Val::Int(1), Val::Int(2)]))];
    let b = vec![("v".to_string(), Val::Arr(vec![Val::Int(2), Val::Int(1)]))];
    assert!(!snapshots_equal(&a, &b));
    let c = vec![("v".to_string(), Val::Int(1))];
    let d = vec![("v".to_string(), Val::Int(2))];
    assert!(!snapshots_equal(&c, &d));
    let e = vec![("w".to_string(), Val::Int(1))];
    assert!(!snapshots_equal(&c, &e));
}

#[test]
fn value_equality_distinguishes_kinds() {
    assert!(values_equal(&Val::Null, &Val::Null));
    assert!(!values_equal(&Val::Null, &Val::Bool(false)));
    assert!(!values_equal(&Val::Int(0), &Val::Float("0".to_string())));
    assert!(values_equal(
        &Val::Float("1.5".to_string()),
        &Val::Float("1.5".to_string())
    ));
}

#[test]
fn context_values_reach_the_script() {
    let mut s = Script::new(
        "ctx".to_string(),
        "fn run(info) { #{\"sum\": info.x + info.y} }".to_string(),
    )
    .unwrap();
    let ctx = vec![
        ("x".to_string(), Val::Int(20)),
        ("y".to_string(), Val::Int(3)),
    ];
    let snap = s.query(&ctx);
    assert!(val_eq(lookup(&snap, "sum").unwrap(), &Val::Int(23)));
}
