use next_client_context::compile_time_info::{
    get_client_compile_time_info, ExecutionEnvironment,
};
use next_client_context::defines::{defines, next_client_free_vars, DefineValue, FreeVarReference};

fn s(x: &str) -> String {
    x.to_owned()
}

fn env(pairs: &[(&str, &str)]) -> Vec<(String, String)> {
    pairs.iter().map(|(k, v)| (s(k), s(v))).collect()
}

#[test]
fn classification_round_trip() {
    let t = defines(&env(&[
        ("A", "true"),
        ("B", "\"hello\""),
        ("C", "42"),
        ("D", "{\"a\":1}"),
        ("E", "not json"),
    ]));
    assert_eq!(t.len(), 5);
    assert_eq!(t.get(&vec![s("A")]), Some(&DefineValue::Bool(true)));
    assert_eq!(t.get(&vec![s("B")]), Some(&DefineValue::Str(s("hello"))));
    assert_eq!(t.get(&vec![s("C")]), Some(&DefineValue::JSON(s("42"))));
    assert_eq!(t.get(&vec![s("D")]), Some(&DefineValue::JSON(s("{\"a\":1}"))));
    assert_eq!(t.get(&vec![s("E")]), Some(&DefineValue::JSON(s("not json"))));
}

#[test]
fn dotted_keys_are_split() {
    let t = defines(&env(&[("process.env.NODE_ENV", "\"production\"")]));
    assert_eq!(t.len(), 1);
    let (k, v) = t.entry_at(0).unwrap();
    assert_eq!(k, &vec![s("process"), s("env"), s("NODE_ENV")]);
    assert_eq!(v, &DefineValue::Str(s("production")));
    assert_eq!(t.entry_at(1), None);
}

#[test]
fn empty_segments_are_kept() {
    let t = defines(&env(&[("A..B", "true"), (".C", "1"), ("", "2")]));
    assert_eq!(t.len(), 3);
    assert_eq!(t.entry_at(0).unwrap().0, &vec![s("A"), s(""), s("B")]);
    assert_eq!(t.entry_at(1).unwrap().0, &vec![s(""), s("C")]);
    assert_eq!(t.entry_at(2).unwrap().0, &vec![s("")]);
}

#[test]
fn duplicate_key_first_occurrence_wins() {
    let t = defines(&env(&[("FOO.BAR", "true"), ("FOO.BAR", "false")]));
    assert_eq!(t.len(), 1);
    assert_eq!(t.get(&vec![s("FOO"), s("BAR")]), Some(&DefineValue::Bool(true)));
}

#[test]
fn building_twice_yields_equal_tables() {
    let e = env(&[("A.B", "true"), ("C", "\"x\""), ("A.B", "7"), ("D", "oops")]);
    let t1 = defines(&e);
    let t2 = defines(&e);
    assert_eq!(t1.len(), t2.len());
    let mut i = 0;
    while let (Some(a), Some(b)) = (t1.entry_at(i), t2.entry_at(i)) {
        assert_eq!(a, b);
        i += 1;
    }
    assert_eq!(i, t1.len());
}

#[test]
fn free_vars_append_fixed_bindings() {
    let fv = next_client_free_vars(&env(&[("FLAG", "true")]));
    assert_eq!(fv.len(), 3);
    assert_eq!(fv[0].0, vec![s("FLAG")]);
    assert_eq!(fv[0].1, FreeVarReference::Value(DefineValue::Bool(true)));
    assert_eq!(fv[1].0, vec![s("Buffer")]);
    assert_eq!(
        fv[1].1,
        FreeVarReference::EcmaScriptModule {
            request: s("node:buffer"),
            lookup_path: None,
            export: Some(s("Buffer")),
        }
    );
    assert_eq!(fv[2].0, vec![s("process")]);
    assert_eq!(
        fv[2].1,
        FreeVarReference::EcmaScriptModule {
            request: s("node:process"),
            lookup_path: None,
            export: Some(s("default")),
        }
    );
}

#[test]
fn compile_time_info_browser_environment() {
    let info = get_client_compile_time_info(s("chrome 111"), &env(&[("FLAG", "false")]));
    let ExecutionEnvironment::Browser(b) = &info.environment.execution;
    assert!(b.dom);
    assert!(!b.web_worker);
    assert!(!b.service_worker);
    assert_eq!(b.browserslist_query, "chrome 111");
    assert_eq!(info.defines.get(&vec![s("FLAG")]), Some(&DefineValue::Bool(false)));
    assert_eq!(info.free_var_references.len(), 3);
}

#[test]
fn empty_environment_still_has_fixed_bindings() {
    let t = defines(&Vec::new());
    assert_eq!(t.len(), 0);
    let fv = next_client_free_vars(&Vec::new());
    assert_eq!(fv.len(), 2);
    assert_eq!(fv[0].0, vec![s("Buffer")]);
    assert_eq!(fv[1].0, vec![s("process")]);
}
