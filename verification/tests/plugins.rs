use next_client_context::plugin::{resolve_after, resolve_before, Plugin, ResolutionResult};

fn s(x: &str) -> String {
    x.to_owned()
}

fn hit(request: &str, module_ref: &str) -> Plugin {
    Plugin::Intercept { request: s(request), result: ResolutionResult { module_ref: s(module_ref) } }
}

#[test]
fn before_chain_short_circuits() {
    // The plugin at index 1 answers; index 2 would answer differently, but
    // only 2 plugins may have been consulted and the first answer stands.
    let before = vec![
        Plugin::Observe { name: s("report") },
        hit("react", "vendor/react/index.js"),
        hit("react", "other/react.js"),
    ];
    let (r, consulted) = resolve_before(&before, &s("react"));
    assert_eq!(r, Some(ResolutionResult { module_ref: s("vendor/react/index.js") }));
    assert_eq!(consulted, 2);
}

#[test]
fn before_chain_all_decline() {
    let before = vec![Plugin::Observe { name: s("a") }, Plugin::Observe { name: s("b") }];
    let (r, consulted) = resolve_before(&before, &s("react"));
    assert_eq!(r, None);
    assert_eq!(consulted, 2);
}

#[test]
fn intercept_only_answers_its_request() {
    let chain = vec![hit("react", "vendor/react/index.js")];
    let (r, consulted) = resolve_before(&chain, &s("react-dom"));
    assert_eq!(r, None);
    assert_eq!(consulted, 1);
}

#[test]
fn after_chain_overrides_default() {
    let after = vec![hit("styled", "shim/styled.js")];
    let d = Some(ResolutionResult { module_ref: s("node_modules/styled.js") });
    assert_eq!(
        resolve_after(&after, &s("styled"), d),
        Some(ResolutionResult { module_ref: s("shim/styled.js") })
    );
}

#[test]
fn after_chain_keeps_default_when_declining() {
    let after = vec![Plugin::Observe { name: s("shared-runtime") }];
    let d = Some(ResolutionResult { module_ref: s("node_modules/styled.js") });
    assert_eq!(resolve_after(&after, &s("styled"), d.clone()), d);
    assert_eq!(resolve_after(&after, &s("styled"), None), None);
}
