use next_client_context::cascade::{resolve, ConfigNode};
use next_client_context::condition::Condition;
use next_client_context::paths::{join_path, path_is_under};

fn s(x: &str) -> String {
    x.to_owned()
}

fn leaf(own: u32) -> ConfigNode<u32> {
    ConfigNode { own, children: Vec::new() }
}

#[test]
fn path_containment_exact_and_under() {
    assert!(path_is_under("src", "src"));
    assert!(path_is_under("src", "src/app/page.tsx"));
    assert!(!path_is_under("src", "srctwo/page.tsx"));
    assert!(!path_is_under("src/app", "src"));
    assert!(!path_is_under("node_modules", "src/node_modules"));
}

#[test]
fn join_appends_segment() {
    assert_eq!(join_path("root/client", "static/chunks"), "root/client/static/chunks");
    assert_eq!(join_path("p", "_"), "p/_");
}

#[test]
fn condition_any_is_or() {
    let c = Condition::Any(vec![
        Condition::InPath(s("a/b")),
        Condition::InPath(s("c")),
    ]);
    assert!(next_client_context::condition::matches(&c, "a/b/x.js"));
    assert!(next_client_context::condition::matches(&c, "c/y.js"));
    assert!(!next_client_context::condition::matches(&c, "a/c/z.js"));
    let empty = Condition::Any(Vec::new());
    assert!(!next_client_context::condition::matches(&empty, "a/b/x.js"));
}

#[test]
fn condition_any_nests() {
    let c = Condition::Any(vec![
        Condition::Any(vec![Condition::InPath(s("x"))]),
        Condition::InPath(s("y")),
    ]);
    assert!(next_client_context::condition::matches(&c, "x/f.js"));
    assert!(next_client_context::condition::matches(&c, "y"));
    assert!(!next_client_context::condition::matches(&c, "z/f.js"));
}

#[test]
fn resolve_falls_back_to_own() {
    let node = ConfigNode {
        own: 1u32,
        children: vec![(Condition::InPath(s("vendor")), leaf(2))],
    };
    assert_eq!(*resolve(&node, "src/main.ts"), 1);
}

#[test]
fn resolve_first_match_wins_over_later_match() {
    // Both conditions match the path: the earlier listed child must win.
    let node = ConfigNode {
        own: 1u32,
        children: vec![
            (Condition::InPath(s("vendor")), leaf(2)),
            (Condition::InPath(s("vendor/pkg")), leaf(3)),
        ],
    };
    assert_eq!(*resolve(&node, "vendor/pkg/index.js"), 2);
}

#[test]
fn resolve_nested_embedded_assets() {
    // Three levels: root -> foreign split -> embedded runtime assets. A path
    // inside the embedded root resolves to the embedded settings even though
    // it is also inside the foreign root.
    let embedded = leaf(30u32);
    let foreign = ConfigNode {
        own: 20u32,
        children: vec![(Condition::InPath(s("vendor/runtime")), embedded)],
    };
    let root = ConfigNode {
        own: 10u32,
        children: vec![(Condition::InPath(s("vendor")), foreign)],
    };
    assert_eq!(*resolve(&root, "vendor/runtime/bootstrap.ts"), 30);
    assert_eq!(*resolve(&root, "vendor/other/lib.js"), 20);
    assert_eq!(*resolve(&root, "src/page.tsx"), 10);
}
