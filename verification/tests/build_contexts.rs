use next_client_context::cascade::resolve;
use next_client_context::chunking::{
    get_client_assets_path, get_client_chunking_context, ModuleIdStrategy,
};
use next_client_context::condition::Condition;
use next_client_context::mode::{MinifyType, NextMode, RuntimeType};
use next_client_context::module_options::{
    get_client_module_options_context, internal_assets_conditions, DecoratorsOptions,
    JsxTransformOptions, ModuleRule, PostCssConfigLocation, TypeofWindow,
    TypescriptTransformOptions,
};
use next_client_context::next_config::{ClientContextType, NextConfig, TreeShakingMode};
use next_client_context::plugin::Plugin;
use next_client_context::resolve_options::get_client_resolve_options_context;
use next_client_context::runtime_entries::{get_client_runtime_entries, RuntimeEntry};

fn s(x: &str) -> String {
    x.to_owned()
}

fn config() -> NextConfig {
    NextConfig {
        resolve_extension: vec![s(".tsx"), s(".ts")],
        mdx_rs: true,
        tree_shaking_mode_for_user_code: Some(TreeShakingMode::ReexportsOnly),
        tree_shaking_mode_for_foreign_code: None,
        use_swc_css: true,
        optimize_package_imports: vec![s("lodash")],
        has_webpack_rules: true,
    }
}

#[test]
fn runtime_entries_dev_app_order() {
    // Development with a successful capability probe and the app target:
    // exactly [refresh entry, app bootstrap entry], in that order.
    let entries = get_client_runtime_entries(
        &s("proj"),
        &ClientContextType::App { app_dir: s("proj/app") },
        NextMode::Development,
        Some(s("vendor/react-refresh/runtime.js")),
    );
    assert_eq!(
        entries,
        vec![
            RuntimeEntry::Request {
                request: s("vendor/react-refresh/runtime.js"),
                path: s("proj/_"),
            },
            RuntimeEntry::Request {
                request: s("next/dist/client/app-next-turbopack.js"),
                path: s("proj/_"),
            },
        ]
    );
}

#[test]
fn runtime_entries_build_omits_refresh() {
    // Not a development session: no refresh entry regardless of the probe.
    let entries = get_client_runtime_entries(
        &s("proj"),
        &ClientContextType::App { app_dir: s("proj/app") },
        NextMode::Build,
        Some(s("vendor/react-refresh/runtime.js")),
    );
    assert_eq!(
        entries,
        vec![RuntimeEntry::Request {
            request: s("next/dist/client/app-next-turbopack.js"),
            path: s("proj/_"),
        }]
    );
}

#[test]
fn runtime_entries_failed_probe_degrades() {
    let entries = get_client_runtime_entries(
        &s("proj"),
        &ClientContextType::Pages { pages_dir: s("proj/pages") },
        NextMode::Development,
        None,
    );
    assert!(entries.is_empty());
}

#[test]
fn chunking_context_dev() {
    let c = get_client_chunking_context(
        s("proj"),
        s("proj/.next"),
        Some(s("/assets")),
        NextMode::Development,
        ModuleIdStrategy::DeveloperReadable,
    );
    assert_eq!(c.root_path, "proj");
    assert_eq!(c.output_root, "proj/.next");
    assert_eq!(c.chunk_root_path, "proj/.next/static/chunks");
    assert_eq!(c.asset_root_path, "proj/.next/static/media");
    assert_eq!(c.chunk_base_path.as_deref(), Some("/assets"));
    assert_eq!(c.asset_base_path.as_deref(), Some("/assets"));
    assert_eq!(c.minify_type, MinifyType::NoMinify);
    assert_eq!(c.runtime_type, RuntimeType::Development);
    assert!(c.hot_module_replacement);
}

#[test]
fn chunking_context_build() {
    let c = get_client_chunking_context(
        s("proj"),
        s("proj/.next"),
        None,
        NextMode::Build,
        ModuleIdStrategy::StableHash,
    );
    assert_eq!(c.chunk_base_path, None);
    assert_eq!(c.minify_type, MinifyType::Minify);
    assert_eq!(c.runtime_type, RuntimeType::Production);
    assert_eq!(c.module_id_strategy, ModuleIdStrategy::StableHash);
    assert!(!c.hot_module_replacement);
}

#[test]
fn assets_path_under_client_root() {
    assert_eq!(get_client_assets_path(&s("proj/.next")), "proj/.next/static/media");
}

#[test]
fn resolve_options_tree_shape() {
    let cfg = config();
    let node = get_client_resolve_options_context(
        NextMode::Development,
        &cfg,
        Condition::InPath(s("node_modules")),
    );
    assert!(node.own.enable_typescript);
    assert!(node.own.enable_react);
    assert!(node.own.enable_mjs_extension);
    assert_eq!(node.own.custom_extensions, vec![s(".tsx"), s(".ts")]);
    assert_eq!(node.own.custom_conditions, vec![s("development")]);
    assert_eq!(
        node.own.before_resolve_plugins,
        vec![
            Plugin::Observe { name: s("invalid-server-only") },
            Plugin::Observe { name: s("module-feature-report") },
            Plugin::Observe { name: s("next-font-local") },
        ]
    );
    assert_eq!(
        node.own.after_resolve_plugins,
        vec![Plugin::Observe { name: s("next-shared-runtime") }]
    );

    // The foreign branch keeps the plainer base snapshot.
    assert_eq!(node.children.len(), 1);
    let foreign = &node.children[0].1.own;
    assert!(!foreign.enable_typescript);
    assert!(!foreign.enable_react);
    assert!(foreign.custom_extensions.is_empty());
    assert!(foreign.browser && foreign.module && foreign.enable_node_modules);
    assert_eq!(foreign.before_resolve_plugins, node.own.before_resolve_plugins);

    // Resolution picks the branch by path.
    let got = resolve(&node, "node_modules/pkg/index.js");
    assert!(!got.enable_typescript);
    let got = resolve(&node, "src/page.tsx");
    assert!(got.enable_typescript);
}

#[test]
fn module_options_tree_overrides() {
    let cfg = config();
    let next_js_root = s("embedded/next-js");
    let runtime_root = s("embedded/runtime");
    let node_root = s("embedded/node");
    let internal = internal_assets_conditions(&next_js_root, &runtime_root, &node_root);
    let node = get_client_module_options_context(
        NextMode::Development,
        &cfg,
        TypescriptTransformOptions { use_define_for_class_fields: true },
        DecoratorsOptions { emit_decorators_metadata: true, use_define_for_class_fields: true },
        JsxTransformOptions { development: true, react_refresh: true },
        vec![ModuleRule { name: s("next-client") }],
        vec![ModuleRule { name: s("next-client-foreign") }],
        &vec![
            Some(ModuleRule { name: s("relay") }),
            None,
            Some(ModuleRule { name: s("styled-jsx") }),
        ],
        Condition::InPath(s("node_modules")),
        internal,
    );

    // First-party settings: everything wired.
    let own = &node.own;
    assert_eq!(own.ecmascript.enable_typeof_window_inlining, Some(TypeofWindow::Object));
    assert_eq!(
        own.ecmascript.enable_jsx,
        Some(JsxTransformOptions { development: true, react_refresh: true })
    );
    assert!(own.ecmascript.enable_decorators.is_some());
    assert!(own.css.use_swc_css);
    assert_eq!(own.tree_shaking_mode, Some(TreeShakingMode::ReexportsOnly));
    assert!(own.enable_mdx_rs);
    assert_eq!(
        own.module_rules,
        vec![
            ModuleRule { name: s("next-client") },
            ModuleRule { name: s("relay") },
            ModuleRule { name: s("styled-jsx") },
        ]
    );
    let loaders = own.enable_webpack_loaders.as_ref().unwrap();
    assert_eq!(loaders.conditions, vec![s("browser"), s("development")]);
    assert_eq!(
        own.enable_postcss_transform.unwrap().config_location,
        PostCssConfigLocation::ProjectPathOrLocalPath
    );

    assert_eq!(node.children.len(), 2);

    // Foreign branch: user transforms off, loaders under the foreign
    // condition, stylesheet config pinned to the project root.
    let foreign = &node.children[0].1.own;
    assert_eq!(foreign.ecmascript.enable_typeof_window_inlining, None);
    assert_eq!(foreign.ecmascript.enable_jsx, None);
    assert_eq!(foreign.tree_shaking_mode, None);
    assert!(!foreign.enable_mdx_rs);
    assert_eq!(foreign.module_rules, vec![ModuleRule { name: s("next-client-foreign") }]);
    let floaders = foreign.enable_webpack_loaders.as_ref().unwrap();
    assert_eq!(floaders.conditions, vec![s("browser"), s("development"), s("foreign")]);
    assert_eq!(
        foreign.enable_postcss_transform.unwrap().config_location,
        PostCssConfigLocation::ProjectPath
    );

    // Embedded-assets branch: default transforms, no rules, no loaders.
    let internal_own = &node.children[1].1.own;
    assert_eq!(
        internal_own.ecmascript.enable_typescript_transform,
        Some(TypescriptTransformOptions { use_define_for_class_fields: false })
    );
    assert_eq!(
        internal_own.ecmascript.enable_jsx,
        Some(JsxTransformOptions { development: false, react_refresh: false })
    );
    assert_eq!(internal_own.ecmascript.enable_decorators, None);
    assert!(internal_own.enable_webpack_loaders.is_none());
    assert!(internal_own.module_rules.is_empty());

    // A path in an embedded root gets the embedded settings even though the
    // foreign condition is listed first and does not match it here; a
    // vendored path gets the foreign settings.
    let got = resolve(&node, "embedded/runtime/bootstrap.ts");
    assert!(got.enable_webpack_loaders.is_none());
    let got = resolve(&node, "node_modules/pkg/index.js");
    assert_eq!(got.module_rules, vec![ModuleRule { name: s("next-client-foreign") }]);
}
