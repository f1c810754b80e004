//! Construction of the transform/module configuration tree for a client
//! target: a base record for first-party code with condition-guarded
//! branches for foreign (vendored) code and for the bundler's embedded
//! runtime assets.

use vstd::prelude::*;
use crate::cascade::ConfigNode;
use crate::condition::Condition;
use crate::mode::NextMode;
use crate::next_config::{NextConfig, TreeShakingMode};
use crate::util::clone_strings;

verus! {

/// How `typeof window` is inlined in emitted code.
#[derive(Clone, Copy, PartialEq, Eq, Structural, Debug)]
pub enum TypeofWindow {
    Object,
    Undefined,
}

/// Options of the TypeScript transform; obtained from the project's
/// TypeScript configuration by an external collaborator.
#[derive(Clone, Copy, PartialEq, Eq, Structural, Debug)]
pub struct TypescriptTransformOptions {
    pub use_define_for_class_fields: bool,
}

impl TypescriptTransformOptions {
    /// The options used for embedded runtime assets, which ignore the
    /// project's TypeScript configuration.
    pub open spec fn spec_default() -> Self {
        TypescriptTransformOptions { use_define_for_class_fields: false }
    }
}

impl Default for TypescriptTransformOptions {
    fn default() -> (r: Self)
        ensures
            r == Self::spec_default(),
    {
        TypescriptTransformOptions { use_define_for_class_fields: false }
    }
}

/// Options of the JSX transform; derived from mode and configuration by an
/// external collaborator.
#[derive(Clone, Copy, PartialEq, Eq, Structural, Debug)]
pub struct JsxTransformOptions {
    pub development: bool,
    pub react_refresh: bool,
}

impl JsxTransformOptions {
    /// The options used for embedded runtime assets.
    pub open spec fn spec_default() -> Self {
        JsxTransformOptions { development: false, react_refresh: false }
    }
}

impl Default for JsxTransformOptions {
    fn default() -> (r: Self)
        ensures
            r == Self::spec_default(),
    {
        JsxTransformOptions { development: false, react_refresh: false }
    }
}

/// Options of the decorator lowering; derived from the project's TypeScript
/// configuration by an external collaborator.
#[derive(Clone, Copy, PartialEq, Eq, Structural, Debug)]
pub struct DecoratorsOptions {
    pub emit_decorators_metadata: bool,
    pub use_define_for_class_fields: bool,
}

/// The script-transform slice of a module configuration record.
#[derive(Clone, Copy, PartialEq, Eq, Structural, Debug)]
pub struct EcmascriptSettings {
    pub enable_typeof_window_inlining: Option<TypeofWindow>,
    pub enable_jsx: Option<JsxTransformOptions>,
    pub enable_typescript_transform: Option<TypescriptTransformOptions>,
    pub enable_decorators: Option<DecoratorsOptions>,
}

/// The stylesheet slice of a module configuration record.
#[derive(Clone, Copy, PartialEq, Eq, Structural, Debug)]
pub struct CssSettings {
    pub use_swc_css: bool,
}

/// Webpack-style loader rules enabled for a branch, with the condition
/// names they are resolved under.
pub struct WebpackLoaders {
    pub conditions: Vec<String>,
}

/// Where the stylesheet pipeline looks for its configuration file.
#[derive(Clone, Copy, PartialEq, Eq, Structural, Debug)]
pub enum PostCssConfigLocation {
    /// Only the project root's configuration: used for foreign code, which
    /// must not pick up configuration relative to the compiled file.
    ProjectPath,
    /// The project root's configuration or one local to the compiled file.
    ProjectPathOrLocalPath,
}

/// Options of the stylesheet post-processor.
#[derive(Clone, Copy, PartialEq, Eq, Structural, Debug)]
pub struct PostCssTransformOptions {
    pub has_postcss_package: bool,
    pub config_location: PostCssConfigLocation,
}

/// An opaque source-transform rule handle, identified by name; the
/// transforms themselves are external collaborators.
#[derive(Debug, PartialEq, Eq)]
pub struct ModuleRule {
    pub name: String,
}

impl Clone for ModuleRule {
    fn clone(&self) -> (r: Self)
        ensures
            r == *self,
    {
        ModuleRule { name: self.name.clone() }
    }
}

/// The base options record of a transform/module configuration node.
pub struct ModuleSettings {
    pub ecmascript: EcmascriptSettings,
    pub css: CssSettings,
    /// Whether the target browsers' versions steer the transforms.
    pub has_preset_env_versions: bool,
    /// Whether an execution context for config-file evaluation is wired in.
    pub has_execution_context: bool,
    pub tree_shaking_mode: Option<TreeShakingMode>,
    pub enable_webpack_loaders: Option<WebpackLoaders>,
    pub enable_postcss_transform: Option<PostCssTransformOptions>,
    pub enable_mdx_rs: bool,
    /// Source-transform rules applied in the branch, in listed order.
    pub module_rules: Vec<ModuleRule>,
    pub side_effect_free_packages: Vec<String>,
}

/// The union of the embedded runtime asset roots — the bundler's own
/// bootstrap files and the embedded runtimes — which get default transform
/// settings rather than the user's.
pub fn internal_assets_conditions(
    next_js_root: &String,
    runtime_root: &String,
    node_embed_root: &String,
) -> (r: Condition)
    ensures
        r matches Condition::Any(cs) && cs@.len() == 3 && (cs@[0] matches Condition::InPath(a)
            && a@ == next_js_root@) && (cs@[1] matches Condition::InPath(b) && b@ == runtime_root@)
            && (cs@[2] matches Condition::InPath(c) && c@ == node_embed_root@),
{
    Condition::Any(
        vec![
            Condition::InPath(next_js_root.clone()),
            Condition::InPath(runtime_root.clone()),
            Condition::InPath(node_embed_root.clone()),
        ],
    )
}

/// The condition names webpack-style loaders are resolved under: the
/// browser condition, the mode's condition, and — for the foreign-code
/// branch — the foreign condition.
pub fn webpack_loader_conditions(mode: NextMode, foreign: bool) -> (r: Vec<String>)
    ensures
        r@.len() == (if foreign {
            3int
        } else {
            2int
        }),
        r@[0]@ == "browser"@,
        r@[1]@ == mode.condition_spec(),
        foreign ==> r@[2]@ == "foreign"@,
{
    let mut r = vec!["browser".to_owned(), mode.condition()];
    if foreign {
        r.push("foreign".to_owned());
    }
    r
}

/// `Some` rules flattened out of a list of optional rules, keeping order.
pub open spec fn flattened(rules: Seq<Option<ModuleRule>>) -> Seq<ModuleRule>
    decreases rules.len(),
{
    if rules.len() == 0 {
        Seq::empty()
    } else {
        let rest = flattened(rules.drop_last());
        match rules.last() {
            Some(x) => rest.push(x),
            None => rest,
        }
    }
}

/// The loader switch a branch carries: present exactly when the
/// configuration declares loader rules, with the branch's condition names.
pub open spec fn webpack_ok(
    w: Option<WebpackLoaders>,
    cfg: NextConfig,
    mode: NextMode,
    foreign: bool,
) -> bool {
    match w {
        Some(wl) => cfg.has_webpack_rules && wl.conditions@.len() == (if foreign {
            3int
        } else {
            2int
        }) && wl.conditions@[0]@ == "browser"@ && wl.conditions@[1]@ == mode.condition_spec() && (
        foreign ==> wl.conditions@[2]@ == "foreign"@),
        None => !cfg.has_webpack_rules,
    }
}

/// The first-party record: every transform wired — JSX, TypeScript,
/// decorators, `typeof window` inlining, the stylesheet pipeline with local
/// configuration — plus the user-code tree-shaking mode and the full rule
/// list.
pub open spec fn client_module_own(
    s: ModuleSettings,
    cfg: NextConfig,
    mode: NextMode,
    tsconfig: TypescriptTransformOptions,
    decorators: DecoratorsOptions,
    jsx: JsxTransformOptions,
    rules: Seq<ModuleRule>,
) -> bool {
    &&& s.ecmascript.enable_typeof_window_inlining == Some(TypeofWindow::Object)
    &&& s.ecmascript.enable_jsx == Some(jsx)
    &&& s.ecmascript.enable_typescript_transform == Some(tsconfig)
    &&& s.ecmascript.enable_decorators == Some(decorators)
    &&& s.css.use_swc_css == cfg.use_swc_css
    &&& s.has_preset_env_versions
    &&& s.has_execution_context
    &&& s.tree_shaking_mode == cfg.tree_shaking_mode_for_user_code
    &&& webpack_ok(s.enable_webpack_loaders, cfg, mode, false)
    &&& (s.enable_postcss_transform matches Some(p) && p.has_postcss_package
        && p.config_location is ProjectPathOrLocalPath)
    &&& s.enable_mdx_rs == cfg.mdx_rs
    &&& s.module_rules@ == rules
    &&& s.side_effect_free_packages@ == cfg.optimize_package_imports@
}

/// The foreign-code record, derived from the shared snapshot: user
/// transforms off, loader rules resolved under the foreign condition, the
/// stylesheet configuration pinned to the project root, the foreign
/// tree-shaking mode, and the foreign rule list; the remaining fields
/// inherited unchanged.
pub open spec fn client_module_foreign(
    f: ModuleSettings,
    own: ModuleSettings,
    cfg: NextConfig,
    mode: NextMode,
    rules: Seq<ModuleRule>,
) -> bool {
    &&& f.ecmascript.enable_typeof_window_inlining is None
    &&& f.ecmascript.enable_jsx is None
    &&& f.ecmascript.enable_typescript_transform is None
    &&& f.ecmascript.enable_decorators is None
    &&& !f.css.use_swc_css
    &&& f.has_preset_env_versions == own.has_preset_env_versions
    &&& f.has_execution_context == own.has_execution_context
    &&& f.tree_shaking_mode == cfg.tree_shaking_mode_for_foreign_code
    &&& webpack_ok(f.enable_webpack_loaders, cfg, mode, true)
    &&& (f.enable_postcss_transform matches Some(p) && p.has_postcss_package
        && p.config_location is ProjectPath)
    &&& !f.enable_mdx_rs
    &&& f.module_rules@ == rules
    &&& f.side_effect_free_packages@ == cfg.optimize_package_imports@
}

/// The embedded-assets record, derived from the shared snapshot: default
/// TypeScript and JSX options instead of the user's, no decorators, no
/// loader rules and no extra module rules; the remaining fields inherited
/// unchanged.
pub open spec fn client_module_internal(
    n: ModuleSettings,
    own: ModuleSettings,
    cfg: NextConfig,
) -> bool {
    &&& n.ecmascript.enable_typeof_window_inlining == Some(TypeofWindow::Object)
    &&& n.ecmascript.enable_jsx == Some(JsxTransformOptions::spec_default())
    &&& n.ecmascript.enable_typescript_transform == Some(
        TypescriptTransformOptions::spec_default(),
    )
    &&& n.ecmascript.enable_decorators is None
    &&& !n.css.use_swc_css
    &&& n.has_preset_env_versions == own.has_preset_env_versions
    &&& n.has_execution_context == own.has_execution_context
    &&& n.tree_shaking_mode == cfg.tree_shaking_mode_for_user_code
    &&& n.enable_webpack_loaders is None
    &&& (n.enable_postcss_transform matches Some(p) && p.has_postcss_package
        && p.config_location is ProjectPathOrLocalPath)
    &&& !n.enable_mdx_rs
    &&& n.module_rules@.len() == 0
    &&& n.side_effect_free_packages@ == cfg.optimize_package_imports@
}

/// Builds the transform/module configuration tree for a client target.
///
/// A shared base snapshot is derived once; the first-party record, the
/// foreign-code record and the embedded-assets record are each copied from
/// it with their own overrides — construction-time inheritance, no lookup
/// merging. Children are listed foreign first, embedded assets second: the
/// embedded roots usually lie inside a vendored directory, so the deeper
/// override for them hangs under the next tree built for those roots, while
/// at this level the listed order is the tie-break.
///
/// `tsconfig`, `decorators` and `jsx` are the transform options computed by
/// external collaborators from the project's configuration; the rule lists
/// are the pre-assembled transform rules for first-party and foreign code,
/// and `additional_rules` the optional per-feature rules, kept in listed
/// order and flattened into the first-party list.
#[verifier::loop_isolation(false)]
pub fn get_client_module_options_context(
    mode: NextMode,
    next_config: &NextConfig,
    tsconfig: TypescriptTransformOptions,
    decorators: DecoratorsOptions,
    jsx: JsxTransformOptions,
    next_client_rules: Vec<ModuleRule>,
    foreign_next_client_rules: Vec<ModuleRule>,
    additional_rules: &Vec<Option<ModuleRule>>,
    foreign_code_condition: Condition,
    internal_assets_condition: Condition,
) -> (r: ConfigNode<ModuleSettings>)
    ensures
        r.children@.len() == 2,
        r.children@[0].0 == foreign_code_condition,
        r.children@[1].0 == internal_assets_condition,
        r.children@[0].1.children@.len() == 0,
        r.children@[1].1.children@.len() == 0,
        client_module_own(
            r.own,
            *next_config,
            mode,
            tsconfig,
            decorators,
            jsx,
            next_client_rules@ + flattened(additional_rules@),
        ),
        client_module_foreign(
            r.children@[0].1.own,
            r.own,
            *next_config,
            mode,
            foreign_next_client_rules@,
        ),
        client_module_internal(r.children@[1].1.own, r.own, *next_config),
{
    let mut user_rules = next_client_rules;
    let n = additional_rules.len();
    let mut i: usize = 0;
    proof {
        assert(flattened(additional_rules@.take(0)) =~= Seq::<ModuleRule>::empty());
        assert(user_rules@ =~= user_rules@ + flattened(additional_rules@.take(0)));
    }
    while i < n
        invariant
            i <= n,
            user_rules@ == next_client_rules@ + flattened(additional_rules@.take(i as int)),
        decreases n - i,
    {
        proof {
            assert(additional_rules@.take(i + 1).drop_last() =~= additional_rules@.take(i as int));
            assert(additional_rules@.take(i + 1).last() == additional_rules@[i as int]);
        }
        match &additional_rules[i] {
            Some(x) => {
                user_rules.push(x.clone());
            },
            None => {},
        }
        i += 1;
    }
    proof {
        assert(additional_rules@.take(n as int) =~= additional_rules@);
    }

    let enable_webpack_loaders = if next_config.has_webpack_rules {
        Some(WebpackLoaders { conditions: webpack_loader_conditions(mode, false) })
    } else {
        None
    };
    let foreign_webpack_loaders = if next_config.has_webpack_rules {
        Some(WebpackLoaders { conditions: webpack_loader_conditions(mode, true) })
    } else {
        None
    };

    let base_ecmascript = EcmascriptSettings {
        enable_typeof_window_inlining: Some(TypeofWindow::Object),
        enable_jsx: None,
        enable_typescript_transform: None,
        enable_decorators: None,
    };
    let base_css = CssSettings { use_swc_css: false };

    let foreign = ModuleSettings {
        ecmascript: EcmascriptSettings {
            enable_typeof_window_inlining: None,
            ..base_ecmascript
        },
        css: base_css,
        has_preset_env_versions: true,
        has_execution_context: true,
        tree_shaking_mode: next_config.tree_shaking_mode_for_foreign_code,
        enable_webpack_loaders: foreign_webpack_loaders,
        enable_postcss_transform: Some(
            PostCssTransformOptions {
                has_postcss_package: true,
                config_location: PostCssConfigLocation::ProjectPath,
            },
        ),
        enable_mdx_rs: false,
        module_rules: foreign_next_client_rules,
        side_effect_free_packages: clone_strings(&next_config.optimize_package_imports),
    };

    let internal = ModuleSettings {
        ecmascript: EcmascriptSettings {
            enable_typescript_transform: Some(TypescriptTransformOptions::default()),
            enable_jsx: Some(JsxTransformOptions::default()),
            ..base_ecmascript
        },
        css: base_css,
        has_preset_env_versions: true,
        has_execution_context: true,
        tree_shaking_mode: next_config.tree_shaking_mode_for_user_code,
        enable_webpack_loaders: None,
        enable_postcss_transform: Some(
            PostCssTransformOptions {
                has_postcss_package: true,
                config_location: PostCssConfigLocation::ProjectPathOrLocalPath,
            },
        ),
        enable_mdx_rs: false,
        module_rules: Vec::new(),
        side_effect_free_packages: clone_strings(&next_config.optimize_package_imports),
    };

    let own = ModuleSettings {
        ecmascript: EcmascriptSettings {
            enable_jsx: Some(jsx),
            enable_typescript_transform: Some(tsconfig),
            enable_decorators: Some(decorators),
            ..base_ecmascript
        },
        css: CssSettings { use_swc_css: next_config.use_swc_css },
        has_preset_env_versions: true,
        has_execution_context: true,
        tree_shaking_mode: next_config.tree_shaking_mode_for_user_code,
        enable_webpack_loaders,
        enable_postcss_transform: Some(
            PostCssTransformOptions {
                has_postcss_package: true,
                config_location: PostCssConfigLocation::ProjectPathOrLocalPath,
            },
        ),
        enable_mdx_rs: next_config.mdx_rs,
        module_rules: user_rules,
        side_effect_free_packages: clone_strings(&next_config.optimize_package_imports),
    };

    ConfigNode {
        own,
        children: vec![
            (foreign_code_condition, ConfigNode { own: foreign, children: Vec::new() }),
            (internal_assets_condition, ConfigNode { own: internal, children: Vec::new() }),
        ],
    }
}

} // verus!
