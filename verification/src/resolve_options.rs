//! Construction of the resolution configuration tree for a client target.

use vstd::prelude::*;
use crate::cascade::ConfigNode;
use crate::condition::Condition;
use crate::mode::NextMode;
use crate::next_config::NextConfig;
use crate::plugin::Plugin;
use crate::util::clone_strings;

verus! {

/// The base options record of a resolution configuration node.
pub struct ResolveSettings {
    /// Whether `node_modules` directories take part in resolution.
    pub enable_node_modules: bool,
    /// Extra resolution condition names, tried in listed order.
    pub custom_conditions: Vec<String>,
    /// Whether the target's import map is wired in.
    pub has_import_map: bool,
    /// Whether the target's fallback import map is wired in.
    pub has_fallback_import_map: bool,
    /// Whether the target's resolved map is wired in.
    pub has_resolved_map: bool,
    /// Browser-style resolution.
    pub browser: bool,
    /// ES-module-style resolution.
    pub module: bool,
    pub enable_typescript: bool,
    pub enable_react: bool,
    pub enable_mjs_extension: bool,
    /// Extra extensions tried by resolution, in listed order.
    pub custom_extensions: Vec<String>,
    /// Interceptors run before the default resolution algorithm.
    pub before_resolve_plugins: Vec<Plugin>,
    /// Interceptors run after the default resolution algorithm.
    pub after_resolve_plugins: Vec<Plugin>,
}

/// Clones a plugin list, keeping every element's value.
fn clone_plugins(v: &Vec<Plugin>) -> (r: Vec<Plugin>)
    ensures
        r@ == v@,
{
    let mut r: Vec<Plugin> = Vec::new();
    let n = v.len();
    let mut i: usize = 0;
    while i < n
        invariant
            n == v@.len(),
            i <= n,
            r@ == v@.take(i as int),
        decreases n - i,
    {
        r.push(v[i].clone());
        proof {
            assert(r@ =~= v@.take(i + 1));
        }
        i += 1;
    }
    proof {
        assert(v@.take(n as int) =~= v@);
    }
    r
}

/// The shared snapshot both levels of the client resolution tree start
/// from: browser-style ES-module resolution over `node_modules`, with the
/// target's maps wired in, the mode's condition name, and the interceptor
/// lists in their load-bearing order.
pub open spec fn client_resolve_base(s: ResolveSettings, mode: NextMode) -> bool {
    &&& s.enable_node_modules
    &&& s.custom_conditions@.len() == 1
    &&& s.custom_conditions@[0]@ == mode.condition_spec()
    &&& s.has_import_map
    &&& s.has_fallback_import_map
    &&& s.has_resolved_map
    &&& s.browser
    &&& s.module
    &&& !s.enable_typescript
    &&& !s.enable_react
    &&& !s.enable_mjs_extension
    &&& s.custom_extensions@.len() == 0
    &&& s.before_resolve_plugins@.len() == 3
    &&& (s.before_resolve_plugins@[0] matches Plugin::Observe { name } && name@
        == "invalid-server-only"@)
    &&& (s.before_resolve_plugins@[1] matches Plugin::Observe { name } && name@
        == "module-feature-report"@)
    &&& (s.before_resolve_plugins@[2] matches Plugin::Observe { name } && name@
        == "next-font-local"@)
    &&& s.after_resolve_plugins@.len() == 1
    &&& (s.after_resolve_plugins@[0] matches Plugin::Observe { name } && name@
        == "next-shared-runtime"@)
}

/// What the top level of the tree overrides on the shared snapshot — the
/// TypeScript/React/`.mjs` switches and the configured extra extensions —
/// every other field inherited unchanged.
pub open spec fn client_resolve_own(
    s: ResolveSettings,
    base: ResolveSettings,
    cfg: NextConfig,
) -> bool {
    &&& s.enable_typescript
    &&& s.enable_react
    &&& s.enable_mjs_extension
    &&& s.custom_extensions@ == cfg.resolve_extension@
    &&& s.enable_node_modules == base.enable_node_modules
    &&& s.custom_conditions@ == base.custom_conditions@
    &&& s.has_import_map == base.has_import_map
    &&& s.has_fallback_import_map == base.has_fallback_import_map
    &&& s.has_resolved_map == base.has_resolved_map
    &&& s.browser == base.browser
    &&& s.module == base.module
    &&& s.before_resolve_plugins@ == base.before_resolve_plugins@
    &&& s.after_resolve_plugins@ == base.after_resolve_plugins@
}

/// Builds the resolution configuration tree for a client target: a
/// two-level cascade whose top level carries the fully enabled settings and
/// whose single child, guarded by the foreign-code condition, keeps the
/// plainer shared snapshot for vendored code. The child's record was copied
/// from the snapshot when the tree was built; nothing is merged at lookup
/// time.
pub fn get_client_resolve_options_context(
    mode: NextMode,
    next_config: &NextConfig,
    foreign_code_condition: Condition,
) -> (r: ConfigNode<ResolveSettings>)
    ensures
        r.children@.len() == 1,
        r.children@[0].0 == foreign_code_condition,
        r.children@[0].1.children@.len() == 0,
        client_resolve_base(r.children@[0].1.own, mode),
        client_resolve_own(r.own, r.children@[0].1.own, *next_config),
{
    let custom_conditions = vec![mode.condition()];
    let before_resolve_plugins = vec![
        Plugin::Observe { name: "invalid-server-only".to_owned() },
        Plugin::Observe { name: "module-feature-report".to_owned() },
        Plugin::Observe { name: "next-font-local".to_owned() },
    ];
    let after_resolve_plugins = vec![Plugin::Observe { name: "next-shared-runtime".to_owned() }];
    let base = ResolveSettings {
        enable_node_modules: true,
        custom_conditions,
        has_import_map: true,
        has_fallback_import_map: true,
        has_resolved_map: true,
        browser: true,
        module: true,
        enable_typescript: false,
        enable_react: false,
        enable_mjs_extension: false,
        custom_extensions: Vec::new(),
        before_resolve_plugins,
        after_resolve_plugins,
    };
    let own = ResolveSettings {
        enable_typescript: true,
        enable_react: true,
        enable_mjs_extension: true,
        custom_extensions: clone_strings(&next_config.resolve_extension),
        enable_node_modules: base.enable_node_modules,
        custom_conditions: clone_strings(&base.custom_conditions),
        has_import_map: base.has_import_map,
        has_fallback_import_map: base.has_fallback_import_map,
        has_resolved_map: base.has_resolved_map,
        browser: base.browser,
        module: base.module,
        before_resolve_plugins: clone_plugins(&base.before_resolve_plugins),
        after_resolve_plugins: clone_plugins(&base.after_resolve_plugins),
    };
    ConfigNode {
        own,
        children: vec![(foreign_code_condition, ConfigNode { own: base, children: Vec::new() })],
    }
}

} // verus!
