//! The slice of the project configuration that the cascade construction
//! reads, and the compilation target kinds.

use vstd::prelude::*;

verus! {

/// Which compilation target a client configuration tree is built for.
pub enum ClientContextType {
    Pages { pages_dir: String },
    App { app_dir: String },
    Fallback,
    Other,
}

/// How much dead-code elimination a configuration branch asks for.
#[derive(Clone, Copy, PartialEq, Eq, Structural, Debug)]
pub enum TreeShakingMode {
    ModuleFragments,
    ReexportsOnly,
}

/// The project-configuration inputs that the configuration trees are built
/// from, already evaluated to plain values for the session's mode.
pub struct NextConfig {
    /// Extra extensions tried by module resolution, in listed order.
    pub resolve_extension: Vec<String>,
    /// Whether markdown modules go through the rich transform.
    pub mdx_rs: bool,
    /// Tree-shaking asked for first-party code.
    pub tree_shaking_mode_for_user_code: Option<TreeShakingMode>,
    /// Tree-shaking asked for foreign (vendored) code.
    pub tree_shaking_mode_for_foreign_code: Option<TreeShakingMode>,
    /// Whether stylesheets are processed by the native CSS pipeline.
    pub use_swc_css: bool,
    /// Packages declared side-effect free, eligible for import optimization.
    pub optimize_package_imports: Vec<String>,
    /// Whether the configuration declares custom webpack-style loader rules.
    pub has_webpack_rules: bool,
}

} // verus!
