//! Fluent, single-shot assembly of the immutable chunk-emission
//! configuration.

use vstd::prelude::*;
use crate::mode::{MinifyType, NextMode, RuntimeType};
use crate::paths::{join_path, joined};

verus! {

/// How module identifiers are assigned in emitted chunks.
#[derive(Clone, Copy, PartialEq, Eq, Structural, Debug)]
pub enum ModuleIdStrategy {
    StableHash,
    SequentialNumeric,
    DeveloperReadable,
}

/// The chunk-emission configuration, immutable once built: constructed once
/// per compilation target and rebuilt — never mutated — when any input
/// changes. The builder performs no path existence checks; all filesystem
/// interaction happens downstream in the chunk emitter.
pub struct ChunkingSettings {
    pub root_path: String,
    pub output_root: String,
    pub chunk_root_path: String,
    pub asset_root_path: String,
    pub chunk_base_path: Option<String>,
    pub asset_base_path: Option<String>,
    pub minify_type: MinifyType,
    pub runtime_type: RuntimeType,
    pub module_id_strategy: ModuleIdStrategy,
    pub hot_module_replacement: bool,
}

/// Accumulates chunking settings through independent setter calls; the
/// terminal `build` consumes the builder, so it can be called at most once
/// per instance — a new configuration needs a new builder.
pub struct ChunkingContextBuilder {
    pub root_path: String,
    pub output_root: String,
    pub chunk_root_path: String,
    pub asset_root_path: String,
    pub chunk_base_path: Option<String>,
    pub asset_base_path: Option<String>,
    pub minify_type: MinifyType,
    pub runtime_type: RuntimeType,
    pub module_id_strategy: ModuleIdStrategy,
    pub hot_module_replacement: bool,
}

impl ChunkingContextBuilder {
    /// Starts a builder from the roots and the runtime flavour. Prefixes
    /// default to absent, minification to off, module identifiers to the
    /// developer-readable strategy, and hot reload to off.
    pub fn new(
        root_path: String,
        output_root: String,
        chunk_root_path: String,
        asset_root_path: String,
        runtime_type: RuntimeType,
    ) -> (r: Self)
        ensures
            r.root_path == root_path,
            r.output_root == output_root,
            r.chunk_root_path == chunk_root_path,
            r.asset_root_path == asset_root_path,
            r.chunk_base_path is None,
            r.asset_base_path is None,
            r.minify_type == MinifyType::NoMinify,
            r.runtime_type == runtime_type,
            r.module_id_strategy == ModuleIdStrategy::DeveloperReadable,
            r.hot_module_replacement == false,
    {
        ChunkingContextBuilder {
            root_path,
            output_root,
            chunk_root_path,
            asset_root_path,
            chunk_base_path: None,
            asset_base_path: None,
            minify_type: MinifyType::NoMinify,
            runtime_type,
            module_id_strategy: ModuleIdStrategy::DeveloperReadable,
            hot_module_replacement: false,
        }
    }

    /// Sets the optional prefix put before emitted chunk paths.
    pub fn chunk_base_path(self, p: Option<String>) -> (r: Self)
        ensures
            r == (ChunkingContextBuilder { chunk_base_path: p, ..self }),
    {
        ChunkingContextBuilder { chunk_base_path: p, ..self }
    }

    /// Sets the optional prefix put before emitted asset paths.
    pub fn asset_base_path(self, p: Option<String>) -> (r: Self)
        ensures
            r == (ChunkingContextBuilder { asset_base_path: p, ..self }),
    {
        ChunkingContextBuilder { asset_base_path: p, ..self }
    }

    /// Sets the minification mode.
    pub fn minify_type(self, m: MinifyType) -> (r: Self)
        ensures
            r == (ChunkingContextBuilder { minify_type: m, ..self }),
    {
        ChunkingContextBuilder { minify_type: m, ..self }
    }

    /// Sets the module-identifier assignment strategy.
    pub fn module_id_strategy(self, s: ModuleIdStrategy) -> (r: Self)
        ensures
            r == (ChunkingContextBuilder { module_id_strategy: s, ..self }),
    {
        ChunkingContextBuilder { module_id_strategy: s, ..self }
    }

    /// Enables hot module replacement; called only for a development
    /// session, and never after `build`.
    pub fn hot_module_replacement(self) -> (r: Self)
        ensures
            r == (ChunkingContextBuilder { hot_module_replacement: true, ..self }),
    {
        ChunkingContextBuilder { hot_module_replacement: true, ..self }
    }

    /// Produces the immutable settings value. Consuming `self` makes the
    /// build single-shot.
    pub fn build(self) -> (r: ChunkingSettings)
        ensures
            r.root_path == self.root_path,
            r.output_root == self.output_root,
            r.chunk_root_path == self.chunk_root_path,
            r.asset_root_path == self.asset_root_path,
            r.chunk_base_path == self.chunk_base_path,
            r.asset_base_path == self.asset_base_path,
            r.minify_type == self.minify_type,
            r.runtime_type == self.runtime_type,
            r.module_id_strategy == self.module_id_strategy,
            r.hot_module_replacement == self.hot_module_replacement,
    {
        ChunkingSettings {
            root_path: self.root_path,
            output_root: self.output_root,
            chunk_root_path: self.chunk_root_path,
            asset_root_path: self.asset_root_path,
            chunk_base_path: self.chunk_base_path,
            asset_base_path: self.asset_base_path,
            minify_type: self.minify_type,
            runtime_type: self.runtime_type,
            module_id_strategy: self.module_id_strategy,
            hot_module_replacement: self.hot_module_replacement,
        }
    }
}

/// Clones an optional path prefix.
fn clone_prefix(p: &Option<String>) -> (r: Option<String>)
    ensures
        r == *p,
{
    match p {
        Some(s) => Some(s.clone()),
        None => None,
    }
}

/// Where static media assets are emitted below the client root.
pub fn get_client_assets_path(client_root: &String) -> (r: String)
    ensures
        r@ == joined(client_root@, "static/media"@),
{
    join_path(client_root.as_str(), "static/media")
}

/// Assembles the chunk-emission configuration for a client target: chunks
/// under `static/chunks` and assets under `static/media` below the client
/// root, both prefix paths set to the asset prefix, minification and the
/// runtime flavour taken from the mode, and hot module replacement enabled
/// exactly for a development session.
pub fn get_client_chunking_context(
    project_path: String,
    client_root: String,
    asset_prefix: Option<String>,
    mode: NextMode,
    module_id_strategy: ModuleIdStrategy,
) -> (r: ChunkingSettings)
    ensures
        r.root_path == project_path,
        r.output_root@ == client_root@,
        r.chunk_root_path@ == joined(client_root@, "static/chunks"@),
        r.asset_root_path@ == joined(client_root@, "static/media"@),
        r.chunk_base_path == asset_prefix,
        r.asset_base_path == asset_prefix,
        r.minify_type == (match mode {
            NextMode::Development => MinifyType::NoMinify,
            NextMode::Build => MinifyType::Minify,
        }),
        r.runtime_type == (match mode {
            NextMode::Development => RuntimeType::Development,
            NextMode::Build => RuntimeType::Production,
        }),
        r.module_id_strategy == module_id_strategy,
        r.hot_module_replacement == (mode is Development),
{
    let chunk_root_path = join_path(client_root.as_str(), "static/chunks");
    let asset_root_path = get_client_assets_path(&client_root);
    let output_root = client_root;
    let mut builder = ChunkingContextBuilder::new(
        project_path,
        output_root,
        chunk_root_path,
        asset_root_path,
        mode.runtime_type(),
    ).chunk_base_path(clone_prefix(&asset_prefix)).minify_type(mode.minify_type())
        .asset_base_path(asset_prefix)
        .module_id_strategy(module_id_strategy);

    if mode.is_development() {
        builder = builder.hot_module_replacement();
    }

    builder.build()
}

} // verus!
