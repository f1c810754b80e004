//! Condition-driven configuration cascade for a bundler's client compilation.
//!
//! A small number of named configuration layers, each guarded by a path
//! predicate, override a base configuration for the files that match. On top
//! of the same configuration objects sit two ordering-sensitive subsystems:
//! an interceptor-style module-resolution plugin chain and a strictly ordered
//! runtime-entry list, plus a compile-time define table built from the
//! environment.

pub mod cascade;
pub mod chunking;
pub mod compile_time_info;
pub mod condition;
pub mod defines;
pub mod mode;
pub mod module_options;
pub mod next_config;
pub mod paths;
pub mod plugin;
pub mod resolve_options;
pub mod runtime_entries;
pub mod util;
