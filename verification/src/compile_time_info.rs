//! Assembly of the compile-time environment descriptor for a client
//! target: the browser execution environment together with the define
//! table and the free-variable references built from the environment
//! mapping.

use vstd::prelude::*;
use crate::defines::{
    defines, env_pairs, free_vars_ok, next_client_free_vars, spec_defines, DefineTable,
    FreeVarReference,
};

verus! {

/// The browser the produced code runs in.
pub struct BrowserEnvironment {
    pub dom: bool,
    pub web_worker: bool,
    pub service_worker: bool,
    /// The browser-support query that picks the transform targets.
    pub browserslist_query: String,
}

/// Where the produced code executes.
pub enum ExecutionEnvironment {
    Browser(BrowserEnvironment),
}

/// The execution environment descriptor.
pub struct Environment {
    pub execution: ExecutionEnvironment,
}

/// The compile-time information handed to the transform stage: the
/// environment, the define table and the free-variable substitutions.
pub struct CompileTimeInfo {
    pub environment: Environment,
    pub defines: DefineTable,
    pub free_var_references: Vec<(Vec<String>, FreeVarReference)>,
}

/// Builds the compile-time information for a client target: a DOM browser
/// environment (not a web worker, not a service worker) for the given
/// browser-support query, the define table built from the environment
/// mapping, and the free-variable references derived from it.
pub fn get_client_compile_time_info(
    browserslist_query: String,
    define_env: &Vec<(String, String)>,
) -> (r: CompileTimeInfo)
    ensures
        r.environment.execution matches ExecutionEnvironment::Browser(b) && b.dom
            && !b.web_worker && !b.service_worker && b.browserslist_query@
            == browserslist_query@,
        r.defines@ == spec_defines(env_pairs(define_env@)),
        free_vars_ok(r.free_var_references@, env_pairs(define_env@)),
{
    CompileTimeInfo {
        environment: Environment {
            execution: ExecutionEnvironment::Browser(
                BrowserEnvironment {
                    dom: true,
                    web_worker: false,
                    service_worker: false,
                    browserslist_query,
                },
            ),
        },
        defines: defines(define_env),
        free_var_references: next_client_free_vars(define_env),
    }
}

} // verus!
