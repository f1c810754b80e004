//! The resolution plugin chain: ordered pre- and post-resolution
//! interceptors around the default resolution algorithm.

use vstd::prelude::*;

verus! {

/// A terminal outcome of module resolution: the request resolved to a
/// concrete module reference.
#[derive(Debug, PartialEq, Eq)]
pub struct ResolutionResult {
    pub module_ref: String,
}

impl Clone for ResolutionResult {
    fn clone(&self) -> (r: Self)
        ensures
            r == *self,
    {
        ResolutionResult { module_ref: self.module_ref.clone() }
    }
}

/// An interceptor handle in a plugin chain. Each handle exposes one
/// capability: given a module request, either produce a terminal result or
/// decline. `Intercept` produces its result for one specific request;
/// `Observe` stands for a diagnostic interceptor that declines every
/// request (it may log, but it must not steer the chain).
#[derive(Debug, PartialEq, Eq)]
pub enum Plugin {
    Intercept { request: String, result: ResolutionResult },
    Observe { name: String },
}

/// What a plugin answers for a request: a terminal result, or `None` to
/// decline.
pub open spec fn plugin_decision(pl: Plugin, request: Seq<char>) -> Option<ResolutionResult> {
    match pl {
        Plugin::Intercept { request: rq, result } => if rq@ == request {
            Some(result)
        } else {
            None
        },
        Plugin::Observe { .. } => None,
    }
}

impl Clone for Plugin {
    fn clone(&self) -> (r: Self)
        ensures
            r == *self,
    {
        match self {
            Plugin::Intercept { request, result } => Plugin::Intercept {
                request: request.clone(),
                result: result.clone(),
            },
            Plugin::Observe { name } => Plugin::Observe { name: name.clone() },
        }
    }
}

impl Plugin {
    /// Given a module request, either produce a terminal result or decline.
    pub fn try_resolve(&self, request: &String) -> (r: Option<ResolutionResult>)
        ensures
            r == plugin_decision(*self, request@),
    {
        match self {
            Plugin::Intercept { request: rq, result } => if rq.eq(request) {
                Some(result.clone())
            } else {
                None
            },
            Plugin::Observe { .. } => None,
        }
    }
}

/// The index of the first plugin that answers the request, if any.
pub open spec fn spec_first_terminal(plugins: Seq<Plugin>, request: Seq<char>) -> Option<int>
    decreases plugins.len(),
{
    if plugins.len() == 0 {
        None
    } else if plugin_decision(plugins[0], request) is Some {
        Some(0int)
    } else {
        match spec_first_terminal(plugins.subrange(1, plugins.len() as int), request) {
            Some(i) => Some(i + 1),
            None => None,
        }
    }
}

/// What an ordered plugin list decides for a request: the first non-decline
/// answer, or `None` when every plugin declines.
pub open spec fn spec_chain_decision(plugins: Seq<Plugin>, request: Seq<char>) -> Option<
    ResolutionResult,
> {
    match spec_first_terminal(plugins, request) {
        Some(i) => if 0 <= i < plugins.len() {
            plugin_decision(plugins[i], request)
        } else {
            None
        },
        None => None,
    }
}

/// `spec_first_terminal` returns exactly the earliest answering index.
pub proof fn lemma_first_terminal(plugins: Seq<Plugin>, request: Seq<char>)
    ensures
        match spec_first_terminal(plugins, request) {
            Some(i) => 0 <= i < plugins.len() && plugin_decision(plugins[i], request) is Some
                && forall|j: int| 0 <= j < i ==> plugin_decision(plugins[j], request) is None,
            None => forall|j: int|
                0 <= j < plugins.len() ==> plugin_decision(plugins[j], request) is None,
        },
    decreases plugins.len(),
{
    if plugins.len() > 0 && !(plugin_decision(plugins[0], request) is Some) {
        let rest = plugins.subrange(1, plugins.len() as int);
        lemma_first_terminal(rest, request);
        assert(forall|j: int| 1 <= j < plugins.len() ==> plugins[j] == rest[j - 1]);
    }
}

/// Runs the plugins of one phase in listed order and stops at the first
/// terminal answer. Returns that answer — or `None` when every plugin
/// declined — together with how many plugins were consulted: entries past
/// the first terminal one are never invoked.
#[verifier::loop_isolation(false)]
fn run_plugins(plugins: &Vec<Plugin>, request: &String) -> (r: (
    Option<ResolutionResult>,
    usize,
))
    ensures
        r.0 == spec_chain_decision(plugins@, request@),
        r.1 as int == match spec_first_terminal(plugins@, request@) {
            Some(i) => i + 1,
            None => plugins@.len() as int,
        },
{
    let n = plugins.len();
    let mut i: usize = 0;
    while i < n
        invariant
            i <= n,
            forall|j: int| 0 <= j < i ==> plugin_decision(plugins@[j], request@) is None,
        decreases n - i,
    {
        let d = plugins[i].try_resolve(request);
        if d.is_some() {
            proof {
                lemma_first_terminal(plugins@, request@);
            }
            return (d, i + 1);
        }
        i += 1;
    }
    proof {
        lemma_first_terminal(plugins@, request@);
    }
    (None, n)
}

/// Runs the `before` phase: the first terminal answer short-circuits both
/// the remaining `before` plugins and the default resolution algorithm,
/// which the caller must therefore only invoke when this returns `None`.
pub fn resolve_before(before: &Vec<Plugin>, request: &String) -> (r: (
    Option<ResolutionResult>,
    usize,
))
    ensures
        r.0 == spec_chain_decision(before@, request@),
        r.1 as int == match spec_first_terminal(before@, request@) {
            Some(i) => i + 1,
            None => before@.len() as int,
        },
{
    run_plugins(before, request)
}

/// Runs the `after` phase over the default algorithm's outcome: the first
/// non-decline answer wins; when every `after` plugin declines, the default
/// outcome (or its absence) stands.
pub fn resolve_after(
    after: &Vec<Plugin>,
    request: &String,
    default_outcome: Option<ResolutionResult>,
) -> (r: Option<ResolutionResult>)
    ensures
        r == match spec_chain_decision(after@, request@) {
            Some(x) => Some(x),
            None => default_outcome,
        },
{
    let (d, _) = run_plugins(after, request);
    match d {
        Some(x) => Some(x),
        None => default_outcome,
    }
}

/// Short-circuit law: once the plugin at index `i` is the first to answer,
/// the chain's decision is that answer, and nothing listed after `i` can
/// change it — two chains that agree up to and including `i` decide alike.
pub proof fn lemma_chain_short_circuit(
    b1: Seq<Plugin>,
    b2: Seq<Plugin>,
    request: Seq<char>,
    i: int,
)
    requires
        0 <= i < b1.len(),
        i < b2.len(),
        b1.subrange(0, i + 1) == b2.subrange(0, i + 1),
        plugin_decision(b1[i], request) is Some,
        forall|j: int| 0 <= j < i ==> plugin_decision(b1[j], request) is None,
    ensures
        spec_chain_decision(b1, request) == plugin_decision(b1[i], request),
        spec_chain_decision(b2, request) == plugin_decision(b1[i], request),
{
    assert(forall|j: int|
        0 <= j <= i ==> b1.subrange(0, i + 1)[j] == b1[j] && b2.subrange(0, i + 1)[j] == b2[j]);
    assert(forall|j: int| 0 <= j <= i ==> b1[j] == b2[j]);
    lemma_first_terminal(b1, request);
    lemma_first_terminal(b2, request);
    match spec_first_terminal(b1, request) {
        Some(k) => {
            if k < i {
                assert(plugin_decision(b1[k], request) is None);
            }
            if k > i {
                assert(plugin_decision(b1[i], request) is None);
            }
            assert(k == i);
        },
        None => {
            assert(plugin_decision(b1[i], request) is None);
        },
    }
    match spec_first_terminal(b2, request) {
        Some(k) => {
            if k < i {
                assert(plugin_decision(b2[k], request) is None);
            }
            if k > i {
                assert(plugin_decision(b2[i], request) is None);
            }
            assert(k == i);
        },
        None => {
            assert(plugin_decision(b2[i], request) is None);
        },
    }
}

} // verus!
