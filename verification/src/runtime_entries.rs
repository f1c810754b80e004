//! The strictly ordered runtime-entry list consumed by the chunking stage.

use vstd::prelude::*;
use crate::mode::NextMode;
use crate::next_config::ClientContextType;
use crate::paths::{join_path, joined};

verus! {

/// A bootstrap module reference that must be loaded before application
/// code: a module request together with the base path resolution starts
/// from.
#[derive(Debug, PartialEq, Eq)]
pub enum RuntimeEntry {
    Request { request: String, path: String },
}

/// The fixed bootstrap request appended for the application-directory
/// target.
pub open spec fn app_bootstrap_request() -> Seq<char> {
    "next/dist/client/app-next-turbopack.js"@
}

/// Builds the ordered runtime-entry list for a client target.
///
/// `react_refresh` is the outcome of the hot-reload capability probe, an
/// external collaborator that answers whether the refresh support module is
/// resolvable under the target's resolution configuration; the probe is
/// only consulted for a development session. When the refresh entry is
/// present it comes first — later entries contain code that assumes the
/// refresh runtime's global registration function already exists — and a
/// failed probe merely omits it rather than failing the build. The
/// application-directory target then appends one fixed bootstrap entry.
pub fn get_client_runtime_entries(
    project_root: &String,
    ty: &ClientContextType,
    mode: NextMode,
    react_refresh: Option<String>,
) -> (r: Vec<RuntimeEntry>)
    ensures
        r@.len() == (if mode is Development && react_refresh is Some {
            1int
        } else {
            0int
        }) + (if *ty is App {
            1int
        } else {
            0int
        }),
        mode is Development && react_refresh is Some ==> (r@[0] matches RuntimeEntry::Request {
            request,
            path,
        } && react_refresh matches Some(q) && request@ == q@ && path@ == joined(
            project_root@,
            "_"@,
        )),
        *ty is App ==> (r@[r@.len() - 1] matches RuntimeEntry::Request { request, path }
            && request@ == app_bootstrap_request() && path@ == joined(project_root@, "_"@)),
{
    let mut entries: Vec<RuntimeEntry> = Vec::new();
    if mode.is_development() {
        match react_refresh {
            Some(request) => {
                entries.push(RuntimeEntry::Request {
                    request,
                    path: join_path(project_root.as_str(), "_"),
                });
            },
            None => {},
        }
    }
    if matches!(ty, ClientContextType::App { .. }) {
        entries.push(RuntimeEntry::Request {
            request: "next/dist/client/app-next-turbopack.js".to_owned(),
            path: join_path(project_root.as_str(), "_"),
        });
    }
    entries
}

} // verus!
