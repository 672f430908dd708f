//! The implicit imports that compatibility mode contributes to a module
//! graph.

use vstd::prelude::*;
use vstd::string::StringExecFns;
use crate::config::CompatConfig;
use crate::config::global_url_spec;

verus! {

/// The synthetic specifier under which the implicit compat imports are
/// grouped in the module graph.
pub open spec fn compat_import_specifier_spec() -> Seq<char> {
    "flags:compat"@
}

/// What a result of `get_node_imports` holds for a given configuration:
/// exactly one entry, the synthetic compat specifier paired with the
/// single global bootstrap location.
pub open spec fn is_node_imports_result(
    config: CompatConfig,
    r: Seq<(String, Vec<String>)>,
) -> bool {
    &&& r.len() == 1
    &&& r[0].0@ == compat_import_specifier_spec()
    &&& r[0].1@.len() == 1
    &&& r[0].1@[0]@ == global_url_spec(config@)
}

/// Provides the imports a module graph needs when compatibility mode is
/// active: one synthetic entry that pulls in the global bootstrap shim.
/// Whether compatibility mode is active at all is entirely the caller's
/// decision; this component holds no on/off state.
pub fn get_node_imports(config: &CompatConfig) -> (r: Vec<(String, Vec<String>)>)
    ensures
        is_node_imports_result(*config, r@),
{
    let specifier = String::from_str("flags:compat");
    let mut locations: Vec<String> = Vec::new();
    locations.push(config.global_url());
    let mut entries: Vec<(String, Vec<String>)> = Vec::new();
    entries.push((specifier, locations));
    entries
}

/// Repeated calls are structurally identical: any two results for the same
/// configuration agree in their single entry — same specifier, same
/// one-element location list.
pub proof fn lemma_node_imports_deterministic(
    config: CompatConfig,
    a: Seq<(String, Vec<String>)>,
    b: Seq<(String, Vec<String>)>,
)
    requires
        is_node_imports_result(config, a),
        is_node_imports_result(config, b),
    ensures
        a.len() == b.len(),
        a[0].0@ == b[0].0@,
        a[0].1@.len() == b[0].1@.len(),
        a[0].1@[0]@ == b[0].1@[0]@,
{
}

} // verus!
