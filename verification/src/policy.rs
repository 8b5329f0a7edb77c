//! What the server's mode and configuration decide.

use vstd::prelude::*;

verus! {

/// The part of the server's mode and configuration that requests depend on.
#[derive(Clone, Copy)]
pub struct ServerPolicy {
    /// The server faces the network, rather than serving the local user.
    pub server_mode: bool,
    /// At least one directory is configured under which scans are allowed.
    pub has_scan_roots: bool,
    /// Scans are to break submodules down, which takes having them.
    pub submodule_breakdown: bool,
    /// A list of allowed git hosts is configured.
    pub host_allowlist: bool,
}

/// Are the submodules of a scanned ref fetched? Fetching follows URLs recorded
/// in the repository, so a server that faces the network does it only with a
/// list of allowed hosts.
pub open spec fn populates_submodules(policy: ServerPolicy) -> bool {
    policy.submodule_breakdown && (policy.server_mode ==> policy.host_allowlist)
}

/// Whether ref scans should recursively populate submodules.
pub fn should_populate_submodules(policy: &ServerPolicy) -> (yes: bool)
    ensures
        yes == populates_submodules(*policy),
{
    policy.submodule_breakdown && (!policy.server_mode || policy.host_allowlist)
}

/// For the local user it is the breakdown alone that decides whether submodules
/// are fetched; on a server that faces the network it takes a list of allowed
/// hosts as well. The directories for scans have no part in it.
pub proof fn law_submodule_policy(policy: ServerPolicy)
    ensures
        !policy.server_mode ==> populates_submodules(policy) == policy.submodule_breakdown,
        policy.server_mode && policy.host_allowlist ==> populates_submodules(policy)
            == policy.submodule_breakdown,
        policy.server_mode && !policy.host_allowlist ==> !populates_submodules(policy),
        populates_submodules(
            ServerPolicy { has_scan_roots: !policy.has_scan_roots, ..policy },
        ) == populates_submodules(policy),
{
}

} // verus!
