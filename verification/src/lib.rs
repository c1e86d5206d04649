//! Deployment tooling for an ephemeral multi-node validator test network on a
//! cluster scheduler: genesis-artifact planning, cluster resource construction,
//! and the deployment state machine that sequences bootstrap-first rollout.
use vstd::prelude::*;

pub mod digits;
pub mod genesis;
pub mod kubernetes;
pub mod orchestrator;

verus! {

/// The two deployment roles a validator node can take: the bootstrap node that
/// the rest of the topology depends on, or a standard (indexed) node.
#[derive(Debug, Clone, Copy, PartialEq, Eq, Structural)]
pub enum ValidatorType {
    Bootstrap,
    Standard,
}

/// Global initialization hook. All paths and configuration are passed
/// explicitly through `SetupConfig` and `Genesis::new`, so there is no global
/// state left to set up; the hook is kept as the conventional entry point.
pub fn initialize_globals() {
}

} // verus!
