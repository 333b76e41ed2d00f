//! The error taxonomy of the render core.
//!
//! An unready resource is recovered from by skipping the current pass for
//! the current frame; an asset-load failure is surfaced once to the asset
//! system; a host-contract violation is fatal at plugin initialization.

use vstd::prelude::*;

verus! {

/// A buffer, bind group or pipeline is not yet built or resident; the
/// current pass is skipped for this frame and retried next frame.
#[derive(Clone, Copy, Debug, PartialEq, Eq, Structural)]
pub struct NotReady;

/// A mesh asset could not be loaded: the stream did not parse, or it held
/// no usable geometry.  There is no partial-success mode.
#[derive(Clone, Copy, Debug, PartialEq, Eq, Structural)]
pub enum MeshLoadError {
    /// The single load-failure result.
    Failed,
}

/// The host did not match the contract assumed at plugin initialization;
/// startup must abort rather than continue with an inconsistent graph.
#[derive(Clone, Copy, Debug, PartialEq, Eq, Structural)]
pub enum HostContractError {
    /// The host's default driver node was expected but absent.
    MissingDefaultDriver,
}

impl MeshLoadError {
    /// A human-readable description of the failure.
    pub fn describe(&self) -> (s: String)
        ensures
            s@ =~= "could not load asset"@,
    {
        "could not load asset".to_string()
    }
}

} // verus!
