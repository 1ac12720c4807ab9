//! The fixed facts about the sidecar spawn request and about the diagnostic
//! messages that accompany a fatal termination.

use vstd::prelude::*;
use crate::sequencer::Diagnostic;

verus! {

/// The fixed relative identifier under which the bundled sidecar executable
/// is resolved inside the application package.
pub fn sidecar_program() -> (r: &'static str)
    ensures
        r@ == "binaries/corsproxy"@,
{
    "binaries/corsproxy"
}

/// The command-line arguments the sidecar is started with: none.
pub fn sidecar_args() -> (r: Vec<String>)
    ensures
        r@.len() == 0,
{
    Vec::new()
}

/// The message printed by a fatal termination with the given diagnostic.
pub open spec fn message_of(d: Diagnostic) -> Seq<char> {
    match d {
        Diagnostic::SetupPluginFailure => "failed to install a plugin during setup"@,
        Diagnostic::SidecarSpawnFailure => "Failed to spawn sidecar"@,
        Diagnostic::RunLoopFailure => "error while running tauri application"@,
    }
}

impl Diagnostic {
    /// The human-readable message for this diagnostic.
    pub fn message(&self) -> (r: &'static str)
        ensures
            r@ == message_of(*self),
    {
        match self {
            Diagnostic::SetupPluginFailure => "failed to install a plugin during setup",
            Diagnostic::SidecarSpawnFailure => "Failed to spawn sidecar",
            Diagnostic::RunLoopFailure => "error while running tauri application",
        }
    }
}

} // verus!
