//! The requests that this library asks its embedding program to make of the
//! hooking engine.

use vstd::prelude::*;

verus! {

/// One synchronous request to the hooking engine. The library only decides
/// which requests are owed and in what order; the embedding program makes
/// them and hands the reported status back where a decision depends on it.
#[derive(Debug, Clone, Copy, PartialEq, Eq, Structural)]
pub enum EngineCall {
    /// Initialize the engine, once per process.
    Initialize,
    /// Tear the engine down, releasing every hook it tracks.
    Uninitialize,
    /// Create a hook for `target` that transfers control to `detour`, in the
    /// disabled state. The engine answers with a status and a trampoline.
    CreateHook { target: usize, detour: usize },
    /// Stage the enabling of the hook created for `target`.
    QueueEnable { target: usize },
    /// Stage the disabling of the hook created for `target`.
    QueueDisable { target: usize },
    /// Commit every staged change in one go.
    ApplyQueued,
}

} // verus!
