//! The guard that lets the engine be initialized once, before first use.

use vstd::prelude::*;
use crate::engine::EngineCall;
use crate::status::MH_STATUS;

verus! {

/// Whether the engine has been initialized. A guard starts uninitialized,
/// becomes initialized once, and never goes back.
#[derive(Debug)]
pub struct InitGuard {
    initialized: bool,
}

impl InitGuard {
    /// Whether the engine's initialization has completed under this guard.
    pub closed spec fn initialized(&self) -> bool {
        self.initialized
    }

    /// The request that `ensure_initialized` owes in this state.
    pub open spec fn owed(&self) -> Option<EngineCall> {
        if self.initialized() {
            None
        } else {
            Some(EngineCall::Initialize)
        }
    }

    /// The guard as `complete` leaves it.
    pub closed spec fn completed(&self) -> InitGuard {
        InitGuard { initialized: true }
    }

    /// A guard for an engine that has not been initialized.
    pub fn new() -> (guard: InitGuard)
        ensures
            !guard.initialized(),
    {
        InitGuard { initialized: false }
    }

    /// Whether initialization has completed.
    pub fn is_initialized(&self) -> (b: bool)
        ensures
            b == self.initialized(),
    {
        self.initialized
    }

    /// The request that must be made before any hook is created: the
    /// engine's initialization while the guard is uninitialized, and nothing
    /// afterwards.
    pub fn ensure_initialized(&self) -> (call: Option<EngineCall>)
        ensures
            call == self.owed(),
    {
        if self.initialized {
            None
        } else {
            Some(EngineCall::Initialize)
        }
    }

    /// Records that the engine's initialization succeeded. A failed
    /// initialization is fatal to the caller and never reaches the guard.
    pub fn complete(&mut self, status: MH_STATUS)
        requires
            status == MH_STATUS::MH_OK,
        ensures
            final(self).initialized(),
            *final(self) == old(self).completed(),
    {
        self.initialized = true;
    }
}

/// The number of initialization requests made over `rounds` successive uses
/// of a guard, each of which asks the guard what is owed, makes that request
/// with success, and completes the guard if a request was made.
pub open spec fn initialize_requests(guard: InitGuard, rounds: nat) -> nat
    decreases rounds,
{
    if rounds == 0 {
        0
    } else if guard.owed() is Some {
        1 + initialize_requests(guard.completed(), (rounds - 1) as nat)
    } else {
        initialize_requests(guard, (rounds - 1) as nat)
    }
}

/// However many times a guard is used in succession, the engine is asked to
/// initialize exactly once if the guard started uninitialized and was used
/// at all, and never otherwise.
pub proof fn lemma_initialize_requested_once(guard: InitGuard, rounds: nat)
    ensures
        initialize_requests(guard, rounds) == (if !guard.initialized() && rounds > 0 {
            1nat
        } else {
            0nat
        }),
        guard.completed().initialized(),
        guard.completed().owed() is None,
    decreases rounds,
{
    if rounds > 0 {
        if guard.owed() is Some {
            lemma_initialize_requested_once(guard.completed(), (rounds - 1) as nat);
        } else {
            lemma_initialize_requested_once(guard, (rounds - 1) as nat);
        }
    }
}

} // verus!
