//! One intercepted function: its target, its detour and the trampoline that
//! the engine produced for it.

use vstd::prelude::*;
use crate::engine::EngineCall;
use crate::init::InitGuard;
use crate::status::MH_STATUS;

verus! {

/// What a hook is, as plain values: three opaque code addresses.
pub struct HookRecord {
    /// The address of the intercepted function.
    pub target: usize,
    /// The address of the function that runs in its place.
    pub detour: usize,
    /// The address through which the original behaviour stays callable.
    pub trampoline: usize,
}

/// A hook that the engine has created, in the disabled state. Its three
/// addresses are fixed at creation. Dropping it does not remove the hook
/// from the engine.
#[derive(Debug)]
pub struct MhHook {
    addr: usize,
    hook_impl: usize,
    trampoline: usize,
}

impl View for MhHook {
    type V = HookRecord;

    closed spec fn view(&self) -> HookRecord {
        HookRecord { target: self.addr, detour: self.hook_impl, trampoline: self.trampoline }
    }
}

impl MhHook {
    /// The request that creating a hook for `addr` owes next in the state of
    /// `guard`.
    pub open spec fn spec_next_call(guard: InitGuard, addr: usize, hook_impl: usize) -> EngineCall {
        if guard.initialized() {
            EngineCall::CreateHook { target: addr, detour: hook_impl }
        } else {
            EngineCall::Initialize
        }
    }

    /// The result of a creation to which the engine answered with `status`
    /// and `trampoline`.
    pub open spec fn spec_new(
        addr: usize,
        hook_impl: usize,
        status: MH_STATUS,
        trampoline: usize,
    ) -> Result<HookRecord, MH_STATUS> {
        if status == MH_STATUS::MH_OK {
            Ok(HookRecord { target: addr, detour: hook_impl, trampoline })
        } else {
            Err(status)
        }
    }

    /// The request to make next in order to hook `addr` with `hook_impl`:
    /// the engine's initialization as long as `guard` is uninitialized, and
    /// the creation of the hook once it is initialized.
    pub fn next_call(guard: &InitGuard, addr: usize, hook_impl: usize) -> (call: EngineCall)
        ensures
            call == Self::spec_next_call(*guard, addr, hook_impl),
    {
        match guard.ensure_initialized() {
            Some(call) => call,
            None => EngineCall::CreateHook { target: addr, detour: hook_impl },
        }
    }

    /// Records the engine's answer to the creation of a hook for `addr` with
    /// detour `hook_impl`, requested under an initialized `guard`. On the
    /// success status the hook holds the two addresses and the trampoline
    /// that the engine produced; every other status is returned as the
    /// error, and no hook exists.
    pub fn new(
        guard: &InitGuard,
        addr: usize,
        hook_impl: usize,
        status: MH_STATUS,
        trampoline: usize,
    ) -> (r: Result<MhHook, MH_STATUS>)
        requires
            guard.initialized(),
        ensures
            r is Ok <==> status == MH_STATUS::MH_OK,
            r is Ok ==> Ok::<HookRecord, MH_STATUS>(r->Ok_0@) == Self::spec_new(
                addr,
                hook_impl,
                status,
                trampoline,
            ),
            r is Err ==> r->Err_0 == status,
    {
        match status.ok() {
            Ok(()) => Ok(MhHook { addr, hook_impl, trampoline }),
            Err(e) => Err(e),
        }
    }

    /// The address of the intercepted function.
    pub fn target(&self) -> (a: usize)
        ensures
            a == self@.target,
    {
        self.addr
    }

    /// The address of the function that runs in place of the target.
    pub fn detour(&self) -> (a: usize)
        ensures
            a == self@.detour,
    {
        self.hook_impl
    }

    /// The address through which the original function stays callable. The
    /// caller invokes it with the original function's calling convention.
    pub fn trampoline(&self) -> (a: usize)
        ensures
            a == self@.trampoline,
    {
        self.trampoline
    }

    /// The request that stages the enabling of this hook.
    pub fn queue_enable(&self) -> (call: EngineCall)
        ensures
            call == (EngineCall::QueueEnable { target: self@.target }),
    {
        EngineCall::QueueEnable { target: self.addr }
    }

    /// The request that stages the disabling of this hook.
    pub fn queue_disable(&self) -> (call: EngineCall)
        ensures
            call == (EngineCall::QueueDisable { target: self@.target }),
    {
        EngineCall::QueueDisable { target: self.addr }
    }
}

} // verus!
