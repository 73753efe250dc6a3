//! A model of the engine's bookkeeping, against which the batch protocol is
//! proved to do what it is for.
//!
//! The model is specification only. It follows one engine through the
//! requests made of it and tracks which hooks exist and which are enabled.
//! It takes every address as code that can be hooked and leaves trampolines
//! out: what it answers is which code runs when a target is called.

use vstd::prelude::*;
use crate::engine::EngineCall;
use crate::hook::{HookRecord, MhHook};
use crate::hooks::{apply_plan, queue_requests, unapply_plan};
use crate::init::{InitGuard, lemma_initialize_requested_once};
use crate::status::MH_STATUS;

verus! {

/// What the engine tracks for one created hook.
pub struct HookState {
    /// The code that runs in place of the target while the hook is enabled.
    pub detour: usize,
    /// Whether calls of the target are redirected right now.
    pub enabled: bool,
    /// What `enabled` becomes at the next commit.
    pub staged: bool,
}

/// The engine's bookkeeping: whether it is initialized, and its hooks by
/// target.
pub struct EngineState {
    pub initialized: bool,
    pub hooks: Map<usize, HookState>,
}

impl EngineState {
    /// An engine before its initialization.
    pub open spec fn fresh() -> EngineState {
        EngineState { initialized: false, hooks: Map::empty() }
    }

    /// Whether a hook for `target` exists.
    pub open spec fn has_hook(self, target: usize) -> bool {
        self.hooks.contains_key(target)
    }

    /// Whether the hook of `record` exists, with its detour.
    pub open spec fn tracks(self, record: HookRecord) -> bool {
        self.has_hook(record.target) && self.hooks[record.target].detour == record.detour
    }

    /// The address of the code that runs when `target` is called: the detour
    /// of an enabled hook, and the target's own code otherwise.
    pub open spec fn runs_at(self, target: usize) -> usize {
        if self.has_hook(target) && self.hooks[target].enabled {
            self.hooks[target].detour
        } else {
            target
        }
    }

    /// The status with which the bookkeeping answers a request.
    pub open spec fn status_of(self, call: EngineCall) -> MH_STATUS {
        match call {
            EngineCall::Initialize => if self.initialized {
                MH_STATUS::MH_ERROR_ALREADY_INITIALIZED
            } else {
                MH_STATUS::MH_OK
            },
            EngineCall::Uninitialize | EngineCall::ApplyQueued => if self.initialized {
                MH_STATUS::MH_OK
            } else {
                MH_STATUS::MH_ERROR_NOT_INITIALIZED
            },
            EngineCall::CreateHook { target, detour } => if !self.initialized {
                MH_STATUS::MH_ERROR_NOT_INITIALIZED
            } else if self.has_hook(target) {
                MH_STATUS::MH_ERROR_ALREADY_CREATED
            } else {
                MH_STATUS::MH_OK
            },
            EngineCall::QueueEnable { target } | EngineCall::QueueDisable { target } => if !self.initialized {
                MH_STATUS::MH_ERROR_NOT_INITIALIZED
            } else if !self.has_hook(target) {
                MH_STATUS::MH_ERROR_NOT_CREATED
            } else {
                MH_STATUS::MH_OK
            },
        }
    }

    /// The bookkeeping with the hook of `target` staged to `enable`.
    pub open spec fn stage(self, target: usize, enable: bool) -> EngineState {
        EngineState {
            initialized: self.initialized,
            hooks: self.hooks.insert(
                target,
                HookState {
                    detour: self.hooks[target].detour,
                    enabled: self.hooks[target].enabled,
                    staged: enable,
                },
            ),
        }
    }

    /// The bookkeeping with every staged change committed.
    pub open spec fn commit(self) -> EngineState {
        EngineState {
            initialized: self.initialized,
            hooks: Map::new(
                |t: usize| self.hooks.contains_key(t),
                |t: usize|
                    HookState {
                        detour: self.hooks[t].detour,
                        enabled: self.hooks[t].staged,
                        staged: self.hooks[t].staged,
                    },
            ),
        }
    }

    /// The bookkeeping after one request. A refused request changes nothing.
    pub open spec fn step(self, call: EngineCall) -> EngineState {
        if self.status_of(call) != MH_STATUS::MH_OK {
            self
        } else {
            match call {
                EngineCall::Initialize => EngineState { initialized: true, hooks: Map::empty() },
                EngineCall::Uninitialize => Self::fresh(),
                EngineCall::CreateHook { target, detour } => EngineState {
                    initialized: self.initialized,
                    hooks: self.hooks.insert(
                        target,
                        HookState { detour, enabled: false, staged: false },
                    ),
                },
                EngineCall::QueueEnable { target } => self.stage(target, true),
                EngineCall::QueueDisable { target } => self.stage(target, false),
                EngineCall::ApplyQueued => self.commit(),
            }
        }
    }

    /// The bookkeeping after a sequence of requests, made in order.
    pub open spec fn run(self, plan: Seq<EngineCall>) -> EngineState
        decreases plan.len(),
    {
        if plan.len() == 0 {
            self
        } else {
            self.run(plan.drop_last()).step(plan.last())
        }
    }
}

/// Whether `target` is the target of one of `hooks`.
pub open spec fn is_member(hooks: Seq<HookRecord>, target: usize) -> bool {
    exists|i: int| 0 <= i < hooks.len() && #[trigger] hooks[i].target == target
}

/// Creating a hook for a target that has none succeeds on an initialized
/// engine, and leaves the new hook disabled and every other hook as it was.
pub proof fn lemma_created_hook_is_disabled(s: EngineState, target: usize, detour: usize)
    requires
        s.initialized,
        !s.has_hook(target),
    ensures
        s.status_of(EngineCall::CreateHook { target, detour }) == MH_STATUS::MH_OK,
        s.step(EngineCall::CreateHook { target, detour }).has_hook(target),
        s.step(EngineCall::CreateHook { target, detour }).hooks[target].detour == detour,
        s.step(EngineCall::CreateHook { target, detour }).runs_at(target) == target,
        forall|t: usize|
            t != target ==> s.step(EngineCall::CreateHook { target, detour }).runs_at(t)
                == #[trigger] s.runs_at(t),
{
}

/// Creating a hook for a target that already has one is refused as a
/// duplicate, and the bookkeeping, the existing hook included, stays as it
/// was.
pub proof fn lemma_duplicate_creation_changes_nothing(
    s: EngineState,
    target: usize,
    detour: usize,
)
    requires
        s.initialized,
        s.has_hook(target),
    ensures
        s.status_of(EngineCall::CreateHook { target, detour })
            == MH_STATUS::MH_ERROR_ALREADY_CREATED,
        s.step(EngineCall::CreateHook { target, detour }) == s,
{
}

/// Creation succeeds wherever no hook stands in its way. With a guard that
/// agrees with the engine on whether it is initialized, and a target without
/// a hook, every request that creation owes is accepted: the initialization
/// if the guard is uninitialized, then the creation itself, whose status
/// makes a hook of the result. The new hook is disabled.
pub proof fn lemma_creation_succeeds(
    guard: InitGuard,
    s: EngineState,
    target: usize,
    detour: usize,
    trampoline: usize,
)
    requires
        guard.initialized() == s.initialized,
        s.initialized ==> !s.has_hook(target),
    ensures
        ({
            let first = MhHook::spec_next_call(guard, target, detour);
            let create = EngineCall::CreateHook { target, detour };
            let ready = if guard.initialized() {
                s
            } else {
                s.step(first)
            };
            let readied = if guard.initialized() {
                guard
            } else {
                guard.completed()
            };
            &&& !guard.initialized() ==> first == EngineCall::Initialize && s.status_of(first)
                == MH_STATUS::MH_OK
            &&& MhHook::spec_next_call(readied, target, detour) == create
            &&& ready.status_of(create) == MH_STATUS::MH_OK
            &&& MhHook::spec_new(target, detour, ready.status_of(create), trampoline) == Ok::<
                HookRecord,
                MH_STATUS,
            >(HookRecord { target, detour, trampoline })
            &&& ready.step(create).tracks(HookRecord { target, detour, trampoline })
            &&& ready.step(create).runs_at(target) == target
        }),
{
    lemma_initialize_requested_once(guard, 0);
}

/// Teardown is a one-way trip. A guard never goes back to uninitialized, so
/// after the engine was torn down creation owes no initialization, and the
/// engine refuses the creation request as made of an uninitialized engine;
/// that status is the error of the creation.
pub proof fn lemma_creation_after_teardown_is_refused(
    guard: InitGuard,
    target: usize,
    detour: usize,
    trampoline: usize,
)
    requires
        guard.initialized(),
    ensures
        ({
            let call = MhHook::spec_next_call(guard, target, detour);
            let status = EngineState::fresh().status_of(call);
            &&& call == (EngineCall::CreateHook { target, detour })
            &&& status == MH_STATUS::MH_ERROR_NOT_INITIALIZED
            &&& MhHook::spec_new(target, detour, status, trampoline) == Err::<
                HookRecord,
                MH_STATUS,
            >(MH_STATUS::MH_ERROR_NOT_INITIALIZED)
            &&& EngineState::fresh().step(call) == EngineState::fresh()
        }),
{
}

/// The staging requests of a set touch nothing but the staged state of its
/// members: after the first `k` of them, the first `k` members are staged
/// as asked, and what is enabled is what was.
proof fn lemma_staging(s: EngineState, hooks: Seq<HookRecord>, enable: bool, k: int)
    requires
        s.initialized,
        forall|i: int| 0 <= i < hooks.len() ==> s.has_hook(#[trigger] hooks[i].target),
        0 <= k <= hooks.len(),
    ensures
        ({
            let after = s.run(queue_requests(hooks, enable).take(k));
            &&& after.initialized
            &&& after.hooks.dom() == s.hooks.dom()
            &&& forall|t: usize| #[trigger]
                s.has_hook(t) ==> after.hooks[t].detour == s.hooks[t].detour
                    && after.hooks[t].enabled == s.hooks[t].enabled
            &&& forall|i: int| 0 <= i < k ==> after.hooks[#[trigger] hooks[i].target].staged == enable
            &&& forall|t: usize| #[trigger]
                s.has_hook(t) && !is_member(hooks, t) ==> after.hooks[t].staged
                    == s.hooks[t].staged
        }),
    decreases k,
{
    let requests = queue_requests(hooks, enable);
    if k > 0 {
        lemma_staging(s, hooks, enable, k - 1);
        let before = s.run(requests.take(k - 1));
        let after = s.run(requests.take(k));
        assert(requests.take(k).drop_last() =~= requests.take(k - 1));
        assert(requests.take(k).last() == requests[k - 1]);
        let target = hooks[k - 1].target;
        assert(s.has_hook(target));
        assert(before.has_hook(target));
        assert(after == before.stage(target, enable));
        assert(after.hooks.dom() =~= s.hooks.dom());
        assert(is_member(hooks, target));
    }
}

/// Enabling switches the whole set on. On an initialized engine that tracks
/// every member, once the requests of `apply` are made, a call of any
/// member's target runs that member's detour, every request was accepted,
/// no hook was added or lost, and a hook outside the set with nothing
/// staged runs what it ran before.
pub proof fn lemma_apply_enables_every_member(s: EngineState, hooks: Seq<HookRecord>)
    requires
        s.initialized,
        forall|i: int| 0 <= i < hooks.len() ==> s.tracks(#[trigger] hooks[i]),
    ensures
        ({
            let on = s.run(apply_plan(hooks));
            &&& on.initialized
            &&& on.hooks.dom() == s.hooks.dom()
            &&& forall|i: int| 0 <= i < hooks.len() ==> on.tracks(#[trigger] hooks[i])
            &&& forall|i: int|
                0 <= i < hooks.len() ==> on.runs_at(#[trigger] hooks[i].target) == hooks[i].detour
            &&& forall|t: usize| #[trigger]
                s.has_hook(t) && !is_member(hooks, t) && s.hooks[t].staged == s.hooks[t].enabled
                    ==> on.runs_at(t) == s.runs_at(t)
        }),
{
    let requests = queue_requests(hooks, true);
    lemma_staging(s, hooks, true, hooks.len() as int);
    assert(requests.take(hooks.len() as int) =~= requests);
    assert(apply_plan(hooks).drop_last() =~= requests);
    let staged = s.run(requests);
    let on = s.run(apply_plan(hooks));
    assert(on == staged.commit());
    assert(on.hooks.dom() =~= s.hooks.dom());
    assert forall|i: int| 0 <= i < hooks.len() implies on.tracks(#[trigger] hooks[i]) && on.runs_at(
        hooks[i].target,
    ) == hooks[i].detour by {
        assert(s.tracks(hooks[i]));
        assert(s.has_hook(hooks[i].target));
    }
}

/// Disabling switches the whole set off and releases the engine. On an
/// initialized engine that tracks every member, once the staging requests
/// and the commit of `unapply` are made, a call of any member's target runs
/// the target's own code; once the teardown is made as well, the engine is
/// uninitialized, tracks no hook, and every call runs its own code.
pub proof fn lemma_unapply_restores_every_target(s: EngineState, hooks: Seq<HookRecord>)
    requires
        s.initialized,
        forall|i: int| 0 <= i < hooks.len() ==> s.tracks(#[trigger] hooks[i]),
    ensures
        ({
            let committed = s.run(unapply_plan(hooks).drop_last());
            forall|i: int|
                0 <= i < hooks.len() ==> committed.runs_at(#[trigger] hooks[i].target)
                    == hooks[i].target
        }),
        s.run(unapply_plan(hooks)) == EngineState::fresh(),
        forall|t: usize| #[trigger] s.run(unapply_plan(hooks)).runs_at(t) == t,
{
    let requests = queue_requests(hooks, false);
    lemma_staging(s, hooks, false, hooks.len() as int);
    assert(requests.take(hooks.len() as int) =~= requests);
    let commit_plan = requests.push(EngineCall::ApplyQueued);
    assert(unapply_plan(hooks).drop_last() =~= commit_plan);
    assert(commit_plan.drop_last() =~= requests);
    let staged = s.run(requests);
    let committed = s.run(commit_plan);
    assert(committed == staged.commit());
    assert forall|i: int| 0 <= i < hooks.len() implies committed.runs_at(
        #[trigger] hooks[i].target,
    ) == hooks[i].target by {
        assert(s.has_hook(hooks[i].target));
    }
    assert(s.run(unapply_plan(hooks)) == committed.step(EngineCall::Uninitialize));
}

/// No request of a batch is refused where the set's hooks exist. On an
/// initialized engine that has a hook for every member's target, each
/// request of `apply` and each request of `unapply` is accepted in the state
/// that the requests before it have left.
pub proof fn lemma_batch_is_accepted(s: EngineState, hooks: Seq<HookRecord>, k: int)
    requires
        s.initialized,
        forall|i: int| 0 <= i < hooks.len() ==> s.has_hook(#[trigger] hooks[i].target),
    ensures
        0 <= k < apply_plan(hooks).len() ==> s.run(apply_plan(hooks).take(k)).status_of(
            apply_plan(hooks)[k],
        ) == MH_STATUS::MH_OK,
        0 <= k < unapply_plan(hooks).len() ==> s.run(unapply_plan(hooks).take(k)).status_of(
            unapply_plan(hooks)[k],
        ) == MH_STATUS::MH_OK,
{
    let n = hooks.len() as int;
    if 0 <= k <= n {
        lemma_staging(s, hooks, true, k);
        lemma_staging(s, hooks, false, k);
        assert(apply_plan(hooks).take(k) =~= queue_requests(hooks, true).take(k));
        assert(unapply_plan(hooks).take(k) =~= queue_requests(hooks, false).take(k));
        if k < n {
            assert(s.has_hook(hooks[k].target));
        }
    } else if k == n + 1 {
        lemma_staging(s, hooks, false, n);
        let requests = queue_requests(hooks, false);
        assert(requests.take(n) =~= requests);
        let commit_plan = requests.push(EngineCall::ApplyQueued);
        assert(unapply_plan(hooks).take(k) =~= commit_plan);
        assert(commit_plan.drop_last() =~= requests);
    }
}

/// The life of a set, from creation to release. On an engine where every
/// member was created and none enabled, a call of a member's target runs
/// the target's own code; after `apply` it runs the member's detour; after
/// `unapply` it runs the target's own code again.
pub proof fn lemma_set_lifecycle(s: EngineState, hooks: Seq<HookRecord>, i: int)
    requires
        s.initialized,
        forall|j: int| 0 <= j < hooks.len() ==> s.tracks(#[trigger] hooks[j]),
        forall|j: int| 0 <= j < hooks.len() ==> !s.hooks[#[trigger] hooks[j].target].enabled,
        0 <= i < hooks.len(),
    ensures
        s.runs_at(hooks[i].target) == hooks[i].target,
        s.run(apply_plan(hooks)).runs_at(hooks[i].target) == hooks[i].detour,
        s.run(apply_plan(hooks)).run(unapply_plan(hooks)).runs_at(hooks[i].target)
            == hooks[i].target,
{
    lemma_apply_enables_every_member(s, hooks);
    lemma_unapply_restores_every_target(s.run(apply_plan(hooks)), hooks);
}

} // verus!
