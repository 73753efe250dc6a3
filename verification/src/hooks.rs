//! A fixed, ordered set of hooks that is switched on or off as one batch.

use vstd::prelude::*;
use crate::engine::EngineCall;
use crate::hook::{HookRecord, MhHook};
use crate::status::MH_STATUS;

verus! {

/// The records of a sequence of hooks, in the same order.
pub open spec fn records(hooks: Seq<MhHook>) -> Seq<HookRecord> {
    Seq::new(hooks.len(), |i: int| hooks[i]@)
}

/// One staging request per hook, in the order of the hooks: enabling ones if
/// `enable` holds, disabling ones if not.
pub open spec fn queue_requests(hooks: Seq<HookRecord>, enable: bool) -> Seq<EngineCall> {
    Seq::new(
        hooks.len(),
        |i: int|
            if enable {
                EngineCall::QueueEnable { target: hooks[i].target }
            } else {
                EngineCall::QueueDisable { target: hooks[i].target }
            },
    )
}

/// The requests that enable a set: every member staged, then one commit.
pub open spec fn apply_plan(hooks: Seq<HookRecord>) -> Seq<EngineCall> {
    queue_requests(hooks, true).push(EngineCall::ApplyQueued)
}

/// The requests that disable a set: every member staged, then one commit,
/// then the teardown of the engine.
pub open spec fn unapply_plan(hooks: Seq<HookRecord>) -> Seq<EngineCall> {
    queue_requests(hooks, false).push(EngineCall::ApplyQueued).push(EngineCall::Uninitialize)
}

/// An ordered set of hooks. Its members are fixed at construction. Dropping
/// it neither disables its hooks nor tears the engine down: `unapply` is the
/// explicit release.
#[derive(Debug)]
pub struct MhHooks(Vec<MhHook>);

impl View for MhHooks {
    type V = Seq<HookRecord>;

    closed spec fn view(&self) -> Seq<HookRecord> {
        records(self.0@)
    }
}

impl MhHooks {
    /// A set of the given hooks, in the given order. It never fails.
    pub fn new(hooks: Vec<MhHook>) -> (r: Result<MhHooks, MH_STATUS>)
        ensures
            r is Ok,
            r->Ok_0@ == records(hooks@),
    {
        Ok(MhHooks(hooks))
    }

    /// The requests that enable every hook of the set: one staging request
    /// per member, in insertion order, then a single commit. The statuses
    /// that the engine reports for them decide nothing here: enabling is
    /// best effort and never fails the caller.
    pub fn apply(&self) -> (plan: Vec<EngineCall>)
        ensures
            plan@ == apply_plan(self@),
    {
        Self::apply_hooks(self.0.as_slice())
    }

    /// The requests that disable every hook of the set and release the
    /// engine: one staging request per member, in insertion order, a single
    /// commit, and the engine's teardown. The teardown releases every hook
    /// that the engine tracks, not only this set's.
    pub fn unapply(&self) -> (plan: Vec<EngineCall>)
        ensures
            plan@ == unapply_plan(self@),
    {
        let mut plan = Self::unapply_hooks(self.0.as_slice());
        plan.push(EngineCall::Uninitialize);
        plan
    }

    fn apply_hooks(hooks: &[MhHook]) -> (plan: Vec<EngineCall>)
        ensures
            plan@ == apply_plan(records(hooks@)),
    {
        let mut plan: Vec<EngineCall> = Vec::new();
        let mut i: usize = 0;
        while i < hooks.len()
            invariant
                i <= hooks@.len(),
                plan@ == queue_requests(records(hooks@), true).take(i as int),
            decreases hooks@.len() - i,
        {
            plan.push(hooks[i].queue_enable());
            i += 1;
            assert(plan@ =~= queue_requests(records(hooks@), true).take(i as int));
        }
        assert(plan@ =~= queue_requests(records(hooks@), true));
        plan.push(EngineCall::ApplyQueued);
        plan
    }

    fn unapply_hooks(hooks: &[MhHook]) -> (plan: Vec<EngineCall>)
        ensures
            plan@ == queue_requests(records(hooks@), false).push(EngineCall::ApplyQueued),
    {
        let mut plan: Vec<EngineCall> = Vec::new();
        let mut i: usize = 0;
        while i < hooks.len()
            invariant
                i <= hooks@.len(),
                plan@ == queue_requests(records(hooks@), false).take(i as int),
            decreases hooks@.len() - i,
        {
            plan.push(hooks[i].queue_disable());
            i += 1;
            assert(plan@ =~= queue_requests(records(hooks@), false).take(i as int));
        }
        assert(plan@ =~= queue_requests(records(hooks@), false));
        plan.push(EngineCall::ApplyQueued);
        plan
    }
}

/// Enabling a set stages each member exactly once, in insertion order, and
/// commits exactly once, after the last staging request.
pub proof fn lemma_apply_stages_then_commits(hooks: Seq<HookRecord>)
    ensures
        apply_plan(hooks).len() == hooks.len() + 1,
        forall|i: int|
            0 <= i < hooks.len() ==> #[trigger] apply_plan(hooks)[i] == (EngineCall::QueueEnable {
                target: hooks[i].target,
            }),
        forall|i: int|
            0 <= i < apply_plan(hooks).len() ==> (#[trigger] apply_plan(hooks)[i]
                == EngineCall::ApplyQueued <==> i == hooks.len()),
{
}

/// Disabling a set stages each member exactly once, in insertion order,
/// commits exactly once after the last staging request, and tears the engine
/// down last of all.
pub proof fn lemma_unapply_stages_commits_then_tears_down(hooks: Seq<HookRecord>)
    ensures
        unapply_plan(hooks).len() == hooks.len() + 2,
        forall|i: int|
            0 <= i < hooks.len() ==> #[trigger] unapply_plan(hooks)[i]
                == (EngineCall::QueueDisable { target: hooks[i].target }),
        forall|i: int|
            0 <= i < unapply_plan(hooks).len() ==> (#[trigger] unapply_plan(hooks)[i]
                == EngineCall::ApplyQueued <==> i == hooks.len()),
        forall|i: int|
            0 <= i < unapply_plan(hooks).len() ==> (#[trigger] unapply_plan(hooks)[i]
                == EngineCall::Uninitialize <==> i == hooks.len() + 1),
{
}

/// Disabling undoes enabling member by member: the two plans of one set stage
/// the same targets in the same positions, and commit at the same position.
pub proof fn lemma_unapply_mirrors_apply(hooks: Seq<HookRecord>, i: int)
    requires
        0 <= i < hooks.len(),
    ensures
        apply_plan(hooks)[i] is QueueEnable,
        unapply_plan(hooks)[i] is QueueDisable,
        apply_plan(hooks)[i]->QueueEnable_target == unapply_plan(hooks)[i]->QueueDisable_target,
        apply_plan(hooks)[hooks.len() as int] == unapply_plan(hooks)[hooks.len() as int],
{
}

} // verus!
