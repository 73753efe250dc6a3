use mh_hooks::engine::EngineCall;
use mh_hooks::hook::MhHook;
use mh_hooks::hooks::MhHooks;
use mh_hooks::init::InitGuard;
use mh_hooks::status::MH_STATUS;

// A stand-in for the hooking engine: it keeps the bookkeeping of a real one
// and dispatches calls by address, so that the effect of a hook can be
// observed by calling the hooked function.

type Body = fn(&StandIn, i32) -> i32;

struct Entry {
    target: usize,
    detour: usize,
    trampoline: usize,
    enabled: bool,
    staged: bool,
}

struct StandIn {
    initialized: bool,
    initialize_calls: usize,
    entries: Vec<Entry>,
    code: Vec<(usize, Body)>,
    next_trampoline: usize,
}

impl StandIn {
    fn new(code: Vec<(usize, Body)>) -> StandIn {
        StandIn {
            initialized: false,
            initialize_calls: 0,
            entries: Vec::new(),
            code,
            next_trampoline: 0x7000_0000,
        }
    }

    fn body(&self, addr: usize) -> Option<Body> {
        self.code.iter().find(|(a, _)| *a == addr).map(|(_, b)| *b)
    }

    fn stage(&mut self, target: usize, enable: bool) -> MH_STATUS {
        if !self.initialized {
            return MH_STATUS::MH_ERROR_NOT_INITIALIZED;
        }
        match self.entries.iter_mut().find(|e| e.target == target) {
            Some(e) => {
                e.staged = enable;
                MH_STATUS::MH_OK
            }
            None => MH_STATUS::MH_ERROR_NOT_CREATED,
        }
    }

    fn perform(&mut self, call: EngineCall) -> (MH_STATUS, usize) {
        match call {
            EngineCall::Initialize => {
                self.initialize_calls += 1;
                if self.initialized {
                    (MH_STATUS::MH_ERROR_ALREADY_INITIALIZED, 0)
                } else {
                    self.initialized = true;
                    (MH_STATUS::MH_OK, 0)
                }
            }
            EngineCall::Uninitialize => {
                if !self.initialized {
                    (MH_STATUS::MH_ERROR_NOT_INITIALIZED, 0)
                } else {
                    self.entries.clear();
                    self.initialized = false;
                    (MH_STATUS::MH_OK, 0)
                }
            }
            EngineCall::CreateHook { target, detour } => {
                if !self.initialized {
                    (MH_STATUS::MH_ERROR_NOT_INITIALIZED, 0)
                } else if self.body(target).is_none() || self.body(detour).is_none() {
                    (MH_STATUS::MH_ERROR_NOT_EXECUTABLE, 0)
                } else if self.entries.iter().any(|e| e.target == target) {
                    (MH_STATUS::MH_ERROR_ALREADY_CREATED, 0)
                } else {
                    let trampoline = self.next_trampoline;
                    self.next_trampoline += 0x40;
                    self.entries.push(Entry {
                        target,
                        detour,
                        trampoline,
                        enabled: false,
                        staged: false,
                    });
                    (MH_STATUS::MH_OK, trampoline)
                }
            }
            EngineCall::QueueEnable { target } => (self.stage(target, true), 0),
            EngineCall::QueueDisable { target } => (self.stage(target, false), 0),
            EngineCall::ApplyQueued => {
                if !self.initialized {
                    (MH_STATUS::MH_ERROR_NOT_INITIALIZED, 0)
                } else {
                    for e in self.entries.iter_mut() {
                        e.enabled = e.staged;
                    }
                    (MH_STATUS::MH_OK, 0)
                }
            }
        }
    }

    // Runs whatever answers at `addr` right now.
    fn call(&self, addr: usize, x: i32) -> i32 {
        if let Some(e) = self.entries.iter().find(|e| e.trampoline == addr) {
            return (self.body(e.target).unwrap())(self, x);
        }
        match self.entries.iter().find(|e| e.target == addr && e.enabled) {
            Some(e) => (self.body(e.detour).unwrap())(self, x),
            None => (self.body(addr).unwrap())(self, x),
        }
    }

    fn trampoline_of(&self, target: usize) -> usize {
        self.entries.iter().find(|e| e.target == target).unwrap().trampoline
    }
}

fn create(
    engine: &mut StandIn,
    guard: &mut InitGuard,
    target: usize,
    detour: usize,
) -> Result<MhHook, MH_STATUS> {
    loop {
        let call = MhHook::next_call(guard, target, detour);
        let (status, trampoline) = engine.perform(call);
        if call == EngineCall::Initialize {
            status.ok().expect("Couldn't initialize hooks");
            guard.complete(status);
        } else {
            return MhHook::new(guard, target, detour, status, trampoline);
        }
    }
}

fn run(engine: &mut StandIn, plan: Vec<EngineCall>) {
    for call in plan {
        let _ = engine.perform(call);
    }
}

const FN1: usize = 0x1000;
const FN1_HOOK: usize = 0x1100;
const FN2: usize = 0x2000;
const FN2_HOOK: usize = 0x2100;
const TRAMPOLINE_ORIG: usize = 0x3000;
const TRAMPOLINE_HOOK: usize = 0x3100;

fn test_fn1(_: &StandIn, _: i32) -> i32 {
    0
}

fn test_fn1_hook(_: &StandIn, _: i32) -> i32 {
    1
}

fn test_fn2(_: &StandIn, x: i32) -> i32 {
    x
}

fn test_fn2_hook(_: &StandIn, x: i32) -> i32 {
    x + 1
}

fn test_fn_trampoline_orig(_: &StandIn, _: i32) -> i32 {
    21
}

fn test_fn_trampoline_hook(engine: &StandIn, x: i32) -> i32 {
    let _val = 42;
    engine.call(engine.trampoline_of(TRAMPOLINE_ORIG), x)
}

fn stand_in() -> StandIn {
    StandIn::new(vec![
        (FN1, test_fn1 as Body),
        (FN1_HOOK, test_fn1_hook as Body),
        (FN2, test_fn2 as Body),
        (FN2_HOOK, test_fn2_hook as Body),
        (TRAMPOLINE_ORIG, test_fn_trampoline_orig as Body),
        (TRAMPOLINE_HOOK, test_fn_trampoline_hook as Body),
    ])
}

#[test]
fn test_hooks() {
    let mut engine = stand_in();
    let mut guard = InitGuard::new();
    let hooks = MhHooks::new(vec![
        create(&mut engine, &mut guard, FN1, FN1_HOOK).unwrap(),
        create(&mut engine, &mut guard, FN2, FN2_HOOK).unwrap(),
    ])
    .unwrap();

    // Created hooks are disabled.
    assert_eq!(engine.call(FN1, 0), 0);
    assert_eq!(engine.call(FN2, 1), 1);

    run(&mut engine, hooks.apply());

    // Test that the hooks are applied.
    assert_eq!(engine.call(FN1, 0), 1);
    assert_eq!(engine.call(FN2, 1), 2);

    run(&mut engine, hooks.unapply());

    // Test that the hooks are unapplied.
    assert_eq!(engine.call(FN1, 0), 0);
    assert_eq!(engine.call(FN2, 1), 1);
    assert!(!engine.initialized);
}

#[test]
fn test_hooks_trampoline() {
    let mut engine = stand_in();
    let mut guard = InitGuard::new();
    let hook = create(&mut engine, &mut guard, TRAMPOLINE_ORIG, TRAMPOLINE_HOOK).unwrap();
    let trampoline = hook.trampoline();
    assert_ne!(trampoline, 0);

    let hooks = MhHooks::new(vec![hook]).unwrap();

    run(&mut engine, hooks.apply());

    assert_eq!(engine.call(TRAMPOLINE_ORIG, 0), 21);
    assert_eq!(engine.call(trampoline, 0), 21);

    run(&mut engine, hooks.unapply());
}

#[test]
fn creation_returns_the_engines_trampoline() {
    let mut engine = stand_in();
    let mut guard = InitGuard::new();
    let hook = create(&mut engine, &mut guard, FN1, FN1_HOOK).unwrap();
    assert_eq!(hook.trampoline(), engine.trampoline_of(FN1));
    assert_eq!(hook.target(), FN1);
    assert_eq!(hook.detour(), FN1_HOOK);
}

#[test]
fn second_hook_on_a_target_is_refused() {
    let mut engine = stand_in();
    let mut guard = InitGuard::new();
    let first = create(&mut engine, &mut guard, FN1, FN1_HOOK).unwrap();
    let hooks = MhHooks::new(vec![first]).unwrap();
    run(&mut engine, hooks.apply());

    let second = create(&mut engine, &mut guard, FN1, FN2_HOOK);
    assert_eq!(second.err(), Some(MH_STATUS::MH_ERROR_ALREADY_CREATED));

    // The live hook is untouched.
    assert_eq!(engine.call(FN1, 0), 1);
}

#[test]
fn creation_on_unmapped_code_is_refused() {
    let mut engine = stand_in();
    let mut guard = InitGuard::new();
    let r = create(&mut engine, &mut guard, 0xdead, FN1_HOOK);
    assert_eq!(r.err(), Some(MH_STATUS::MH_ERROR_NOT_EXECUTABLE));
    assert!(guard.is_initialized());
}

#[test]
fn engine_is_initialized_once_over_many_creations() {
    let mut engine = stand_in();
    let mut guard = InitGuard::new();
    let a = create(&mut engine, &mut guard, FN1, FN1_HOOK);
    let b = create(&mut engine, &mut guard, FN2, FN2_HOOK);
    let c = create(&mut engine, &mut guard, TRAMPOLINE_ORIG, TRAMPOLINE_HOOK);
    assert!(a.is_ok() && b.is_ok() && c.is_ok());
    assert_eq!(engine.initialize_calls, 1);
}

#[test]
fn statuses_of_a_batch_never_fail_the_caller() {
    // The set's members were never created in this engine: every staging
    // request is refused, and the batch still runs to its end.
    let mut ready = InitGuard::new();
    ready.complete(MH_STATUS::MH_OK);
    let stray = MhHook::new(&ready, FN1, FN1_HOOK, MH_STATUS::MH_OK, 0x7000_0000).unwrap();
    let hooks = MhHooks::new(vec![stray]).unwrap();

    let mut engine = stand_in();
    run(&mut engine, hooks.apply());
    assert_eq!(engine.call(FN1, 0), 0);
    run(&mut engine, hooks.unapply());
    assert_eq!(engine.call(FN1, 0), 0);
}

#[test]
fn every_request_of_a_batch_is_accepted() {
    let mut engine = stand_in();
    let mut guard = InitGuard::new();
    let hooks = MhHooks::new(vec![
        create(&mut engine, &mut guard, FN1, FN1_HOOK).unwrap(),
        create(&mut engine, &mut guard, FN2, FN2_HOOK).unwrap(),
    ])
    .unwrap();
    for call in hooks.apply() {
        assert_eq!(engine.perform(call).0, MH_STATUS::MH_OK);
    }
    for call in hooks.unapply() {
        assert_eq!(engine.perform(call).0, MH_STATUS::MH_OK);
    }
}

#[test]
fn interleaved_batches_commit_together() {
    // Nothing here keeps two sets apart: a commit takes whatever is staged.
    // Callers that switch several sets serialize their batches themselves.
    let mut engine = stand_in();
    let mut guard = InitGuard::new();
    let first = MhHooks::new(vec![create(&mut engine, &mut guard, FN1, FN1_HOOK).unwrap()])
        .unwrap();
    let second = MhHooks::new(vec![create(&mut engine, &mut guard, FN2, FN2_HOOK).unwrap()])
        .unwrap();

    let first_plan = first.apply();
    let _ = engine.perform(first_plan[0]);
    run(&mut engine, second.apply());

    assert_eq!(engine.call(FN1, 0), 1);
    assert_eq!(engine.call(FN2, 1), 2);
}

#[test]
fn unapply_releases_hooks_outside_the_set() {
    let mut engine = stand_in();
    let mut guard = InitGuard::new();
    let first = MhHooks::new(vec![create(&mut engine, &mut guard, FN1, FN1_HOOK).unwrap()])
        .unwrap();
    let second = MhHooks::new(vec![create(&mut engine, &mut guard, FN2, FN2_HOOK).unwrap()])
        .unwrap();
    run(&mut engine, first.apply());
    run(&mut engine, second.apply());
    assert_eq!(engine.call(FN2, 1), 2);

    run(&mut engine, first.unapply());

    assert_eq!(engine.call(FN1, 0), 0);
    assert_eq!(engine.call(FN2, 1), 1);
    // The guard does not go back: no second initialization is requested.
    assert_eq!(guard.ensure_initialized(), None);
}

#[test]
fn creation_after_teardown_is_refused() {
    let mut engine = stand_in();
    let mut guard = InitGuard::new();
    let hooks = MhHooks::new(vec![create(&mut engine, &mut guard, FN1, FN1_HOOK).unwrap()])
        .unwrap();
    run(&mut engine, hooks.apply());
    run(&mut engine, hooks.unapply());

    let later = create(&mut engine, &mut guard, FN2, FN2_HOOK);
    assert_eq!(later.err(), Some(MH_STATUS::MH_ERROR_NOT_INITIALIZED));
    assert_eq!(engine.initialize_calls, 1);
}
