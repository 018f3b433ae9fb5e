//! What holds of the start-up protocol over any sequence of calls.
//!
//! The host-facing entry points run each step under one lock, so concurrent
//! calls amount to some sequence of steps; these laws hold for every such
//! sequence.

use vstd::prelude::*;
use crate::boundary::{boundary_lines, hook_lines, settled, PayloadOutcome, Settled};
use crate::config::{Config, LoadedConfig};
use crate::coordinator::{AttachStep, BootState};

verus! {

/// The state after committing each handle of `hs` in turn.
pub open spec fn after_commits(s: BootState, hs: Seq<usize>) -> BootState
    decreases hs.len(),
{
    if hs.len() == 0 {
        s
    } else {
        after_commits(s.with_module(hs[0]), hs.drop_first())
    }
}

/// How many of those commits stored their handle.
pub open spec fn stored_commits(s: BootState, hs: Seq<usize>) -> nat
    decreases hs.len(),
{
    if hs.len() == 0 {
        0
    } else {
        (if s.module is None { 1nat } else { 0nat }) + stored_commits(s.with_module(hs[0]), hs.drop_first())
    }
}

proof fn lemma_commits_keep(s: BootState, hs: Seq<usize>)
    requires
        s.module is Some,
    ensures
        after_commits(s, hs).module == s.module,
        stored_commits(s, hs) == 0,
    decreases hs.len(),
{
    if hs.len() > 0 {
        lemma_commits_keep(s.with_module(hs[0]), hs.drop_first());
    }
}

/// Module identity is written once: of any sequence of commits made while
/// none is stored, exactly one stores its handle, and after any nonempty part
/// of the sequence every reader sees the first handle.
pub proof fn module_identity_committed_once(s: BootState, hs: Seq<usize>, k: int)
    requires
        s.module is None,
        0 < k <= hs.len(),
    ensures
        stored_commits(s, hs) == 1,
        after_commits(s, hs.take(k)).module == Some(hs[0]),
{
    let s1 = s.with_module(hs[0]);
    lemma_commits_keep(s1, hs.drop_first());
    lemma_commits_keep(s1, hs.take(k).drop_first());
    assert(hs.take(k)[0] == hs[0]);
}

/// The state after answering a detection query for each probe result of
/// `os` in turn; a probe result only counts when nothing is cached.
pub open spec fn after_detections(s: BootState, os: Seq<bool>) -> BootState
    decreases os.len(),
{
    if os.len() == 0 {
        s
    } else {
        after_detections(s.with_environment(os[0]), os.drop_first())
    }
}

/// How many of those queries had to probe, finding nothing cached.
pub open spec fn probes_made(s: BootState, os: Seq<bool>) -> nat
    decreases os.len(),
{
    if os.len() == 0 {
        0
    } else {
        (if s.environment is None { 1nat } else { 0nat }) + probes_made(
            s.with_environment(os[0]),
            os.drop_first(),
        )
    }
}

/// The answer a detection query gives in state `s` when a probe would find `o`.
pub open spec fn detection_answer(s: BootState, o: bool) -> bool {
    s.with_environment(o).environment->0
}

proof fn lemma_detections_cached(s: BootState, os: Seq<bool>)
    requires
        s.environment is Some,
    ensures
        after_detections(s, os).environment == s.environment,
        probes_made(s, os) == 0,
    decreases os.len(),
{
    if os.len() > 0 {
        lemma_detections_cached(s.with_environment(os[0]), os.drop_first());
    }
}

/// Environment detection probes at most once: over any nonempty sequence of
/// queries, one probe is made if nothing was cached and none otherwise, and
/// every query answers the cached value, or the first probe's result.
pub proof fn environment_detected_once(s: BootState, os: Seq<bool>, k: int)
    requires
        0 <= k < os.len(),
    ensures
        probes_made(s, os) == (if s.environment is None { 1nat } else { 0nat }),
        detection_answer(after_detections(s, os.take(k)), os[k]) == (match s.environment {
            Some(b) => b,
            None => os[0],
        }),
{
    let s1 = s.with_environment(os[0]);
    lemma_detections_cached(s1, os.drop_first());
    if k > 0 {
        lemma_detections_cached(s1, os.take(k).drop_first());
        assert(os.take(k)[0] == os[0]);
    } else {
        assert(os.take(k).len() == 0);
    }
}

/// How many of `m` claims of the fault hook installation come out first,
/// and so install a hook.
pub open spec fn hooks_installed(s: BootState, m: nat) -> nat
    decreases m,
{
    if m == 0 {
        0
    } else {
        (if s.hook_installed { 0nat } else { 1nat }) + hooks_installed(s.with_hook(), (m - 1) as nat)
    }
}

proof fn lemma_hooks_none_after(s: BootState, m: nat)
    requires
        s.hook_installed,
    ensures
        hooks_installed(s, m) == 0,
    decreases m,
{
    if m > 0 {
        lemma_hooks_none_after(s.with_hook(), (m - 1) as nat);
    }
}

/// Installing the fault hook is idempotent: `m >= 1` claims from a state
/// without a hook install exactly one, so a fault gets one line from it.
pub proof fn fault_hook_installed_once(s: BootState, m: nat)
    requires
        !s.hook_installed,
        m >= 1,
    ensures
        hooks_installed(s, m) == 1,
        hook_lines(hooks_installed(s, m), PayloadOutcome::Faulted) == 1,
{
    lemma_hooks_none_after(s.with_hook(), (m - 1) as nat);
}

/// One attach notification with handle `h`, where a probe, if the
/// coordinator asks for one, finds `env`.
pub open spec fn attach_round(s: BootState, h: usize, env: bool) -> (BootState, AttachStep) {
    let (s1, step) = s.attach(h);
    if step is ProbeEnvironment {
        s1.environment_probed(env)
    } else {
        (s1, step)
    }
}

/// How many of the attach notifications for `hs` in turn defer
/// initialisation to a new thread.
pub open spec fn deferrals(s: BootState, hs: Seq<usize>, env: bool) -> nat
    decreases hs.len(),
{
    if hs.len() == 0 {
        0
    } else {
        let (s1, step) = attach_round(s, hs[0], env);
        (if step is Defer { 1nat } else { 0nat }) + deferrals(s1, hs.drop_first(), env)
    }
}

proof fn lemma_deferrals(s: BootState, hs: Seq<usize>, env: bool)
    requires
        s.environment is None || s.environment == Some(env),
    ensures
        deferrals(s, hs, env) == (if !env && !s.deferred_scheduled && hs.len() > 0 {
            1nat
        } else {
            0nat
        }),
    decreases hs.len(),
{
    if hs.len() > 0 {
        let (s1, step) = attach_round(s, hs[0], env);
        assert(s1.environment == Some(env));
        assert(s1.deferred_scheduled == (s.deferred_scheduled || !env));
        assert(step is Defer <==> (!env && !s.deferred_scheduled));
        lemma_deferrals(s1, hs.drop_first(), env);
    }
}

/// Arbitration: with a cooperating loader no attach notification defers
/// initialisation; without one, a nonempty sequence of them defers it
/// exactly once.
pub proof fn arbitration_defers_once(s: BootState, hs: Seq<usize>, env: bool)
    requires
        s.environment is None || s.environment == Some(env),
        !s.deferred_scheduled,
        hs.len() > 0,
    ensures
        deferrals(s, hs, env) == (if env { 0nat } else { 1nat }),
{
    lemma_deferrals(s, hs, env);
}

/// Log lines for one run of the payload, from the hooks installed and from
/// the boundary.
pub open spec fn run_log_lines(hooks: nat, outcome: PayloadOutcome) -> nat {
    hook_lines(hooks, outcome) + boundary_lines(settled(outcome))
}

/// Fault containment: once the fault hook has been claimed `m >= 1` times, a
/// faulting payload leaves one log line and is settled as handled, returning
/// normally; a surfaced error too leaves one line, a clean run none.
pub proof fn fault_contained(s: BootState, m: nat, outcome: PayloadOutcome)
    requires
        !s.hook_installed,
        m >= 1,
    ensures
        outcome is Faulted ==> settled(outcome) == Settled::FaultHandled,
        run_log_lines(hooks_installed(s, m), outcome) == (if outcome is Completed {
            0nat
        } else {
            1nat
        }),
{
    fault_hook_installed_once(s, m);
}

/// How many of the initialisation calls, in a debug build when `ds` says so,
/// are told to wait for a debugger.
pub open spec fn debugger_waits(s: BootState, ds: Seq<bool>) -> nat
    decreases ds.len(),
{
    if ds.len() == 0 {
        0
    } else {
        let (s1, plan) = s.init(ds[0]);
        (if plan.wait_for_debugger { 1nat } else { 0nat }) + debugger_waits(s1, ds.drop_first())
    }
}

proof fn lemma_debugger_waits(s: BootState, ds: Seq<bool>)
    ensures
        debugger_waits(s, ds) == (if !s.debugger_waited && ds.contains(true) {
            1nat
        } else {
            0nat
        }),
    decreases ds.len(),
{
    if ds.len() > 0 {
        let s1 = s.init(ds[0]).0;
        lemma_debugger_waits(s1, ds.drop_first());
        if ds.contains(true) && !ds[0] {
            let i = choose|i: int| 0 <= i < ds.len() && ds[i] == true;
            assert(ds.drop_first()[i - 1] == true);
        }
        if ds.drop_first().contains(true) {
            let i = choose|i: int| 0 <= i < ds.drop_first().len() && ds.drop_first()[i] == true;
            assert(ds[i + 1] == true);
        }
        if ds[0] {
            assert(ds[0] == true);
        }
    }
}

/// The debugger wait runs at most once: over any sequence of initialisation
/// calls, whichever path makes them, it runs once if one of them is in a
/// debug build and it had not run before, and never otherwise.
pub proof fn debugger_wait_at_most_once(s: BootState, ds: Seq<bool>)
    ensures
        debugger_waits(s, ds) <= 1,
        debugger_waits(s, ds) == (if !s.debugger_waited && ds.contains(true) {
            1nat
        } else {
            0nat
        }),
{
    lemma_debugger_waits(s, ds);
}

/// How many of the initialisation calls, in a debug build when `ds` says so,
/// are told to install the fault hook, and how many to set up the log sink.
pub open spec fn init_installs(s: BootState, ds: Seq<bool>) -> (nat, nat)
    decreases ds.len(),
{
    if ds.len() == 0 {
        (0, 0)
    } else {
        let (s1, plan) = s.init(ds[0]);
        let rest = init_installs(s1, ds.drop_first());
        (
            (if plan.install_hook { 1nat } else { 0nat }) + rest.0,
            (if plan.install_logging { 1nat } else { 0nat }) + rest.1,
        )
    }
}

proof fn lemma_init_installs(s: BootState, ds: Seq<bool>)
    ensures
        init_installs(s, ds).0 == (if !s.hook_installed && ds.len() > 0 { 1nat } else { 0nat }),
        init_installs(s, ds).1 == (if !s.logging_installed && ds.len() > 0 { 1nat } else { 0nat }),
    decreases ds.len(),
{
    if ds.len() > 0 {
        lemma_init_installs(s.init(ds[0]).0, ds.drop_first());
    }
}

/// The initialisation entry point is idempotent in its effects: over any
/// nonempty sequence of calls from a fresh start, the fault hook is
/// installed once and the log sink set up once.
pub proof fn init_installs_once(ds: Seq<bool>)
    requires
        ds.len() > 0,
    ensures
        init_installs(BootState::fresh(), ds) == (1nat, 1nat),
{
    lemma_init_installs(BootState::fresh(), ds);
}

/// Loading the settings twice: when the first load found no file and wrote
/// its result out, the second finds those settings and returns them
/// unchanged, writing nothing.
pub proof fn config_load_round_trip(first: LoadedConfig, second: LoadedConfig)
    requires
        Config::resolves(None, first),
        Config::resolves(Some(first.config), second),
    ensures
        first.persist,
        first.config.is_default(),
        second.config == first.config,
        !second.persist,
{
}

} // verus!
