//! The attach coordinator: process-wide start-up state and the decisions the
//! host-facing entry points take on it.
//!
//! Every decision is a step from the recorded state and an event to the next
//! state and an action; the caller performs the action (probing the host,
//! creating a thread, waiting for a debugger, installing the fault hook) and
//! reports back. Held behind one lock, the steps serialise, so each guarded
//! effect happens once however many threads call in.

use vstd::prelude::*;
use crate::handle::ThreadedWrapper;
use crate::once::{OnceFlag, WriteOnce};

verus! {

/// How long, in milliseconds, a debug build sleeps between two checks for an
/// attached debugger (about sixty checks a second).
pub const DEBUGGER_POLL_MS: u64 = 16;

/// What the attach notification asks of its caller.
#[derive(PartialEq, Eq, Structural, Debug, Clone, Copy)]
pub enum AttachStep {
    /// Check whether a cooperating loader is present and report the answer
    /// through `Coordinator::on_environment_probed`.
    ProbeEnvironment,
    /// Do nothing more: the loader runs initialisation itself, or it has
    /// already been scheduled.
    Stay,
    /// Run initialisation on a freshly created thread of its own.
    Defer,
}

/// What the initialisation entry point does before its payload, in order.
#[derive(PartialEq, Eq, Structural, Debug, Clone, Copy)]
pub struct InitPlan {
    /// Block until a debugger attaches (debug builds, first entry only).
    pub wait_for_debugger: bool,
    /// Install the process-wide fault hook (first entry only).
    pub install_hook: bool,
    /// Set up the log sink, inside the fault boundary (first entry only).
    pub install_logging: bool,
    /// The module identity the payload runs with; `None` when no attach has
    /// committed one, which the payload reports as an error.
    pub module: Option<usize>,
}

/// The coordinator's record, as plain values.
pub struct BootState {
    /// The module identity, once the first attach has committed it.
    pub module: Option<usize>,
    /// Whether a cooperating loader is present, once it has been probed.
    pub environment: Option<bool>,
    /// Whether initialisation has been handed to a deferred thread.
    pub deferred_scheduled: bool,
    /// Whether the debugger wait has been claimed.
    pub debugger_waited: bool,
    /// Whether the fault hook installation has been claimed.
    pub hook_installed: bool,
    /// Whether the log sink set-up has been claimed.
    pub logging_installed: bool,
}

impl BootState {
    /// Nothing recorded yet.
    pub open spec fn fresh() -> BootState {
        BootState {
            module: None,
            environment: None,
            deferred_scheduled: false,
            debugger_waited: false,
            hook_installed: false,
            logging_installed: false,
        }
    }

    /// The state after committing `handle` as module identity: only the first
    /// commit takes.
    pub open spec fn with_module(self, handle: usize) -> BootState {
        if self.module is None {
            BootState { module: Some(handle), ..self }
        } else {
            self
        }
    }

    /// The state after recording a probe result: only the first one takes.
    pub open spec fn with_environment(self, found: bool) -> BootState {
        if self.environment is None {
            BootState { environment: Some(found), ..self }
        } else {
            self
        }
    }

    /// Arbitration once the environment is known: a cooperating loader calls
    /// initialisation itself; otherwise it is deferred to a new thread, once.
    pub open spec fn arbitrate(self, cooperating: bool) -> (BootState, AttachStep) {
        if cooperating || self.deferred_scheduled {
            (self, AttachStep::Stay)
        } else {
            (BootState { deferred_scheduled: true, ..self }, AttachStep::Defer)
        }
    }

    /// The state once the debugger wait has been claimed.
    pub open spec fn with_debugger_waited(self) -> BootState {
        BootState { debugger_waited: true, ..self }
    }

    /// The state once the fault hook installation has been claimed.
    pub open spec fn with_hook(self) -> BootState {
        BootState { hook_installed: true, ..self }
    }

    /// The state once the log sink set-up has been claimed.
    pub open spec fn with_logging(self) -> BootState {
        BootState { logging_installed: true, ..self }
    }

    /// The attach notification: commit the identity, then arbitrate on the
    /// cached environment, or ask for a probe if there is none.
    pub open spec fn attach(self, handle: usize) -> (BootState, AttachStep) {
        let s = self.with_module(handle);
        match s.environment {
            Some(cooperating) => s.arbitrate(cooperating),
            None => (s, AttachStep::ProbeEnvironment),
        }
    }

    /// The answer to a probe: cache it (an earlier answer wins) and arbitrate
    /// on the cached value.
    pub open spec fn environment_probed(self, found: bool) -> (BootState, AttachStep) {
        let s = self.with_environment(found);
        s.arbitrate(s.environment->0)
    }

    /// The initialisation entry point: in a debug build the debugger wait
    /// comes first, then the fault hook, then the log sink, each once per
    /// process; the payload gets the committed identity.
    pub open spec fn init(self, debug_build: bool) -> (BootState, InitPlan) {
        let waited = if debug_build {
            self.with_debugger_waited()
        } else {
            self
        };
        (
            waited.with_hook().with_logging(),
            InitPlan {
                wait_for_debugger: debug_build && !self.debugger_waited,
                install_hook: !self.hook_installed,
                install_logging: !self.logging_installed,
                module: self.module,
            },
        )
    }
}

/// The process-wide start-up state.
pub struct Coordinator {
    module: WriteOnce<ThreadedWrapper<usize>>,
    environment: WriteOnce<bool>,
    deferred: OnceFlag,
    debugger_wait: OnceFlag,
    hook: OnceFlag,
    logging: OnceFlag,
}

impl View for Coordinator {
    type V = BootState;

    closed spec fn view(&self) -> BootState {
        BootState {
            module: match self.module@ {
                Some(w) => Some(w@),
                None => None,
            },
            environment: self.environment@,
            deferred_scheduled: self.deferred@,
            debugger_waited: self.debugger_wait@,
            hook_installed: self.hook@,
            logging_installed: self.logging@,
        }
    }
}

impl Coordinator {
    /// A coordinator with nothing recorded.
    pub fn new() -> (r: Self)
        ensures
            r@ == BootState::fresh(),
    {
        Coordinator {
            module: WriteOnce::new(),
            environment: WriteOnce::new(),
            deferred: OnceFlag::new(),
            debugger_wait: OnceFlag::new(),
            hook: OnceFlag::new(),
            logging: OnceFlag::new(),
        }
    }

    /// Commits the module identity; only the first commit takes. Returns
    /// whether this one did.
    pub fn commit_module(&mut self, handle: usize) -> (stored: bool)
        ensures
            stored == (old(self)@.module is None),
            final(self)@ == old(self)@.with_module(handle),
    {
        self.module.commit(ThreadedWrapper::new(handle))
    }

    /// The committed module identity, or `None` while no attach has run.
    pub fn module_identity(&self) -> (r: Option<usize>)
        ensures
            r == self@.module,
    {
        match self.module.get() {
            Some(w) => Some(*w.get()),
            None => None,
        }
    }

    /// The cached answer to whether a cooperating loader is present.
    pub fn cached_environment(&self) -> (r: Option<bool>)
        ensures
            r == self@.environment,
    {
        match self.environment.get() {
            Some(b) => Some(*b),
            None => None,
        }
    }

    /// Caches a probe result unless one is cached already, and returns the
    /// cached answer.
    pub fn record_environment(&mut self, found: bool) -> (cooperating: bool)
        ensures
            final(self)@ == old(self)@.with_environment(found),
            final(self)@.environment == Some(cooperating),
    {
        self.environment.commit(found);
        match self.environment.get() {
            Some(b) => *b,
            None => found,
        }
    }

    fn arbitrate(&mut self, cooperating: bool) -> (step: AttachStep)
        ensures
            (final(self)@, step) == old(self)@.arbitrate(cooperating),
    {
        if cooperating {
            AttachStep::Stay
        } else if self.deferred.claim() {
            AttachStep::Defer
        } else {
            AttachStep::Stay
        }
    }

    /// The process-attach notification carrying the module identity.
    pub fn on_process_attach(&mut self, handle: usize) -> (step: AttachStep)
        ensures
            (final(self)@, step) == old(self)@.attach(handle),
    {
        self.commit_module(handle);
        match self.cached_environment() {
            Some(cooperating) => self.arbitrate(cooperating),
            None => AttachStep::ProbeEnvironment,
        }
    }

    /// The caller's report of a probe for the cooperating loader.
    pub fn on_environment_probed(&mut self, found: bool) -> (step: AttachStep)
        ensures
            (final(self)@, step) == old(self)@.environment_probed(found),
    {
        let cooperating = self.record_environment(found);
        self.arbitrate(cooperating)
    }

    /// Claims the debugger wait: true only the first time, whichever entry
    /// path asks.
    pub fn claim_debugger_wait(&mut self) -> (first: bool)
        ensures
            first == !old(self)@.debugger_waited,
            final(self)@ == old(self)@.with_debugger_waited(),
    {
        self.debugger_wait.claim()
    }

    /// Claims the installation of the fault hook: true only the first time.
    pub fn claim_hook_install(&mut self) -> (first: bool)
        ensures
            first == !old(self)@.hook_installed,
            final(self)@ == old(self)@.with_hook(),
    {
        self.hook.claim()
    }

    /// The initialisation entry point, called by a cooperating loader or by
    /// the deferred thread: what to do before the payload runs.
    pub fn on_init(&mut self, debug_build: bool) -> (plan: InitPlan)
        ensures
            (final(self)@, plan) == old(self)@.init(debug_build),
    {
        let wait_for_debugger = if debug_build {
            self.claim_debugger_wait()
        } else {
            false
        };
        let install_hook = self.claim_hook_install();
        let install_logging = self.logging.claim();
        InitPlan { wait_for_debugger, install_hook, install_logging, module: self.module_identity() }
    }
}

/// One round of the debugger wait: `None` once a debugger is attached, else
/// how long to sleep before looking again.
pub fn debugger_poll(debugger_present: bool) -> (sleep_ms: Option<u64>)
    ensures
        debugger_present ==> sleep_ms is None,
        !debugger_present ==> sleep_ms == Some(DEBUGGER_POLL_MS),
{
    if debugger_present {
        None
    } else {
        Some(DEBUGGER_POLL_MS)
    }
}

} // verus!
