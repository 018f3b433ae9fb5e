use native_plugin_template::coordinator::{debugger_poll, AttachStep, Coordinator, InitPlan, DEBUGGER_POLL_MS};
use native_plugin_template::handle::ThreadedWrapper;
use native_plugin_template::once::{OnceFlag, WriteOnce};

#[test]
fn write_once_keeps_first_value() {
    let mut cell = WriteOnce::new();
    assert_eq!(cell.get(), None);
    assert!(cell.commit(3u32));
    assert!(!cell.commit(4u32));
    assert_eq!(cell.get(), Some(&3u32));
}

#[test]
fn once_flag_claims_once() {
    let mut flag = OnceFlag::new();
    assert!(!flag.is_claimed());
    assert!(flag.claim());
    assert!(flag.is_claimed());
    assert!(!flag.claim());
    assert!(!flag.claim());
}

#[test]
fn threaded_wrapper_hands_back_value() {
    let w = ThreadedWrapper::new(0x7ff6_0000usize);
    assert_eq!(*w.get(), 0x7ff6_0000usize);
    assert_eq!(*w, 0x7ff6_0000usize);
}

#[test]
fn module_identity_first_commit_wins() {
    let mut c = Coordinator::new();
    assert_eq!(c.module_identity(), None);
    assert!(c.commit_module(0x1000));
    assert!(!c.commit_module(0x2000));
    assert!(!c.commit_module(0x3000));
    assert_eq!(c.module_identity(), Some(0x1000));
}

#[test]
fn attach_commits_module_identity_once() {
    let mut c = Coordinator::new();
    assert_eq!(c.on_process_attach(0xAAAA), AttachStep::ProbeEnvironment);
    assert_eq!(c.on_environment_probed(true), AttachStep::Stay);
    assert_eq!(c.on_process_attach(0xBBBB), AttachStep::Stay);
    assert_eq!(c.module_identity(), Some(0xAAAA));
}

#[test]
fn environment_is_probed_once_and_cached() {
    let mut c = Coordinator::new();
    let mut probes = 0;
    let mut answers = Vec::new();
    let probe_results = [true, false, false, true, false];
    for found in probe_results {
        let answer = match c.cached_environment() {
            Some(cached) => cached,
            None => {
                probes += 1;
                c.record_environment(found)
            }
        };
        answers.push(answer);
    }
    assert_eq!(probes, 1);
    assert_eq!(answers, vec![true; 5]);
    assert_eq!(c.cached_environment(), Some(true));
}

#[test]
fn record_environment_keeps_first_answer() {
    let mut c = Coordinator::new();
    assert_eq!(c.cached_environment(), None);
    assert!(!c.record_environment(false));
    assert!(!c.record_environment(true));
    assert_eq!(c.cached_environment(), Some(false));
}

#[test]
fn hook_install_claimed_once() {
    let mut c = Coordinator::new();
    let installs = (0..10).filter(|_| c.claim_hook_install()).count();
    assert_eq!(installs, 1);
}

#[test]
fn cooperating_loader_never_defers() {
    let mut c = Coordinator::new();
    assert_eq!(c.on_process_attach(1), AttachStep::ProbeEnvironment);
    assert_eq!(c.on_environment_probed(true), AttachStep::Stay);
    for h in 2..6 {
        assert_eq!(c.on_process_attach(h), AttachStep::Stay);
    }
}

#[test]
fn generic_host_defers_exactly_once() {
    let mut c = Coordinator::new();
    let mut steps = Vec::new();
    for h in 1..5usize {
        let mut step = c.on_process_attach(h);
        if step == AttachStep::ProbeEnvironment {
            step = c.on_environment_probed(false);
        }
        steps.push(step);
    }
    assert_eq!(
        steps,
        vec![AttachStep::Defer, AttachStep::Stay, AttachStep::Stay, AttachStep::Stay]
    );
}

#[test]
fn probe_answer_after_cache_uses_cached_value() {
    let mut c = Coordinator::new();
    c.record_environment(false);
    assert_eq!(c.on_environment_probed(true), AttachStep::Defer);
    assert_eq!(c.cached_environment(), Some(false));
}

#[test]
fn init_waits_and_installs_on_first_entry_only() {
    let mut c = Coordinator::new();
    c.on_process_attach(0x4000);
    let first = c.on_init(true);
    assert_eq!(
        first,
        InitPlan {
            wait_for_debugger: true,
            install_hook: true,
            install_logging: true,
            module: Some(0x4000),
        }
    );
    let second = c.on_init(true);
    assert_eq!(
        second,
        InitPlan {
            wait_for_debugger: false,
            install_hook: false,
            install_logging: false,
            module: Some(0x4000),
        }
    );
}

#[test]
fn debugger_wait_runs_once_across_paths() {
    let mut c = Coordinator::new();
    // the deferred thread's entry, then the loader's own call
    let deferred = c.on_init(true);
    let direct = c.on_init(true);
    let waits = [deferred, direct].iter().filter(|p| p.wait_for_debugger).count();
    assert_eq!(waits, 1);
    assert!(!c.claim_debugger_wait());
}

#[test]
fn release_build_never_waits_for_debugger() {
    let mut c = Coordinator::new();
    let plan = c.on_init(false);
    assert!(!plan.wait_for_debugger);
    assert!(plan.install_hook);
    assert!(plan.install_logging);
    // a later debug entry may still wait: release entries claim nothing
    assert!(c.claim_debugger_wait());
}

#[test]
fn init_without_attach_has_no_module() {
    let mut c = Coordinator::new();
    let plan = c.on_init(false);
    assert_eq!(plan.module, None);
}

#[test]
fn debugger_poll_sleeps_until_present() {
    assert_eq!(DEBUGGER_POLL_MS, 16);
    assert_eq!(debugger_poll(false), Some(16));
    assert_eq!(debugger_poll(true), None);
}
