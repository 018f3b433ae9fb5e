use native_plugin_template::boundary::{fault_report, settle, PayloadOutcome, Settled};
use native_plugin_template::coordinator::Coordinator;

#[test]
fn completed_run_needs_nothing() {
    assert!(matches!(settle(PayloadOutcome::Completed), Settled::Completed));
}

#[test]
fn surfaced_error_is_logged_once() {
    let s = settle(PayloadOutcome::Failed("failed to setup logging".to_string()));
    match s {
        Settled::ErrorLogged(message) => assert_eq!(message, "failed to setup logging"),
        _ => panic!("expected the error to be logged"),
    }
}

#[test]
fn fault_is_contained() {
    let mut c = Coordinator::new();
    let mut hooks = 0;
    for _ in 0..3 {
        if c.on_init(false).install_hook {
            hooks += 1;
        }
    }
    // one hook, so one line for the fault; the boundary adds none
    assert_eq!(hooks, 1);
    assert!(matches!(settle(PayloadOutcome::Faulted), Settled::FaultHandled));
}

#[test]
fn fault_report_without_backtrace_is_description() {
    let r = fault_report("panicked at src/lib.rs:10:5:\nboom".to_string(), None);
    assert_eq!(r, "panicked at src/lib.rs:10:5:\nboom");
}

#[test]
fn fault_report_appends_backtrace() {
    let r = fault_report("boom".to_string(), Some("0: entry\n1: Init".to_string()));
    assert_eq!(r, "boom\n\nstack backtrace:\n0: entry\n1: Init");
}

#[test]
fn fault_report_with_empty_parts() {
    let r = fault_report(String::new(), Some(String::new()));
    assert_eq!(r, "\n\nstack backtrace:\n");
}
