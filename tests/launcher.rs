use parity_launcher::child::{child_arguments, run_result, Error};
use parity_launcher::freshness::latest_binary_is_newer;
use parity_launcher::signal::{RestartSignal, SignalEvent, WakeDecision};
use parity_launcher::store::{latest_exe_name, OverrideRecord};
use parity_launcher::supervisor::{
    after_delegation, choose_mode, current_binary_not_latest, direct_can_restart,
    direct_exit_code, has_installed_name, is_development_layout, is_force_direct,
    plan_iteration, AfterDelegation, ChainSelection, DirectOutcome, ExitDirective,
    IterationPlan, RunMode, PLEASE_RESTART_EXIT_CODE,
};
use parity_launcher::{global_cleanup, global_init};

fn strings(items: &[&str]) -> Vec<String> {
    items.iter().map(|s| s.to_string()).collect()
}

#[test]
fn newer_is_strict_and_antisymmetric() {
    assert!(latest_binary_is_newer(Some(20), Some(10)));
    assert!(!latest_binary_is_newer(Some(10), Some(20)));
    assert!(!latest_binary_is_newer(Some(10), Some(10)));
    assert!(latest_binary_is_newer(Some(0), Some(-5)));
}

#[test]
fn newer_needs_both_times() {
    assert!(!latest_binary_is_newer(None, Some(10)));
    assert!(!latest_binary_is_newer(Some(10), None));
    assert!(!latest_binary_is_newer(None, None));
}

#[test]
fn override_is_taken_once() {
    let mut record = OverrideRecord::empty();
    record.set_spec_name_override("olympic");
    assert_eq!(record.take_spec_name_override(), Some("olympic".to_string()));
    assert_eq!(record.take_spec_name_override(), None);
}

#[test]
fn override_replaces_earlier_one_and_is_trimmed() {
    let mut record = OverrideRecord::empty();
    record.set_spec_name_override("foundation");
    record.set_spec_name_override(" kovan\n");
    assert_eq!(record.take_spec_name_override(), Some("kovan".to_string()));
    assert!(record.content.is_none());
}

#[test]
fn take_from_empty_record_is_none() {
    let mut record = OverrideRecord::empty();
    assert_eq!(record.take_spec_name_override(), None);
    assert!(record.content.is_none());
}

#[test]
fn loop_reruns_on_restart_code_then_exits_with_other() {
    let codes = [69, 69, 69, 3];
    let mut exit = None;
    for c in codes.iter() {
        match ExitDirective::from_code(*c) {
            ExitDirective::PleaseRestart => continue,
            ExitDirective::Exit(x) => {
                exit = Some(x);
                break;
            }
        }
    }
    assert_eq!(exit, Some(3));
    assert_eq!(ExitDirective::from_code(0), ExitDirective::Exit(0));
    assert_eq!(ExitDirective::from_code(PLEASE_RESTART_EXIT_CODE), ExitDirective::PleaseRestart);
    assert_eq!(ExitDirective::PleaseRestart.code(), 69);
    assert_eq!(ExitDirective::Exit(5).code(), 5);
}

#[test]
fn failed_delegation_falls_back_to_direct() {
    assert_eq!(plan_iteration(true, true, true), IterationPlan::Delegate);
    let failed = run_result(true, Some(2));
    assert_eq!(failed, Err(Error::StatusCode(2)));
    assert_eq!(after_delegation(&failed), AfterDelegation::FallBackDirect);
    let unknown = run_result(true, None);
    assert_eq!(unknown, Err(Error::UnknownStatusCode));
    assert_eq!(after_delegation(&unknown), AfterDelegation::FallBackDirect);
    let not_spawned = run_result(false, Some(0));
    assert_eq!(not_spawned, Err(Error::UnknownStatusCode));
    assert_eq!(after_delegation(&not_spawned), AfterDelegation::FallBackDirect);
}

#[test]
fn repeated_signals_leave_last_config() {
    let mut signal = RestartSignal::new();
    assert!(!signal.requested);
    signal.request_restart("kovan".to_string());
    signal.interrupt();
    signal.request_restart("olympic".to_string());
    assert!(signal.requested);
    match signal.decide() {
        WakeDecision::Restart(c) => assert_eq!(c, "olympic"),
        WakeDecision::Shutdown => panic!("expected a restart"),
    }
    signal.request_shutdown();
    assert!(matches!(signal.decide(), WakeDecision::Shutdown));
    signal.deliver(SignalEvent::RestartWith("morden".to_string()));
    signal.deliver(SignalEvent::Interrupt);
    assert!(signal.requested);
    assert!(signal.pending_config.is_none());
}

#[test]
fn missing_version_record_runs_direct() {
    assert_eq!(latest_exe_name(None), Err(Error::BinaryNotFound));
    let have_update = false;
    let not_latest = current_binary_not_latest(Some("/usr/bin/parity".to_string()), None);
    assert!(!not_latest);
    let newer = latest_binary_is_newer(None, Some(100));
    assert_eq!(plan_iteration(have_update, not_latest, newer), IterationPlan::Direct);
    assert_eq!(plan_iteration(have_update, true, true), IterationPlan::Direct);
}

#[test]
fn newer_update_is_delegated_and_its_success_ends_process() {
    let name = latest_exe_name(Some("parity-2.0\n".to_string())).unwrap();
    assert_eq!(name, "parity-2.0");
    let not_latest = current_binary_not_latest(
        Some("/usr/bin/parity".to_string()),
        Some("/home/u/.parity-updates/parity-2.0".to_string()),
    );
    assert!(not_latest);
    let newer = latest_binary_is_newer(Some(2_000), Some(1_000));
    assert_eq!(plan_iteration(true, not_latest, newer), IterationPlan::Delegate);
    let res = run_result(true, Some(0));
    assert_eq!(res, Ok(()));
    let code = match after_delegation(&res) {
        AfterDelegation::Finished(c) => c,
        AfterDelegation::FallBackDirect => panic!("expected the child's success"),
    };
    assert_eq!(code, 0);
    assert_eq!(ExitDirective::from_code(code), ExitDirective::Exit(0));
}

#[test]
fn restart_with_config_is_applied_on_next_run() {
    let mut signal = RestartSignal::new();
    signal.request_restart("olympic".to_string());
    let decision = signal.decide();
    let mut record = OverrideRecord::empty();
    if let WakeDecision::Restart(config) = &decision {
        record.set_spec_name_override(config);
    }
    let code = direct_exit_code(&DirectOutcome::Woken(decision));
    assert_eq!(code, PLEASE_RESTART_EXIT_CODE);
    assert_eq!(record.content, Some("olympic".to_string()));
    assert_eq!(ExitDirective::from_code(code), ExitDirective::PleaseRestart);

    let mut selection = ChainSelection { testnet: true, chain: "foundation".to_string() };
    selection.apply_override(record.take_spec_name_override());
    assert!(!selection.testnet);
    assert_eq!(selection.chain, "olympic");
    assert!(record.content.is_none());
}

#[test]
fn no_override_leaves_selection() {
    let mut selection = ChainSelection { testnet: true, chain: "foundation".to_string() };
    selection.apply_override(None);
    assert!(selection.testnet);
    assert_eq!(selection.chain, "foundation");
}

#[test]
fn direct_exit_codes() {
    assert_eq!(direct_exit_code(&DirectOutcome::StartFailed), 1);
    assert_eq!(direct_exit_code(&DirectOutcome::Completed), 0);
    assert_eq!(direct_exit_code(&DirectOutcome::Woken(WakeDecision::Shutdown)), 0);
    let mut signal = RestartSignal::new();
    signal.interrupt();
    assert_eq!(direct_exit_code(&DirectOutcome::Woken(signal.decide())), 0);
}

#[test]
fn child_arguments_drop_program_name_and_add_flags() {
    let args = strings(&["parity", "--chain", "kovan"]);
    assert_eq!(
        child_arguments(&args),
        strings(&["--chain", "kovan", "--can-restart", "--force-direct"])
    );
    assert_eq!(child_arguments(&Vec::new()), strings(&["--can-restart", "--force-direct"]));
}

#[test]
fn mode_selection() {
    assert_eq!(choose_mode(false, false, true), RunMode::Supervised);
    assert_eq!(choose_mode(true, false, true), RunMode::Direct);
    assert_eq!(choose_mode(false, true, true), RunMode::Direct);
    assert_eq!(choose_mode(false, false, false), RunMode::Direct);
    assert!(is_force_direct(&strings(&["parity", "--force-direct"])));
    assert!(!is_force_direct(&strings(&["parity", "--force-directx"])));
    assert!(is_development_layout(Some("target".to_string())));
    assert!(!is_development_layout(Some("bin".to_string())));
    assert!(!is_development_layout(None));
    assert!(has_installed_name(Some("parity".to_string()), Some("exe".to_string())));
    assert!(!has_installed_name(Some("parity".to_string()), None));
    assert!(!has_installed_name(Some("geth".to_string()), Some("exe".to_string())));
}

#[test]
fn canonical_paths_unknown_count_as_same() {
    assert!(!current_binary_not_latest(None, Some("/a".to_string())));
    assert!(!current_binary_not_latest(Some("/a".to_string()), Some("/a".to_string())));
    assert!(current_binary_not_latest(Some("/a".to_string()), Some("/b".to_string())));
}

#[test]
fn restart_allowed_when_forced_or_flagged() {
    assert!(direct_can_restart(true, false));
    assert!(direct_can_restart(false, true));
    assert!(!direct_can_restart(false, false));
    global_init();
    global_cleanup();
}
