use app_bootstrap::bootstrap::Bootstrapper;
use app_bootstrap::bootstrap::LaunchDecision;
use app_bootstrap::bootstrap::LaunchOutcome;
use app_bootstrap::bootstrap::Phase;
use app_bootstrap::bootstrap::SetupOutcome;
use app_bootstrap::bootstrap::abort_exit_code;
use app_bootstrap::bootstrap::bootstrap;
use app_bootstrap::bootstrap::launch_failure_message;
use app_bootstrap::bootstrap::setup_report;
use app_bootstrap::plugins::Capability;
use app_bootstrap::plugins::registration_plan;

#[test]
fn plan_holds_all_six_in_fixed_order() {
    let plan = registration_plan();
    assert_eq!(plan.len(), 6);
    assert_eq!(plan[0], Capability::ShellExecution);
    assert_eq!(plan[1], Capability::ProcessManagement);
    assert_eq!(plan[2], Capability::Dialog);
    assert_eq!(plan[3], Capability::Notification);
    assert_eq!(plan[4], Capability::HttpFetch);
    assert_eq!(plan[5], Capability::Logging);
}

#[test]
fn registration_completes_before_setup_runs() {
    let mut b = Bootstrapper::new();
    assert_eq!(b.registered_len(), 0);
    assert!(!b.setup_has_run());
    b.register_all();
    // every capability is registered, and setup has still not run
    assert_eq!(b.registered_len(), 6);
    assert!(!b.setup_has_run());
    let plan = registration_plan();
    for i in 0..6 {
        assert_eq!(b.registered_at(i), plan[i]);
    }
    let out = b.complete_setup(true, true);
    assert_eq!(out, SetupOutcome::FocusGranted);
    assert!(b.setup_has_run());
    assert_eq!(b.registered_len(), 6);
}

#[test]
fn setup_runs_exactly_once() {
    let mut b = Bootstrapper::new();
    b.register_all();
    assert!(!b.setup_has_run());
    b.complete_setup(false, false);
    assert!(b.setup_has_run());
    assert_eq!(b.current_phase(), Phase::AwaitingLaunch);
    b.note_launch(LaunchOutcome::Started);
    // past registration, the count stays at one for the rest of the lifetime
    assert!(b.setup_has_run());
}

#[test]
fn missing_main_window_skips_focus_without_error() {
    let mut b = Bootstrapper::new();
    b.register_all();
    let out = b.complete_setup(false, true);
    assert_eq!(out, SetupOutcome::NoMainWindow);
    assert!(setup_report(out));
    assert_eq!(b.current_phase(), Phase::AwaitingLaunch);
}

#[test]
fn focus_failure_is_swallowed() {
    let mut b = Bootstrapper::new();
    b.register_all();
    let out = b.complete_setup(true, false);
    // a focus request was issued and denied, and the denial does not propagate
    assert_eq!(out, SetupOutcome::FocusDenied);
    assert!(setup_report(out));
    let d = b.note_launch(LaunchOutcome::Started);
    assert_eq!(d, LaunchDecision::EnterRunLoop);
    assert_eq!(b.current_phase(), Phase::Running);
}

#[test]
fn focus_success_is_reported() {
    let mut b = Bootstrapper::new();
    b.register_all();
    let out = b.complete_setup(true, true);
    assert_eq!(out, SetupOutcome::FocusGranted);
    assert!(setup_report(out));
}

#[test]
fn launch_failure_aborts_with_fixed_diagnostic() {
    let mut b = Bootstrapper::new();
    b.register_all();
    b.complete_setup(true, true);
    let d = b.note_launch(LaunchOutcome::Failed);
    assert_eq!(d, LaunchDecision::AbortProcess);
    assert_eq!(b.current_phase(), Phase::Aborted);
    assert_ne!(abort_exit_code(), 0);
    assert_eq!(abort_exit_code(), 1);
    assert_eq!(
        launch_failure_message(),
        "Erreur lors du lancement de l'application Tax Free RDC"
    );
}

#[test]
fn whole_sequence_on_successful_launch() {
    let r = bootstrap(true, true, LaunchOutcome::Started);
    assert_eq!(r.setup, SetupOutcome::FocusGranted);
    assert_eq!(r.decision, LaunchDecision::EnterRunLoop);
    assert_eq!(r.state.current_phase(), Phase::Running);
    assert_eq!(r.state.registered_len(), 6);
    assert!(r.state.setup_has_run());
}

#[test]
fn whole_sequence_on_failed_launch() {
    let r = bootstrap(false, false, LaunchOutcome::Failed);
    assert_eq!(r.setup, SetupOutcome::NoMainWindow);
    assert_eq!(r.decision, LaunchDecision::AbortProcess);
    assert_eq!(r.state.current_phase(), Phase::Aborted);
    // the plugins were fully registered even though the launch then failed
    assert_eq!(r.state.registered_len(), 6);
}
