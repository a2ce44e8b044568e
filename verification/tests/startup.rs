use app_scaffold::startup::ActivationPolicy;
use app_scaffold::startup::Platform;
use app_scaffold::startup::StartupAction;
use app_scaffold::startup::StartupError;
use app_scaffold::startup::activation_policy;
use app_scaffold::startup::bootstrap_outcome;
use app_scaffold::startup::fatal_message;
use app_scaffold::startup::setup_outcome;
use app_scaffold::startup::startup_plan;

fn position_of(plan: &[StartupAction], a: StartupAction) -> Option<usize> {
    plan.iter().position(|x| *x == a)
}

#[test]
fn non_macos_plan_has_no_tray_actions() {
    let plan = startup_plan(Platform::Other);
    assert!(position_of(&plan, StartupAction::InitTrayMenu).is_none());
    assert!(position_of(&plan, StartupAction::HideDockIcon).is_none());
    assert_eq!(plan.last(), Some(&StartupAction::EnterRunLoop));
}

#[test]
fn non_macos_plan_exact() {
    let plan = startup_plan(Platform::Other);
    assert_eq!(
        plan,
        vec![
            StartupAction::RegisterOpenerPlugin,
            StartupAction::RegisterPositionerPlugin,
            StartupAction::RegisterGreetCommand,
            StartupAction::EnterRunLoop,
        ]
    );
}

#[test]
fn macos_plan_inits_tray_before_run_loop() {
    let plan = startup_plan(Platform::MacOs);
    let tray = position_of(&plan, StartupAction::InitTrayMenu).unwrap();
    let dock = position_of(&plan, StartupAction::HideDockIcon).unwrap();
    let run_loop = position_of(&plan, StartupAction::EnterRunLoop).unwrap();
    assert!(tray < run_loop);
    assert!(dock < run_loop);
    assert_eq!(run_loop, plan.len() - 1);
}

#[test]
fn macos_plan_exact() {
    let plan = startup_plan(Platform::MacOs);
    assert_eq!(
        plan,
        vec![
            StartupAction::RegisterOpenerPlugin,
            StartupAction::RegisterPositionerPlugin,
            StartupAction::RegisterGreetCommand,
            StartupAction::InitTrayMenu,
            StartupAction::HideDockIcon,
            StartupAction::EnterRunLoop,
        ]
    );
}

#[test]
fn activation_policy_hides_dock_on_macos_only() {
    assert_eq!(activation_policy(Platform::MacOs), ActivationPolicy::Accessory);
    assert_eq!(activation_policy(Platform::Other), ActivationPolicy::Regular);
}

#[test]
fn setup_fails_only_on_macos_tray_failure() {
    assert_eq!(setup_outcome(Platform::MacOs, true), Ok(()));
    assert_eq!(setup_outcome(Platform::MacOs, false), Err(StartupError::TrayInitFailed));
    assert_eq!(setup_outcome(Platform::Other, true), Ok(()));
    assert_eq!(setup_outcome(Platform::Other, false), Ok(()));
}

#[test]
fn bootstrap_reports_tray_failure_first() {
    assert_eq!(
        bootstrap_outcome(Platform::MacOs, false, false),
        Err(StartupError::TrayInitFailed)
    );
    assert_eq!(
        bootstrap_outcome(Platform::MacOs, false, true),
        Err(StartupError::TrayInitFailed)
    );
}

#[test]
fn bootstrap_reports_launch_failure() {
    assert_eq!(bootstrap_outcome(Platform::MacOs, true, false), Err(StartupError::LaunchFailed));
    assert_eq!(bootstrap_outcome(Platform::Other, true, false), Err(StartupError::LaunchFailed));
    assert_eq!(bootstrap_outcome(Platform::Other, false, false), Err(StartupError::LaunchFailed));
}

#[test]
fn bootstrap_succeeds_when_nothing_fails() {
    assert_eq!(bootstrap_outcome(Platform::MacOs, true, true), Ok(()));
    assert_eq!(bootstrap_outcome(Platform::Other, true, true), Ok(()));
    assert_eq!(bootstrap_outcome(Platform::Other, false, true), Ok(()));
}

#[test]
fn fatal_message_is_fixed() {
    assert_eq!(
        fatal_message(StartupError::TrayInitFailed),
        "error while running tauri application"
    );
    assert_eq!(fatal_message(StartupError::LaunchFailed), "error while running tauri application");
}
