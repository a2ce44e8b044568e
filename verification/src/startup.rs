//! The application bootstrap, modelled as data: which startup actions run on
//! which platform, in what order, and how a setup failure propagates.
//!
//! The GUI framework performs the actions; this module decides them. The
//! surrounding program walks the plan returned by [`startup_plan`] and hands
//! each action to the framework.

use vstd::prelude::*;

verus! {

/// The platform the application starts on. Only one platform distinction
/// matters to the bootstrap: the menu-bar tray and the dock-icon policy
/// exist on macOS alone.
#[derive(Clone, Copy, PartialEq, Eq, Structural, Debug)]
pub enum Platform {
    MacOs,
    Other,
}

/// One step of the bootstrap, in the order the bootstrap performs them.
#[derive(Clone, Copy, PartialEq, Eq, Structural, Debug)]
pub enum StartupAction {
    /// Register the opener plugin with the framework builder.
    RegisterOpenerPlugin,
    /// Register the positioner plugin with the framework builder.
    RegisterPositionerPlugin,
    /// Register the greeting command so the UI layer can invoke it.
    RegisterGreetCommand,
    /// Install the menu-bar tray icon (macOS only).
    InitTrayMenu,
    /// Hide the application's dock icon (macOS only).
    HideDockIcon,
    /// Enter the framework's run loop, which blocks for the life of the app.
    EnterRunLoop,
}

/// Whether the application shows a dock icon and appears in the app switcher.
#[derive(Clone, Copy, PartialEq, Eq, Structural, Debug)]
pub enum ActivationPolicy {
    /// The ordinary policy: a visible dock icon.
    Regular,
    /// An accessory application: no dock icon.
    Accessory,
}

/// Why the bootstrap failed. There is no recovery from either: the process
/// reports a fatal message and exits.
#[derive(Clone, Copy, PartialEq, Eq, Structural, Debug)]
pub enum StartupError {
    /// Installing the tray menu failed during setup.
    TrayInitFailed,
    /// The framework failed to start or to run its event loop.
    LaunchFailed,
}

/// The startup plan for a platform: plugins, then the command registration,
/// then (on macOS only) the tray menu and the dock-icon policy, and finally
/// the run loop.
pub open spec fn spec_startup_plan(platform: Platform) -> Seq<StartupAction> {
    if platform is MacOs {
        seq![
            StartupAction::RegisterOpenerPlugin,
            StartupAction::RegisterPositionerPlugin,
            StartupAction::RegisterGreetCommand,
            StartupAction::InitTrayMenu,
            StartupAction::HideDockIcon,
            StartupAction::EnterRunLoop,
        ]
    } else {
        seq![
            StartupAction::RegisterOpenerPlugin,
            StartupAction::RegisterPositionerPlugin,
            StartupAction::RegisterGreetCommand,
            StartupAction::EnterRunLoop,
        ]
    }
}

/// An action is tray-related when it exists only for the macOS menu-bar
/// presence: installing the tray menu or hiding the dock icon.
pub open spec fn is_tray_related(a: StartupAction) -> bool {
    a is InitTrayMenu || a is HideDockIcon
}

/// Builds the startup plan for `platform`.
pub fn startup_plan(platform: Platform) -> (plan: Vec<StartupAction>)
    ensures
        plan@ == spec_startup_plan(platform),
{
    let mut plan: Vec<StartupAction> = Vec::new();
    plan.push(StartupAction::RegisterOpenerPlugin);
    plan.push(StartupAction::RegisterPositionerPlugin);
    plan.push(StartupAction::RegisterGreetCommand);
    if matches!(platform, Platform::MacOs) {
        plan.push(StartupAction::InitTrayMenu);
        plan.push(StartupAction::HideDockIcon);
    }
    plan.push(StartupAction::EnterRunLoop);
    proof {
        assert(plan@ =~= spec_startup_plan(platform));
    }
    plan
}

/// The activation policy the bootstrap sets: on macOS the application runs
/// as an accessory, so its dock icon is hidden; elsewhere the policy is left
/// as the framework's regular default.
pub fn activation_policy(platform: Platform) -> (p: ActivationPolicy)
    ensures
        p == (if platform is MacOs {
            ActivationPolicy::Accessory
        } else {
            ActivationPolicy::Regular
        }),
{
    match platform {
        Platform::MacOs => ActivationPolicy::Accessory,
        Platform::Other => ActivationPolicy::Regular,
    }
}

/// The outcome of the setup step. On macOS the tray menu is installed and a
/// failure there propagates as a startup error; on every other platform the
/// setup touches nothing tray-related and always succeeds.
pub fn setup_outcome(platform: Platform, tray_init_ok: bool) -> (r: Result<(), StartupError>)
    ensures
        r == (if platform is MacOs && !tray_init_ok {
            Err::<(), StartupError>(StartupError::TrayInitFailed)
        } else {
            Ok::<(), StartupError>(())
        }),
{
    match platform {
        Platform::MacOs => {
            if tray_init_ok {
                Ok(())
            } else {
                Err(StartupError::TrayInitFailed)
            }
        },
        Platform::Other => Ok(()),
    }
}

/// The outcome of the whole bootstrap, given whether the two steps that can
/// fail succeeded: the setup (whose only failure is tray installation) and
/// the framework's launch. Setup failure is reported first; a launch failure
/// can only surface once setup has succeeded; nothing else can fail.
pub fn bootstrap_outcome(platform: Platform, tray_init_ok: bool, launch_ok: bool) -> (r: Result<
    (),
    StartupError,
>)
    ensures
        r == (if platform is MacOs && !tray_init_ok {
            Err::<(), StartupError>(StartupError::TrayInitFailed)
        } else if !launch_ok {
            Err::<(), StartupError>(StartupError::LaunchFailed)
        } else {
            Ok::<(), StartupError>(())
        }),
{
    let setup = setup_outcome(platform, tray_init_ok);
    match setup {
        Err(e) => Err(e),
        Ok(()) => {
            if launch_ok {
                Ok(())
            } else {
                Err(StartupError::LaunchFailed)
            }
        },
    }
}

/// The fatal message the process reports when the bootstrap fails. Every
/// failure is unrecoverable and reported the same way, whichever error it was.
pub fn fatal_message(e: StartupError) -> (r: String)
    ensures
        r@ == "error while running tauri application"@,
{
    let _ = e;
    String::from_str("error while running tauri application")
}

/// On a platform other than macOS, the startup runs no tray-related action
/// at all, and still ends by entering the run loop.
pub proof fn lemma_non_macos_no_tray(platform: Platform)
    requires
        platform is Other,
    ensures
        forall|i: int|
            0 <= i < spec_startup_plan(platform).len() ==> !is_tray_related(
                #[trigger] spec_startup_plan(platform)[i],
            ),
        spec_startup_plan(platform).len() > 0,
        spec_startup_plan(platform).last() == StartupAction::EnterRunLoop,
{
}

/// On macOS, the startup installs the tray menu and hides the dock icon, and
/// every tray-related action comes before the run loop is entered: the run
/// loop is the last action of the plan, and only the last.
pub proof fn lemma_macos_tray_before_run_loop(platform: Platform)
    requires
        platform is MacOs,
    ensures
        spec_startup_plan(platform).contains(StartupAction::InitTrayMenu),
        spec_startup_plan(platform).contains(StartupAction::HideDockIcon),
        spec_startup_plan(platform).len() > 0,
        spec_startup_plan(platform).last() == StartupAction::EnterRunLoop,
        forall|i: int|
            0 <= i < spec_startup_plan(platform).len() - 1 ==> #[trigger] spec_startup_plan(
                platform,
            )[i] != StartupAction::EnterRunLoop,
{
    let plan = spec_startup_plan(platform);
    assert(plan[3] == StartupAction::InitTrayMenu);
    assert(plan[4] == StartupAction::HideDockIcon);
}

} // verus!
