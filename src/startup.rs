use vstd::prelude::*;
use crate::window::{WindowCommand, WindowFlags};

verus! {

/// What the host does once it has looked for the main window at startup.
#[derive(Clone, Copy, Debug, PartialEq, Eq, Structural)]
pub enum StartupAction {
    /// There is no main window: stop the process instead of running on.
    Abort,
    /// Carry out this command on the main window, on a best-effort basis.
    Apply(WindowCommand),
}

/// The startup decision: without a main window the application cannot
/// run; with one, click-through is turned on as the initial default.
pub open spec fn startup_action_of(main_window_found: bool) -> StartupAction {
    if main_window_found {
        StartupAction::Apply(WindowCommand::SetClickThrough { enabled: true })
    } else {
        StartupAction::Abort
    }
}

/// Decides how startup goes on, given whether the main window was found.
pub fn startup_action(main_window_found: bool) -> (a: StartupAction)
    ensures
        a == startup_action_of(main_window_found),
        !main_window_found ==> a == StartupAction::Abort,
{
    if main_window_found {
        StartupAction::Apply(WindowCommand::SetClickThrough { enabled: true })
    } else {
        StartupAction::Abort
    }
}

/// Records the answer of the toolkit to the startup command. A failure is
/// not fatal and is not reported: the window simply keeps its flags.
pub fn settle_startup(flags: &mut WindowFlags, cmd: WindowCommand, outcome: Result<(), String>)
    ensures
        outcome is Ok ==> *final(flags) == old(flags).applied(cmd),
        outcome is Err ==> *final(flags) == *old(flags),
{
    let _ = flags.complete(cmd, outcome);
}

} // verus!
