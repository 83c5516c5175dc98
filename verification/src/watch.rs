//! The watch loop's decisions: what to do with each delivery from the
//! watcher, how a mid-watch launch failure ends the loop, and whether
//! startup may proceed to serving.
//!
//! The loop itself runs outside: it receives each delivery, asks
//! [`watch_step`] for the action, performs it, and feeds any launch result
//! back through [`launch_failure_is_fatal`].

use vstd::prelude::*;

use crate::events::ChangeEvent;
use crate::events::event_qualifies;
use crate::events::qualifies;

verus! {

/// What the watch loop does with one delivery.
#[derive(Clone, Copy, Debug, PartialEq, Eq, Structural)]
pub enum WatchAction {
    /// Launch one build for this event.
    TriggerBuild,
    /// Report the watcher's delivery error and continue.
    ReportError,
    /// Do nothing for this event.
    Ignore,
}

/// The per-delivery decision of the watch loop. Exactly one action comes
/// back for each delivery: a build is triggered if and only if the event
/// qualifies, a delivery error is reported and recovered, and everything
/// else is ignored.
pub fn watch_step(delivery: &Result<ChangeEvent, String>) -> (a: WatchAction)
    ensures
        a == WatchAction::TriggerBuild <==> ((*delivery) matches Ok(e) && qualifies(e)),
        a == WatchAction::ReportError <==> (*delivery) is Err,
        a == WatchAction::Ignore <==> ((*delivery) matches Ok(e) && !qualifies(e)),
{
    match delivery {
        Ok(e) => if event_qualifies(e) {
            WatchAction::TriggerBuild
        } else {
            WatchAction::Ignore
        },
        Err(_) => WatchAction::ReportError,
    }
}

/// A failure to launch the compiler from inside the watch loop is the one
/// unrecovered error of the loop: it ends the loop, while the server keeps
/// running without further rebuilds.
pub fn launch_failure_is_fatal(launch: &Result<(), String>) -> (fatal: bool)
    ensures
        fatal <==> (*launch) is Err,
{
    launch.is_err()
}

/// The startup gate: serving may begin exactly when the initial build
/// launch succeeded. A failed initial launch aborts startup before the
/// server binds.
pub fn should_serve(initial_launch: &Result<(), String>) -> (serve: bool)
    ensures
        serve <==> (*initial_launch) is Ok,
{
    initial_launch.is_ok()
}

/// A failed first compiler launch makes [`should_serve`] deny serving:
/// no socket is opened afterwards.
pub proof fn lemma_failed_launch_never_serves(initial_launch: Result<(), String>, serve: bool)
    requires
        serve <==> initial_launch is Ok,
    ensures
        initial_launch is Err ==> !serve,
{
}

} // verus!
