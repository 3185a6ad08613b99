//! External input methods of the "the process is the bit" kind: app running =
//! on, app dead = off. Right for most macOS input methods without an IPC channel
//! (EVKey, OpenKey...). GoNhanh is the same kind plus a `defaults` write.
use vstd::prelude::*;
use crate::doctor::{Finding, Level, fview, finding};
use crate::text::{owned, push_str};

verus! {

/// What to do with the app's process to reach a wanted state.
#[derive(Debug, PartialEq, Eq, Structural)]
pub enum ProcessAction {
    /// Open it (`open -ga`).
    Launch,
    /// Terminate it (`killall`).
    Terminate,
    /// Leave it as it is.
    Nothing,
}

/// Launch when on is wanted and it is down, terminate when off is wanted and it
/// runs, otherwise nothing.
pub open spec fn spec_process_action(on: bool, running: bool) -> ProcessAction {
    if on && !running {
        ProcessAction::Launch
    } else if !on && running {
        ProcessAction::Terminate
    } else {
        ProcessAction::Nothing
    }
}

/// What `set(on)` does to the process, given whether it runs.
pub fn process_action(on: bool, running: bool) -> (a: ProcessAction)
    ensures
        a == spec_process_action(on, running),
{
    if on && !running {
        ProcessAction::Launch
    } else if !on && running {
        ProcessAction::Terminate
    } else {
        ProcessAction::Nothing
    }
}

/// Switching is idempotent: when the process already is in the wanted state
/// nothing is launched or killed.
pub proof fn lemma_process_action_idempotent(on: bool)
    ensures
        spec_process_action(on, on) == ProcessAction::Nothing,
{
}

/// The finding about the app bundle.
pub open spec fn spec_bundle_finding(app_name: Seq<char>, found: bool) -> (Level, Seq<char>) {
    if found {
        (Level::Good, app_name + ".app có mặt"@)
    } else {
        (Level::Fail, "không thấy "@ + app_name + ".app trong /Applications hoặc ~/Applications"@)
    }
}

/// Whether `<app_name>.app` was found in `/Applications` or `~/Applications`,
/// as a finding.
pub fn diagnose_bundle(app_name: &str, found: bool) -> (f: Finding)
    ensures
        fview(f) == spec_bundle_finding(app_name@, found),
{
    if found {
        let mut m = owned(app_name);
        push_str(&mut m, ".app có mặt");
        finding(Level::Good, m)
    } else {
        let mut m = owned("không thấy ");
        push_str(&mut m, app_name);
        push_str(&mut m, ".app trong /Applications hoặc ~/Applications");
        finding(Level::Fail, m)
    }
}

/// Where an app's bundle may be: `/Applications/<app>.app`, then
/// `<home>/Applications/<app>.app`.
pub open spec fn spec_bundle_paths(app_name: Seq<char>, home: Seq<char>) -> Seq<Seq<char>> {
    seq!["/Applications/"@ + app_name + ".app"@, home + "/Applications/"@ + app_name + ".app"@]
}

/// The paths to look for `<app_name>.app` in, `home` being `$HOME` (empty when
/// unset). The bundle counts as present when either exists.
pub fn bundle_paths(app_name: &str, home: &str) -> (v: Vec<String>)
    ensures
        crate::doctor::views(v@) == spec_bundle_paths(app_name@, home@),
{
    let mut a = owned("/Applications/");
    push_str(&mut a, app_name);
    push_str(&mut a, ".app");
    let mut b = owned(home);
    push_str(&mut b, "/Applications/");
    push_str(&mut b, app_name);
    push_str(&mut b, ".app");
    let mut v: Vec<String> = Vec::new();
    v.push(a);
    v.push(b);
    assert(crate::doctor::views(v@) =~= spec_bundle_paths(app_name@, home@));
    v
}

} // verus!
