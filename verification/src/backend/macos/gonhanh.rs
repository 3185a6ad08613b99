//! GoNhanh has no IPC channel while it runs — it reads its defaults only at
//! start-up. So its on/off bit is THE EXISTENCE OF THE PROCESS: on = write
//! defaults + open, off = SIGTERM. The `perAppMode` trap is diagnosed here.
use vstd::prelude::*;
use crate::doctor::{Finding, Level, fview, finding};
use crate::text::{owned, push_str, str_eq};

verus! {

/// GoNhanh's defaults domain.
pub const DEFAULTS_DOMAIN: &'static str = "org.gonhanh.GoNhanh";

/// Key of the on/off bit.
pub const KEY_ENABLED: &'static str = "gonhanh.enabled";

/// Key of per-app mode: when on, GoNhanh remembers the state per app and the
/// `enabled` key becomes a decoy.
pub const KEY_PER_APP: &'static str = "gonhanh.perAppMode";

/// Key of the toggle chord.
pub const KEY_SHORTCUT: &'static str = "gonhanh.shortcut.toggle";

/// Per-app mode is on unless `defaults read` printed exactly `0` (trimmed).
pub fn per_app_on(trimmed: &str) -> (r: bool)
    ensures
        r == (trimmed@ != "0"@),
{
    !str_eq(trimmed, "0")
}

/// The `perAppMode` finding (see [`per_app_mode_finding`]).
pub open spec fn spec_per_app_mode_finding(
    app_name: Seq<char>,
    read_ok: bool,
    per_app_on: bool,
    fix: bool,
    running: bool,
    restarted: bool,
) -> (Level, Seq<char>) {
    if !read_ok {
        (Level::Warn, "chưa đọc được defaults của "@ + app_name + " — app đã chạy lần đầu chưa?"@)
    } else if !per_app_on {
        (Level::Good, KEY_PER_APP@ + " = 0"@)
    } else if !fix {
        (
            Level::Warn,
            KEY_PER_APP@
                + " đang bật — chạy `tongue doctor --fix` để ghim về 0 (không thì trạng thái enabled không tin được)"@,
        )
    } else if !running {
        (Level::Good, "đã ghim "@ + KEY_PER_APP@ + "=0 cho "@ + app_name)
    } else if restarted {
        (Level::Good, "đã ghim "@ + KEY_PER_APP@ + "=0 và restart "@ + app_name)
    } else {
        (
            Level::Warn,
            "đã ghim "@ + KEY_PER_APP@ + "=0 — cần thoát và mở lại "@ + app_name
                + " để có hiệu lực (strategy hotkey không tự giết app)"@,
        )
    }
}

/// Level and message from what was read and written about `perAppMode`.
/// `per_app_on` = the value read was not `0`; `running`/`restarted` only matter
/// when `fix` and the value was on. A fix that could not restart a running app
/// (strategy `hotkey` never kills it) is NOT done yet: it warns, it does not
/// report success.
pub fn per_app_mode_finding(
    app_name: &str,
    read_ok: bool,
    per_app_on: bool,
    fix: bool,
    running: bool,
    restarted: bool,
) -> (f: Finding)
    ensures
        fview(f) == spec_per_app_mode_finding(app_name@, read_ok, per_app_on, fix, running, restarted),
{
    if !read_ok {
        let mut m = owned("chưa đọc được defaults của ");
        push_str(&mut m, app_name);
        push_str(&mut m, " — app đã chạy lần đầu chưa?");
        return finding(Level::Warn, m);
    }
    if !per_app_on {
        let mut m = owned(KEY_PER_APP);
        push_str(&mut m, " = 0");
        return finding(Level::Good, m);
    }
    if !fix {
        let mut m = owned(KEY_PER_APP);
        push_str(
            &mut m,
            " đang bật — chạy `tongue doctor --fix` để ghim về 0 (không thì trạng thái enabled không tin được)",
        );
        return finding(Level::Warn, m);
    }
    if !running {
        let mut m = owned("đã ghim ");
        push_str(&mut m, KEY_PER_APP);
        push_str(&mut m, "=0 cho ");
        push_str(&mut m, app_name);
        return finding(Level::Good, m);
    }
    if restarted {
        let mut m = owned("đã ghim ");
        push_str(&mut m, KEY_PER_APP);
        push_str(&mut m, "=0 và restart ");
        push_str(&mut m, app_name);
        return finding(Level::Good, m);
    }
    let mut m = owned("đã ghim ");
    push_str(&mut m, KEY_PER_APP);
    push_str(&mut m, "=0 — cần thoát và mở lại ");
    push_str(&mut m, app_name);
    push_str(&mut m, " để có hiệu lực (strategy hotkey không tự giết app)");
    finding(Level::Warn, m)
}

/// A fix that did not restart a running app never reports success.
pub proof fn lemma_unrestarted_fix_is_not_ok(app_name: Seq<char>)
    ensures
        spec_per_app_mode_finding(app_name, true, true, true, true, false).0 == Level::Warn,
{
}

/// Whether the `perAppMode` fix must restart the app: only when fixing a value
/// that is on, and only when the app runs — a dead app picks the new value up
/// at its next start.
pub open spec fn spec_needs_restart(fix: bool, per_app_on: bool, running: bool) -> bool {
    fix && per_app_on && running
}

/// Whether the `perAppMode` fix must restart the app.
pub fn needs_restart(fix: bool, per_app_on: bool, running: bool) -> (r: bool)
    ensures
        r == spec_needs_restart(fix, per_app_on, running),
{
    fix && per_app_on && running
}

/// How long a restart waits for the killed app to be gone.
pub const RESTART_WAIT_MS: u64 = 2000;

/// Interval between two checks while the killed app goes away.
pub const RESTART_POLL_MS: u64 = 50;

/// The next step of restarting the app so that it reads its defaults again.
#[derive(Debug, PartialEq, Eq, Structural)]
pub enum RestartNext {
    /// The app is not running: nothing holds the old value, nothing to restart.
    NotRunning,
    /// Terminate it.
    Stop,
    /// Still alive: check again after this many milliseconds.
    WaitMs(u64),
    /// Gone: launch it again — the restart is done.
    Start,
    /// Still alive at the deadline: give up with [`spec_restart_timeout_msg`].
    GaveUp,
}

/// The restart's decision on one reading of whether the app runs. `stopping`
/// says whether it was already terminated, and `deadline_ms` (the stop plus
/// [`RESTART_WAIT_MS`]) is on the same clock as `now_ms`. `killall` only SENDS
/// the signal: launching while the old process still lives would find it alive
/// and skip `open`, turning the restart into a kill — so the launch waits until
/// it is really gone.
pub open spec fn spec_restart_next(stopping: bool, running: bool, now_ms: u64, deadline_ms: u64) -> RestartNext {
    if !stopping {
        if running {
            RestartNext::Stop
        } else {
            RestartNext::NotRunning
        }
    } else if !running {
        RestartNext::Start
    } else if now_ms >= deadline_ms {
        RestartNext::GaveUp
    } else {
        RestartNext::WaitMs(RESTART_POLL_MS)
    }
}

/// Decides the restart's next step (see [`spec_restart_next`]).
pub fn restart_next(stopping: bool, running: bool, now_ms: u64, deadline_ms: u64) -> (n: RestartNext)
    ensures
        n == spec_restart_next(stopping, running, now_ms, deadline_ms),
{
    if !stopping {
        if running {
            RestartNext::Stop
        } else {
            RestartNext::NotRunning
        }
    } else if !running {
        RestartNext::Start
    } else if now_ms >= deadline_ms {
        RestartNext::GaveUp
    } else {
        RestartNext::WaitMs(RESTART_POLL_MS)
    }
}

/// The error when the killed app is still alive at the deadline.
pub open spec fn spec_restart_timeout_msg(app_name: Seq<char>) -> Seq<char> {
    app_name + " không thoát sau killall trong 2s — tắt thủ công rồi chạy lại `tongue doctor --fix`"@
}

/// The error when the killed app is still alive at the deadline.
pub fn restart_timeout_msg(app_name: &str) -> (s: String)
    ensures
        s@ == spec_restart_timeout_msg(app_name@),
{
    let mut s = owned(app_name);
    push_str(&mut s, " không thoát sau killall trong 2s — tắt thủ công rồi chạy lại `tongue doctor --fix`");
    s
}

/// The app is launched again only once it is gone, and only after it was stopped.
pub proof fn lemma_start_only_once_gone(stopping: bool, running: bool, now_ms: u64, deadline_ms: u64)
    ensures
        spec_restart_next(stopping, running, now_ms, deadline_ms) == RestartNext::Start <==> stopping && !running,
{
}

} // verus!
