//! Strategy `hotkey`: keep GoNhanh alive and switch vi/en with the very toggle
//! chord the app registered, instead of killing and launching it.
//!
//! INVARIANT of this module — the chord is a RELAY, not idempotent: GoNhanh
//! takes 87–286 ms to write `gonhanh.enabled`, while reconcile calls `set()`
//! again every 50 ms poll that still differs. Returning early would fire two to
//! six chords and flip the mode back and forth. So `set()` WAITS for
//! confirmation itself, and fires AT MOST ONE chord per run of tongue.
//!
//! SECOND HALF, not implied by the first: the "one chord per run" latch is kept
//! by the caller and only holds within ONE process; the same 87–286 ms window lets a
//! SECOND tongue process read a stale state. So `set()` also runs under an
//! inter-process lock (`Gate`), and the read that decides whether to fire happens
//! INSIDE that lock.
//!
//! The logic sits behind four traits so that it can be driven by fakes; the real
//! implementations (CoreGraphics, `defaults`, `open`, a lock file) are the
//! binary's.
use vstd::prelude::*;
use crate::doctor::{Finding, Level, fview, fviews, finding};
use crate::text::{owned, push_str};
use crate::backend::macos::chord::{Chord, describe, spec_describe};
use crate::backend::macos::app::{diagnose_bundle, spec_bundle_finding};
use crate::backend::macos::gonhanh::KEY_ENABLED;
use std::time::{Duration, Instant};

verus! {

/// `std::time::Instant`, for the confirmation deadline.
#[verifier::external_type_specification]
#[verifier::external_body]
pub struct ExInstant(Instant);

/// Fires the toggle chord.
pub trait ChordSender {
    fn send(&self) -> Result<(), anyhow::Error>;
}

/// Starts the app.
pub trait Launcher {
    /// Writes enabled=1 then opens the app — it reads its defaults at start-up,
    /// so it comes up already on.
    fn launch(&self) -> Result<(), anyhow::Error>;
}

/// Reads the app's state, and waits between two reads.
pub trait StateSource {
    fn running(&self) -> Result<bool, anyhow::Error>;
    /// `None` = the key was never written.
    fn enabled(&self) -> Result<Option<bool>, anyhow::Error>;
    /// Blocks the caller for about `d` before the next read.
    fn pause(&self, d: Duration);
}

/// What holds the lock: its only job is to be alive. The lock is released when
/// it is dropped.
pub trait GateGuard {
}

/// Inter-PROCESS lock around read state → fire chord → wait for confirmation.
pub trait Gate {
    /// Blocks until exclusive access is won. `Ok(None)` = gave up waiting while
    /// another tongue process still holds it.
    fn enter(&self) -> Result<Option<Box<dyn GateGuard>>, anyhow::Error>;
}

/// The current instant (`Instant::now`); it depends on the clock, so nothing is
/// stated of it.
#[verifier::external_body]
fn clock_now() -> Instant {
    Instant::now()
}

/// `t + d`, `None` when the platform cannot represent it
/// (`Instant::checked_add`); which instants are representable depends on the
/// machine, so nothing is stated.
#[verifier::external_body]
fn instant_after(t: Instant, d: Duration) -> Option<Instant> {
    t.checked_add(d)
}

/// Whether `now` is at or past `deadline` (`Instant`'s `>=`); instants are
/// opaque here, so nothing is stated.
#[verifier::external_body]
fn reached(now: &Instant, deadline: &Instant) -> bool {
    now >= deadline
}

/// The whole milliseconds in `d` (`Duration::as_millis`); nothing is stated of
/// the value, which only sizes the confirmation loop.
#[verifier::external_body]
fn whole_millis(d: Duration) -> u128 {
    d.as_millis()
}

/// What `set` does once it has tried the lock and read the app's state.
#[derive(Clone, Copy, Debug, PartialEq, Eq, Structural)]
pub enum HotkeyAction {
    /// Nothing to do: the lock was not won (another tongue run still holds it),
    /// already in the wanted state, or the app is down and `en` is wanted (a dead
    /// app IS `en`), or this run already fired its one chord.
    Nothing,
    /// The app is down and `vi` is wanted: launch it — it starts already on, so
    /// firing a chord as well would switch it off again.
    Launch,
    /// The app runs in the other state and no chord was fired yet in this run.
    Fire,
}

/// The decision of `set`: `locked` whether the inter-process lock was won,
/// `running` and `on_now` the state read inside the lock (`on_now` only matters
/// when the app runs), `want` the wanted state and `fired` whether this run
/// already fired a chord. Without the lock nothing is done: firing then would
/// recreate the very race the lock prevents.
pub open spec fn spec_hotkey_action(locked: bool, running: bool, on_now: bool, want: bool, fired: bool) -> HotkeyAction {
    if !locked {
        HotkeyAction::Nothing
    } else if !running {
        if want {
            HotkeyAction::Launch
        } else {
            HotkeyAction::Nothing
        }
    } else if on_now == want {
        HotkeyAction::Nothing
    } else if fired {
        HotkeyAction::Nothing
    } else {
        HotkeyAction::Fire
    }
}

/// Decides what `set` does from the state it read (see [`spec_hotkey_action`]).
pub fn hotkey_action(locked: bool, running: bool, on_now: bool, want: bool, fired: bool) -> (a: HotkeyAction)
    ensures
        a == spec_hotkey_action(locked, running, on_now, want, fired),
{
    if !locked {
        HotkeyAction::Nothing
    } else if !running {
        if want {
            HotkeyAction::Launch
        } else {
            HotkeyAction::Nothing
        }
    } else if on_now == want {
        HotkeyAction::Nothing
    } else if fired {
        HotkeyAction::Nothing
    } else {
        HotkeyAction::Fire
    }
}

/// At most ONE chord per run: once the latch is set, no state whatsoever leads
/// to another chord; and a chord is only ever fired at a running app that is in
/// the other state.
pub proof fn lemma_at_most_one_chord_per_run(locked: bool, running: bool, on_now: bool, want: bool)
    ensures
        spec_hotkey_action(locked, running, on_now, want, true) != HotkeyAction::Fire,
        spec_hotkey_action(locked, running, on_now, want, false) == HotkeyAction::Fire ==> locked && running
            && on_now != want,
{
}

/// Launching never goes with a chord, and happens only to switch `vi` on; an app
/// that is down is never launched to reach `en`.
pub proof fn lemma_launch_only_to_turn_on(locked: bool, running: bool, on_now: bool, want: bool, fired: bool)
    ensures
        spec_hotkey_action(locked, running, on_now, want, fired) == HotkeyAction::Launch <==> locked && !running
            && want,
{
}

/// The `hotkey` strategy's core, independent of how chords are sent and state is
/// read.
pub struct HotkeyCore<'a> {
    sender: &'a dyn ChordSender,
    launcher: &'a dyn Launcher,
    state: &'a dyn StateSource,
    gate: &'a dyn Gate,
    timeout: Duration,
    poll: Duration,
}

impl<'a> HotkeyCore<'a> {
    /// A core over these collaborators, with the confirmation budget `timeout`
    /// read every `poll`.
    pub fn new(
        sender: &'a dyn ChordSender,
        launcher: &'a dyn Launcher,
        state: &'a dyn StateSource,
        gate: &'a dyn Gate,
        timeout: Duration,
        poll: Duration,
    ) -> (c: Self)
        ensures
            c.timeout() == timeout,
            c.poll() == poll,
    {
        HotkeyCore { sender, launcher, state, gate, timeout, poll }
    }

    /// The confirmation budget.
    pub closed spec fn timeout(self) -> Duration {
        self.timeout
    }

    /// The interval between two confirmation reads.
    pub closed spec fn poll(self) -> Duration {
        self.poll
    }

    /// On = the app runs AND `gonhanh.enabled` reads true. A dead app with a
    /// leftover `enabled = 1` in its defaults types nothing. `enabled` is only
    /// read when the app runs.
    pub fn is_on(&self) -> Result<bool, anyhow::Error> {
        let running = self.state.running()?;
        let enabled = if running {
            self.state.enabled()?
        } else {
            None
        };
        Ok(on_reading(running, enabled))
    }

    /// Brings the app to `on` and answers what it did. Everything — reading the
    /// state, firing the chord, waiting for confirmation — happens INSIDE the
    /// inter-process lock; when the lock cannot be won within its budget nothing is
    /// read or fired at all, and reconcile reads the real state again and decides.
    /// The decision is [`hotkey_action`] on the lock's outcome and the state read
    /// inside it, with `fired` the run's latch: the caller keeps it for the whole
    /// run, since reconcile calls `set` several times and each call may build a
    /// new core. A chord sets the latch as soon as it is sent, and a set latch
    /// forbids any further chord — at most ONE chord per run. After a launch or a
    /// chord, `set` waits for the state to confirm (up to `timeout`) and returns
    /// `Ok` either way: reconcile alone decides `VerifyFailed`.
    pub fn set(&self, on: bool, fired: &mut bool) -> (r: Result<HotkeyAction, anyhow::Error>)
        ensures
            *old(fired) ==> *final(fired),
            r matches Ok(a) ==> {
                &&& exists|locked: bool, running: bool, on_now: bool|
                    a == #[trigger] spec_hotkey_action(locked, running, on_now, on, *old(fired))
                &&& *final(fired) == (*old(fired) || a == HotkeyAction::Fire)
                &&& set_step(*old(fired), a, *final(fired))
            },
    {
        // Held until `set` returns: the lock is released when it is dropped.
        let guard = self.gate.enter()?;
        let locked = guard.is_some();
        let (running, on_now) = if locked {
            let running = self.state.running()?;
            let on_now = if running {
                self.is_on()?
            } else {
                false
            };
            (running, on_now)
        } else {
            (false, false)
        };
        let action = hotkey_action(locked, running, on_now, on, *fired);
        match action {
            HotkeyAction::Nothing => {},
            HotkeyAction::Launch => {
                self.launcher.launch()?;
                self.wait_for(on)?;
            },
            HotkeyAction::Fire => {
                self.sender.send()?;
                *fired = true;
                self.wait_for(on)?;
            },
        }
        Ok(action)
    }

    /// Reads the state until it equals `want` or the `timeout` has passed; `Ok` either
    /// way.
    fn wait_for(&self, want: bool) -> Result<(), anyhow::Error> {
        let deadline = instant_after(clock_now(), self.timeout);
        let timeout_ms = whole_millis(self.timeout);
        let poll_ms = whole_millis(self.poll);
        // The deadline ends the wait; the read budget only makes the loop's end
        // evident. Each read but the last is followed by a pause of `poll`, so
        // `ceil((timeout + 1 ms) / poll) + 1` reads outlast the deadline; with no
        // pause at all only the deadline counts.
        let mut budget: u128 = if poll_ms == 0 {
            u128::MAX
        } else {
            let span = timeout_ms.saturating_add(1);
            let whole = span / poll_ms;
            let pauses = if span % poll_ms != 0 {
                whole.saturating_add(1)
            } else {
                whole
            };
            pauses.saturating_add(1)
        };
        while budget > 0
            decreases budget,
        {
            if self.is_on()? == want {
                return Ok(());
            }
            let expired = match &deadline {
                Some(d) => reached(&clock_now(), d),
                None => false,
            };
            if expired {
                return Ok(());
            }
            budget = budget - 1;
            if budget > 0 {
                self.state.pause(self.poll);
            }
        }
        Ok(())
    }
}

/// One call of [`HotkeyCore::set`] as its contract describes it: the latch
/// before, the action answered, and the latch after.
pub open spec fn set_step(before: bool, action: HotkeyAction, after: bool) -> bool {
    &&& before ==> action != HotkeyAction::Fire
    &&& after == (before || action == HotkeyAction::Fire)
}

/// A set latch stays set for the rest of the run.
proof fn lemma_latch_stays(latches: Seq<bool>, actions: Seq<HotkeyAction>, k: int, m: int)
    requires
        latches.len() == actions.len() + 1,
        forall|i: int| 0 <= i < actions.len() ==> set_step(latches[i], #[trigger] actions[i], latches[i + 1]),
        0 <= k <= m < latches.len(),
        latches[k],
    ensures
        latches[m],
    decreases m - k,
{
    if k < m {
        assert(set_step(latches[k], actions[k], latches[k + 1]));
        lemma_latch_stays(latches, actions, k + 1, m);
    }
}

/// At most ONE chord per run: over any sequence of `set` calls that share one
/// latch (starting unset, each call as its contract states), no two calls fire.
pub proof fn lemma_one_chord_over_a_run(latches: Seq<bool>, actions: Seq<HotkeyAction>)
    requires
        latches.len() == actions.len() + 1,
        !latches[0],
        forall|i: int| 0 <= i < actions.len() ==> set_step(latches[i], #[trigger] actions[i], latches[i + 1]),
    ensures
        forall|i: int, j: int|
            0 <= i < j < actions.len() && #[trigger] actions[i] == HotkeyAction::Fire ==> #[trigger] actions[j]
                != HotkeyAction::Fire,
{
    assert forall|i: int, j: int|
        0 <= i < j < actions.len() && #[trigger] actions[i] == HotkeyAction::Fire implies #[trigger] actions[j]
            != HotkeyAction::Fire by {
        assert(set_step(latches[i], actions[i], latches[i + 1]));
        lemma_latch_stays(latches, actions, i + 1, j);
        assert(set_step(latches[j], actions[j], latches[j + 1]));
    }
}

/// A second run that reads, inside the lock, a state already as wanted (the
/// first run just switched it) does nothing: no chord that would toggle it back.
/// A chord is only decided on a running app whose reading differs from the
/// wanted state.
pub proof fn lemma_state_already_wanted_is_left_alone(running: bool, enabled: Option<bool>, want: bool, fired: bool)
    ensures
        running && on_reading_spec(running, enabled) == want ==> spec_hotkey_action(
            true,
            running,
            on_reading_spec(running, enabled),
            want,
            fired,
        ) == HotkeyAction::Nothing,
        spec_hotkey_action(true, running, on_reading_spec(running, enabled), want, fired) == HotkeyAction::Fire
            ==> running && (enabled == Some(true)) != want,
{
}

/// What [`on_reading`] answers: the app runs and `enabled` reads true.
pub open spec fn on_reading_spec(running: bool, enabled: Option<bool>) -> bool {
    running && enabled == Some(true)
}

/// Without the lock `set` does nothing at all, whatever the state would read.
pub proof fn lemma_nothing_without_the_lock(running: bool, on_now: bool, want: bool, fired: bool)
    ensures
        spec_hotkey_action(false, running, on_now, want, fired) == HotkeyAction::Nothing,
{
}

/// Whether the app is on, from the two readings: it runs AND `gonhanh.enabled`
/// reads true. A dead app with a leftover `enabled = 1` types nothing, and an
/// `enabled` never written counts as off.
pub fn on_reading(running: bool, enabled: Option<bool>) -> (r: bool)
    ensures
        r == (running && enabled == Some(true)),
{
    running && enabled_or_off(enabled)
}

/// The `enabled` key read as a bit: never written counts as off.
pub fn enabled_or_off(enabled: Option<bool>) -> (r: bool)
    ensures
        r == (enabled == Some(true)),
{
    match enabled {
        Some(b) => b,
        None => false,
    }
}

/// The chord read from the defaults, or the reason it could not be read.
pub open spec fn chord_view(r: Result<Chord, String>) -> Result<Chord, Seq<char>> {
    match r {
        Ok(c) => Ok(c),
        Err(e) => Err(e@),
    }
}

/// The Accessibility finding.
pub open spec fn spec_ax_finding(trusted: bool) -> (Level, Seq<char>) {
    if trusted {
        (Level::Good, "Accessibility: tiến trình này được tin cậy"@)
    } else {
        (
            Level::Fail,
            "thiếu quyền Accessibility — chord sẽ không tới được GoNhanh. Quyền cấp cho TIẾN TRÌNH CHỦ chứ không cho binary tongue: nếu gõ tay trong terminal thì cấp cho chính app terminal đó, nếu gọi từ Hammerspoon thì cấp cho Hammerspoon (System Settings > Privacy & Security > Accessibility)"@,
        )
    }
}

/// The findings of the `hotkey` strategy (see [`hotkey_findings`]).
pub open spec fn spec_hotkey_findings(
    app_name: Seq<char>,
    bundle_found: bool,
    running: bool,
    enabled: Option<bool>,
    per_app: (Level, Seq<char>),
    ax_trusted: bool,
    chord: Result<Chord, Seq<char>>,
) -> Seq<(Level, Seq<char>)> {
    seq![spec_bundle_finding(app_name, bundle_found)] + seq![
        if running {
            (Level::Good, app_name + ": đang chạy"@)
        } else {
            (
                Level::Warn,
                app_name
                    + " không chạy — strategy hotkey cần app sống liên tục; lần `tongue vi`/`en` tới sẽ phải launch (cold-start) trước khi bắn chord được"@,
            )
        },
    ] + (if running && enabled is None {
        seq![
            (
                Level::Warn,
                app_name + " đang chạy nhưng chưa đọc được "@ + KEY_ENABLED@
                    + " — is_on() sẽ coi như tắt, `tongue vi` có thể bắn chord mù và TẮT MẤT tiếng Việt đang gõ (chord là toggle, không phải set thẳng)"@,
            ),
        ]
    } else {
        Seq::empty()
    }) + seq![per_app, spec_ax_finding(ax_trusted)] + seq![
        match chord {
            Ok(c) => (Level::Good, "chord toggle: "@ + spec_describe(c)),
            Err(e) => (Level::Fail, e),
        },
    ]
}

/// What `doctor` reports for the `hotkey` strategy, from what was observed: the
/// app bundle; whether the app runs (it must stay alive — a dead app means a
/// cold start before the next chord, a warning since it recovers by itself); a
/// warning when it runs but `gonhanh.enabled` cannot be read (a blind chord could
/// switch OFF Vietnamese being typed); the `perAppMode` finding (fixed without a
/// restart, since this strategy never kills the app); the Accessibility
/// permission, which belongs to the HOST process calling tongue; and the chord
/// read from the defaults, or why it could not be read.
pub fn hotkey_findings(
    app_name: &str,
    bundle_found: bool,
    running: bool,
    enabled: Option<bool>,
    per_app: Finding,
    ax_trusted: bool,
    chord: Result<Chord, String>,
) -> (fs: Vec<Finding>)
    ensures
        fviews(fs@) == spec_hotkey_findings(
            app_name@,
            bundle_found,
            running,
            enabled,
            fview(per_app),
            ax_trusted,
            chord_view(chord),
        ),
{
    let mut fs: Vec<Finding> = Vec::new();
    fs.push(diagnose_bundle(app_name, bundle_found));
    if running {
        let mut m = owned(app_name);
        push_str(&mut m, ": đang chạy");
        fs.push(finding(Level::Good, m));
    } else {
        let mut m = owned(app_name);
        push_str(
            &mut m,
            " không chạy — strategy hotkey cần app sống liên tục; lần `tongue vi`/`en` tới sẽ phải launch (cold-start) trước khi bắn chord được",
        );
        fs.push(finding(Level::Warn, m));
    }
    if running && enabled.is_none() {
        let mut m = owned(app_name);
        push_str(&mut m, " đang chạy nhưng chưa đọc được ");
        push_str(&mut m, KEY_ENABLED);
        push_str(
            &mut m,
            " — is_on() sẽ coi như tắt, `tongue vi` có thể bắn chord mù và TẮT MẤT tiếng Việt đang gõ (chord là toggle, không phải set thẳng)",
        );
        fs.push(finding(Level::Warn, m));
    }
    let ghost pa = fview(per_app);
    fs.push(per_app);
    if ax_trusted {
        fs.push(finding(Level::Good, owned("Accessibility: tiến trình này được tin cậy")));
    } else {
        fs.push(
            finding(
                Level::Fail,
                owned(
                    "thiếu quyền Accessibility — chord sẽ không tới được GoNhanh. Quyền cấp cho TIẾN TRÌNH CHỦ chứ không cho binary tongue: nếu gõ tay trong terminal thì cấp cho chính app terminal đó, nếu gọi từ Hammerspoon thì cấp cho Hammerspoon (System Settings > Privacy & Security > Accessibility)",
                ),
            ),
        );
    }
    let ghost ch = chord_view(chord);
    match chord {
        Ok(c) => {
            let mut m = owned("chord toggle: ");
            let d = describe(&c);
            push_str(&mut m, d.as_str());
            fs.push(finding(Level::Good, m));
        },
        Err(e) => {
            fs.push(finding(Level::Fail, e));
        },
    }
    assert(fviews(fs@) =~= spec_hotkey_findings(
        app_name@,
        bundle_found,
        running,
        enabled,
        pa,
        ax_trusted,
        ch,
    ));
    fs
}

/// Without the Accessibility permission the chord cannot reach GoNhanh, and the
/// `hotkey` report always FAILS for it.
pub proof fn lemma_missing_accessibility_fails(
    app_name: Seq<char>,
    bundle_found: bool,
    running: bool,
    enabled: Option<bool>,
    per_app: (Level, Seq<char>),
    chord: Result<Chord, Seq<char>>,
)
    ensures
        exists|i: int|
            0 <= i < spec_hotkey_findings(app_name, bundle_found, running, enabled, per_app, false, chord).len()
                && (#[trigger] spec_hotkey_findings(
                app_name,
                bundle_found,
                running,
                enabled,
                per_app,
                false,
                chord,
            )[i]).0 == Level::Fail,
{
    let r = spec_hotkey_findings(app_name, bundle_found, running, enabled, per_app, false, chord);
    let extra: int = if running && enabled is None { 1 } else { 0 };
    let i = 3 + extra;
    assert(r[i] == spec_ax_finding(false));
}

} // verus!
