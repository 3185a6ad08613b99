//! Reconcile: read the real state → apply what differs → read again until it
//! matches or the verify timeout runs out. Re-applying the layout on every round
//! is the retry that `TISSelectInputSource` needs with CJK sources.
//!
//! The loop itself (reading the machine, applying, sleeping) belongs to the
//! binary; every decision of the loop is taken by [`Reconcile`], a state machine
//! fed with what was observed and the current time in milliseconds.
use vstd::prelude::*;
use crate::mode::Desired;
use crate::text::{owned, push_str, str_eq};
use crate::status::opt_view;

verus! {

/// The verify did not match within the timeout: what was wanted and what the
/// machine showed on the last read.
#[derive(Debug)]
pub struct VerifyFailed {
    pub layout_expected: Option<String>,
    pub layout_actual: Option<String>,
    pub ime_expected: bool,
    pub ime_actual: bool,
}

/// What the loop does next.
#[derive(Debug)]
pub enum Step {
    /// The machine matches the target: success.
    Done,
    /// Out of time after at least one apply: exit 1.
    Failed(VerifyFailed),
    /// Apply the parts that differ, then wait one poll interval and read again.
    Apply {
        /// Layout to select, when the layout differs.
        select: Option<String>,
        /// Value to set the IME to, when the IME bit differs.
        set_ime: Option<bool>,
    },
}

/// The state of one reconcile run.
pub struct Reconcile {
    pub desired: Desired,
    pub timeout_ms: u64,
    /// Instant (ms) after which a still-differing read fails the run.
    pub deadline_ms: u64,
    /// Whether at least one apply has been performed.
    pub applied: bool,
}

/// `now + timeout`, capped at `u64::MAX`.
pub open spec fn spec_deadline(now_ms: u64, timeout_ms: u64) -> u64 {
    if now_ms + timeout_ms > u64::MAX {
        u64::MAX
    } else {
        (now_ms + timeout_ms) as u64
    }
}

/// The layout part matches: nothing to compare, or the same identifier.
pub open spec fn spec_layout_ok(desired: Option<Seq<char>>, current: Option<Seq<char>>) -> bool {
    match (desired, current) {
        (Some(w), Some(g)) => w == g,
        _ => true,
    }
}

impl Reconcile {
    /// A new run, its clock started at `now_ms`: the first deadline is provisional
    /// and is reset once the first apply is done.
    pub fn start(desired: Desired, timeout_ms: u64, now_ms: u64) -> (r: Reconcile)
        ensures
            r.desired == desired,
            r.timeout_ms == timeout_ms,
            r.deadline_ms == spec_deadline(now_ms, timeout_ms),
            !r.applied,
    {
        Reconcile { desired, timeout_ms, deadline_ms: now_ms.saturating_add(timeout_ms), applied: false }
    }

    /// Whether the current layout must be read: only when the target names one.
    pub fn wants_layout(&self) -> (r: bool)
        ensures
            r == self.desired.layout is Some,
    {
        self.desired.layout.is_some()
    }

    /// Decides from one reading of the machine (the current layout when it was
    /// read, the IME bit) taken at `now_ms`; see [`observe_rel`].
    pub fn observe(&self, current_layout: Option<String>, current_ime: bool, now_ms: u64) -> (r: Step)
        ensures
            observe_rel(*self, current_layout, current_ime, now_ms, r),
    {
        let layout_ok = match (&self.desired.layout, &current_layout) {
            (Some(want), Some(got)) => str_eq(want.as_str(), got.as_str()),
            _ => true,
        };
        let ime_ok = current_ime == self.desired.ime_on;
        if layout_ok && ime_ok {
            return Step::Done;
        }
        // Always apply at least once before failing is allowed.
        if self.applied && now_ms >= self.deadline_ms {
            return Step::Failed(
                VerifyFailed {
                    layout_expected: self.desired.layout.clone(),
                    layout_actual: current_layout,
                    ime_expected: self.desired.ime_on,
                    ime_actual: current_ime,
                },
            );
        }
        let select = if !layout_ok {
            self.desired.layout.clone()
        } else {
            None
        };
        let set_ime = if !ime_ok {
            Some(self.desired.ime_on)
        } else {
            None
        };
        Step::Apply { select, set_ime }
    }

    /// Records that an apply finished at `now_ms`; see [`after_apply_rel`].
    pub fn after_apply(&mut self, now_ms: u64)
        ensures
            after_apply_rel(*old(self), *final(self), now_ms),
    {
        if !self.applied {
            self.deadline_ms = now_ms.saturating_add(self.timeout_ms);
            self.applied = true;
        }
    }
}

/// The decision taken on one reading:
/// - both parts match → [`Step::Done`];
/// - otherwise, after at least one apply and at or past the deadline →
///   [`Step::Failed`] carrying the target and the last reading;
/// - otherwise [`Step::Apply`] of exactly the parts that differ.
pub open spec fn observe_rel(rc: Reconcile, current_layout: Option<String>, current_ime: bool, now_ms: u64, r: Step) -> bool {
    let layout_ok = spec_layout_ok(opt_view(rc.desired.layout), opt_view(current_layout));
    let ime_ok = current_ime == rc.desired.ime_on;
    &&& (r is Done) <==> (layout_ok && ime_ok)
    &&& (r is Failed) <==> (!(layout_ok && ime_ok) && rc.applied && now_ms >= rc.deadline_ms)
    &&& r matches Step::Failed(vf) ==> {
        &&& opt_view(vf.layout_expected) == opt_view(rc.desired.layout)
        &&& opt_view(vf.layout_actual) == opt_view(current_layout)
        &&& vf.ime_expected == rc.desired.ime_on
        &&& vf.ime_actual == current_ime
    }
    &&& r matches Step::Apply { select, set_ime } ==> {
        &&& (select is Some) == !layout_ok
        &&& select matches Some(l) ==> Some(l@) == opt_view(rc.desired.layout)
        &&& set_ime == (if ime_ok { None } else { Some(rc.desired.ime_on) })
    }
}

/// The state after an apply finished at `now_ms`. The first apply may block for
/// long (VKey's cold start takes up to 5 s), so the verify clock starts again
/// from the end of it; later applies leave the deadline alone.
pub open spec fn after_apply_rel(old: Reconcile, new: Reconcile, now_ms: u64) -> bool {
    &&& new.desired == old.desired
    &&& new.timeout_ms == old.timeout_ms
    &&& new.applied
    &&& !old.applied ==> new.deadline_ms == spec_deadline(now_ms, old.timeout_ms)
    &&& old.applied ==> new.deadline_ms == old.deadline_ms
}

/// Always apply at least once before a failure is allowed: a run that has not
/// applied yet never fails, however late the reading.
pub proof fn lemma_never_fails_before_first_apply(
    rc: Reconcile,
    current_layout: Option<String>,
    current_ime: bool,
    now_ms: u64,
    r: Step,
)
    requires
        !rc.applied,
        observe_rel(rc, current_layout, current_ime, now_ms, r),
    ensures
        !(r is Failed),
{
}

/// The verify budget is counted from the end of the first apply: after a first
/// apply that finished at `t1`, no reading taken before `t1 + timeout` fails the
/// run, however long the apply itself took.
pub proof fn lemma_budget_counts_from_first_apply(
    before: Reconcile,
    after: Reconcile,
    t1: u64,
    current_layout: Option<String>,
    current_ime: bool,
    t: u64,
    r: Step,
)
    requires
        !before.applied,
        after_apply_rel(before, after, t1),
        t1 + before.timeout_ms <= u64::MAX,
        t < t1 + before.timeout_ms,
        observe_rel(after, current_layout, current_ime, t, r),
    ensures
        !(r is Failed),
{
}

/// A run ends in success exactly when the reading matches the target, and
/// applying touches only the parts that differ: a matching part is never
/// re-applied (the tool is idempotent: a repeated `tongue vi` does nothing).
pub proof fn lemma_matching_state_is_left_alone(
    rc: Reconcile,
    current_layout: Option<String>,
    current_ime: bool,
    now_ms: u64,
    r: Step,
)
    requires
        observe_rel(rc, current_layout, current_ime, now_ms, r),
    ensures
        spec_layout_ok(opt_view(rc.desired.layout), opt_view(current_layout)) && current_ime
            == rc.desired.ime_on ==> r is Done,
        r matches Step::Apply { select, set_ime } ==> {
            &&& spec_layout_ok(opt_view(rc.desired.layout), opt_view(current_layout)) ==> select is None
            &&& current_ime == rc.desired.ime_on ==> set_ime is None
        },
{
}

/// The retry that slow input sources need: while time remains (or before the
/// first apply), a layout that still differs is selected again on every round,
/// not only once.
pub proof fn lemma_differing_layout_is_reselected(
    rc: Reconcile,
    current_layout: Option<String>,
    current_ime: bool,
    now_ms: u64,
    r: Step,
)
    requires
        observe_rel(rc, current_layout, current_ime, now_ms, r),
        !spec_layout_ok(opt_view(rc.desired.layout), opt_view(current_layout)),
        !rc.applied || now_ms < rc.deadline_ms,
    ensures
        r matches Step::Apply { select, .. } && select is Some,
{
}

/// The two parts of the failure message.
pub open spec fn spec_on_off(b: bool) -> Seq<char> {
    if b {
        "bật"@
    } else {
        "tắt"@
    }
}

/// The layout part of the failure message, when both layouts are known and differ.
pub open spec fn spec_layout_part(want: Option<Seq<char>>, got: Option<Seq<char>>) -> Seq<Seq<char>> {
    match (want, got) {
        (Some(w), Some(g)) => if w != g {
            seq!["layout muốn "@ + w + ", thực tế "@ + g]
        } else {
            Seq::empty()
        },
        _ => Seq::empty(),
    }
}

/// The IME part of the failure message, when the bit differs.
pub open spec fn spec_ime_part(want: bool, got: bool) -> Seq<Seq<char>> {
    if want != got {
        seq!["bộ gõ ngoài muốn "@ + spec_on_off(want) + ", thực tế "@ + spec_on_off(got)]
    } else {
        Seq::empty()
    }
}

impl VerifyFailed {
    /// The message shown for a failed verify (what `Display` printed).
    pub open spec fn spec_message(self) -> Seq<char> {
        "verify trượt sau timeout: "@ + crate::doctor::seq_join(
            spec_layout_part(opt_view(self.layout_expected), opt_view(self.layout_actual))
                + spec_ime_part(self.ime_expected, self.ime_actual),
            "; "@,
        )
    }

    /// The message shown for a failed verify.
    pub fn message(&self) -> (s: String)
        ensures
            s@ == self.spec_message(),
    {
        let mut parts: Vec<String> = Vec::new();
        if let (Some(want), Some(got)) = (&self.layout_expected, &self.layout_actual) {
            if !str_eq(want.as_str(), got.as_str()) {
                let mut p = owned("layout muốn ");
                push_str(&mut p, want.as_str());
                push_str(&mut p, ", thực tế ");
                push_str(&mut p, got.as_str());
                parts.push(p);
            }
        }
        if self.ime_expected != self.ime_actual {
            let mut p = owned("bộ gõ ngoài muốn ");
            push_str(&mut p, if self.ime_expected { "bật" } else { "tắt" });
            push_str(&mut p, ", thực tế ");
            push_str(&mut p, if self.ime_actual { "bật" } else { "tắt" });
            parts.push(p);
        }
        let mut s = owned("verify trượt sau timeout: ");
        let joined = crate::doctor::join(parts.as_slice(), "; ");
        push_str(&mut s, joined.as_str());
        assert(crate::doctor::views(parts@) =~= spec_layout_part(
            opt_view(self.layout_expected),
            opt_view(self.layout_actual),
        ) + spec_ime_part(self.ime_expected, self.ime_actual));
        s
    }
}

} // verus!
