use std::cell::Cell;
use std::time::{Duration, Instant};
use tongue::backend::macos::app::diagnose_bundle;
use tongue::backend::macos::chord::Chord;
use tongue::backend::macos::hotkey::{
    enabled_or_off, hotkey_action, hotkey_findings, on_reading, ChordSender, Gate, GateGuard, HotkeyAction,
    HotkeyCore, Launcher, StateSource,
};
use tongue::doctor::{Finding, Level};

/// Locks nothing: for single-run tests, where serialisation is not what is checked.
struct NoLock;
struct EmptyGuard;
impl GateGuard for EmptyGuard {}
impl Gate for NoLock {
    fn enter(&self) -> anyhow::Result<Option<Box<dyn GateGuard>>> {
        Ok(Some(Box::new(EmptyGuard)))
    }
}

/// A lock that is always held by someone else.
struct HeldElsewhere;
impl Gate for HeldElsewhere {
    fn enter(&self) -> anyhow::Result<Option<Box<dyn GateGuard>>> {
        Ok(None)
    }
}

fn wait(d: Duration) {
    let end = Instant::now() + d;
    while Instant::now() < end {}
}

/// `enabled` only changes after `pending` reads — the 87–286 ms the app takes to
/// write its defaults, which a 50 ms poll runs into.
struct FakeState {
    running: Cell<bool>,
    enabled: Cell<bool>,
    pending: Cell<u32>,
    next: Cell<Option<bool>>,
    reads: Cell<u32>,
}
impl FakeState {
    fn new(running: bool, enabled: bool) -> Self {
        Self {
            running: Cell::new(running),
            enabled: Cell::new(enabled),
            pending: Cell::new(0),
            next: Cell::new(None),
            reads: Cell::new(0),
        }
    }
    /// After `n` more reads, `enabled` becomes `value`.
    fn change_after(&self, n: u32, value: bool) {
        self.pending.set(n);
        self.next.set(Some(value));
    }
}
impl StateSource for FakeState {
    fn running(&self) -> anyhow::Result<bool> {
        Ok(self.running.get())
    }
    fn enabled(&self) -> anyhow::Result<Option<bool>> {
        self.reads.set(self.reads.get() + 1);
        let left = self.pending.get();
        if left > 0 {
            self.pending.set(left - 1);
            if left == 1 {
                if let Some(v) = self.next.get() {
                    self.enabled.set(v);
                }
            }
        }
        Ok(Some(self.enabled.get()))
    }
    fn pause(&self, d: Duration) {
        wait(d);
    }
}

struct FakeSender<'a> {
    count: Cell<u32>,
    state: &'a FakeState,
    /// reads before `enabled` flips, after each chord
    delay: u32,
}
impl<'a> ChordSender for FakeSender<'a> {
    fn send(&self) -> anyhow::Result<()> {
        self.count.set(self.count.get() + 1);
        let flipped = !self.state.enabled.get();
        self.state.change_after(self.delay, flipped);
        Ok(())
    }
}

/// The chord goes out but has NO effect — Accessibility revoked, app hung.
struct LostSender {
    count: Cell<u32>,
}
impl ChordSender for LostSender {
    fn send(&self) -> anyhow::Result<()> {
        self.count.set(self.count.get() + 1);
        Ok(())
    }
}

struct FakeLauncher<'a> {
    count: Cell<u32>,
    state: &'a FakeState,
}
impl<'a> Launcher for FakeLauncher<'a> {
    fn launch(&self) -> anyhow::Result<()> {
        self.count.set(self.count.get() + 1);
        self.state.running.set(true);
        self.state.enabled.set(true);
        Ok(())
    }
}

struct NeverLaunch;
impl Launcher for NeverLaunch {
    fn launch(&self) -> anyhow::Result<()> {
        panic!("không được launch ở nhánh này");
    }
}

fn ms(n: u64) -> Duration {
    Duration::from_millis(n)
}

#[test]
fn bat_vi_chi_ban_mot_chord_du_readback_tre() {
    let st = FakeState::new(true, false);
    let sender = FakeSender {
        count: Cell::new(0),
        state: &st,
        delay: 6,
    };
    let lc = NeverLaunch;
    let mut fired = false;
    let core = HotkeyCore::new(&sender, &lc, &st, &NoLock, ms(1000), ms(1));
    core.set(true, &mut fired).unwrap();
    assert_eq!(sender.count.get(), 1, "phải bắn đúng 1 chord");
    assert!(core.is_on().unwrap(), "phải kết thúc ở trạng thái bật");
}

#[test]
fn chord_truot_thi_khong_ban_cu_thu_hai() {
    let st = FakeState::new(true, false);
    let sender = LostSender {
        count: Cell::new(0),
    };
    let lc = NeverLaunch;
    let mut fired = false;
    let core = HotkeyCore::new(&sender, &lc, &st, &NoLock, ms(20), ms(1));
    core.set(true, &mut fired).unwrap();
    core.set(true, &mut fired).unwrap();
    core.set(true, &mut fired).unwrap();
    assert_eq!(sender.count.get(), 1, "tối đa một chord mỗi lần chạy");
}

#[test]
fn core_moi_moi_luot_van_chi_ban_mot_chord() {
    let st = FakeState::new(true, false);
    let sender = LostSender {
        count: Cell::new(0),
    };
    let lc = NeverLaunch;
    let mut fired = false;
    for _ in 0..3 {
        let core = HotkeyCore::new(&sender, &lc, &st, &NoLock, ms(10), ms(1));
        core.set(true, &mut fired).unwrap();
    }
    assert_eq!(sender.count.get(), 1, "cờ fired phải sống ngoài core");
}

#[test]
fn chord_truot_thi_tra_ve_sau_ngan_sach_khong_treo() {
    let st = FakeState::new(true, false);
    let sender = LostSender {
        count: Cell::new(0),
    };
    let lc = NeverLaunch;
    let mut fired = false;
    let core = HotkeyCore::new(&sender, &lc, &st, &NoLock, ms(30), ms(1));
    let t0 = Instant::now();
    core.set(true, &mut fired).unwrap();
    let spent = t0.elapsed();
    assert!(spent >= ms(30), "phải chờ hết ngân sách, mất {spent:?}");
    assert!(spent < ms(500), "không được treo, mất {spent:?}");
    assert!(!core.is_on().unwrap());
}

#[test]
fn app_chua_chay_thi_launch_chu_khong_chord() {
    let st = FakeState::new(false, false);
    let sender = LostSender {
        count: Cell::new(0),
    };
    let lc = FakeLauncher {
        count: Cell::new(0),
        state: &st,
    };
    let mut fired = false;
    let core = HotkeyCore::new(&sender, &lc, &st, &NoLock, ms(200), ms(1));
    core.set(true, &mut fired).unwrap();
    assert_eq!(lc.count.get(), 1);
    assert_eq!(
        sender.count.get(),
        0,
        "không được bắn chord ở nhánh launch"
    );
    assert!(core.is_on().unwrap());
}

#[test]
fn app_chua_chay_muon_tat_thi_no_op() {
    let st = FakeState::new(false, true);
    let sender = LostSender {
        count: Cell::new(0),
    };
    let lc = NeverLaunch;
    let mut fired = false;
    let core = HotkeyCore::new(&sender, &lc, &st, &NoLock, ms(200), ms(1));
    core.set(false, &mut fired).unwrap();
    assert_eq!(sender.count.get(), 0);
}

#[test]
fn dung_san_thi_khong_ban() {
    let st = FakeState::new(true, true);
    let sender = LostSender {
        count: Cell::new(0),
    };
    let lc = NeverLaunch;
    let mut fired = false;
    let core = HotkeyCore::new(&sender, &lc, &st, &NoLock, ms(200), ms(1));
    core.set(true, &mut fired).unwrap();
    assert_eq!(sender.count.get(), 0);
}

#[test]
fn app_chet_thi_is_on_false_du_enabled_con_sot() {
    let st = FakeState::new(false, true);
    let sender = LostSender {
        count: Cell::new(0),
    };
    let lc = NeverLaunch;
    let core = HotkeyCore::new(&sender, &lc, &st, &NoLock, ms(200), ms(1));
    assert!(!core.is_on().unwrap());
}

#[test]
fn tat_vi_ban_mot_chord() {
    let st = FakeState::new(true, true);
    let sender = FakeSender {
        count: Cell::new(0),
        state: &st,
        delay: 4,
    };
    let lc = NeverLaunch;
    let mut fired = false;
    let core = HotkeyCore::new(&sender, &lc, &st, &NoLock, ms(1000), ms(1));
    core.set(false, &mut fired).unwrap();
    assert_eq!(sender.count.get(), 1);
    assert!(!core.is_on().unwrap());
}

#[test]
fn lock_held_elsewhere_fires_nothing() {
    let st = FakeState::new(true, false);
    let sender = LostSender {
        count: Cell::new(0),
    };
    let lc = NeverLaunch;
    let mut fired = false;
    let core = HotkeyCore::new(&sender, &lc, &st, &HeldElsewhere, ms(50), ms(1));
    assert_eq!(core.set(true, &mut fired).unwrap(), HotkeyAction::Nothing);
    assert_eq!(sender.count.get(), 0);
    assert!(!fired);
}

#[test]
fn decision_table() {
    assert_eq!(hotkey_action(true, false, false, true, false), HotkeyAction::Launch);
    assert_eq!(hotkey_action(true, false, true, true, true), HotkeyAction::Launch);
    assert_eq!(hotkey_action(true, false, false, false, false), HotkeyAction::Nothing);
    assert_eq!(hotkey_action(true, true, true, true, false), HotkeyAction::Nothing);
    assert_eq!(hotkey_action(true, true, false, true, false), HotkeyAction::Fire);
    assert_eq!(hotkey_action(true, true, true, false, false), HotkeyAction::Fire);
    assert_eq!(hotkey_action(true, true, false, true, true), HotkeyAction::Nothing);
    assert_eq!(hotkey_action(false, true, false, true, false), HotkeyAction::Nothing);
    assert_eq!(hotkey_action(false, false, false, true, false), HotkeyAction::Nothing);
}

#[test]
fn a_stopped_app_is_off_whatever_enabled_says() {
    assert!(!on_reading(false, Some(true)));
    assert!(!on_reading(true, None));
    assert!(!on_reading(true, Some(false)));
    assert!(on_reading(true, Some(true)));
}

#[test]
fn never_written_counts_as_off() {
    assert!(!enabled_or_off(None));
    assert!(!enabled_or_off(Some(false)));
    assert!(enabled_or_off(Some(true)));
}

fn lines(fs: &[Finding]) -> Vec<(Level, String)> {
    fs.iter().map(|f| (f.level, f.msg.clone())).collect()
}

#[test]
fn hotkey_findings_in_order() {
    let per_app = Finding {
        level: Level::Good,
        msg: "per-app".to_string(),
    };
    let chord = Chord {
        key_code: 49,
        flags: 0x40000 | 0x20000,
    };
    let fs = hotkey_findings("GoNhanh", true, true, Some(true), per_app, true, Ok(chord));
    let got = lines(&fs);
    assert_eq!(got.len(), 5);
    assert_eq!(got[0], lines(&[diagnose_bundle("GoNhanh", true)])[0]);
    assert_eq!(got[1], (Level::Good, "GoNhanh: đang chạy".to_string()));
    assert_eq!(got[2], (Level::Good, "per-app".to_string()));
    assert_eq!(
        got[3],
        (
            Level::Good,
            "Accessibility: tiến trình này được tin cậy".to_string()
        )
    );
    assert_eq!(
        got[4],
        (Level::Good, "chord toggle: Ctrl+Shift+Space".to_string())
    );
}

#[test]
fn hotkey_findings_when_things_are_wrong() {
    let per_app = Finding {
        level: Level::Warn,
        msg: "per-app".to_string(),
    };
    let fs = hotkey_findings(
        "GoNhanh",
        true,
        true,
        None,
        per_app,
        false,
        Err("không đọc được chord".to_string()),
    );
    let got = lines(&fs);
    assert_eq!(got.len(), 6);
    assert_eq!(got[2].0, Level::Warn);
    assert!(got[2].1.starts_with("GoNhanh đang chạy nhưng chưa đọc được gonhanh.enabled"));
    assert_eq!(got[4].0, Level::Fail);
    assert!(got[4].1.starts_with("thiếu quyền Accessibility"));
    assert_eq!(
        got[5],
        (Level::Fail, "không đọc được chord".to_string())
    );
    let down = hotkey_findings(
        "GoNhanh",
        false,
        false,
        None,
        Finding {
            level: Level::Good,
            msg: String::new(),
        },
        true,
        Err(String::new()),
    );
    assert_eq!(down.len(), 5);
    assert_eq!(down[1].level, Level::Warn);
    assert!(down[1].msg.starts_with("GoNhanh không chạy"));
}

#[test]
fn set_answers_what_it_did_and_keeps_the_latch() {
    let st = FakeState::new(true, false);
    let sender = LostSender {
        count: Cell::new(0),
    };
    let lc = NeverLaunch;
    let mut fired = false;
    let core = HotkeyCore::new(&sender, &lc, &st, &NoLock, ms(5), ms(1));
    assert_eq!(core.set(true, &mut fired).unwrap(), HotkeyAction::Fire);
    assert!(fired);
    assert_eq!(core.set(true, &mut fired).unwrap(), HotkeyAction::Nothing);
    assert!(fired);
    assert_eq!(sender.count.get(), 1);

    let down = FakeState::new(false, false);
    let launcher = FakeLauncher {
        count: Cell::new(0),
        state: &down,
    };
    let mut latch = false;
    let core = HotkeyCore::new(&sender, &launcher, &down, &NoLock, ms(50), ms(1));
    assert_eq!(core.set(true, &mut latch).unwrap(), HotkeyAction::Launch);
    assert!(!latch);
}
