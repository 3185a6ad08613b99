//! The reconcile step driven as the binary drives it, with fakes for both
//! levers and a simulated clock in milliseconds.
use std::cell::{Cell, RefCell};
use tongue::backend::{Ime, Layout};
use tongue::mode::Desired;
use tongue::reconcile::{Reconcile, Step, VerifyFailed};

/// Runs reconcile to its end: read, decide, apply, advance the clock by one poll.
fn run(
    layout: &dyn Layout,
    ime: &dyn Ime,
    desired: Desired,
    timeout_ms: u64,
    poll_ms: u64,
    clock: &Cell<u64>,
) -> Result<(), VerifyFailed> {
    let mut rc = Reconcile::start(desired, timeout_ms, clock.get());
    loop {
        let current_layout = if rc.wants_layout() {
            Some(layout.current().unwrap())
        } else {
            None
        };
        let current_ime = ime.is_on().unwrap();
        match rc.observe(current_layout, current_ime, clock.get()) {
            Step::Done => return Ok(()),
            Step::Failed(vf) => return Err(vf),
            Step::Apply { select, set_ime } => {
                if let Some(id) = select {
                    layout.select(&id).unwrap();
                }
                if let Some(on) = set_ime {
                    ime.set(on).unwrap();
                }
                rc.after_apply(clock.get());
                clock.set(clock.get() + poll_ms);
            }
        }
    }
}

/// A layout that only takes effect after `applies_after` selects — the CJK quirk
/// of `TISSelectInputSource` (accepted, not applied at once).
struct FakeLayout {
    current: RefCell<String>,
    applies_after: Cell<u32>,
}
impl FakeLayout {
    fn new(cur: &str, applies_after: u32) -> Self {
        Self {
            current: RefCell::new(cur.into()),
            applies_after: Cell::new(applies_after),
        }
    }
}
impl Layout for FakeLayout {
    fn current(&self) -> anyhow::Result<String> {
        Ok(self.current.borrow().clone())
    }
    fn select(&self, id: &str) -> anyhow::Result<()> {
        let n = self.applies_after.get();
        if n <= 1 {
            *self.current.borrow_mut() = id.into();
        } else {
            self.applies_after.set(n - 1);
        }
        Ok(())
    }
}

struct FakeIme {
    on: Cell<bool>,
    /// `set` has no effect — an input method that does not answer.
    stuck: bool,
}
impl Ime for FakeIme {
    fn is_on(&self) -> anyhow::Result<bool> {
        Ok(self.on.get())
    }
    fn set(&self, v: bool) -> anyhow::Result<()> {
        if !self.stuck {
            self.on.set(v);
        }
        Ok(())
    }
}

/// The first select takes 30 ms (VKey's cold start, scaled down) and only the
/// second one takes effect.
struct SlowFirstApplyLayout<'a> {
    current: RefCell<String>,
    selects_done: Cell<u32>,
    clock: &'a Cell<u64>,
}
impl Layout for SlowFirstApplyLayout<'_> {
    fn current(&self) -> anyhow::Result<String> {
        Ok(self.current.borrow().clone())
    }
    fn select(&self, id: &str) -> anyhow::Result<()> {
        let n = self.selects_done.get();
        if n == 0 {
            self.clock.set(self.clock.get() + 30);
        }
        self.selects_done.set(n + 1);
        if n + 1 >= 2 {
            *self.current.borrow_mut() = id.into();
        }
        Ok(())
    }
}

fn des(layout: Option<&str>, ime_on: bool) -> Desired {
    Desired {
        layout: layout.map(String::from),
        ime_on,
    }
}

#[test]
fn ap_ngay_thi_ok() {
    let clock = Cell::new(0);
    let l = FakeLayout::new("cu", 1);
    let i = FakeIme {
        on: Cell::new(false),
        stuck: false,
    };
    run(&l, &i, des(Some("moi"), true), 200, 1, &clock).unwrap();
    assert_eq!(*l.current.borrow(), "moi");
    assert!(i.on.get());
}

#[test]
fn da_khop_san_thi_khong_lam_gi_van_ok() {
    let clock = Cell::new(0);
    let l = FakeLayout::new("abc", 1);
    let i = FakeIme {
        on: Cell::new(true),
        stuck: true,
    };
    run(&l, &i, des(Some("abc"), true), 50, 1, &clock).unwrap();
}

#[test]
fn layout_cham_van_ok_nho_retry() {
    let clock = Cell::new(0);
    let l = FakeLayout::new("cu", 3);
    let i = FakeIme {
        on: Cell::new(false),
        stuck: false,
    };
    run(&l, &i, des(Some("moi"), false), 500, 1, &clock).unwrap();
    assert_eq!(*l.current.borrow(), "moi");
}

#[test]
fn ime_ket_thi_verify_failed() {
    let clock = Cell::new(0);
    let l = FakeLayout::new("abc", 1);
    let i = FakeIme {
        on: Cell::new(false),
        stuck: true,
    };
    let vf = run(&l, &i, des(Some("abc"), true), 20, 1, &clock).unwrap_err();
    assert!(vf.ime_expected);
    assert!(!vf.ime_actual);
}

#[test]
fn ap_dau_cham_hon_timeout_van_ok_vi_deadline_tinh_tu_sau_khi_ap() {
    let clock = Cell::new(0);
    let l = SlowFirstApplyLayout {
        current: RefCell::new("cu".into()),
        selects_done: Cell::new(0),
        clock: &clock,
    };
    let i = FakeIme {
        on: Cell::new(true),
        stuck: true,
    };
    run(&l, &i, des(Some("moi"), true), 20, 1, &clock).unwrap();
    assert_eq!(*l.current.borrow(), "moi");
}

#[test]
fn khong_co_layout_thi_bo_qua_layout() {
    let clock = Cell::new(0);
    let l = FakeLayout::new("bat-ky", 1);
    let i = FakeIme {
        on: Cell::new(false),
        stuck: false,
    };
    run(&l, &i, des(None, true), 100, 1, &clock).unwrap();
    assert_eq!(*l.current.borrow(), "bat-ky");
    assert!(i.on.get());
}
