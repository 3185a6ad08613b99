use tongue::mode::Desired;
use tongue::reconcile::{Reconcile, Step, VerifyFailed};

fn des(layout: Option<&str>, ime_on: bool) -> Desired {
    Desired {
        layout: layout.map(String::from),
        ime_on,
    }
}

#[test]
fn matching_state_is_done_without_applying() {
    let rc = Reconcile::start(des(Some("abc"), true), 50, 0);
    assert!(matches!(rc.observe(Some("abc".into()), true, 1000), Step::Done));
}

#[test]
fn applies_only_what_differs() {
    let rc = Reconcile::start(des(Some("moi"), true), 200, 0);
    match rc.observe(Some("cu".into()), true, 0) {
        Step::Apply { select, set_ime } => {
            assert_eq!(select.as_deref(), Some("moi"));
            assert_eq!(set_ime, None);
        }
        other => panic!("expected Apply, got {other:?}"),
    }
    match rc.observe(Some("moi".into()), false, 0) {
        Step::Apply { select, set_ime } => {
            assert_eq!(select, None);
            assert_eq!(set_ime, Some(true));
        }
        other => panic!("expected Apply, got {other:?}"),
    }
}

#[test]
fn never_fails_before_the_first_apply() {
    let rc = Reconcile::start(des(Some("abc"), true), 20, 0);
    assert!(matches!(rc.observe(Some("abc".into()), false, 10_000), Step::Apply { .. }));
}

/// A first apply slower than the timeout (VKey's cold start) does not eat the
/// verify budget: the clock starts after it.
#[test]
fn deadline_counts_from_after_the_first_apply() {
    let mut rc = Reconcile::start(des(Some("moi"), true), 20, 0);
    assert!(matches!(rc.observe(Some("cu".into()), true, 0), Step::Apply { .. }));
    rc.after_apply(30);
    assert_eq!(rc.deadline_ms, 50);
    assert!(matches!(rc.observe(Some("cu".into()), true, 31), Step::Apply { .. }));
    rc.after_apply(31);
    assert_eq!(rc.deadline_ms, 50);
    assert!(matches!(rc.observe(Some("moi".into()), true, 32), Step::Done));
}

#[test]
fn stuck_ime_fails_with_what_was_seen() {
    let mut rc = Reconcile::start(des(Some("abc"), true), 20, 0);
    rc.after_apply(1);
    match rc.observe(Some("abc".into()), false, 21) {
        Step::Failed(vf) => {
            assert!(vf.ime_expected);
            assert!(!vf.ime_actual);
            assert_eq!(
                vf.message(),
                "verify trượt sau timeout: bộ gõ ngoài muốn bật, thực tế tắt"
            );
        }
        other => panic!("expected Failed, got {other:?}"),
    }
}

#[test]
fn no_layout_target_ignores_the_layout() {
    let rc = Reconcile::start(des(None, true), 100, 0);
    assert!(!rc.wants_layout());
    assert!(matches!(rc.observe(None, true, 0), Step::Done));
}

#[test]
fn verify_failed_message_lists_both_parts() {
    let vf = VerifyFailed {
        layout_expected: Some("a".into()),
        layout_actual: Some("b".into()),
        ime_expected: false,
        ime_actual: true,
    };
    assert_eq!(
        vf.message(),
        "verify trượt sau timeout: layout muốn a, thực tế b; bộ gõ ngoài muốn tắt, thực tế bật"
    );
}

#[test]
fn deadline_saturates() {
    let rc = Reconcile::start(des(None, false), u64::MAX, 5);
    assert_eq!(rc.deadline_ms, u64::MAX);
}
