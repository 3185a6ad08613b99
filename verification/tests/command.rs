use tongue::doctor::{Finding, Level};
use tongue::command::{doctor_outcome, exit_code, RunEnd};
use tongue::command::{has_external_ime, make_ime, snapshot_mac, snapshot_win, switch_target, ImeChoice};
use tongue::config::Config;
use tongue::mode::{Mode, Platform};

fn cfg_voi(backend: &str, strategy: &str) -> Config {
    let mut c = Config::default();
    c.macos.backend = backend.into();
    c.macos.strategy = strategy.into();
    c
}

#[test]
fn hotkey_voi_backend_system_thi_loi() {
    let cfg = cfg_voi("system", "hotkey");
    let err = make_ime(&cfg).map(|_| ()).unwrap_err();
    assert!(err.to_string().contains("chord toggle"));
}

#[test]
fn hotkey_voi_backend_app_thi_loi() {
    let cfg = cfg_voi("app", "hotkey");
    let err = make_ime(&cfg).map(|_| ()).unwrap_err();
    assert!(err.to_string().contains("chord toggle"));
}

#[test]
fn gonhanh_hotkey_thi_ok() {
    let cfg = cfg_voi("gonhanh", "hotkey");
    assert!(make_ime(&cfg).is_ok());
}

#[test]
fn gonhanh_process_mac_dinh_thi_ok() {
    // Config defaults: backend = gonhanh, strategy = process.
    let cfg = Config::default();
    assert!(make_ime(&cfg).is_ok());
}

#[test]
fn make_ime_choices_and_errors() {
    assert_eq!(
        make_ime(&cfg_voi("gonhanh", "hotkey")).unwrap(),
        ImeChoice::Hotkey { app_name: "GoNhanh".into(), timeout_ms: 1000, poll_ms: 50 }
    );
    assert_eq!(
        make_ime(&cfg_voi("app", "process")).unwrap(),
        ImeChoice::App { app_name: "GoNhanh".into() }
    );
    assert_eq!(
        make_ime(&cfg_voi("system", "process")).unwrap(),
        ImeChoice::System { app_name: "GoNhanh".into() }
    );
    assert_eq!(
        make_ime(&cfg_voi("app", "notify")).unwrap_err(),
        "strategy 'notify' không hợp lệ (process|hotkey)"
    );
    assert_eq!(
        make_ime(&cfg_voi("evkey", "process")).unwrap_err(),
        "backend 'evkey' không hợp lệ (gonhanh|app|system)"
    );
}

#[test]
fn switch_targets_follow_the_platform() {
    let cfg = Config::default();
    let d = switch_target(Mode::Zh, Platform::Windows, &cfg);
    assert_eq!(d.layout.as_deref(), Some("0804"));
    let d = switch_target(Mode::Vi, Platform::MacOs, &cfg);
    assert_eq!(d.layout.as_deref(), Some("com.apple.keylayout.ABC"));
    assert!(d.ime_on);
    let sys = cfg_voi("system", "process");
    assert!(!has_external_ime(&sys, Platform::MacOs));
    assert!(has_external_ime(&sys, Platform::Windows));
    assert!(!switch_target(Mode::Vi, Platform::MacOs, &sys).ime_on);
}

#[test]
fn snapshots() {
    let cfg = Config::default();
    let s = snapshot_mac(true, "com.apple.keylayout.ABC".into(), &cfg.macos);
    assert_eq!(s.mode, "vi");
    assert_eq!(s.layout.as_deref(), Some("com.apple.keylayout.ABC"));
    assert!(s.drift.is_none());
    let s = snapshot_win(false, Err("no window".into()));
    assert_eq!(s.mode, "en");
    assert!(s.layout.is_none());
    assert_eq!(
        s.drift.as_deref(),
        Some("không đọc được layout (no window) — mode suy từ bit VKey, chưa loại trừ được zh")
    );
    let s = snapshot_win(true, Ok("0409".into()));
    assert_eq!(s.mode, "vi");
    assert!(s.drift.is_none());
}

#[test]
fn exit_codes_follow_the_contract() {
    assert_eq!(exit_code(RunEnd::Success), 0);
    assert_eq!(exit_code(RunEnd::VerifyFailed), 1);
    assert_eq!(exit_code(RunEnd::OtherError), 2);
}

#[test]
fn doctor_fails_only_on_a_failure() {
    let f = |level: Level| Finding {
        level,
        msg: "x".to_string(),
    };
    assert_eq!(doctor_outcome(&[]), RunEnd::Success);
    assert_eq!(doctor_outcome(&[f(Level::Warn), f(Level::Good)]), RunEnd::Success);
    assert_eq!(doctor_outcome(&[f(Level::Warn), f(Level::Fail)]), RunEnd::OtherError);
}
