use tongue::config::{Config, MacosConfig};
use tongue::doctor::{
    any_failed, config_findings, finding_line, run, sources_to_check, wants_gonhanh_state, Finding,
    Level, Observations,
};

fn f(level: Level, msg: &str) -> Finding {
    Finding {
        level,
        msg: msg.to_string(),
    }
}

#[test]
fn finding_lines_have_icons() {
    assert_eq!(finding_line(&f(Level::Good, "a")), "✓ a");
    assert_eq!(finding_line(&f(Level::Warn, "b")), "⚠ b");
    assert_eq!(finding_line(&f(Level::Fail, "c")), "✗ c");
}

#[test]
fn failure_is_any_fail() {
    assert!(!any_failed(&[f(Level::Good, "a"), f(Level::Warn, "b")]));
    assert!(any_failed(&[f(Level::Good, "a"), f(Level::Fail, "b")]));
    assert!(!any_failed(&[]));
}

#[test]
fn unknown_config_keys_warn_once() {
    assert!(config_findings(&[]).is_empty());
    let fs = config_findings(&["windows.idle_exit_ms".to_string(), "verfy".to_string()]);
    assert_eq!(fs.len(), 1);
    assert!(matches!(fs[0].level, Level::Warn));
    assert!(fs[0].msg.starts_with("config.toml có khoá không nhận ra: windows.idle_exit_ms, verfy — "));
}

#[test]
fn sources_checked_once_each() {
    let m = MacosConfig::default();
    let s = sources_to_check(&m);
    assert_eq!(
        s,
        vec![
            ("source_vi".to_string(), "com.apple.keylayout.ABC".to_string()),
            ("source_zh".to_string(), "com.apple.inputmethod.SCIM.ITABC".to_string()),
        ]
    );
}

#[test]
fn macos_report_in_order() {
    let mut cfg = Config::default();
    cfg.macos.backend = "system".into();
    cfg.macos.strategy = "bogus".into();
    let obs = Observations::MacOs {
        ime: vec![f(Level::Good, "ime")],
        sources: vec![
            ("source_vi".into(), "A".into(), true),
            ("source_zh".into(), "Z".into(), false),
        ],
        gonhanh: None,
    };
    let fs = run(&cfg, &[], obs);
    let lines: Vec<String> = fs.iter().map(finding_line).collect();
    assert_eq!(lines[0], "✓ backend = system");
    assert_eq!(lines[1], "✓ ime");
    assert_eq!(lines[2], "✓ source_vi: A có mặt");
    assert_eq!(
        lines[3],
        "✗ source_zh: Z chưa bật trong System Settings > Keyboard > Input Sources"
    );
    assert!(lines[4].starts_with("✗ backend = system nhưng source_vi trùng source_en"));
    assert_eq!(lines[5], "✗ strategy 'bogus' không hợp lệ (process|hotkey)");
    assert_eq!(lines.len(), 6);
    assert!(any_failed(&fs));
}

#[test]
fn gonhanh_running_but_disabled_warns() {
    let cfg = Config::default();
    assert!(wants_gonhanh_state(&cfg.macos));
    let obs = Observations::MacOs {
        ime: vec![],
        sources: vec![],
        gonhanh: Some((true, Some(false))),
    };
    let fs = run(&cfg, &[], obs);
    assert_eq!(fs.len(), 3);
    assert!(matches!(fs[2].level, Level::Warn));
    assert!(fs[2].msg.starts_with("GoNhanh đang chạy nhưng đang tắt tiếng Việt"));
    assert!(fs[2].msg.ends_with("đổi sang strategy \"hotkey\""));
    let obs = Observations::MacOs {
        ime: vec![],
        sources: vec![],
        gonhanh: Some((true, None)),
    };
    assert_eq!(run(&cfg, &[], obs).len(), 2);
}

#[test]
fn windows_report_bridge_first() {
    let cfg = Config::default();
    let obs = Observations::Windows {
        bridge: vec![f(Level::Warn, "bridge")],
        ime: vec![f(Level::Good, "vkey")],
    };
    let fs = run(&cfg, &["x".to_string()], obs);
    assert_eq!(fs.len(), 3);
    assert!(fs[0].msg.starts_with("config.toml có khoá không nhận ra: x"));
    assert_eq!(fs[1].msg, "bridge");
    assert_eq!(fs[2].msg, "vkey");
}
