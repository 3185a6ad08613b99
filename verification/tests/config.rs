use tongue::config::{is_known_key, unknown_keys, Config, MacosConfig, WindowsConfig};

/// The agent's budget must exceed its worst case: VKey's 5000 ms cold start plus
/// verify.timeout_ms.
#[test]
fn ngan_sach_agent_lon_hon_ca_xau_nhat() {
    let c = Config::default();
    assert!(c.windows.agent_timeout_ms > 5_000 + c.verify.timeout_ms);
}

#[test]
fn defaults_match_the_documentation() {
    let c = Config::default();
    assert_eq!(c.macos.backend, "gonhanh");
    assert_eq!(c.macos.strategy, "process");
    assert_eq!(c.macos.source_vi, "com.apple.keylayout.ABC");
    assert_eq!(c.macos.source_zh, "com.apple.inputmethod.SCIM.ITABC");
    assert_eq!(c.macos.app_name, "GoNhanh");
    assert_eq!(c.windows.vkey_path, "");
    assert_eq!(c.windows.agent_task, r"\TongueAgent");
    assert_eq!(c.verify.timeout_ms, 1000);
    assert_eq!(c.verify.poll_ms, 50);
}

/// Backward compatibility: by default vi and en share one layout.
#[test]
fn default_vi_and_en_share_a_source() {
    let s = MacosConfig::default().sources();
    assert_eq!(s.vi, s.en);
    assert_ne!(s.vi, s.zh);
    let w = WindowsConfig::default().sources();
    assert_eq!(w.vi, "0409");
    assert_eq!(w.en, "0409");
    assert_eq!(w.zh, "0804");
}

#[test]
fn unknown_keys_are_named() {
    let entries = vec![
        ("macos".to_string(), vec!["backend".to_string(), "strateg".to_string()]),
        ("windows".to_string(), vec!["idle_exit_ms".to_string(), "agent_idle_ms".to_string()]),
        ("verfy".to_string(), vec!["poll_ms".to_string()]),
        ("verify".to_string(), vec!["poll_ms".to_string()]),
    ];
    assert_eq!(
        unknown_keys(&entries),
        vec!["macos.strateg", "windows.idle_exit_ms", "verfy"]
    );
    assert!(unknown_keys(&vec![]).is_empty());
    assert!(is_known_key("windows", "agent_task"));
    assert!(!is_known_key("macos", "agent_task"));
}

#[test]
fn system_backend_with_its_own_source_vi_has_distinct_sources() {
    let mut c = Config::default();
    c.macos.backend = "system".to_string();
    c.macos.source_vi = "com.apple.inputmethod.VietnameseIM.VietnameseTelex".to_string();
    let s = c.macos.sources();
    assert_ne!(s.vi, s.en);
    assert_eq!(s.en, "com.apple.keylayout.ABC");
    assert_eq!(s.vi, "com.apple.inputmethod.VietnameseIM.VietnameseTelex");
}
