use tongue::backend::windows::vkey::{vkey_findings, vkey_settings, VkeyFlags, SECTION, WINDOW_CLASS, WM_VKEY_SET_MODE};
use tongue::doctor::Level;

fn pairs(fs: &[tongue::doctor::Finding]) -> Vec<(Level, String)> {
    fs.iter().map(|f| (f.level, f.msg.clone())).collect()
}

#[test]
fn vkey_constants() {
    assert_eq!(WM_VKEY_SET_MODE, 0x0400 + 100);
    assert_eq!(WINDOW_CLASS, "VKeyTrayClass");
    assert_eq!(SECTION, "Local\\VKeySharedState");
}

#[test]
fn healthy_vkey_is_all_good() {
    let fs = vkey_findings(
        Ok(r"C:\VKey\VKey.exe".to_string()),
        Ok(Some(true)),
        Some(Ok(VkeyFlags {
            smart_switch: false,
            run_as_admin: false,
        })),
    );
    assert_eq!(
        pairs(&fs),
        vec![
            (Level::Good, r"VKey.exe: C:\VKey\VKey.exe".to_string()),
            (Level::Good, "VKey đang chạy, mode hiện tại = vi".to_string()),
            (Level::Good, "smart_switch tắt".to_string()),
            (Level::Good, "run_as_admin tắt".to_string()),
        ]
    );
}

#[test]
fn flags_that_fight_tongue_warn() {
    let fs = vkey_findings(
        Err("không tìm thấy VKey.exe".to_string()),
        Ok(Some(false)),
        Some(Ok(VkeyFlags {
            smart_switch: true,
            run_as_admin: true,
        })),
    );
    let p = pairs(&fs);
    assert_eq!(p[0], (Level::Fail, "không tìm thấy VKey.exe".to_string()));
    assert_eq!(p[1].1, "VKey đang chạy, mode hiện tại = en");
    assert_eq!(p[2].0, Level::Warn);
    assert!(p[2].1.starts_with("smart_switch đang bật"));
    assert_eq!(p[3].0, Level::Warn);
    assert!(p[3].1.starts_with("run_as_admin đang bật"));
}

#[test]
fn missing_state_and_config() {
    let fs = vkey_findings(Ok("x".to_string()), Ok(None), None);
    let p = pairs(&fs);
    assert_eq!(p.len(), 3);
    assert_eq!(
        p[1],
        (Level::Warn, "VKey chưa chạy — `tongue vi` sẽ tự bật".to_string())
    );
    assert_eq!(
        p[2],
        (Level::Warn, "không tìm thấy config.toml của VKey".to_string())
    );
    let bad = vkey_findings(
        Ok("x".to_string()),
        Err("magic sai".to_string()),
        Some(Err("dòng 3".to_string())),
    );
    let b = pairs(&bad);
    assert_eq!(
        b[1],
        (Level::Fail, "shared memory không đọc được: magic sai".to_string())
    );
    assert_eq!(
        b[2],
        (Level::Warn, "config.toml của VKey không parse được: dòng 3".to_string())
    );
}

#[test]
fn settings_read_from_vkeys_config() {
    assert_eq!(
        vkey_settings("[features]\nsmart_switch = true\n[system]\nrun_as_admin = false\n"),
        Ok(VkeyFlags {
            smart_switch: true,
            run_as_admin: false,
        })
    );
    assert_eq!(
        vkey_settings("[system]\nrun_as_admin = true\n[features]\nsmart_switch = 1\n"),
        Ok(VkeyFlags {
            smart_switch: false,
            run_as_admin: true,
        })
    );
    assert_eq!(
        vkey_settings(""),
        Ok(VkeyFlags {
            smart_switch: false,
            run_as_admin: false,
        })
    );
    assert!(vkey_settings("[features\nsmart_switch=").is_err());
}
