use tongue::mode::{desired, Mode, Platform, Sources};
use tongue::status::{infer_mac, infer_win, render_human, render_json, Snapshot};

const ABC: &str = "com.apple.keylayout.ABC";
const PINYIN: &str = "com.apple.inputmethod.SCIM.ITABC";

#[test]
fn mac_suy_ra_du_bon_to_hop() {
    assert_eq!(infer_mac(true, ABC, ABC, PINYIN), ("vi".into(), None));
    assert_eq!(infer_mac(false, ABC, ABC, PINYIN), ("en".into(), None));
    assert_eq!(infer_mac(false, PINYIN, ABC, PINYIN), ("zh".into(), None));
    // GoNhanh running beside Pinyin = drift, must warn
    let (mode, drift) = infer_mac(true, PINYIN, ABC, PINYIN);
    assert_eq!(mode, "zh");
    assert!(drift.is_some());
}

#[test]
fn mac_layout_la_thi_unknown() {
    let (mode, drift) = infer_mac(false, "com.apple.keylayout.US", ABC, PINYIN);
    assert_eq!(mode, "unknown");
    assert!(drift.unwrap().contains("com.apple.keylayout.US"));
}

#[test]
fn win_suy_ra_tu_bit() {
    assert_eq!(infer_win(true), "vi");
    assert_eq!(infer_win(false), "en");
}

#[test]
fn render_json_dung_dang() {
    let s = Snapshot {
        mode: "vi".into(),
        layout: Some("abc".into()),
        ime_on: true,
        drift: None,
    };
    assert_eq!(
        render_json(&s),
        "{\"mode\":\"vi\",\"layout\":\"abc\",\"ime_on\":true,\"drift\":null}\n"
    );
}

#[test]
fn render_json_escapes_quotes_and_handles_missing_layout() {
    let s = Snapshot {
        mode: "unknown".into(),
        layout: None,
        ime_on: false,
        drift: Some("layout lạ: a\"b".into()),
    };
    assert_eq!(
        render_json(&s),
        "{\"mode\":\"unknown\",\"layout\":null,\"ime_on\":false,\"drift\":\"layout lạ: a\\\"b\"}\n"
    );
}

#[test]
fn render_human_lines() {
    let s = Snapshot {
        mode: "zh".into(),
        layout: Some(PINYIN.into()),
        ime_on: true,
        drift: Some("x".into()),
    };
    assert_eq!(
        render_human(&s),
        format!("mode:   zh\nlayout: {PINYIN}\nime:    bật\nlệch:   x\n")
    );
    let s = Snapshot {
        mode: "en".into(),
        layout: None,
        ime_on: false,
        drift: None,
    };
    assert_eq!(render_human(&s), "mode:   en\nime:    tắt\n");
}

#[test]
fn drift_message_exact() {
    assert_eq!(
        infer_mac(true, PINYIN, ABC, PINYIN).1.unwrap(),
        "GoNhanh đang chạy cùng Pinyin — chạy `tongue zh` hoặc `tongue vi` để dọn"
    );
    assert_eq!(
        infer_mac(true, "x", ABC, PINYIN).1.unwrap(),
        "layout lạ: x"
    );
}

/// Status reads back what a switch targets (external input method).
#[test]
fn status_reads_back_each_desired_mode() {
    let s = Sources { vi: ABC.into(), en: ABC.into(), zh: PINYIN.into() };
    for m in [Mode::Vi, Mode::En, Mode::Zh] {
        let d = desired(m, Platform::MacOs, &s, true).unwrap();
        let (mode, drift) = infer_mac(d.ime_on, d.layout.as_deref().unwrap(), ABC, PINYIN);
        assert_eq!(mode, m.as_str());
        assert!(drift.is_none());
    }
}
