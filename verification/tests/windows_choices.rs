use tongue::backend::windows::layout::{layout_choice, layout_not_found_msg, LayoutChoice};
use tongue::backend::pipe_proto::{agent_sessions, find_agent, several_agents_msg, AgentSearch};
use tongue::backend::windows::pipe::{
    arg_count, connect_next, request_head, sid_string, ConnectError, ConnectNext, forward_next, BridgeOutcome, ForwardNext, AGENT_RETRY_MS, AGENT_START_WAIT_MS,
    MAX_ARGS, NO_FORWARD_ENV,
};
use tongue::backend::windows::vkey::{exe_choice, ExeChoice, PACKAGE_PREFIX};

#[test]
fn loaded_chinese_is_found_by_langid() {
    let loaded = [0x0409_0409usize, 0x0804_0804usize];
    assert_eq!(layout_choice("0804", &loaded), Ok(LayoutChoice::Loaded(0x0804_0804)));
    assert_eq!(layout_choice("0409", &loaded), Ok(LayoutChoice::Loaded(0x0409_0409)));
}

#[test]
fn first_match_wins() {
    let loaded = [0xF002_0409usize, 0x0409_0409usize];
    assert_eq!(layout_choice("00000409", &loaded), Ok(LayoutChoice::Loaded(0xF002_0409)));
}

#[test]
fn unloaded_layout_is_loaded_by_klid() {
    let loaded = [0x0409_0409usize];
    assert_eq!(layout_choice("042a", &loaded), Ok(LayoutChoice::LoadByKlid));
    assert_eq!(layout_choice("042a", &[]), Ok(LayoutChoice::LoadByKlid));
}

#[test]
fn non_hex_identifier_is_refused() {
    assert_eq!(
        layout_choice("abcz", &[0x0409_0409]),
        Err("định danh layout không phải hex: abcz".to_string())
    );
}

#[test]
fn not_found_message_lists_loaded_layouts() {
    assert_eq!(
        layout_not_found_msg("042a", &[0x0409_0409, 0x0804_0804]),
        "không tìm thấy layout 042a — đã thêm nó trong Settings > Time & language > Language & region chưa? (các layout đang nạp: [\"0409\", \"0804\"])"
    );
    assert_eq!(
        layout_not_found_msg("042a", &[]),
        "không tìm thấy layout 042a — đã thêm nó trong Settings > Time & language > Language & region chưa? (các layout đang nạp: [])"
    );
}

#[test]
fn argument_count_is_capped() {
    assert_eq!(MAX_ARGS, 32);
    assert_eq!(arg_count(2u32.to_le_bytes()), Ok(2));
    assert_eq!(arg_count(32u32.to_le_bytes()), Ok(32));
    assert_eq!(
        arg_count(33u32.to_le_bytes()),
        Err("quá nhiều tham số (33)".to_string())
    );
    assert_eq!(NO_FORWARD_ENV, "TONGUE_NO_FORWARD");
}

fn pkgs(v: &[(&str, bool)]) -> Vec<(String, bool)> {
    v.iter().map(|(n, e)| (n.to_string(), *e)).collect()
}

#[test]
fn configured_path_wins_and_must_exist() {
    let p = pkgs(&[("PhatMT97.VKey_Microsoft.Winget.Source_8wekyb3d8bbwe", true)]);
    assert_eq!(exe_choice(r"D:\VKey.exe", true, &p), Ok(ExeChoice::Configured));
    assert_eq!(
        exe_choice(r"D:\VKey.exe", false, &p),
        Err(r"vkey_path trong config không tồn tại: D:\VKey.exe".to_string())
    );
}

#[test]
fn winget_package_is_found() {
    assert_eq!(PACKAGE_PREFIX, "PhatMT97.VKey_");
    let p = pkgs(&[
        ("Other.App_x", true),
        ("PhatMT97.VKey_old", false),
        ("PhatMT97.VKey_Microsoft.Winget.Source_8wekyb3d8bbwe", true),
    ]);
    assert_eq!(exe_choice("", false, &p), Ok(ExeChoice::Package(2)));
    let none = pkgs(&[("Other.App_x", true), ("PhatMT97.VKey", true)]);
    assert_eq!(
        exe_choice("", false, &none),
        Err("không tìm thấy VKey.exe — cài bằng `winget install PhatMT97.VKey` hoặc khai [windows].vkey_path trong config".to_string())
    );
}

#[test]
fn forwarding_starts_the_agent_once_then_retries_until_the_wait_is_over() {
    let task = r"\TongueAgent";
    assert_eq!(AGENT_START_WAIT_MS, 3000);
    assert_eq!(AGENT_RETRY_MS, 120);
    assert_eq!(
        forward_next(BridgeOutcome::Reply(1), task, false, 0, 0),
        ForwardNext::Exit(1)
    );
    assert_eq!(
        forward_next(BridgeOutcome::Broken, task, true, 10, 3000),
        ForwardNext::Exit(2)
    );
    assert_eq!(
        forward_next(BridgeOutcome::Absent, task, false, 0, 0),
        ForwardNext::StartTask
    );
    assert_eq!(
        forward_next(BridgeOutcome::Absent, task, true, 500, 3500),
        ForwardNext::RetryAfterMs(120)
    );
    assert_eq!(
        forward_next(BridgeOutcome::Absent, task, true, 3500, 3500),
        ForwardNext::NoAgent
    );
    assert_eq!(
        forward_next(BridgeOutcome::Absent, "", false, 0, 0),
        ForwardNext::NoAgent
    );
}

#[test]
fn several_agents_refuse_to_pick() {
    assert_eq!(
        forward_next(BridgeOutcome::Several, r"\TongueAgent", false, 0, 0),
        ForwardNext::Exit(2)
    );
    assert_eq!(
        several_agents_msg(&[1, 2]),
        "có nhiều agent cùng lúc (session [1, 2]) — KHÔNG tự chọn, vì lái nhầm session nghĩa là đổi bộ gõ của một desktop khác. Dừng bớt đi."
    );
}

#[test]
fn agents_are_found_by_the_users_sid() {
    let sid = "S-1-5-21-1-2-3-1001";
    let entries: Vec<String> = vec![
        "InitShutdown".to_string(),
        "tongue.S-1-5-21-1-2-3-1001.1".to_string(),
        "tongue.S-1-5-21-9-9-9-1002.1".to_string(),
    ];
    assert_eq!(agent_sessions(&entries, sid), vec![1]);
    assert_eq!(find_agent(&entries, sid), AgentSearch::One(1));
    let mut two = entries.clone();
    two.push("tongue.S-1-5-21-1-2-3-1001.3".to_string());
    assert_eq!(find_agent(&two, sid), AgentSearch::Several(vec![1, 3]));
    assert_eq!(find_agent(&entries[..1], sid), AgentSearch::Absent);
}

#[test]
fn connect_retries_once_and_waits_for_a_busy_agent() {
    assert_eq!(connect_next(ConnectError::NotFound, false), ConnectNext::RetryAfterMs(60));
    assert_eq!(connect_next(ConnectError::NotFound, true), ConnectNext::Absent);
    assert_eq!(connect_next(ConnectError::Busy, true), ConnectNext::WaitForInstanceMs(2000));
    assert_eq!(connect_next(ConnectError::WaitFailed, false), ConnectNext::Absent);
    assert_eq!(connect_next(ConnectError::Other, false), ConnectNext::Absent);
}

#[test]
fn request_header_checks_protocol_then_count() {
    let head = |proto: u32, n: u32| {
        let mut h = [0u8; 8];
        h[..4].copy_from_slice(&proto.to_le_bytes());
        h[4..].copy_from_slice(&n.to_le_bytes());
        h
    };
    assert_eq!(request_head(head(1, 2)), Ok(2));
    assert_eq!(
        request_head(head(7, 2)),
        Err("giao thức 7 không khớp với agent (1) — cài cùng một bản tongue ở hai đầu".to_string())
    );
    assert_eq!(
        request_head(head(1, 40)),
        Err("quá nhiều tham số (40)".to_string())
    );
}

#[test]
fn sid_strings() {
    assert_eq!(sid_string(5, &[21, 1, 2, 3, 1001]), "S-1-5-21-1-2-3-1001");
    assert_eq!(sid_string(5, &[18]), "S-1-5-18");
    assert_eq!(sid_string(0x1_0000_0000, &[1]), "S-1-0x000100000000-1");
}
