//! The decisions of the command line: which input method a configuration asks
//! for, which sources and target a switch uses on each platform, and what
//! `status` reports from a reading of the machine.
use vstd::prelude::*;
use crate::config::{Config, MacosConfig};
use crate::doctor::{Finding, Level, any_failed, spec_strategy_finding};
use crate::mode::{Desired, Mode, Platform, Sources, desired, is_desired};
use crate::status::{Snapshot, infer_mac, infer_win, spec_infer_mac, spec_infer_win};
use crate::text::{owned, push_str, str_eq};
use crate::config::sources_are;

verus! {

/// The input-method backend that a macOS configuration selects.
#[derive(Debug, PartialEq, Eq)]
pub enum ImeChoice {
    /// GoNhanh, killed and launched (`backend = "gonhanh"`, `strategy = "process"`).
    Gonhanh { app_name: String },
    /// GoNhanh kept alive and toggled with its chord (`strategy = "hotkey"`).
    Hotkey { app_name: String, timeout_ms: u64, poll_ms: u64 },
    /// Any external app switched by its process (`backend = "app"`).
    App { app_name: String },
    /// The system's own Vietnamese input source (`backend = "system"`); the app
    /// name is only used to warn when it still runs.
    System { app_name: String },
}

/// What [`make_ime`] answers: the backend, or the message explaining why the
/// combination is refused.
pub open spec fn spec_make_ime(backend: Seq<char>, strategy: Seq<char>) -> Result<int, Seq<char>> {
    if backend == "gonhanh"@ && strategy == "process"@ {
        Ok(0)
    } else if backend == "gonhanh"@ && strategy == "hotkey"@ {
        Ok(1)
    } else if backend == "app"@ && strategy == "process"@ {
        Ok(2)
    } else if backend == "system"@ && strategy == "process"@ {
        Ok(3)
    } else if (backend == "app"@ || backend == "system"@) && strategy == "hotkey"@ {
        Err("strategy 'hotkey' chỉ dùng được với backend 'gonhanh' — backend '"@ + backend
            + "' không có chord toggle để giả lập"@)
    } else if backend == "gonhanh"@ || backend == "app"@ || backend == "system"@ {
        Err("strategy '"@ + strategy + "' không hợp lệ (process|hotkey)"@)
    } else {
        Err("backend '"@ + backend + "' không hợp lệ (gonhanh|app|system)"@)
    }
}

/// The numbering of [`spec_make_ime`]'s successes.
pub open spec fn choice_index(c: ImeChoice) -> int {
    match c {
        ImeChoice::Gonhanh { .. } => 0,
        ImeChoice::Hotkey { .. } => 1,
        ImeChoice::App { .. } => 2,
        ImeChoice::System { .. } => 3,
    }
}

/// The app name a choice carries.
pub open spec fn choice_app(c: ImeChoice) -> Seq<char> {
    match c {
        ImeChoice::Gonhanh { app_name } => app_name@,
        ImeChoice::Hotkey { app_name, .. } => app_name@,
        ImeChoice::App { app_name } => app_name@,
        ImeChoice::System { app_name } => app_name@,
    }
}

/// The one place that chooses the macOS input-method backend: `gonhanh`, `app`
/// or `system` with `process`, or `gonhanh` with `hotkey`. `hotkey` with `app` or
/// `system` is refused (they have no toggle chord to simulate), and so are an
/// unknown strategy and an unknown backend. Only builds a description — nothing
/// is opened, read or touched.
pub fn make_ime(cfg: &Config) -> (r: Result<ImeChoice, String>)
    ensures
        r matches Ok(c) ==> {
            &&& spec_make_ime(cfg.macos.backend@, cfg.macos.strategy@) == Ok::<int, Seq<char>>(choice_index(c))
            &&& choice_app(c) == cfg.macos.app_name@
            &&& c matches ImeChoice::Hotkey { timeout_ms, poll_ms, .. } ==> timeout_ms == cfg.verify.timeout_ms
                && poll_ms == cfg.verify.poll_ms
        },
        r matches Err(e) ==> spec_make_ime(cfg.macos.backend@, cfg.macos.strategy@) == Err::<int, Seq<char>>(e@),
        cfg.macos.backend@ == "gonhanh"@ && cfg.macos.strategy@ == "process"@ ==> r matches Ok(
            ImeChoice::Gonhanh { .. },
        ),
        cfg.macos.backend@ == "gonhanh"@ && cfg.macos.strategy@ == "hotkey"@ ==> r matches Ok(
            ImeChoice::Hotkey { .. },
        ),
        cfg.macos.backend@ == "app"@ && cfg.macos.strategy@ == "process"@ ==> r matches Ok(ImeChoice::App { .. }),
        cfg.macos.backend@ == "system"@ && cfg.macos.strategy@ == "process"@ ==> r matches Ok(
            ImeChoice::System { .. },
        ),
{
    proof {
        lemma_names_differ();
    }
    let b = cfg.macos.backend.as_str();
    let s = cfg.macos.strategy.as_str();
    let name = cfg.macos.app_name.clone();
    let gonhanh = str_eq(b, "gonhanh");
    let app = str_eq(b, "app");
    let system = str_eq(b, "system");
    let process = str_eq(s, "process");
    let hotkey = str_eq(s, "hotkey");
    if gonhanh && process {
        Ok(ImeChoice::Gonhanh { app_name: name })
    } else if gonhanh && hotkey {
        Ok(ImeChoice::Hotkey { app_name: name, timeout_ms: cfg.verify.timeout_ms, poll_ms: cfg.verify.poll_ms })
    } else if app && process {
        Ok(ImeChoice::App { app_name: name })
    } else if system && process {
        Ok(ImeChoice::System { app_name: name })
    } else if (app || system) && hotkey {
        let mut e = owned("strategy 'hotkey' chỉ dùng được với backend 'gonhanh' — backend '");
        push_str(&mut e, b);
        push_str(&mut e, "' không có chord toggle để giả lập");
        Err(e)
    } else if gonhanh || app || system {
        let mut e = owned("strategy '");
        push_str(&mut e, s);
        push_str(&mut e, "' không hợp lệ (process|hotkey)");
        Err(e)
    } else {
        let mut e = owned("backend '");
        push_str(&mut e, b);
        push_str(&mut e, "' không hợp lệ (gonhanh|app|system)");
        Err(e)
    }
}

/// Whether an external app handles Vietnamese: on macOS unless the backend is
/// `system`; on Windows always (VKey).
pub open spec fn spec_has_external_ime(cfg: Config, platform: Platform) -> bool {
    match platform {
        Platform::MacOs => cfg.macos.backend@ != "system"@,
        Platform::Windows => true,
    }
}

/// Whether an external app handles Vietnamese on `platform`.
pub fn has_external_ime(cfg: &Config, platform: Platform) -> (r: bool)
    ensures
        r == spec_has_external_ime(*cfg, platform),
{
    match platform {
        Platform::MacOs => !str_eq(cfg.macos.backend.as_str(), "system"),
        Platform::Windows => true,
    }
}

/// The source table of `platform`.
pub fn sources(cfg: &Config, platform: Platform) -> (s: Sources)
    ensures
        platform == Platform::MacOs ==> sources_are(s, cfg.macos.source_vi@, cfg.macos.source_en@, cfg.macos.source_zh@),
        platform == Platform::Windows ==> sources_are(s, cfg.windows.source_vi@, cfg.windows.source_en@, cfg.windows.source_zh@),
{
    match platform {
        Platform::MacOs => cfg.macos.sources(),
        Platform::Windows => cfg.windows.sources(),
    }
}

/// The target state of a switch to `mode` on `platform` under `cfg`.
pub fn switch_target(mode: Mode, platform: Platform, cfg: &Config) -> (d: Desired)
    ensures
        exists|s: Sources| {
            &&& (platform == Platform::MacOs ==> sources_are(s, cfg.macos.source_vi@, cfg.macos.source_en@, cfg.macos.source_zh@))
            &&& (platform == Platform::Windows ==> sources_are(s, cfg.windows.source_vi@, cfg.windows.source_en@, cfg.windows.source_zh@))
            &&& #[trigger] is_desired(d, mode, s, spec_has_external_ime(*cfg, platform))
        },
{
    let s = sources(cfg, platform);
    let ext = has_external_ime(cfg, platform);
    match desired(mode, platform, &s, ext) {
        Some(d) => d,
        None => {
            // `desired` always answers for both platforms.
            proof {
                assert(false);
            }
            Desired { layout: None, ime_on: false }
        },
    }
}

/// The macOS snapshot: mode and drift inferred from the IME bit and the layout.
pub fn snapshot_mac(ime_on: bool, layout: String, cfg: &MacosConfig) -> (s: Snapshot)
    ensures
        s.mode@ == spec_infer_mac(ime_on, layout@, cfg.source_vi@, cfg.source_zh@).0,
        crate::status::opt_view(s.drift) == spec_infer_mac(ime_on, layout@, cfg.source_vi@, cfg.source_zh@).1,
        crate::status::opt_view(s.layout) == Some(layout@),
        s.ime_on == ime_on,
{
    let (mode, drift) = infer_mac(ime_on, layout.as_str(), cfg.source_vi.as_str(), cfg.source_zh.as_str());
    Snapshot { mode, layout: Some(layout), ime_on, drift }
}

/// The drift reported on Windows when the layout cannot be read.
pub open spec fn spec_unreadable_layout_drift(err: Seq<char>) -> Seq<char> {
    "không đọc được layout ("@ + err + ") — mode suy từ bit VKey, chưa loại trừ được zh"@
}

/// The Windows snapshot. `status` is a diagnosis, not a target to verify, so a
/// layout that cannot be read (no foreground window: the machine is locked, or
/// nothing has focus) does not kill it: the mode then comes from VKey's bit
/// alone, and the uncertainty — that bit cannot rule out `zh` — goes into the
/// drift instead of being silent.
pub fn snapshot_win(ime_on: bool, layout: Result<String, String>) -> (s: Snapshot)
    ensures
        s.mode@ == spec_infer_win(ime_on),
        s.ime_on == ime_on,
        layout matches Ok(l) ==> crate::status::opt_view(s.layout) == Some(l@) && s.drift is None,
        layout matches Err(e) ==> s.layout is None && crate::status::opt_view(s.drift) == Some(
            spec_unreadable_layout_drift(e@),
        ),
{
    let mode = infer_win(ime_on);
    match layout {
        Ok(l) => Snapshot { mode, layout: Some(l), ime_on, drift: None },
        Err(e) => {
            let mut d = owned("không đọc được layout (");
            push_str(&mut d, e.as_str());
            push_str(&mut d, ") — mode suy từ bit VKey, chưa loại trừ được zh");
            Snapshot { mode, layout: None, ime_on, drift: Some(d) }
        },
    }
}

/// `hotkey` is accepted only with backend `gonhanh`.
pub proof fn lemma_hotkey_needs_gonhanh(backend: Seq<char>)
    ensures
        spec_make_ime(backend, "hotkey"@) is Ok <==> backend == "gonhanh"@,
{
    reveal_strlit("hotkey");
    reveal_strlit("process");
    assert("hotkey"@.len() == 6 && "process"@.len() == 7);
    assert("hotkey"@ != "process"@);
}

/// How a run of the command line ended.
#[derive(Debug, PartialEq, Eq, Structural)]
pub enum RunEnd {
    /// The target state was verified, or the command had nothing to verify.
    Success,
    /// The switch was sent but the machine did not follow (`VerifyFailed`).
    VerifyFailed,
    /// Any other error — a missing app, an input source not enabled, a bad config
    /// — and `doctor` finding a failure.
    OtherError,
}

/// The exit code of each ending: the contract with the scripts and hotkeys that
/// call tongue.
pub open spec fn spec_exit_code(end: RunEnd) -> u8 {
    match end {
        RunEnd::Success => 0,
        RunEnd::VerifyFailed => 1,
        RunEnd::OtherError => 2,
    }
}

/// The process's exit code: 0 verified, 1 `VerifyFailed` (run `tongue doctor`),
/// 2 any other error.
pub fn exit_code(end: RunEnd) -> (c: u8)
    ensures
        c == spec_exit_code(end),
{
    match end {
        RunEnd::Success => 0,
        RunEnd::VerifyFailed => 1,
        RunEnd::OtherError => 2,
    }
}

/// Exit code 1 means exactly one thing — the machine did not follow a switch —
/// and no two endings share a code.
pub proof fn lemma_exit_codes_are_distinct(a: RunEnd, b: RunEnd)
    ensures
        spec_exit_code(a) == 1 <==> a == RunEnd::VerifyFailed,
        spec_exit_code(a) == spec_exit_code(b) <==> a == b,
{
}

/// How `tongue doctor` ends: an error (exit 2) when some finding fails, success
/// otherwise — warnings do not fail it.
pub fn doctor_outcome(fs: &[Finding]) -> (e: RunEnd)
    ensures
        e == (if exists|i: int| 0 <= i < fs@.len() && fs@[i].level == Level::Fail {
            RunEnd::OtherError
        } else {
            RunEnd::Success
        }),
{
    if any_failed(fs) {
        RunEnd::OtherError
    } else {
        RunEnd::Success
    }
}

/// Makes the literal names of backends and strategies tell apart.
proof fn lemma_names_differ()
    ensures
        "gonhanh"@ != "app"@,
        "gonhanh"@ != "system"@,
        "app"@ != "system"@,
        "process"@ != "hotkey"@,
{
    reveal_strlit("gonhanh");
    reveal_strlit("app");
    reveal_strlit("system");
    reveal_strlit("process");
    reveal_strlit("hotkey");
    assert("gonhanh"@.len() == 7 && "app"@.len() == 3 && "system"@.len() == 6);
    assert("process"@.len() == 7 && "hotkey"@.len() == 6);
}

/// Each accepted backend names its configuration: `gonhanh` + `process` is
/// GoNhanh driven by its process, `gonhanh` + `hotkey` GoNhanh driven by its
/// chord, `app` + `process` the generic app, `system` + `process` the system
/// input source — and each choice comes from exactly that one pair.
pub proof fn lemma_each_choice_names_its_configuration(backend: Seq<char>, strategy: Seq<char>)
    ensures
        spec_make_ime(backend, strategy) == Ok::<int, Seq<char>>(0) <==> backend == "gonhanh"@ && strategy
            == "process"@,
        spec_make_ime(backend, strategy) == Ok::<int, Seq<char>>(1) <==> backend == "gonhanh"@ && strategy
            == "hotkey"@,
        spec_make_ime(backend, strategy) == Ok::<int, Seq<char>>(2) <==> backend == "app"@ && strategy
            == "process"@,
        spec_make_ime(backend, strategy) == Ok::<int, Seq<char>>(3) <==> backend == "system"@ && strategy
            == "process"@,
        spec_make_ime(backend, strategy) is Ok <==> (backend == "gonhanh"@ && (strategy == "process"@
            || strategy == "hotkey"@)) || ((backend == "app"@ || backend == "system"@) && strategy
            == "process"@),
{
    lemma_names_differ();
}

/// Every external backend switches its app on for `vi`: on macOS an external
/// input method is in use exactly when the backend is not `system`, so `tongue
/// vi` targets the input method ON for `gonhanh` and `app` — and OFF for `system`,
/// where there is no app to wait for. On Windows VKey is always there.
pub proof fn lemma_vi_switches_every_external_app_on(cfg: Config, d: Desired, s: Sources)
    ensures
        spec_has_external_ime(cfg, Platform::MacOs) <==> cfg.macos.backend@ != "system"@,
        spec_has_external_ime(cfg, Platform::Windows),
        is_desired(d, Mode::Vi, s, spec_has_external_ime(cfg, Platform::MacOs)) ==> (d.ime_on
            <==> cfg.macos.backend@ != "system"@),
        spec_make_ime(cfg.macos.backend@, cfg.macos.strategy@) is Ok && cfg.macos.backend@ != "system"@
            ==> spec_has_external_ime(cfg, Platform::MacOs),
{
}

/// A configuration that `make_ime` accepts never makes `doctor` fail on its
/// strategy: both strategies that drive a backend are reported as good.
pub proof fn lemma_accepted_strategy_passes_doctor(backend: Seq<char>, strategy: Seq<char>)
    ensures
        spec_make_ime(backend, strategy) is Ok ==> spec_strategy_finding(strategy).0 == Level::Good,
        spec_strategy_finding("process"@).0 == Level::Good,
        spec_strategy_finding("hotkey"@).0 == Level::Good,
{
    lemma_names_differ();
}

} // verus!
