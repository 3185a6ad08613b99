//! `tongue doctor`: turns the silent failures (perAppMode, smart_switch, running
//! as admin, missing input sources, unknown config keys...) into visible
//! findings. The observations are made by the binary; every finding and every
//! verdict is decided here.
use vstd::prelude::*;
use crate::text::{owned, push_str, str_eq};
use crate::config::{MacosConfig, Config};

verus! {

/// How serious a finding is.
#[derive(Clone, Copy, Debug, PartialEq, Eq, Structural)]
pub enum Level {
    Good,
    Warn,
    Fail,
}

/// One line of the doctor's report.
#[derive(Debug)]
pub struct Finding {
    pub level: Level,
    pub msg: String,
}

/// A finding as a level and a message.
pub open spec fn fview(f: Finding) -> (Level, Seq<char>) {
    (f.level, f.msg@)
}

/// A list of findings as levels and messages.
pub open spec fn fviews(fs: Seq<Finding>) -> Seq<(Level, Seq<char>)> {
    fs.map_values(|f: Finding| fview(f))
}

/// A finding with this level and message.
pub fn finding(level: Level, msg: String) -> (f: Finding)
    ensures
        fview(f) == (level, msg@),
{
    Finding { level, msg }
}

/// The icon printed before a finding: `✓`, `⚠` or `✗`.
pub open spec fn spec_icon(l: Level) -> Seq<char> {
    match l {
        Level::Good => "✓"@,
        Level::Warn => "⚠"@,
        Level::Fail => "✗"@,
    }
}

/// The printed line of a finding: its icon, a space, its message.
pub fn finding_line(f: &Finding) -> (s: String)
    ensures
        s@ == spec_icon(f.level) + " "@ + f.msg@,
{
    let mut s = match f.level {
        Level::Good => owned("✓"),
        Level::Warn => owned("⚠"),
        Level::Fail => owned("✗"),
    };
    push_str(&mut s, " ");
    push_str(&mut s, f.msg.as_str());
    s
}

/// Whether some finding fails — the doctor then exits 2.
pub fn any_failed(fs: &[Finding]) -> (r: bool)
    ensures
        r == exists|i: int| 0 <= i < fs@.len() && fs@[i].level == Level::Fail,
{
    let mut i: usize = 0;
    while i < fs.len()
        invariant
            i <= fs@.len(),
            forall|j: int| 0 <= j < i ==> fs@[j].level != Level::Fail,
        decreases fs.len() - i,
    {
        if fs[i].level == Level::Fail {
            return true;
        }
        i = i + 1;
    }
    false
}

/// `items` joined with `sep` between neighbours.
pub open spec fn seq_join(items: Seq<Seq<char>>, sep: Seq<char>) -> Seq<char>
    decreases items.len(),
{
    if items.len() == 0 {
        Seq::empty()
    } else if items.len() == 1 {
        items[0]
    } else {
        seq_join(items.drop_last(), sep) + sep + items.last()
    }
}

/// The views of a list of strings.
pub open spec fn views(v: Seq<String>) -> Seq<Seq<char>> {
    v.map_values(|s: String| s@)
}

/// Joins `items` with `sep`.
pub fn join(items: &[String], sep: &str) -> (s: String)
    ensures
        s@ == seq_join(views(items@), sep@),
{
    let mut s = String::new();
    let mut i: usize = 0;
    while i < items.len()
        invariant
            i <= items@.len(),
            s@ == seq_join(views(items@).subrange(0, i as int), sep@),
        decreases items.len() - i,
    {
        let ghost pre = views(items@).subrange(0, i + 1);
        assert(pre.drop_last() =~= views(items@).subrange(0, i as int));
        if i > 0 {
            push_str(&mut s, sep);
        }
        push_str(&mut s, items[i].as_str());
        i = i + 1;
        assert(s@ =~= seq_join(views(items@).subrange(0, i as int), sep@));
    }
    assert(views(items@).subrange(0, items@.len() as int) =~= views(items@));
    s
}

/// The message about config keys that nobody reads.
pub open spec fn spec_unknown_keys_msg(keys: Seq<Seq<char>>) -> Seq<char> {
    "config.toml có khoá không nhận ra: "@ + seq_join(keys, ", "@)
        + " — chúng bị BỎ QUA im lặng, giá trị đang dùng là mặc định. Kiểm lại chính tả (ví dụ `agent_idle_ms`, không phải `idle_exit_ms`)."@
}

/// Findings about the config file itself: nothing when every key is known,
/// otherwise one warning naming the unknown keys — they are silently ignored and
/// the defaults are in force.
pub fn config_findings(unknown: &[String]) -> (fs: Vec<Finding>)
    ensures
        unknown@.len() == 0 ==> fs@.len() == 0,
        unknown@.len() > 0 ==> fviews(fs@) == seq![(Level::Warn, spec_unknown_keys_msg(views(unknown@)))],
{
    let mut fs: Vec<Finding> = Vec::new();
    if unknown.len() == 0 {
        return fs;
    }
    let mut msg = owned("config.toml có khoá không nhận ra: ");
    let joined = join(unknown, ", ");
    push_str(&mut msg, joined.as_str());
    push_str(
        &mut msg,
        " — chúng bị BỎ QUA im lặng, giá trị đang dùng là mặc định. Kiểm lại chính tả (ví dụ `agent_idle_ms`, không phải `idle_exit_ms`).",
    );
    fs.push(finding(Level::Warn, msg));
    assert(fviews(fs@) =~= seq![(Level::Warn, spec_unknown_keys_msg(views(unknown@)))]);
    fs
}

/// The input sources that `doctor` checks, each once: `vi` and `en` usually
/// share a source (an external input method keeps the layout), and printing the
/// same line twice helps nobody.
pub open spec fn spec_sources_to_check(vi: Seq<char>, en: Seq<char>, zh: Seq<char>) -> Seq<(Seq<char>, Seq<char>)> {
    seq![("source_vi"@, vi)] + (if en != vi { seq![("source_en"@, en)] } else { Seq::empty() }) + (if zh
        != vi && zh != en {
        seq![("source_zh"@, zh)]
    } else {
        Seq::empty()
    })
}

/// No input source is checked twice: the ids of the checked sources are
/// pairwise different.
pub proof fn lemma_sources_checked_once(vi: Seq<char>, en: Seq<char>, zh: Seq<char>)
    ensures
        forall|i: int, j: int|
            0 <= i < j < spec_sources_to_check(vi, en, zh).len() ==> (#[trigger] spec_sources_to_check(
                vi,
                en,
                zh,
            )[i]).1 != (#[trigger] spec_sources_to_check(vi, en, zh)[j]).1,
{
    let r = spec_sources_to_check(vi, en, zh);
    assert forall|i: int, j: int| 0 <= i < j < r.len() implies (#[trigger] r[i]).1 != (#[trigger] r[j]).1 by {
        if en != vi {
            assert(r[1].1 == en);
        }
        if i == 0 {
            assert(r[0].1 == vi);
        }
    }
}

/// The view of a list of (label, id) pairs.
pub open spec fn pair_views(v: Seq<(String, String)>) -> Seq<(Seq<char>, Seq<char>)> {
    v.map_values(|p: (String, String)| (p.0@, p.1@))
}

/// The labelled input sources to check on macOS, without repeats.
pub fn sources_to_check(cfg: &MacosConfig) -> (r: Vec<(String, String)>)
    ensures
        pair_views(r@) == spec_sources_to_check(cfg.source_vi@, cfg.source_en@, cfg.source_zh@),
{
    let mut r: Vec<(String, String)> = Vec::new();
    r.push((owned("source_vi"), cfg.source_vi.clone()));
    let en_new = !str_eq(cfg.source_en.as_str(), cfg.source_vi.as_str());
    if en_new {
        r.push((owned("source_en"), cfg.source_en.clone()));
    }
    if !str_eq(cfg.source_zh.as_str(), cfg.source_vi.as_str()) && !str_eq(
        cfg.source_zh.as_str(),
        cfg.source_en.as_str(),
    ) {
        r.push((owned("source_zh"), cfg.source_zh.clone()));
    }
    assert(pair_views(r@) =~= spec_sources_to_check(cfg.source_vi@, cfg.source_en@, cfg.source_zh@));
    r
}

/// What was observed on the machine for `doctor`.
pub enum Observations {
    MacOs {
        /// The findings of the chosen input-method backend.
        ime: Vec<Finding>,
        /// Each source of [`sources_to_check`] with whether it is enabled.
        sources: Vec<(String, String, bool)>,
        /// With backend `gonhanh` and strategy `process`: whether the app runs
        /// and what `gonhanh.enabled` reads.
        gonhanh: Option<(bool, Option<bool>)>,
    },
    Windows {
        /// The findings about the session bridge, first: when it is broken every
        /// later line speaks about the wrong session.
        bridge: Vec<Finding>,
        /// The findings of the VKey backend.
        ime: Vec<Finding>,
    },
}

/// The finding of one input source.
pub open spec fn spec_source_finding(label: Seq<char>, id: Seq<char>, present: bool) -> (Level, Seq<char>) {
    if present {
        (Level::Good, label + ": "@ + id + " có mặt"@)
    } else {
        (Level::Fail, label + ": "@ + id + " chưa bật trong System Settings > Keyboard > Input Sources"@)
    }
}

/// The findings of the input sources, in order.
pub open spec fn spec_source_findings(s: Seq<(String, String, bool)>) -> Seq<(Level, Seq<char>)> {
    s.map_values(|t: (String, String, bool)| spec_source_finding(t.0@, t.1@, t.2))
}

/// The failure of `backend = system` with the same source for `vi` and `en`.
pub open spec fn spec_system_same_source_msg() -> Seq<char> {
    "backend = system nhưng source_vi trùng source_en — không có app ngoài thì layout là thứ duy nhất phân biệt vi/en, trùng nhau nghĩa là `tongue vi` và `tongue en` không làm gì cả"@
}

/// The strategy finding.
pub open spec fn spec_strategy_finding(strategy: Seq<char>) -> (Level, Seq<char>) {
    if strategy == "process"@ || strategy == "hotkey"@ {
        (Level::Good, "strategy = "@ + strategy)
    } else {
        (Level::Fail, "strategy '"@ + strategy + "' không hợp lệ (process|hotkey)"@)
    }
}

/// The warning about GoNhanh running with Vietnamese switched off under
/// strategy `process`.
pub open spec fn spec_gonhanh_off_msg(app: Seq<char>) -> Seq<char> {
    app + " đang chạy nhưng đang tắt tiếng Việt (gonhanh.enabled=false) — `tongue vi` dưới strategy process sẽ là no-op và vẫn exit 0 vì chỉ kiểm tra app có sống; thoát "@
        + app + " rồi mở lại, hoặc đổi sang strategy \"hotkey\""@
}

/// The macOS report (see [`run`]).
pub open spec fn spec_run_macos(
    cfg: Config,
    unknown: Seq<Seq<char>>,
    ime: Seq<(Level, Seq<char>)>,
    sources: Seq<(String, String, bool)>,
    gonhanh: Option<(bool, Option<bool>)>,
) -> Seq<(Level, Seq<char>)> {
    let m = cfg.macos;
    (if unknown.len() > 0 { seq![(Level::Warn, spec_unknown_keys_msg(unknown))] } else { Seq::empty() })
        + seq![(Level::Good, "backend = "@ + m.backend@)] + ime + spec_source_findings(sources) + (if m.backend@
        == "system"@ && m.source_vi@ == m.source_en@ {
        seq![(Level::Fail, spec_system_same_source_msg())]
    } else {
        Seq::empty()
    }) + seq![spec_strategy_finding(m.strategy@)] + (if m.backend@ == "gonhanh"@ && m.strategy@
        == "process"@ && gonhanh == Some((true, Some(false))) {
        seq![(Level::Warn, spec_gonhanh_off_msg(m.app_name@))]
    } else {
        Seq::empty()
    })
}

/// The Windows report (see [`run`]).
pub open spec fn spec_run_windows(
    unknown: Seq<Seq<char>>,
    bridge: Seq<(Level, Seq<char>)>,
    ime: Seq<(Level, Seq<char>)>,
) -> Seq<(Level, Seq<char>)> {
    (if unknown.len() > 0 { seq![(Level::Warn, spec_unknown_keys_msg(unknown))] } else { Seq::empty() })
        + bridge + ime
}

/// Whether `doctor` must look at GoNhanh's process and `enabled` bit: only with
/// backend `gonhanh` under strategy `process`, where a running app with
/// Vietnamese switched off passes verify while typing nothing Vietnamese.
pub fn wants_gonhanh_state(cfg: &MacosConfig) -> (r: bool)
    ensures
        r == (cfg.backend@ == "gonhanh"@ && cfg.strategy@ == "process"@),
{
    str_eq(cfg.backend.as_str(), "gonhanh") && str_eq(cfg.strategy.as_str(), "process")
}

/// The doctor's report, in print order.
///
/// macOS: unknown config keys; the backend in use; the backend's own findings;
/// each input source, enabled or not; a failure when backend `system` has the
/// same source for `vi` and `en` (switching would then do nothing at all); the
/// strategy, valid or not; and, under `gonhanh` + `process`, a warning when the
/// app runs with Vietnamese switched off (`tongue vi` would be a no-op that still
/// exits 0). Windows: unknown config keys, the bridge findings, the VKey
/// findings.
pub fn run(cfg: &Config, unknown: &[String], obs: Observations) -> (fs: Vec<Finding>)
    ensures
        obs matches Observations::MacOs { ime, sources, gonhanh } ==> fviews(fs@) == spec_run_macos(
            *cfg,
            views(unknown@),
            fviews(ime@),
            sources@,
            gonhanh,
        ),
        obs matches Observations::Windows { bridge, ime } ==> fviews(fs@) == spec_run_windows(
            views(unknown@),
            fviews(bridge@),
            fviews(ime@),
        ),
{
    let mut fs = config_findings(unknown);
    let ghost cf = fviews(fs@);
    match obs {
        Observations::MacOs { ime, sources, gonhanh } => {
            let m = &cfg.macos;
            let mut b = owned("backend = ");
            push_str(&mut b, m.backend.as_str());
            fs.push(finding(Level::Good, b));
            assert(fviews(fs@) =~= cf + seq![(Level::Good, "backend = "@ + m.backend@)]);
            let ghost before_ime = fviews(fs@);
            let ghost imev = fviews(ime@);
            let ghost ime0 = ime@;
            let mut ime = ime;
            fs.append(&mut ime);
            assert(fviews(fs@) =~= before_ime + fviews(ime0));
            let ghost before_src = fviews(fs@);
            let mut j: usize = 0;
            while j < sources.len()
                invariant
                    j <= sources@.len(),
                    fviews(fs@) == before_src + spec_source_findings(sources@.subrange(0, j as int)),
                decreases sources.len() - j,
            {
                let (label, id, present) = (&sources[j].0, &sources[j].1, sources[j].2);
                let ghost prev = fs@;
                let mut msg = owned(label.as_str());
                push_str(&mut msg, ": ");
                push_str(&mut msg, id.as_str());
                if present {
                    push_str(&mut msg, " có mặt");
                    fs.push(finding(Level::Good, msg));
                } else {
                    push_str(&mut msg, " chưa bật trong System Settings > Keyboard > Input Sources");
                    fs.push(finding(Level::Fail, msg));
                }
                assert(fviews(fs@) =~= fviews(prev).push(spec_source_finding(label@, id@, present)));
                j = j + 1;
                assert(spec_source_findings(sources@.subrange(0, j as int)) =~= spec_source_findings(
                    sources@.subrange(0, j - 1),
                ).push(spec_source_finding(sources@[j - 1].0@, sources@[j - 1].1@, sources@[j - 1].2)));
                assert(fviews(fs@) =~= before_src + spec_source_findings(sources@.subrange(0, j as int)));
            }
            assert(sources@.subrange(0, sources@.len() as int) =~= sources@);
            let ghost before_sys = fviews(fs@);
            if str_eq(m.backend.as_str(), "system") && str_eq(m.source_vi.as_str(), m.source_en.as_str()) {
                fs.push(
                    finding(
                        Level::Fail,
                        owned(
                            "backend = system nhưng source_vi trùng source_en — không có app ngoài thì layout là thứ duy nhất phân biệt vi/en, trùng nhau nghĩa là `tongue vi` và `tongue en` không làm gì cả",
                        ),
                    ),
                );
            }
            assert(fviews(fs@) =~= before_sys + (if m.backend@ == "system"@ && m.source_vi@ == m.source_en@ {
                seq![(Level::Fail, spec_system_same_source_msg())]
            } else {
                Seq::<(Level, Seq<char>)>::empty()
            }));
            let ghost before_strategy = fviews(fs@);
            if str_eq(m.strategy.as_str(), "process") || str_eq(m.strategy.as_str(), "hotkey") {
                let mut msg = owned("strategy = ");
                push_str(&mut msg, m.strategy.as_str());
                fs.push(finding(Level::Good, msg));
            } else {
                let mut msg = owned("strategy '");
                push_str(&mut msg, m.strategy.as_str());
                push_str(&mut msg, "' không hợp lệ (process|hotkey)");
                fs.push(finding(Level::Fail, msg));
            }
            assert(fviews(fs@) =~= before_strategy + seq![spec_strategy_finding(m.strategy@)]);
            let ghost before_gn = fviews(fs@);
            if wants_gonhanh_state(m) {
                if let Some((true, Some(false))) = gonhanh {
                    let mut msg = owned(m.app_name.as_str());
                    push_str(
                        &mut msg,
                        " đang chạy nhưng đang tắt tiếng Việt (gonhanh.enabled=false) — `tongue vi` dưới strategy process sẽ là no-op và vẫn exit 0 vì chỉ kiểm tra app có sống; thoát ",
                    );
                    push_str(&mut msg, m.app_name.as_str());
                    push_str(&mut msg, " rồi mở lại, hoặc đổi sang strategy \"hotkey\"");
                    fs.push(finding(Level::Warn, msg));
                }
            }
            assert(fviews(fs@) =~= before_gn + (if m.backend@ == "gonhanh"@ && m.strategy@ == "process"@
                && gonhanh == Some((true, Some(false))) {
                seq![(Level::Warn, spec_gonhanh_off_msg(m.app_name@))]
            } else {
                Seq::<(Level, Seq<char>)>::empty()
            }));
            assert(fviews(fs@) =~= spec_run_macos(*cfg, views(unknown@), imev, sources@, gonhanh));
            fs
        },
        Observations::Windows { bridge, mut ime } => {
            let ghost bv = fviews(bridge@);
            let ghost iv = fviews(ime@);
            let mut rest = bridge;
            rest.append(&mut ime);
            let ghost all = rest@;
            assert(fviews(all) =~= bv + iv);
            let ghost before = fviews(fs@);
            fs.append(&mut rest);
            assert(fviews(fs@) =~= before + fviews(all));
            assert(fviews(fs@) =~= spec_run_windows(views(unknown@), bv, iv));
            fs
        },
    }
}

/// `backend = system` with the same source for `vi` and `en` makes every switch a
/// no-op, and the report always FAILS for it — whatever else was observed.
pub proof fn lemma_system_with_one_layout_fails(
    cfg: Config,
    unknown: Seq<Seq<char>>,
    ime: Seq<(Level, Seq<char>)>,
    sources: Seq<(String, String, bool)>,
    gonhanh: Option<(bool, Option<bool>)>,
)
    requires
        cfg.macos.backend@ == "system"@,
        cfg.macos.source_vi@ == cfg.macos.source_en@,
    ensures
        exists|i: int|
            0 <= i < spec_run_macos(cfg, unknown, ime, sources, gonhanh).len() && (#[trigger] spec_run_macos(
                cfg,
                unknown,
                ime,
                sources,
                gonhanh,
            )[i]).0 == Level::Fail,
{
    let r = spec_run_macos(cfg, unknown, ime, sources, gonhanh);
    let head = (if unknown.len() > 0 {
        seq![(Level::Warn, spec_unknown_keys_msg(unknown))]
    } else {
        Seq::<(Level, Seq<char>)>::empty()
    }) + seq![(Level::Good, "backend = "@ + cfg.macos.backend@)] + ime + spec_source_findings(sources);
    let i = head.len() as int;
    assert(r[i] == (Level::Fail, spec_system_same_source_msg()));
}

/// The strategy is reported as good exactly for the two strategies there are,
/// `process` and `hotkey`, and as a failure for anything else.
pub proof fn lemma_strategy_good_iff_known(strategy: Seq<char>)
    ensures
        spec_strategy_finding(strategy).0 == Level::Good <==> (strategy == "process"@ || strategy == "hotkey"@),
        spec_strategy_finding(strategy).0 == Level::Fail <==> !(strategy == "process"@ || strategy == "hotkey"@),
{
}

} // verus!
