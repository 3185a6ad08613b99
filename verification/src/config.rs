//! Optional configuration: without a file every value is the default and the
//! tool still runs. Reading the TOML file is the binary's job; the schema, the
//! defaults and the set of known keys live here.
use vstd::prelude::*;
use crate::mode::Sources;
use crate::text::{owned, push_str, str_eq};

verus! {

/// The whole configuration.
#[derive(Debug, PartialEq)]
pub struct Config {
    pub macos: MacosConfig,
    pub windows: WindowsConfig,
    pub verify: VerifyConfig,
}

/// `[macos]`.
#[derive(Debug, PartialEq)]
pub struct MacosConfig {
    /// Which input method handles Vietnamese: "gonhanh" | "app" | "system".
    pub backend: String,
    /// How it is driven: "process" (kill/launch) | "hotkey" (simulate the toggle
    /// chord, keep the app alive — only with backend "gonhanh").
    pub strategy: String,
    pub source_vi: String,
    /// Defaults to the SAME source as `source_vi` — right for every external
    /// input method (the layout stays ABC, the IME bit tells vi from en). Only
    /// differs with backend "system".
    pub source_en: String,
    pub source_zh: String,
    pub app_name: String,
}

/// `[windows]`.
#[derive(Debug, PartialEq)]
pub struct WindowsConfig {
    pub vkey_path: String,
    /// 4-digit hex LANGID, NOT an 8-digit KLID — see `backend::hkl`. `vi` and `en`
    /// default to the SAME layout ("0409" = US): VKey's bit tells them apart; `zh`
    /// needs its own layout.
    pub source_vi: String,
    pub source_en: String,
    pub source_zh: String,
    /// Scheduled task that runs `tongue agent` in the interactive session; a
    /// session-0 client runs it when no agent answers.
    pub agent_task: String,
    /// Budget for the agent's answer, in milliseconds. Must exceed the agent's
    /// worst case: VKey cold start (up to 5000 ms) plus `verify.timeout_ms`.
    pub agent_timeout_ms: u64,
    /// The agent exits after this many idle milliseconds.
    pub agent_idle_ms: u64,
}

/// `[verify]`.
#[derive(Debug, PartialEq)]
pub struct VerifyConfig {
    /// Longest wait for the machine to finish switching.
    pub timeout_ms: u64,
    /// Interval between reads of the real state.
    pub poll_ms: u64,
}

/// `m` holds the macOS defaults.
pub open spec fn is_default_macos(m: MacosConfig) -> bool {
    &&& m.backend@ == "gonhanh"@
    &&& m.strategy@ == "process"@
    &&& m.source_vi@ == "com.apple.keylayout.ABC"@
    &&& m.source_en@ == "com.apple.keylayout.ABC"@
    &&& m.source_zh@ == "com.apple.inputmethod.SCIM.ITABC"@
    &&& m.app_name@ == "GoNhanh"@
}

/// `w` holds the Windows defaults.
pub open spec fn is_default_windows(w: WindowsConfig) -> bool {
    &&& w.vkey_path@ == Seq::<char>::empty()
    &&& w.source_vi@ == "0409"@
    &&& w.source_en@ == "0409"@
    &&& w.source_zh@ == "0804"@
    &&& w.agent_task@ == "\\TongueAgent"@
    &&& w.agent_timeout_ms == 15_000
    &&& w.agent_idle_ms == 600_000
}

/// `v` holds the verify defaults.
pub open spec fn is_default_verify(v: VerifyConfig) -> bool {
    v.timeout_ms == 1000 && v.poll_ms == 50
}

impl Default for MacosConfig {
    fn default() -> (r: Self)
        ensures
            is_default_macos(r),
    {
        MacosConfig {
            backend: owned("gonhanh"),
            strategy: owned("process"),
            source_vi: owned("com.apple.keylayout.ABC"),
            source_en: owned("com.apple.keylayout.ABC"),
            source_zh: owned("com.apple.inputmethod.SCIM.ITABC"),
            app_name: owned("GoNhanh"),
        }
    }
}

impl Default for WindowsConfig {
    fn default() -> (r: Self)
        ensures
            is_default_windows(r),
    {
        WindowsConfig {
            vkey_path: String::new(),
            source_vi: owned("0409"),
            source_en: owned("0409"),
            source_zh: owned("0804"),
            agent_task: owned("\\TongueAgent"),
            agent_timeout_ms: 15_000,
            agent_idle_ms: 600_000,
        }
    }
}

impl Default for VerifyConfig {
    fn default() -> (r: Self)
        ensures
            is_default_verify(r),
    {
        VerifyConfig { timeout_ms: 1000, poll_ms: 50 }
    }
}

impl Default for Config {
    fn default() -> (r: Self)
        ensures
            is_default_macos(r.macos),
            is_default_windows(r.windows),
            is_default_verify(r.verify),
    {
        Config {
            macos: MacosConfig::default(),
            windows: WindowsConfig::default(),
            verify: VerifyConfig::default(),
        }
    }
}

/// `s` lists the three configured sources in mode order.
pub open spec fn sources_are(s: Sources, vi: Seq<char>, en: Seq<char>, zh: Seq<char>) -> bool {
    s.vi@ == vi && s.en@ == en && s.zh@ == zh
}

impl MacosConfig {
    /// The three macOS input sources of the three modes.
    pub fn sources(&self) -> (s: Sources)
        ensures
            sources_are(s, self.source_vi@, self.source_en@, self.source_zh@),
    {
        Sources {
            vi: self.source_vi.clone(),
            en: self.source_en.clone(),
            zh: self.source_zh.clone(),
        }
    }
}

impl WindowsConfig {
    /// The three Windows layouts (LANGIDs) of the three modes.
    pub fn sources(&self) -> (s: Sources)
        ensures
            sources_are(s, self.source_vi@, self.source_en@, self.source_zh@),
    {
        Sources {
            vi: self.source_vi.clone(),
            en: self.source_en.clone(),
            zh: self.source_zh.clone(),
        }
    }
}

/// The defaults keep backward compatibility: `vi` and `en` share one layout on
/// both platforms, so the IME bit alone tells them apart, while `zh` has a layout
/// of its own; and the agent's budget exceeds its worst case (VKey's 5000 ms cold
/// start plus the verify timeout).
pub proof fn lemma_defaults_are_consistent(c: Config)
    requires
        is_default_macos(c.macos),
        is_default_windows(c.windows),
        is_default_verify(c.verify),
    ensures
        c.macos.source_en@ == c.macos.source_vi@,
        c.macos.source_zh@ != c.macos.source_vi@,
        c.windows.source_en@ == c.windows.source_vi@,
        c.windows.source_zh@ != c.windows.source_vi@,
        c.windows.agent_timeout_ms > 5_000 + c.verify.timeout_ms,
{
    reveal_strlit("com.apple.keylayout.ABC");
    reveal_strlit("com.apple.inputmethod.SCIM.ITABC");
    reveal_strlit("0409");
    reveal_strlit("0804");
    assert("com.apple.keylayout.ABC"@.len() != "com.apple.inputmethod.SCIM.ITABC"@.len());
    assert("0409"@[1] != "0804"@[1]);
}

/// The keys that each table of `config.toml` understands.
pub open spec fn spec_known_key(table: Seq<char>, key: Seq<char>) -> bool {
    if table == "macos"@ {
        key == "backend"@ || key == "strategy"@ || key == "source_vi"@ || key == "source_en"@
            || key == "source_zh"@ || key == "app_name"@
    } else if table == "windows"@ {
        key == "vkey_path"@ || key == "source_vi"@ || key == "source_en"@ || key == "source_zh"@
            || key == "agent_task"@ || key == "agent_timeout_ms"@ || key == "agent_idle_ms"@
    } else if table == "verify"@ {
        key == "timeout_ms"@ || key == "poll_ms"@
    } else {
        false
    }
}

/// The tables of `config.toml`.
pub open spec fn spec_known_table(table: Seq<char>) -> bool {
    table == "macos"@ || table == "windows"@ || table == "verify"@
}

/// Whether `key` is understood inside `[table]`.
pub fn is_known_key(table: &str, key: &str) -> (r: bool)
    ensures
        r == spec_known_key(table@, key@),
{
    if str_eq(table, "macos") {
        str_eq(key, "backend") || str_eq(key, "strategy") || str_eq(key, "source_vi") || str_eq(
            key,
            "source_en",
        ) || str_eq(key, "source_zh") || str_eq(key, "app_name")
    } else if str_eq(table, "windows") {
        str_eq(key, "vkey_path") || str_eq(key, "source_vi") || str_eq(key, "source_en") || str_eq(
            key,
            "source_zh",
        ) || str_eq(key, "agent_task") || str_eq(key, "agent_timeout_ms") || str_eq(
            key,
            "agent_idle_ms",
        )
    } else if str_eq(table, "verify") {
        str_eq(key, "timeout_ms") || str_eq(key, "poll_ms")
    } else {
        false
    }
}

/// Whether `[table]` is a table of `config.toml`.
pub fn is_known_table(table: &str) -> (r: bool)
    ensures
        r == spec_known_table(table@),
{
    str_eq(table, "macos") || str_eq(table, "windows") || str_eq(table, "verify")
}

/// The dotted names of the keys that nobody reads, in the order of `entries`: an unknown
/// top-level entry by its own name, an unknown key of a known table as
/// `table.key`. `entries` pairs each top-level name with the keys under it.
pub open spec fn spec_unknown_keys(entries: Seq<(Seq<char>, Seq<Seq<char>>)>) -> Seq<Seq<char>>
    decreases entries.len(),
{
    if entries.len() == 0 {
        Seq::empty()
    } else {
        spec_unknown_keys(entries.drop_last()) + spec_unknown_in(entries.last().0, entries.last().1)
    }
}

/// The unknown names contributed by one top-level entry.
pub open spec fn spec_unknown_in(table: Seq<char>, keys: Seq<Seq<char>>) -> Seq<Seq<char>>
    decreases keys.len(),
{
    if !spec_known_table(table) {
        seq![table]
    } else if keys.len() == 0 {
        Seq::empty()
    } else {
        spec_unknown_in(table, keys.drop_last()) + (if spec_known_key(table, keys.last()) {
            Seq::empty()
        } else {
            seq![table + "."@ + keys.last()]
        })
    }
}

/// `doctor` never warns about a key that is read: an entry whose table is known
/// and whose keys are all known contributes nothing.
pub proof fn lemma_known_keys_are_never_reported(table: Seq<char>, keys: Seq<Seq<char>>)
    requires
        spec_known_table(table),
        forall|k: int| 0 <= k < keys.len() ==> spec_known_key(table, #[trigger] keys[k]),
    ensures
        spec_unknown_in(table, keys) == Seq::<Seq<char>>::empty(),
    decreases keys.len(),
{
    if keys.len() > 0 {
        assert forall|k: int| 0 <= k < keys.drop_last().len() implies spec_known_key(
            table,
            #[trigger] keys.drop_last()[k],
        ) by {
            assert(keys.drop_last()[k] == keys[k]);
        }
        lemma_known_keys_are_never_reported(table, keys.drop_last());
        assert(spec_known_key(table, keys[keys.len() - 1]));
        assert(spec_unknown_in(table, keys) =~= Seq::<Seq<char>>::empty());
    }
}

/// The view of one entry.
pub open spec fn entry_view(e: (String, Vec<String>)) -> (Seq<char>, Seq<Seq<char>>) {
    (e.0@, e.1@.map_values(|k: String| k@))
}

/// Collects the unknown keys of a parsed `config.toml` (see
/// [`spec_unknown_keys`]).
pub fn unknown_keys(entries: &Vec<(String, Vec<String>)>) -> (r: Vec<String>)
    ensures
        r@.map_values(|k: String| k@) == spec_unknown_keys(entries@.map_values(|e: (String, Vec<String>)| entry_view(e))),
{
    let ghost ev = entries@.map_values(|e: (String, Vec<String>)| entry_view(e));
    let mut r: Vec<String> = Vec::new();
    let mut i: usize = 0;
    while i < entries.len()
        invariant
            i <= entries@.len(),
            ev == entries@.map_values(|e: (String, Vec<String>)| entry_view(e)),
            r@.map_values(|k: String| k@) == spec_unknown_keys(ev.subrange(0, i as int)),
        decreases entries.len() - i,
    {
        let table = &entries[i].0;
        let keys = &entries[i].1;
        let ghost before = r@.map_values(|k: String| k@);
        if !is_known_table(table.as_str()) {
            r.push(table.clone());
            assert(r@.map_values(|k: String| k@) =~= before + seq![table@]);
        } else {
            let mut j: usize = 0;
            while j < keys.len()
                invariant
                    j <= keys@.len(),
                    spec_known_table(table@),
                    r@.map_values(|k: String| k@) == before + spec_unknown_in(
                        table@,
                        keys@.map_values(|k: String| k@).subrange(0, j as int),
                    ),
                decreases keys.len() - j,
            {
                let ghost ks = keys@.map_values(|k: String| k@).subrange(0, j + 1);
                assert(ks.drop_last() =~= keys@.map_values(|k: String| k@).subrange(0, j as int));
                assert(ks.last() == keys@[j as int]@);
                let ghost mid = r@.map_values(|k: String| k@);
                if !is_known_key(table.as_str(), keys[j].as_str()) {
                    let mut name = table.clone();
                    push_str(&mut name, ".");
                    push_str(&mut name, keys[j].as_str());
                    r.push(name);
                    assert(r@.map_values(|k: String| k@) =~= mid + seq![table@ + "."@ + keys@[j as int]@]);
                } else {
                    assert(r@.map_values(|k: String| k@) =~= mid);
                }
                j = j + 1;
                assert(r@.map_values(|k: String| k@) =~= before + spec_unknown_in(
                    table@,
                    keys@.map_values(|k: String| k@).subrange(0, j as int),
                ));
            }
            assert(keys@.map_values(|k: String| k@).subrange(0, keys@.len() as int) =~= keys@.map_values(|k: String| k@));
        }
        let ghost es = ev.subrange(0, i + 1);
        assert(es.drop_last() =~= ev.subrange(0, i as int));
        assert(es.last() == entry_view(entries@[i as int]));
        i = i + 1;
        assert(r@.map_values(|k: String| k@) =~= spec_unknown_keys(ev.subrange(0, i as int)));
    }
    assert(ev.subrange(0, entries@.len() as int) =~= ev);
    r
}

/// Every field of the configuration's schema is a known key of its table — a key
/// that is read is never reported as ignored — and the three tables are known.
pub proof fn lemma_schema_fields_are_known()
    ensures
        spec_known_table("macos"@),
        spec_known_table("windows"@),
        spec_known_table("verify"@),
        spec_known_key("macos"@, "backend"@),
        spec_known_key("macos"@, "strategy"@),
        spec_known_key("macos"@, "source_vi"@),
        spec_known_key("macos"@, "source_en"@),
        spec_known_key("macos"@, "source_zh"@),
        spec_known_key("macos"@, "app_name"@),
        spec_known_key("windows"@, "vkey_path"@),
        spec_known_key("windows"@, "source_vi"@),
        spec_known_key("windows"@, "source_en"@),
        spec_known_key("windows"@, "source_zh"@),
        spec_known_key("windows"@, "agent_task"@),
        spec_known_key("windows"@, "agent_timeout_ms"@),
        spec_known_key("windows"@, "agent_idle_ms"@),
        spec_known_key("verify"@, "timeout_ms"@),
        spec_known_key("verify"@, "poll_ms"@),
{
    reveal_strlit("macos");
    reveal_strlit("windows");
    reveal_strlit("verify");
    assert("macos"@.len() == 5 && "windows"@.len() == 7 && "verify"@.len() == 6);
}

/// A file that sets only keys of the schema has no unknown key, whatever their
/// number and order: e.g. `[verify] timeout_ms = 2000` is read, never ignored.
pub proof fn lemma_verify_keys_never_reported(keys: Seq<Seq<char>>)
    requires
        forall|k: int| 0 <= k < keys.len() ==> #[trigger] keys[k] == "timeout_ms"@ || keys[k] == "poll_ms"@,
    ensures
        spec_unknown_in("verify"@, keys) == Seq::<Seq<char>>::empty(),
{
    lemma_schema_fields_are_known();
    lemma_known_keys_are_never_reported("verify"@, keys);
}

} // verus!
