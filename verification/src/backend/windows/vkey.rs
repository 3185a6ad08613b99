//! VKey (phatMT97/VKey ≥ 4.x), driven through its own interface: the mode is set
//! by posting `WM_USER+100` to its hidden window and read from the section
//! `Local\VKeySharedState`. Those calls are the binary's; which `VKey.exe` to
//! run, what VKey's own settings say, and what `doctor` concludes are decided
//! here.
use vstd::prelude::*;
use crate::doctor::{Finding, Level, fviews, finding};
use crate::text::{is_prefix, owned, push_str, starts_with};

verus! {

/// `WM_USER + 100`: VKey's "set mode" message (SharedConstants.h).
pub const WM_VKEY_SET_MODE: u32 = 0x0464;

/// Class of VKey's hidden tray window.
pub const WINDOW_CLASS: &'static str = "VKeyTrayClass";

/// Name of VKey's shared-memory section.
pub const SECTION: &'static str = "Local\\VKeySharedState";

/// `toml::Value`, VKey's parsed settings file.
#[verifier::external_type_specification]
#[verifier::external_body]
pub struct ExTomlValue(toml::Value);

/// What parsing `text` as a TOML document reports: `None` when it parses,
/// otherwise the parser's message. A function of the text alone.
pub uninterp spec fn toml_parse_error(text: Seq<char>) -> Option<Seq<char>>;

/// Parses `text` as a TOML document (`toml::Value`'s `FromStr`), the error
/// rendered with `Display`. Whether it parses, and the message, are
/// [`toml_parse_error`] of the text.
#[verifier::external_body]
fn parse_settings(text: &str) -> (r: Result<toml::Value, String>)
    ensures
        r is Ok <==> toml_parse_error(text@) is None,
        r matches Err(e) ==> toml_parse_error(text@) == Some(e@),
{
    text.parse::<toml::Value>().map_err(|e| format!("{e}"))
}

/// The boolean at `[table] key` of `text` read as a TOML document: `None` when
/// the text does not parse, the table or the key is missing, or the value is not
/// a boolean. A function of its arguments alone.
pub uninterp spec fn toml_bool_at(text: Seq<char>, table: Seq<char>, key: Seq<char>) -> Option<bool>;

/// Looks up `[table] key` as a boolean in `text` (`toml::Value`'s `FromStr`, then
/// `Value::get` twice and `Value::as_bool`); the answer is [`toml_bool_at`] of
/// the arguments.
#[verifier::external_body]
fn lookup_bool(text: &str, table: &str, key: &str) -> (r: Option<bool>)
    ensures
        r == toml_bool_at(text@, table@, key@),
{
    let v = text.parse::<toml::Value>().ok()?;
    v.get(table)?.get(key)?.as_bool()
}

/// `[table] key` read as a flag: on only when it is the boolean `true`; a
/// missing table or key, or a value of another kind, is off.
fn setting_flag(text: &str, table: &str, key: &str) -> (r: bool)
    ensures
        r == (toml_bool_at(text@, table@, key@) == Some(true)),
{
    match lookup_bool(text, table, key) {
        Some(b) => b,
        None => false,
    }
}

/// VKey's settings that fight tongue, from the text of its `config.toml`:
/// `[features] smart_switch` and `[system] run_as_admin`, each on only when set
/// to `true`; the parser's message when the text is not TOML.
pub fn vkey_settings(text: &str) -> (r: Result<VkeyFlags, String>)
    ensures
        r is Err <==> toml_parse_error(text@) is Some,
        r matches Err(e) ==> toml_parse_error(text@) == Some(e@),
        r matches Ok(f) ==> f.smart_switch == (toml_bool_at(text@, "features"@, "smart_switch"@) == Some(true))
            && f.run_as_admin == (toml_bool_at(text@, "system"@, "run_as_admin"@) == Some(true)),
{
    match parse_settings(text) {
        Ok(_) => Ok(
            VkeyFlags {
                smart_switch: setting_flag(text, "features", "smart_switch"),
                run_as_admin: setting_flag(text, "system", "run_as_admin"),
            },
        ),
        Err(e) => Err(e),
    }
}

/// Where the winget package directories of VKey start.
pub const PACKAGE_PREFIX: &'static str = "PhatMT97.VKey_";

/// Which `VKey.exe` to use.
#[derive(Debug, PartialEq, Eq, Structural)]
pub enum ExeChoice {
    /// The `vkey_path` of the config.
    Configured,
    /// `VKey.exe` in the package directory at this position of the listing.
    Package(usize),
}

/// The error for a configured `vkey_path` that does not exist.
pub open spec fn spec_missing_configured_msg(path: Seq<char>) -> Seq<char> {
    "vkey_path trong config không tồn tại: "@ + path
}

/// The error when no `VKey.exe` could be found at all.
pub open spec fn spec_exe_not_found_msg() -> Seq<char> {
    "không tìm thấy VKey.exe — cài bằng `winget install PhatMT97.VKey` hoặc khai [windows].vkey_path trong config"@
}

/// A package directory of VKey that holds `VKey.exe`.
pub open spec fn is_usable_package(entry: (Seq<char>, bool)) -> bool {
    is_prefix(PACKAGE_PREFIX@, entry.0) && entry.1
}

/// The views of the listed package directories: name, and whether `VKey.exe` is
/// in it.
pub open spec fn package_views(p: Seq<(String, bool)>) -> Seq<(Seq<char>, bool)> {
    p.map_values(|e: (String, bool)| (e.0@, e.1))
}

/// Finds `VKey.exe`: a configured `vkey_path` (non-empty) wins and must exist;
/// otherwise the first winget package directory named `PhatMT97.VKey_…` that
/// holds a `VKey.exe`, in the order the directory was listed. `packages` holds
/// each listed directory's name and whether `VKey.exe` exists in it.
pub fn exe_choice(configured: &str, configured_exists: bool, packages: &[(String, bool)]) -> (r: Result<
    ExeChoice,
    String,
>)
    ensures
        configured@.len() > 0 && configured_exists ==> r matches Ok(ExeChoice::Configured),
        r matches Ok(ExeChoice::Configured) ==> configured@.len() > 0 && configured_exists,
        configured@.len() > 0 && !configured_exists ==> (r matches Err(e) && e@
            == spec_missing_configured_msg(configured@)),
        configured@.len() == 0 ==> (r is Ok <==> exists|i: int|
            0 <= i < packages@.len() && is_usable_package(#[trigger] package_views(packages@)[i])),
        configured@.len() == 0 ==> (r matches Err(e) ==> e@ == spec_exe_not_found_msg()),
        r matches Ok(ExeChoice::Package(i)) ==> configured@.len() == 0 && i < packages@.len()
            && is_usable_package(package_views(packages@)[i as int]) && forall|j: int|
            0 <= j < i ==> !is_usable_package(#[trigger] package_views(packages@)[j]),
{
    if configured.unicode_len() > 0 {
        if configured_exists {
            return Ok(ExeChoice::Configured);
        }
        let mut m = owned("vkey_path trong config không tồn tại: ");
        push_str(&mut m, configured);
        return Err(m);
    }
    let mut i: usize = 0;
    while i < packages.len()
        invariant
            i <= packages@.len(),
            configured@.len() == 0,
            forall|j: int| 0 <= j < i ==> !is_usable_package(#[trigger] package_views(packages@)[j]),
        decreases packages.len() - i,
    {
        let ghost v = package_views(packages@)[i as int];
        assert(v == (packages@[i as int].0@, packages@[i as int].1));
        if starts_with(packages[i].0.as_str(), PACKAGE_PREFIX) && packages[i].1 {
            return Ok(ExeChoice::Package(i));
        }
        i = i + 1;
    }
    Err(
        owned(
            "không tìm thấy VKey.exe — cài bằng `winget install PhatMT97.VKey` hoặc khai [windows].vkey_path trong config",
        ),
    )
}


/// The two flags of VKey's own `config.toml` that fight tongue for control.
#[derive(Debug, PartialEq, Eq, Structural)]
pub struct VkeyFlags {
    /// `[features].smart_switch`: VKey switches mode per app by itself.
    pub smart_switch: bool,
    /// `[system].run_as_admin`: UIPI then swallows tongue's messages.
    pub run_as_admin: bool,
}

/// The view of an error message.
pub open spec fn err_view<T>(r: Result<T, String>) -> Result<T, Seq<char>> {
    match r {
        Ok(v) => Ok(v),
        Err(e) => Err(e@),
    }
}

/// The view of a result of two strings.
pub open spec fn str_result_view(r: Result<String, String>) -> Result<Seq<char>, Seq<char>> {
    match r {
        Ok(v) => Ok(v@),
        Err(e) => Err(e@),
    }
}

/// The view of an optional result.
pub open spec fn opt_err_view<T>(r: Option<Result<T, String>>) -> Option<Result<T, Seq<char>>> {
    match r {
        Some(x) => Some(err_view(x)),
        None => None,
    }
}

/// The findings of the VKey backend (see [`vkey_findings`]).
pub open spec fn spec_vkey_findings(
    exe: Result<Seq<char>, Seq<char>>,
    state: Result<Option<bool>, Seq<char>>,
    config: Option<Result<VkeyFlags, Seq<char>>>,
) -> Seq<(Level, Seq<char>)> {
    seq![
        match exe {
            Ok(p) => (Level::Good, "VKey.exe: "@ + p),
            Err(e) => (Level::Fail, e),
        },
        match state {
            Ok(Some(vi)) => (Level::Good, "VKey đang chạy, mode hiện tại = "@ + (if vi { "vi"@ } else { "en"@ })),
            Ok(None) => (Level::Warn, "VKey chưa chạy — `tongue vi` sẽ tự bật"@),
            Err(e) => (Level::Fail, "shared memory không đọc được: "@ + e),
        },
    ] + match config {
        Some(Ok(f)) => seq![
            if f.smart_switch {
                (
                    Level::Warn,
                    "smart_switch đang bật — VKey tự đổi mode theo app, giành lái với tongue; cân nhắc tắt trong Settings của VKey"@,
                )
            } else {
                (Level::Good, "smart_switch tắt"@)
            },
            if f.run_as_admin {
                (Level::Warn, "run_as_admin đang bật — UIPI sẽ nuốt lệnh set mode của tongue; cân nhắc tắt"@)
            } else {
                (Level::Good, "run_as_admin tắt"@)
            },
        ],
        Some(Err(e)) => seq![(Level::Warn, "config.toml của VKey không parse được: "@ + e)],
        None => seq![(Level::Warn, "không tìm thấy config.toml của VKey"@)],
    }
}

/// What `doctor` reports for VKey from what was observed: where `VKey.exe` was
/// found (or why not), whether it runs and in which mode (or why its shared
/// memory cannot be read), and the two flags of its `config.toml` that fight
/// tongue (or why that file could not be found or parsed).
pub fn vkey_findings(
    exe: Result<String, String>,
    state: Result<Option<bool>, String>,
    config: Option<Result<VkeyFlags, String>>,
) -> (fs: Vec<Finding>)
    ensures
        fviews(fs@) == spec_vkey_findings(str_result_view(exe), err_view(state), opt_err_view(config)),
{
    let ghost ev = str_result_view(exe);
    let ghost sv = err_view(state);
    let ghost cv = opt_err_view(config);
    let mut fs: Vec<Finding> = Vec::new();
    match exe {
        Ok(p) => {
            let mut m = owned("VKey.exe: ");
            push_str(&mut m, p.as_str());
            fs.push(finding(Level::Good, m));
        },
        Err(e) => {
            fs.push(finding(Level::Fail, e));
        },
    }
    match state {
        Ok(Some(vi)) => {
            let mut m = owned("VKey đang chạy, mode hiện tại = ");
            push_str(&mut m, if vi { "vi" } else { "en" });
            fs.push(finding(Level::Good, m));
        },
        Ok(None) => {
            fs.push(finding(Level::Warn, owned("VKey chưa chạy — `tongue vi` sẽ tự bật")));
        },
        Err(e) => {
            let mut m = owned("shared memory không đọc được: ");
            push_str(&mut m, e.as_str());
            fs.push(finding(Level::Fail, m));
        },
    }
    match config {
        Some(Ok(f)) => {
            if f.smart_switch {
                fs.push(
                    finding(
                        Level::Warn,
                        owned(
                            "smart_switch đang bật — VKey tự đổi mode theo app, giành lái với tongue; cân nhắc tắt trong Settings của VKey",
                        ),
                    ),
                );
            } else {
                fs.push(finding(Level::Good, owned("smart_switch tắt")));
            }
            if f.run_as_admin {
                fs.push(
                    finding(
                        Level::Warn,
                        owned("run_as_admin đang bật — UIPI sẽ nuốt lệnh set mode của tongue; cân nhắc tắt"),
                    ),
                );
            } else {
                fs.push(finding(Level::Good, owned("run_as_admin tắt")));
            }
        },
        Some(Err(e)) => {
            let mut m = owned("config.toml của VKey không parse được: ");
            push_str(&mut m, e.as_str());
            fs.push(finding(Level::Warn, m));
        },
        None => {
            fs.push(finding(Level::Warn, owned("không tìm thấy config.toml của VKey")));
        },
    }
    assert(fviews(fs@) =~= spec_vkey_findings(ev, sv, cv));
    fs
}

} // verus!
