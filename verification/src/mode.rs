//! The mode table: each mode's target state. Pure; touches nothing of the OS.
use vstd::prelude::*;
use crate::text::{owned, push_str, str_eq};

verus! {

/// A typing mode.
#[derive(Clone, Copy, Debug, PartialEq, Eq, Structural)]
pub enum Mode {
    Vi,
    En,
    Zh,
}

/// The platform the tool runs on.
#[derive(Clone, Copy, Debug, PartialEq, Eq, Structural)]
pub enum Platform {
    MacOs,
    Windows,
}

/// A mode's target state: the system layout (`None` = leave it alone) and
/// whether the external input method must be on.
#[derive(Clone, Debug, PartialEq, Eq)]
pub struct Desired {
    pub layout: Option<String>,
    pub ime_on: bool,
}

/// The three input sources of the three modes.
///
/// `vi` and `en` are the SAME when Vietnamese comes from an external app
/// (GoNhanh, EVKey, VKey...): the layout stays put and only the IME bit tells
/// them apart. They DIFFER when Vietnamese comes straight from a system input
/// source (macOS backend `system`) — then the layout is what tells them apart and
/// there is no external app to switch on.
#[derive(Clone, Debug, PartialEq, Eq)]
pub struct Sources {
    pub vi: String,
    pub en: String,
    pub zh: String,
}

/// The name of a mode on the command line and in `status`.
pub open spec fn spec_mode_name(m: Mode) -> Seq<char> {
    match m {
        Mode::Vi => "vi"@,
        Mode::En => "en"@,
        Mode::Zh => "zh"@,
    }
}

/// What `Mode::from_str` answers for `s`.
pub open spec fn spec_parse_mode(s: Seq<char>) -> Result<Mode, Seq<char>> {
    if s == "vi"@ {
        Ok(Mode::Vi)
    } else if s == "en"@ {
        Ok(Mode::En)
    } else if s == "zh"@ {
        Ok(Mode::Zh)
    } else {
        Err("mode không hợp lệ: "@ + s + " (vi|en|zh)"@)
    }
}

impl Mode {
    /// The mode's name: `vi`, `en` or `zh`.
    pub fn as_str(&self) -> (s: &'static str)
        ensures
            s@ == spec_mode_name(*self),
    {
        match self {
            Mode::Vi => "vi",
            Mode::En => "en",
            Mode::Zh => "zh",
        }
    }

    /// Reads a mode name; anything but `vi`, `en`, `zh` is refused with a message
    /// that names the offending word.
    pub fn parse(s: &str) -> (r: Result<Mode, String>)
        ensures
            r matches Ok(m) ==> spec_parse_mode(s@) == Ok::<Mode, Seq<char>>(m),
            r matches Err(e) ==> spec_parse_mode(s@) == Err::<Mode, Seq<char>>(e@),
    {
        if str_eq(s, "vi") {
            Ok(Mode::Vi)
        } else if str_eq(s, "en") {
            Ok(Mode::En)
        } else if str_eq(s, "zh") {
            Ok(Mode::Zh)
        } else {
            let mut e = owned("mode không hợp lệ: ");
            push_str(&mut e, s);
            push_str(&mut e, " (vi|en|zh)");
            Err(e)
        }
    }
}

impl std::str::FromStr for Mode {
    type Err = String;

    fn from_str(s: &str) -> (r: Result<Mode, String>)
        ensures
            r matches Ok(m) ==> spec_parse_mode(s@) == Ok::<Mode, Seq<char>>(m),
            r matches Err(e) ==> spec_parse_mode(s@) == Err::<Mode, Seq<char>>(e@),
    {
        Mode::parse(s)
    }
}

/// The layout that `mode` targets: the mode's own input source.
pub open spec fn spec_layout_of(mode: Mode, vi: Seq<char>, en: Seq<char>, zh: Seq<char>) -> Seq<char> {
    match mode {
        Mode::Vi => vi,
        Mode::En => en,
        Mode::Zh => zh,
    }
}

/// Whether `mode` wants the external input method on: only `vi`, and only when
/// there is an external app at all.
pub open spec fn spec_ime_on(mode: Mode, has_external_ime: bool) -> bool {
    mode == Mode::Vi && has_external_ime
}

/// `d` is exactly the target state of `mode` for these sources.
pub open spec fn is_desired(d: Desired, mode: Mode, sources: Sources, has_external_ime: bool) -> bool {
    &&& d.layout matches Some(l) && l@ == spec_layout_of(mode, sources.vi@, sources.en@, sources.zh@)
    &&& d.ime_on == spec_ime_on(mode, has_external_ime)
}

/// The target state of `mode`. `None` would mean "this mode does not exist on
/// this platform"; both platforms now have all three modes, so the answer is
/// always `Some`, and every mode declares its layout — otherwise leaving `zh`
/// would not pull the layout back.
///
/// `has_external_ime = false` (macOS backend `system`) means there is no app to
/// switch on, so `ime_on` is false for EVERY mode; otherwise reconcile would wait
/// for an app that does not exist and verify would fail forever.
pub fn desired(mode: Mode, platform: Platform, sources: &Sources, has_external_ime: bool) -> (r:
    Option<Desired>)
    ensures
        r matches Some(d) && is_desired(d, mode, *sources, has_external_ime),
{
    let layout = match mode {
        Mode::Vi => sources.vi.clone(),
        Mode::En => sources.en.clone(),
        Mode::Zh => sources.zh.clone(),
    };
    let ime_on = match mode {
        Mode::Vi => has_external_ime,
        _ => false,
    };
    match platform {
        Platform::MacOs => Some(Desired { layout: Some(layout), ime_on }),
        Platform::Windows => Some(Desired { layout: Some(layout), ime_on }),
    }
}

/// Without an external input method (`system` backend) no mode ever asks for
/// one to be on.
pub proof fn lemma_system_backend_never_wants_ime(mode: Mode)
    ensures
        !spec_ime_on(mode, false),
{
}

/// Exactly one mode wants the external input method on when there is one: `vi`.
pub proof fn lemma_only_vi_turns_ime_on(mode: Mode)
    ensures
        spec_ime_on(mode, true) <==> mode == Mode::Vi,
{
}

/// Every name that `as_str` produces reads back as the same mode.
pub proof fn lemma_mode_name_round_trip(mode: Mode)
    ensures
        spec_parse_mode(spec_mode_name(mode)) == Ok::<Mode, Seq<char>>(mode),
{
    reveal_strlit("vi");
    reveal_strlit("en");
    reveal_strlit("zh");
    assert("vi"@[0] == 'v' && "en"@[0] == 'e' && "zh"@[0] == 'z');
    if mode == Mode::En {
        assert("en"@ != "vi"@);
    }
    if mode == Mode::Zh {
        assert("zh"@ != "vi"@);
        assert("zh"@ != "en"@);
    }
}

} // verus!
