//! The current mode, inferred from the machine's real state — no cache, no state
//! file — and its two renderings (human and JSON).
use vstd::prelude::*;
use crate::text::{owned, push_str, str_eq};
use crate::mode::{Mode, Sources, spec_mode_name, spec_ime_on, spec_layout_of};

verus! {

/// What `status` reports.
pub struct Snapshot {
    pub mode: String,
    pub layout: Option<String>,
    pub ime_on: bool,
    pub drift: Option<String>,
}

/// Drift reported when the external IME runs together with the Chinese source.
pub open spec fn spec_drift_ime_with_zh() -> Seq<char> {
    "GoNhanh đang chạy cùng Pinyin — chạy `tongue zh` hoặc `tongue vi` để dọn"@
}

/// Mode and drift inferred on macOS from the IME bit and the current layout.
pub open spec fn spec_infer_mac(ime_on: bool, layout: Seq<char>, source_vi: Seq<char>, source_zh: Seq<
    char,
>) -> (Seq<char>, Option<Seq<char>>) {
    if layout == source_vi {
        if ime_on {
            ("vi"@, None)
        } else {
            ("en"@, None)
        }
    } else if layout == source_zh {
        if ime_on {
            ("zh"@, Some(spec_drift_ime_with_zh()))
        } else {
            ("zh"@, None)
        }
    } else {
        ("unknown"@, Some("layout lạ: "@ + layout))
    }
}

/// Infers the macOS mode: the `vi` source plus the IME bit gives `vi`/`en`; the
/// `zh` source gives `zh` (with a drift warning when the IME still runs beside
/// it); any other layout is `unknown` and named in the drift.
pub fn infer_mac(ime_on: bool, layout: &str, source_vi: &str, source_zh: &str) -> (r: (
    String,
    Option<String>,
))
    ensures
        r.0@ == spec_infer_mac(ime_on, layout@, source_vi@, source_zh@).0,
        r.1 is Some == spec_infer_mac(ime_on, layout@, source_vi@, source_zh@).1 is Some,
        r.1 matches Some(d) ==> Some(d@) == spec_infer_mac(ime_on, layout@, source_vi@, source_zh@).1,
{
    if str_eq(layout, source_vi) {
        if ime_on {
            (owned("vi"), None)
        } else {
            (owned("en"), None)
        }
    } else if str_eq(layout, source_zh) {
        if ime_on {
            (
                owned("zh"),
                Some(owned("GoNhanh đang chạy cùng Pinyin — chạy `tongue zh` hoặc `tongue vi` để dọn")),
            )
        } else {
            (owned("zh"), None)
        }
    } else {
        let mut d = owned("layout lạ: ");
        push_str(&mut d, layout);
        (owned("unknown"), Some(d))
    }
}

/// Mode inferred on Windows from the VKey bit alone.
pub open spec fn spec_infer_win(ime_on: bool) -> Seq<char> {
    if ime_on {
        "vi"@
    } else {
        "en"@
    }
}

/// Infers the Windows mode from the VKey bit: on is `vi`, off is `en`.
pub fn infer_win(ime_on: bool) -> (s: String)
    ensures
        s@ == spec_infer_win(ime_on),
{
    if ime_on {
        owned("vi")
    } else {
        owned("en")
    }
}

/// `bật` or `tắt`.
pub open spec fn spec_on_off(b: bool) -> Seq<char> {
    if b {
        "bật"@
    } else {
        "tắt"@
    }
}

/// The human rendering: a `mode:` line, a `layout:` line when the layout is
/// known, an `ime:` line, and a `lệch:` line when there is drift.
pub open spec fn spec_render_human(mode: Seq<char>, layout: Option<Seq<char>>, ime_on: bool, drift: Option<
    Seq<char>,
>) -> Seq<char> {
    "mode:   "@ + mode + "\n"@ + (match layout {
        Some(l) => "layout: "@ + l + "\n"@,
        None => Seq::empty(),
    }) + "ime:    "@ + spec_on_off(ime_on) + "\n"@ + (match drift {
        Some(d) => "lệch:   "@ + d + "\n"@,
        None => Seq::empty(),
    })
}

/// The view of an optional string.
pub open spec fn opt_view(o: Option<String>) -> Option<Seq<char>> {
    match o {
        Some(s) => Some(s@),
        None => None,
    }
}

/// Renders a snapshot for people.
pub fn render_human(s: &Snapshot) -> (out: String)
    ensures
        out@ == spec_render_human(s.mode@, opt_view(s.layout), s.ime_on, opt_view(s.drift)),
{
    let mut out = owned("mode:   ");
    push_str(&mut out, s.mode.as_str());
    push_str(&mut out, "\n");
    if let Some(l) = &s.layout {
        push_str(&mut out, "layout: ");
        push_str(&mut out, l.as_str());
        push_str(&mut out, "\n");
    }
    push_str(&mut out, "ime:    ");
    if s.ime_on {
        push_str(&mut out, "bật");
    } else {
        push_str(&mut out, "tắt");
    }
    push_str(&mut out, "\n");
    if let Some(d) = &s.drift {
        push_str(&mut out, "lệch:   ");
        push_str(&mut out, d.as_str());
        push_str(&mut out, "\n");
    }
    assert(out@ =~= spec_render_human(s.mode@, opt_view(s.layout), s.ime_on, opt_view(s.drift)));
    out
}

/// `s` with every `"` preceded by a backslash (nothing else is escaped: the
/// values are ASCII tokens).
pub open spec fn spec_escape_quotes(s: Seq<char>) -> Seq<char>
    decreases s.len(),
{
    if s.len() == 0 {
        Seq::empty()
    } else {
        spec_escape_quotes(s.drop_last()) + (if s.last() == '"' {
            seq!['\\', '"']
        } else {
            seq![s.last()]
        })
    }
}

/// A JSON value for an optional string: the quoted, escaped string, or `null`.
pub open spec fn spec_json_opt(v: Option<Seq<char>>) -> Seq<char> {
    match v {
        Some(x) => "\""@ + spec_escape_quotes(x) + "\""@,
        None => "null"@,
    }
}

/// The JSON rendering: one object on one line, followed by a newline.
pub open spec fn spec_render_json(mode: Seq<char>, layout: Option<Seq<char>>, ime_on: bool, drift: Option<
    Seq<char>,
>) -> Seq<char> {
    "{\"mode\":\""@ + mode + "\",\"layout\":"@ + spec_json_opt(layout) + ",\"ime_on\":"@ + (if ime_on {
        "true"@
    } else {
        "false"@
    }) + ",\"drift\":"@ + spec_json_opt(drift) + "}\n"@
}

/// Appends `x` with its quotes escaped.
fn push_escaped(out: &mut String, x: &str)
    ensures
        final(out)@ == old(out)@ + spec_escape_quotes(x@),
{
    let cs = crate::text::chars_of(x);
    let mut i: usize = 0;
    while i < cs.len()
        invariant
            cs@ == x@,
            i <= cs.len(),
            out@ == old(out)@ + spec_escape_quotes(x@.subrange(0, i as int)),
        decreases cs.len() - i,
    {
        let c = cs[i];
        let ghost prefix = x@.subrange(0, i + 1);
        assert(prefix.drop_last() =~= x@.subrange(0, i as int));
        assert(prefix.last() == c);
        if c == '"' {
            out.push('\\');
            out.push('"');
            assert(out@ =~= old(out)@ + spec_escape_quotes(prefix));
        } else {
            out.push(c);
            assert(out@ =~= old(out)@ + spec_escape_quotes(prefix));
        }
        i = i + 1;
    }
    assert(x@.subrange(0, x@.len() as int) =~= x@);
}

/// Appends the JSON value of an optional string.
fn push_json_opt(out: &mut String, v: &Option<String>)
    ensures
        final(out)@ == old(out)@ + spec_json_opt(opt_view(*v)),
{
    match v {
        Some(x) => {
            push_str(out, "\"");
            push_escaped(out, x.as_str());
            push_str(out, "\"");
            assert(out@ =~= old(out)@ + spec_json_opt(opt_view(*v)));
        },
        None => {
            push_str(out, "null");
        },
    }
}

/// Renders a snapshot as one line of JSON for scripts.
pub fn render_json(s: &Snapshot) -> (out: String)
    ensures
        out@ == spec_render_json(s.mode@, opt_view(s.layout), s.ime_on, opt_view(s.drift)),
{
    let mut out = owned("{\"mode\":\"");
    push_str(&mut out, s.mode.as_str());
    push_str(&mut out, "\",\"layout\":");
    push_json_opt(&mut out, &s.layout);
    push_str(&mut out, ",\"ime_on\":");
    if s.ime_on {
        push_str(&mut out, "true");
    } else {
        push_str(&mut out, "false");
    }
    push_str(&mut out, ",\"drift\":");
    push_json_opt(&mut out, &s.drift);
    push_str(&mut out, "}\n");
    assert(out@ =~= spec_render_json(s.mode@, opt_view(s.layout), s.ime_on, opt_view(s.drift)));
    out
}

/// Status reads back what a switch set up: with an external input method (`vi`
/// and `en` share one layout, `zh` has its own), the machine state that a mode's
/// target describes is inferred as exactly that mode, with no drift.
pub proof fn lemma_infer_mac_reads_back_desired(mode: Mode, vi: Seq<char>, zh: Seq<char>)
    requires
        vi != zh,
    ensures
        spec_infer_mac(spec_ime_on(mode, true), spec_layout_of(mode, vi, vi, zh), vi, zh) == (
            spec_mode_name(mode),
            None::<Seq<char>>,
        ),
{
}

/// On Windows the VKey bit alone reads back `vi` and `en` as switched; `zh` is
/// not told apart from `en` by the bit (the drift of an unreadable layout says
/// so).
pub proof fn lemma_infer_win_reads_back_vi_en(mode: Mode)
    requires
        mode != Mode::Zh,
    ensures
        spec_infer_win(spec_ime_on(mode, true)) == spec_mode_name(mode),
{
}

} // verus!
