//! GoNhanh's toggle chord: the JSON blob in its defaults gives a key code and
//! modifier flags. Decoding the JSON is the binary's job; masking the flags and
//! describing the chord happen here.
use vstd::prelude::*;
use crate::text::{decimal, owned, push_decimal};
use crate::doctor::{join, seq_join, views};

verus! {

/// NSEvent modifier flags and CGEventFlags share their bits:
/// CapsLock 1<<16, Shift 1<<17, Control 1<<18, Option 1<<19, Command 1<<20.
/// The mask only drops the 16 low device-dependent bits (left/right modifier)
/// and any stray bit.
pub const MODIFIER_MASK: u64 = 0x001F_0000;

pub const FLAG_CAPS: u64 = 0x0001_0000;
pub const FLAG_SHIFT: u64 = 0x0002_0000;
pub const FLAG_CONTROL: u64 = 0x0004_0000;
pub const FLAG_OPTION: u64 = 0x0008_0000;
pub const FLAG_COMMAND: u64 = 0x0010_0000;

/// A key and the modifiers held with it.
#[derive(Debug, PartialEq, Eq, Structural)]
pub struct Chord {
    pub key_code: u16,
    pub flags: u64,
}

impl Chord {
    /// The chord stored as `{"keyCode": key_code, "modifiers": modifiers}`: the
    /// modifiers keep only the five modifier bits.
    pub fn from_toggle(key_code: u16, modifiers: u64) -> (c: Chord)
        ensures
            c.key_code == key_code,
            c.flags == modifiers & MODIFIER_MASK,
    {
        Chord { key_code, flags: modifiers & MODIFIER_MASK }
    }
}

/// The modifier names held in `flags`, in the order Ctrl, Option, Shift, Cmd,
/// CapsLock.
pub open spec fn spec_modifier_names(flags: u64) -> Seq<Seq<char>> {
    (if flags & FLAG_CONTROL != 0 { seq!["Ctrl"@] } else { Seq::empty() })
        + (if flags & FLAG_OPTION != 0 { seq!["Option"@] } else { Seq::empty() })
        + (if flags & FLAG_SHIFT != 0 { seq!["Shift"@] } else { Seq::empty() })
        + (if flags & FLAG_COMMAND != 0 { seq!["Cmd"@] } else { Seq::empty() })
        + (if flags & FLAG_CAPS != 0 { seq!["CapsLock"@] } else { Seq::empty() })
}

/// The name of a key: the common ones by name, any other by its code.
pub open spec fn spec_key_name(key_code: u16) -> Seq<char> {
    if key_code == 36 {
        "Return"@
    } else if key_code == 48 {
        "Tab"@
    } else if key_code == 49 {
        "Space"@
    } else if key_code == 53 {
        "Esc"@
    } else {
        "keyCode "@ + decimal(key_code as nat)
    }
}

/// `Ctrl+Shift+Space` and the like.
pub open spec fn spec_describe(c: Chord) -> Seq<char> {
    seq_join(spec_modifier_names(c.flags).push(spec_key_name(c.key_code)), "+"@)
}

/// Describes a chord for `doctor`: the modifier names, then the key, joined by
/// `+`; an unfamiliar key is printed by its code rather than guessed.
pub fn describe(c: &Chord) -> (s: String)
    ensures
        s@ == spec_describe(*c),
{
    let mut parts: Vec<String> = Vec::new();
    if c.flags & FLAG_CONTROL != 0 {
        parts.push(owned("Ctrl"));
    }
    if c.flags & FLAG_OPTION != 0 {
        parts.push(owned("Option"));
    }
    if c.flags & FLAG_SHIFT != 0 {
        parts.push(owned("Shift"));
    }
    if c.flags & FLAG_COMMAND != 0 {
        parts.push(owned("Cmd"));
    }
    if c.flags & FLAG_CAPS != 0 {
        parts.push(owned("CapsLock"));
    }
    let key = if c.key_code == 36 {
        owned("Return")
    } else if c.key_code == 48 {
        owned("Tab")
    } else if c.key_code == 49 {
        owned("Space")
    } else if c.key_code == 53 {
        owned("Esc")
    } else {
        let mut k = owned("keyCode ");
        push_decimal(&mut k, c.key_code as u64);
        k
    };
    parts.push(key);
    assert(views(parts@) =~= spec_modifier_names(c.flags).push(spec_key_name(c.key_code)));
    join(parts.as_slice(), "+")
}

} // verus!
