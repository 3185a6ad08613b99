//! Windows HKL normalisation into tongue's layout identifiers.
//!
//! A layout identifier on Windows is deliberately the **4-digit lower-case
//! hexadecimal LANGID** ("0409" US, "0804" Simplified Chinese, "042a"
//! Vietnamese), not the 8-digit KLID: `GetKeyboardLayout` hands back an HKL whose
//! high word is a device handle that changes between sessions and keyboards, so
//! comparing whole HKLs would never let reconcile's verify match. The low word
//! (the LANGID) is stable.
//!
//! Known trade-off: non-standard KLIDs (`00010409`, US-Dvorak) share the LANGID of
//! `00000409` and cannot be told apart.
use vstd::prelude::*;
use crate::text::{all_hex, hex_digit, chars_of, hex_fixed, hex_number, hex_value, push_hex_fixed, push_str};

verus! {

/// The LANGID (low word) of an HKL.
pub open spec fn spec_langid(hkl: nat) -> nat {
    hkl % 65536
}

/// The identifier that tongue uses for an HKL: its LANGID as four lower-case
/// hexadecimal digits.
pub open spec fn spec_layout_id(hkl: nat) -> Seq<char> {
    hex_fixed(spec_langid(hkl), 4)
}

/// `id` left-padded with `'0'` to eight characters (unchanged when already eight
/// or longer): the KLID that `LoadKeyboardLayoutW` expects.
pub open spec fn spec_klid(id: Seq<char>) -> Seq<char> {
    if id.len() >= 8 {
        id
    } else {
        Seq::new((8 - id.len()) as nat, |i: int| '0') + id
    }
}

/// What `usize::from_str_radix(s, 16)` gives: an optional leading `'+'`, then at
/// least one hexadecimal digit of either case and nothing else, with a value that
/// fits in `usize`.
pub open spec fn spec_parse_hex_usize(s: Seq<char>) -> Option<nat> {
    let digits = if s.len() > 0 && s[0] == '+' { s.drop_first() } else { s };
    if digits.len() == 0 || !all_hex(digits) || hex_number(digits) > usize::MAX {
        None
    } else {
        Some(hex_number(digits))
    }
}

/// The LANGID that a configured layout identifier selects: the identifier is
/// padded to a KLID, read as hexadecimal, and its low word kept. `None` when the
/// padded identifier is not a hexadecimal number that fits in `usize`.
pub open spec fn spec_langid_of_id(id: Seq<char>) -> Option<nat> {
    match spec_parse_hex_usize(spec_klid(id)) {
        Some(n) => Some(spec_langid(n)),
        None => None,
    }
}

/// LANGID (low word) of an HKL given as `usize`.
pub fn langid_of(hkl: usize) -> (r: u16)
    ensures
        r as nat == spec_langid(hkl as nat),
{
    let low: u32 = hkl as u32;
    let r = (low & 0xFFFF) as u16;
    assert((hkl as u32 & 0xFFFF) as u16 == hkl % 65536) by (bit_vector);
    r
}

/// HKL → tongue's layout identifier: the LANGID as four lower-case hex digits.
pub fn format_langid(hkl: usize) -> (s: String)
    ensures
        s@ == spec_layout_id(hkl as nat),
{
    let l = langid_of(hkl);
    let mut s = String::new();
    push_hex_fixed(&mut s, l as u64, 4);
    s
}

/// Layout identifier → the 8-digit KLID that `LoadKeyboardLayoutW` wants: left
/// padded with zeros, an identifier of eight or more characters kept as it is.
pub fn klid_of(id: &str) -> (s: String)
    ensures
        s@ == spec_klid(id@),
{
    let n = id.unicode_len();
    let mut s = String::new();
    if n < 8 {
        let mut k: usize = 0;
        while k < 8 - n
            invariant
                n < 8,
                k <= 8 - n,
                s@ == Seq::new(k as nat, |i: int| '0'),
            decreases 8 - n - k,
        {
            s.push('0');
            k = k + 1;
            assert(s@ =~= Seq::new(k as nat, |i: int| '0'));
        }
    }
    push_str(&mut s, id);
    assert(s@ =~= spec_klid(id@));
    s
}

/// Reads `s` as `usize::from_str_radix(s, 16)` does.
pub fn parse_hex_usize(s: &str) -> (r: Option<usize>)
    ensures
        r matches Some(n) ==> spec_parse_hex_usize(s@) == Some(n as nat),
        r is None ==> spec_parse_hex_usize(s@) is None,
{
    let cs = chars_of(s);
    let start: usize = if cs.len() > 0 && cs[0] == '+' { 1 } else { 0 };
    let ghost digits = if s@.len() > 0 && s@[0] == '+' { s@.drop_first() } else { s@ };
    assert(digits =~= s@.subrange(start as int, s@.len() as int));
    if start == cs.len() {
        return None;
    }
    let mut acc: usize = 0;
    let mut i: usize = start;
    while i < cs.len()
        invariant
            cs@ == s@,
            digits == (if s@.len() > 0 && s@[0] == '+' { s@.drop_first() } else { s@ }),
            digits.len() > 0,
            start <= i <= cs.len(),
            digits =~= s@.subrange(start as int, s@.len() as int),
            all_hex(s@.subrange(start as int, i as int)),
            acc as nat == hex_number(s@.subrange(start as int, i as int)),
        decreases cs.len() - i,
    {
        let c = cs[i];
        let d = match hex_digit_value(c) {
            Some(d) => d,
            None => {
                proof {
                    let k = i - start;
                    assert(digits[k as int] == c);
                    assert(hex_value(digits[k as int]) is None);
                    assert(!all_hex(digits));
                }
                return None;
            },
        };
        let ghost prev = s@.subrange(start as int, i as int);
        let ghost next = s@.subrange(start as int, i + 1);
        assert(next.drop_last() =~= prev);
        assert(next.last() == c);
        assert(next =~= digits.subrange(0, (i + 1 - start) as int));
        assert(hex_number(next) == hex_number(prev) * 16 + d as nat);
        let m = acc.checked_mul(16);
        let m = match m {
            Some(m) => m,
            None => {
                proof {
                    lemma_hex_number_prefix_monotone(digits, (i + 1 - start) as nat);
                }
                return None;
            },
        };
        let a = m.checked_add(d as usize);
        match a {
            Some(a) => {
                acc = a;
            },
            None => {
                proof {
                    lemma_hex_number_prefix_monotone(digits, (i + 1 - start) as nat);
                }
                return None;
            },
        }
        i = i + 1;
        assert(all_hex(next)) by {
            assert forall|j: int| 0 <= j < next.len() implies (#[trigger] hex_value(next[j])) is Some by {
                if j < prev.len() {
                    assert(next[j] == prev[j]);
                }
            }
        }
    }
    assert(digits =~= s@.subrange(start as int, i as int));
    Some(acc)
}

/// Value of one hexadecimal digit of either case.
pub fn hex_digit_value(c: char) -> (r: Option<u32>)
    ensures
        r matches Some(d) ==> hex_value(c) == Some(d as nat) && d < 16,
        r is None ==> hex_value(c) is None,
{
    if '0' <= c && c <= '9' {
        Some((c as u32) - ('0' as u32))
    } else if 'a' <= c && c <= 'f' {
        Some((c as u32) - ('a' as u32) + 10)
    } else if 'A' <= c && c <= 'F' {
        Some((c as u32) - ('A' as u32) + 10)
    } else {
        None
    }
}

/// The LANGID that the configured identifier `id` selects (see
/// [`spec_langid_of_id`]); `None` when the identifier is not hexadecimal.
pub fn langid_from_id(id: &str) -> (r: Option<u16>)
    ensures
        r matches Some(l) ==> spec_langid_of_id(id@) == Some(l as nat),
        r is None ==> spec_langid_of_id(id@) is None,
{
    let klid = klid_of(id);
    match parse_hex_usize(klid.as_str()) {
        Some(n) => Some(langid_of(n)),
        None => None,
    }
}

/// Once a prefix of the digits is too large for `usize`, so is the whole number.
proof fn lemma_hex_number_prefix_monotone(s: Seq<char>, k: nat)
    requires
        k <= s.len(),
        hex_number(s.subrange(0, k as int)) > usize::MAX,
    ensures
        hex_number(s) > usize::MAX,
    decreases s.len() - k,
{
    if k < s.len() {
        let p = s.subrange(0, (k + 1) as int);
        assert(p.drop_last() =~= s.subrange(0, k as int));
        lemma_hex_number_prefix_monotone(s, k + 1);
    } else {
        assert(s.subrange(0, k as int) =~= s);
    }
}

/// `16^w`.
pub open spec fn pow16(w: nat) -> nat
    decreases w,
{
    if w == 0 {
        1
    } else {
        16 * pow16((w - 1) as nat)
    }
}

/// A digit rendered by [`hex_digit`] reads back as itself.
proof fn lemma_hex_digit_value(d: nat)
    requires
        d < 16,
    ensures
        hex_value(hex_digit(d)) == Some(d),
        hex_digit(d) != '+',
{
}

/// Fixed-width rendering has the requested width, only hex digits, and denotes
/// the number modulo `16^width`.
proof fn lemma_hex_fixed(n: nat, w: nat)
    ensures
        hex_fixed(n, w).len() == w,
        all_hex(hex_fixed(n, w)),
        hex_number(hex_fixed(n, w)) == n % pow16(w),
        pow16(w) > 0,
    decreases w,
{
    if w == 0 {
        assert(n % 1 == 0);
    } else {
        let w1 = (w - 1) as nat;
        lemma_hex_fixed(n / 16, w1);
        lemma_hex_digit_value(n % 16);
        let s = hex_fixed(n, w);
        let p = hex_fixed(n / 16, w1);
        assert(s.drop_last() =~= p);
        assert forall|i: int| 0 <= i < s.len() implies (#[trigger] hex_value(s[i])) is Some by {
            if i < p.len() {
                assert(s[i] == p[i]);
            }
        }
        vstd::arithmetic::div_mod::lemma_mod_breakdown(n as int, 16, pow16(w1) as int);
        assert(hex_number(s) == hex_number(p) * 16 + n % 16);
        assert(n % pow16(w) == 16 * ((n / 16) % pow16(w1)) + n % 16);
    }
}

/// Leading zeros do not change the value of a hexadecimal numeral.
proof fn lemma_hex_number_zero_prefix(k: nat, s: Seq<char>)
    ensures
        hex_number(Seq::new(k, |i: int| '0') + s) == hex_number(s),
    decreases s.len() + k,
{
    let z = Seq::new(k, |i: int| '0');
    if s.len() == 0 {
        assert(z + s =~= z);
        if k > 0 {
            let z1 = Seq::new((k - 1) as nat, |i: int| '0');
            assert(z.drop_last() =~= z1 + s);
            lemma_hex_number_zero_prefix((k - 1) as nat, s);
            assert(hex_value(z.last()) == Some(0nat));
        }
    } else {
        assert((z + s).drop_last() =~= z + s.drop_last());
        assert((z + s).last() == s.last());
        lemma_hex_number_zero_prefix(k, s.drop_last());
    }
}

/// Round trip that reconcile relies on: the identifier read back from any HKL,
/// when configured as the layout to select, selects that same LANGID again.
pub proof fn lemma_layout_id_round_trip(hkl: nat)
    ensures
        spec_langid_of_id(spec_layout_id(hkl)) == Some(spec_langid(hkl)),
{
    let v = spec_langid(hkl);
    let id = spec_layout_id(hkl);
    lemma_hex_fixed(v, 4);
    assert(pow16(4) == 65536) by {
        reveal_with_fuel(pow16, 5);
    }
    assert(v % 65536 == v);
    let z = Seq::new(4, |i: int| '0');
    let klid = spec_klid(id);
    assert(klid =~= z + id);
    lemma_hex_number_zero_prefix(4, id);
    assert(klid[0] == '0');
    assert(all_hex(klid)) by {
        assert forall|i: int| 0 <= i < klid.len() implies (#[trigger] hex_value(klid[i])) is Some by {
            if i >= 4 {
                assert(klid[i] == id[i - 4]);
            }
        }
    }
    assert(spec_parse_hex_usize(klid) == Some(v));
    assert(spec_langid(v) == v);
}

/// Every standard four-digit lower-case identifier survives select-then-read:
/// the LANGID it selects is rendered back as exactly the same identifier.
pub proof fn lemma_standard_id_round_trip(v: nat)
    requires
        v < 65536,
    ensures
        spec_langid_of_id(hex_fixed(v, 4)) == Some(v),
        spec_layout_id(v) == hex_fixed(v, 4),
{
    assert(spec_langid(v) == v);
    lemma_layout_id_round_trip(v);
}

} // verus!
