//! Small text building blocks shared by the other modules: hexadecimal and
//! decimal rendering, hexadecimal parsing, and character-level helpers on
//! `String`/`&str`, each specified over the character sequence (`@`).
use vstd::prelude::*;
use vstd::string::*;

verus! {

/// `String::push` appends one character.
pub assume_specification[ String::push ](s: &mut String, ch: char)
    ensures
        final(s)@ == old(s)@.push(ch),
;

/// Lower-case hexadecimal digit of `d` (`d < 16`).
pub open spec fn hex_digit(d: nat) -> char {
    if d < 10 {
        (('0' as u32) + d) as char
    } else {
        (('a' as u32) + (d - 10)) as char
    }
}

/// The last `width` lower-case hexadecimal digits of `n`, most significant first.
pub open spec fn hex_fixed(n: nat, width: nat) -> Seq<char>
    decreases width,
{
    if width == 0 {
        Seq::empty()
    } else {
        hex_fixed(n / 16, (width - 1) as nat).push(hex_digit(n % 16))
    }
}

/// Value of one hexadecimal digit, either case; `None` for any other character.
pub open spec fn hex_value(c: char) -> Option<nat> {
    if '0' <= c && c <= '9' {
        Some(((c as nat) - ('0' as nat)) as nat)
    } else if 'a' <= c && c <= 'f' {
        Some(((c as nat) - ('a' as nat) + 10) as nat)
    } else if 'A' <= c && c <= 'F' {
        Some(((c as nat) - ('A' as nat) + 10) as nat)
    } else {
        None
    }
}

/// Every character of `s` is a hexadecimal digit.
pub open spec fn all_hex(s: Seq<char>) -> bool {
    forall|i: int| 0 <= i < s.len() ==> (#[trigger] hex_value(s[i])) is Some
}

/// The number that the hexadecimal digits `s` denote (meaningful when `all_hex(s)`).
pub open spec fn hex_number(s: Seq<char>) -> nat
    decreases s.len(),
{
    if s.len() == 0 {
        0
    } else {
        hex_number(s.drop_last()) * 16 + hex_value(s.last()).unwrap_or(0)
    }
}

/// Value of one decimal digit; `None` for any other character.
pub open spec fn dec_value(c: char) -> Option<nat> {
    if '0' <= c && c <= '9' {
        Some(((c as nat) - ('0' as nat)) as nat)
    } else {
        None
    }
}

/// Every character of `s` is a decimal digit.
pub open spec fn all_dec(s: Seq<char>) -> bool {
    forall|i: int| 0 <= i < s.len() ==> (#[trigger] dec_value(s[i])) is Some
}

/// The number that the decimal digits `s` denote (meaningful when `all_dec(s)`).
pub open spec fn dec_number(s: Seq<char>) -> nat
    decreases s.len(),
{
    if s.len() == 0 {
        0
    } else {
        dec_number(s.drop_last()) * 10 + dec_value(s.last()).unwrap_or(0)
    }
}

/// Decimal rendering of `n` without leading zeros (`"0"` for zero), as `{}` prints it.
pub open spec fn decimal(n: nat) -> Seq<char>
    decreases n,
{
    if n < 10 {
        seq![(('0' as u32) + n) as char]
    } else {
        decimal(n / 10).push((('0' as u32) + (n % 10)) as char)
    }
}

/// The characters of `s`, in order.
pub fn chars_of(s: &str) -> (v: Vec<char>)
    ensures
        v@ == s@,
{
    let n = s.unicode_len();
    let mut v: Vec<char> = Vec::new();
    let mut i: usize = 0;
    while i < n
        invariant
            n == s@.len(),
            i <= n,
            v@ == s@.subrange(0, i as int),
        decreases n - i,
    {
        let c = s.get_char(i);
        v.push(c);
        i = i + 1;
    }
    v
}

/// `s` followed by the characters of `tail`.
pub fn push_str(s: &mut String, tail: &str)
    ensures
        final(s)@ == old(s)@ + tail@,
{
    s.append(tail);
}

/// A `String` holding exactly `t`.
pub fn owned(t: &str) -> (s: String)
    ensures
        s@ == t@,
{
    t.to_owned()
}

/// Appends the decimal rendering of `n` to `s`.
pub fn push_decimal(s: &mut String, n: u64)
    ensures
        final(s)@ == old(s)@ + decimal(n as nat),
    decreases n,
{
    if n >= 10 {
        push_decimal(s, n / 10);
    }
    let d = (n % 10) as u32;
    let c = char_from_digit(d);
    s.push(c);
}

/// The character `'0' + d` for a digit `d < 16`, lower-case letters above nine.
pub fn char_from_digit(d: u32) -> (c: char)
    requires
        d < 16,
    ensures
        c == hex_digit(d as nat),
        d < 10 ==> c == (('0' as u32) + d) as char,
{
    if d < 10 {
        let code: u32 = 48 + d;
        proof {
            assert(('0' as u32) == 48);
        }
        let c = char_of_ascii(code);
        c
    } else {
        let code: u32 = 97 + (d - 10);
        proof {
            assert(('a' as u32) == 97);
        }
        let c = char_of_ascii(code);
        c
    }
}

/// The ASCII character with code `code`.
fn char_of_ascii(code: u32) -> (c: char)
    requires
        code < 128,
    ensures
        c == code as char,
{
    let b: u8 = code as u8;
    b as char
}

/// Appends the last `width` lower-case hexadecimal digits of `n`.
pub fn push_hex_fixed(s: &mut String, n: u64, width: u32)
    ensures
        final(s)@ == old(s)@ + hex_fixed(n as nat, width as nat),
    decreases width,
{
    if width > 0 {
        push_hex_fixed(s, n / 16, width - 1);
        let d = (n % 16) as u32;
        let c = char_from_digit(d);
        s.push(c);
    }
}

/// Upper-case hexadecimal digit of `d` (`d < 16`).
pub open spec fn hex_digit_upper(d: nat) -> char {
    if d < 10 {
        (('0' as u32) + d) as char
    } else {
        (('A' as u32) + (d - 10)) as char
    }
}

/// The last `width` upper-case hexadecimal digits of `n`, most significant first.
pub open spec fn hex_fixed_upper(n: nat, width: nat) -> Seq<char>
    decreases width,
{
    if width == 0 {
        Seq::empty()
    } else {
        hex_fixed_upper(n / 16, (width - 1) as nat).push(hex_digit_upper(n % 16))
    }
}

/// Appends the last `width` upper-case hexadecimal digits of `n`.
pub fn push_hex_fixed_upper(s: &mut String, n: u64, width: u32)
    ensures
        final(s)@ == old(s)@ + hex_fixed_upper(n as nat, width as nat),
    decreases width,
{
    if width > 0 {
        push_hex_fixed_upper(s, n / 16, width - 1);
        let d = (n % 16) as u32;
        let c = if d < 10 {
            char_from_digit(d)
        } else {
            proof {
                assert(('A' as u32) == 65);
            }
            char_of_ascii(65 + (d - 10))
        };
        s.push(c);
    }
}

/// Little-endian `u32` stored at `off` in `b`.
pub open spec fn le_u32(b: Seq<u8>, off: int) -> nat {
    (b[off] as nat) + (b[off + 1] as nat) * 256 + (b[off + 2] as nat) * 65536 + (b[off + 3]
        as nat) * 16777216
}

/// The four little-endian bytes of `x`.
pub open spec fn le_bytes_u32(x: nat) -> Seq<u8> {
    seq![(x % 256) as u8, ((x / 256) % 256) as u8, ((x / 65536) % 256) as u8, ((x / 16777216) % 256) as u8]
}

/// Reads the little-endian `u32` at `off`.
pub fn read_u32_le(b: &[u8], off: usize) -> (r: u32)
    requires
        off + 4 <= b@.len(),
    ensures
        r as nat == le_u32(b@, off as int),
{
    let b0 = b[off];
    let b1 = b[off + 1];
    let b2 = b[off + 2];
    let b3 = b[off + 3];
    let r: u32 = (b0 as u32) | ((b1 as u32) << 8) | ((b2 as u32) << 16) | ((b3 as u32) << 24);
    assert(((b0 as u32) | ((b1 as u32) << 8) | ((b2 as u32) << 16) | ((b3 as u32) << 24)) as nat
        == (b0 as nat) + (b1 as nat) * 256 + (b2 as nat) * 65536 + (b3 as nat) * 16777216)
        by (bit_vector);
    r
}

/// Appends the four little-endian bytes of `x`.
pub fn push_u32_le(out: &mut Vec<u8>, x: u32)
    ensures
        final(out)@ == old(out)@ + le_bytes_u32(x as nat),
{
    let b0 = (x & 0xff) as u8;
    let b1 = ((x >> 8) & 0xff) as u8;
    let b2 = ((x >> 16) & 0xff) as u8;
    let b3 = ((x >> 24) & 0xff) as u8;
    assert((x & 0xff) as u8 == x % 256) by (bit_vector);
    assert(((x >> 8) & 0xff) as u8 == (x / 256) % 256) by (bit_vector);
    assert(((x >> 16) & 0xff) as u8 == (x / 65536) % 256) by (bit_vector);
    assert(((x >> 24) & 0xff) as u8 == (x / 16777216) % 256) by (bit_vector);
    out.push(b0);
    out.push(b1);
    out.push(b2);
    out.push(b3);
    assert(final(out)@ =~= old(out)@ + le_bytes_u32(x as nat));
}

/// Reading back the four bytes written for `x` gives `x`.
pub proof fn lemma_le_u32_round_trip(x: u32, pre: Seq<u8>)
    ensures
        le_u32(pre + le_bytes_u32(x as nat), pre.len() as int) == x as nat,
{
    let b = pre + le_bytes_u32(x as nat);
    let n = pre.len() as int;
    assert(b[n] == (x % 256) as u8);
    assert(b[n + 1] == ((x / 256) % 256) as u8);
    assert(b[n + 2] == ((x / 65536) % 256) as u8);
    assert(b[n + 3] == ((x / 16777216) % 256) as u8);
    assert(((x % 256) as u8) as nat + (((x / 256) % 256) as u8) as nat * 256 + (((x / 65536) % 256)
        as u8) as nat * 65536 + (((x / 16777216) % 256) as u8) as nat * 16777216 == x as nat)
        by (bit_vector);
}

/// `p` is a prefix of `s`.
pub open spec fn is_prefix(p: Seq<char>, s: Seq<char>) -> bool {
    p.len() <= s.len() && s.subrange(0, p.len() as int) == p
}

/// Whether `s` starts with `p`.
pub fn starts_with(s: &str, p: &str) -> (r: bool)
    ensures
        r == is_prefix(p@, s@),
{
    let cs = chars_of(s);
    let cp = chars_of(p);
    if cp.len() > cs.len() {
        return false;
    }
    let mut i: usize = 0;
    while i < cp.len()
        invariant
            cs@ == s@,
            cp@ == p@,
            cp.len() <= cs.len(),
            i <= cp.len(),
            forall|j: int| 0 <= j < i ==> cp@[j] == cs@[j],
        decreases cp.len() - i,
    {
        if cp[i] != cs[i] {
            assert(s@.subrange(0, p@.len() as int)[i as int] != p@[i as int]);
            return false;
        }
        i = i + 1;
    }
    assert(s@.subrange(0, p@.len() as int) =~= p@);
    true
}

/// Whether `a` and `b` hold the same characters.
pub fn str_eq(a: &str, b: &str) -> (r: bool)
    ensures
        r == (a@ == b@),
{
    let ca = chars_of(a);
    let cb = chars_of(b);
    if ca.len() != cb.len() {
        return false;
    }
    let mut i: usize = 0;
    while i < ca.len()
        invariant
            ca@ == a@,
            cb@ == b@,
            ca.len() == cb.len(),
            i <= ca.len(),
            forall|j: int| 0 <= j < i ==> ca@[j] == cb@[j],
        decreases ca.len() - i,
    {
        if ca[i] != cb[i] {
            return false;
        }
        i = i + 1;
    }
    assert(a@ =~= b@);
    true
}

/// What `u32::from_str` gives: an optional leading `'+'`, then at least one
/// decimal digit and nothing else, with a value that fits in `u32`.
pub open spec fn spec_parse_u32(s: Seq<char>) -> Option<nat> {
    let digits = if s.len() > 0 && s[0] == '+' { s.drop_first() } else { s };
    if digits.len() == 0 || !all_dec(digits) || dec_number(digits) > u32::MAX {
        None
    } else {
        Some(dec_number(digits))
    }
}

/// Reads the characters `cs[from..]` as `u32::from_str` does.
pub fn parse_u32_from(cs: &Vec<char>, from: usize) -> (r: Option<u32>)
    requires
        from <= cs@.len(),
    ensures
        r matches Some(n) ==> spec_parse_u32(cs@.subrange(from as int, cs@.len() as int)) == Some(n as nat),
        r is None ==> spec_parse_u32(cs@.subrange(from as int, cs@.len() as int)) is None,
{
    let ghost s = cs@.subrange(from as int, cs@.len() as int);
    let start: usize = if from < cs.len() && cs[from] == '+' { from + 1 } else { from };
    let ghost digits = if s.len() > 0 && s[0] == '+' { s.drop_first() } else { s };
    assert(digits =~= cs@.subrange(start as int, cs@.len() as int));
    if start == cs.len() {
        return None;
    }
    let mut acc: u32 = 0;
    let mut i: usize = start;
    while i < cs.len()
        invariant
            s == cs@.subrange(from as int, cs@.len() as int),
            digits == (if s.len() > 0 && s[0] == '+' { s.drop_first() } else { s }),
            digits =~= cs@.subrange(start as int, cs@.len() as int),
            digits.len() > 0,
            start <= i <= cs.len(),
            all_dec(cs@.subrange(start as int, i as int)),
            acc as nat == dec_number(cs@.subrange(start as int, i as int)),
        decreases cs.len() - i,
    {
        let c = cs[i];
        if !('0' <= c && c <= '9') {
            proof {
                let k = i - start;
                assert(digits[k as int] == c);
                assert(dec_value(digits[k as int]) is None);
                assert(!all_dec(digits));
            }
            return None;
        }
        let d: u32 = (c as u32) - ('0' as u32);
        let ghost prev = cs@.subrange(start as int, i as int);
        let ghost next = cs@.subrange(start as int, i + 1);
        assert(next.drop_last() =~= prev);
        assert(next.last() == c);
        assert(next =~= digits.subrange(0, (i + 1 - start) as int));
        assert(dec_number(next) == dec_number(prev) * 10 + d as nat);
        let m = acc.checked_mul(10);
        let m = match m {
            Some(m) => m,
            None => {
                proof {
                    lemma_dec_number_prefix_monotone(digits, (i + 1 - start) as nat);
                }
                return None;
            },
        };
        match m.checked_add(d) {
            Some(a) => {
                acc = a;
            },
            None => {
                proof {
                    lemma_dec_number_prefix_monotone(digits, (i + 1 - start) as nat);
                }
                return None;
            },
        }
        i = i + 1;
        assert(all_dec(next)) by {
            assert forall|j: int| 0 <= j < next.len() implies (#[trigger] dec_value(next[j])) is Some by {
                if j < prev.len() {
                    assert(next[j] == prev[j]);
                }
            }
        }
    }
    assert(digits =~= cs@.subrange(start as int, i as int));
    Some(acc)
}

/// A decimal rendering reads back as the number: it is a non-empty run of
/// decimal digits whose value is `n`.
pub proof fn lemma_decimal_reads_back(n: nat)
    ensures
        decimal(n).len() > 0,
        all_dec(decimal(n)),
        dec_number(decimal(n)) == n,
    decreases n,
{
    if n < 10 {
        let c = (('0' as u32) + n) as char;
        assert(decimal(n) == seq![c]);
        assert(dec_value(c) == Some(n));
        assert(seq![c].drop_last() =~= Seq::<char>::empty());
        assert(dec_number(seq![c].drop_last()) == 0);
        assert(dec_number(seq![c]) == dec_number(seq![c].drop_last()) * 10 + n);
    } else {
        lemma_decimal_reads_back(n / 10);
        let d = (n % 10) as nat;
        let c = (('0' as u32) + d) as char;
        let s = decimal(n / 10);
        assert(decimal(n) == s.push(c));
        assert(dec_value(c) == Some(d));
        assert(s.push(c).drop_last() =~= s);
        assert forall|i: int| 0 <= i < s.push(c).len() implies (#[trigger] dec_value(s.push(c)[i])) is Some by {
            if i < s.len() {
                assert(s.push(c)[i] == s[i]);
            }
        }
        assert(dec_number(s.push(c)) == dec_number(s.push(c).drop_last()) * 10 + d);
        assert(dec_number(s.push(c)) == (n / 10) * 10 + d);
        assert(n == (n / 10) * 10 + n % 10);
    }
}

/// Once a prefix of the digits is too large for `u32`, so is the whole number.
proof fn lemma_dec_number_prefix_monotone(s: Seq<char>, k: nat)
    requires
        k <= s.len(),
        dec_number(s.subrange(0, k as int)) > u32::MAX,
    ensures
        dec_number(s) > u32::MAX,
    decreases s.len() - k,
{
    if k < s.len() {
        let p = s.subrange(0, (k + 1) as int);
        assert(p.drop_last() =~= s.subrange(0, k as int));
        lemma_dec_number_prefix_monotone(s, k + 1);
    } else {
        assert(s.subrange(0, k as int) =~= s);
    }
}

} // verus!
