//! Text helpers shared by the frame rendering and the candump log format:
//! hexadecimal and decimal digits, in both directions, over `char`s.
use vstd::prelude::*;
use vstd::string::StrSliceExecFns;

verus! {

/// The upper-case hexadecimal digit of `d` (`d < 16`).
pub open spec fn hex_char(d: nat) -> char {
    if d < 10 {
        ((48 + d) as u32) as char
    } else {
        ((55 + d) as u32) as char
    }
}

/// The lower-case hexadecimal digit of `d` (`d < 16`).
pub open spec fn hex_char_lower(d: nat) -> char {
    if d < 10 {
        ((48 + d) as u32) as char
    } else {
        ((87 + d) as u32) as char
    }
}

/// `v` in exactly `w` upper-case hexadecimal digits (the low `4 * w` bits).
pub open spec fn hex_fixed(v: nat, w: nat) -> Seq<char>
    decreases w,
{
    if w == 0 {
        Seq::empty()
    } else {
        hex_fixed(v / 16, (w - 1) as nat).push(hex_char(v % 16))
    }
}

/// `v` in exactly `w` lower-case hexadecimal digits (the low `4 * w` bits).
pub open spec fn hex_fixed_lower(v: nat, w: nat) -> Seq<char>
    decreases w,
{
    if w == 0 {
        Seq::empty()
    } else {
        hex_fixed_lower(v / 16, (w - 1) as nat).push(hex_char_lower(v % 16))
    }
}

/// `v` in upper-case hexadecimal, without leading zeros (`{:X}`).
pub open spec fn hex_min(v: nat) -> Seq<char>
    decreases v,
{
    if v < 16 {
        seq![hex_char(v)]
    } else {
        hex_min(v / 16).push(hex_char(v % 16))
    }
}

/// `v` in lower-case hexadecimal, without leading zeros (`{:x}`).
pub open spec fn hex_min_lower(v: nat) -> Seq<char>
    decreases v,
{
    if v < 16 {
        seq![hex_char_lower(v)]
    } else {
        hex_min_lower(v / 16).push(hex_char_lower(v % 16))
    }
}

/// `v` in decimal, without leading zeros (`{}`).
pub open spec fn dec(v: nat) -> Seq<char>
    decreases v,
{
    if v < 10 {
        seq![((48 + v) as u32) as char]
    } else {
        dec(v / 10).push(((48 + v % 10) as u32) as char)
    }
}

/// `v` in exactly `w` decimal digits (the value modulo `10^w`).
pub open spec fn dec_fixed(v: nat, w: nat) -> Seq<char>
    decreases w,
{
    if w == 0 {
        Seq::empty()
    } else {
        dec_fixed(v / 10, (w - 1) as nat).push(((48 + v % 10) as u32) as char)
    }
}

/// Each byte as two upper-case hexadecimal digits.
pub open spec fn hex_bytes(s: Seq<u8>) -> Seq<char>
    decreases s.len(),
{
    if s.len() == 0 {
        Seq::empty()
    } else {
        hex_bytes(s.drop_last()) + hex_fixed(s.last() as nat, 2)
    }
}

/// The value of a digit in base `radix` (at most 16), if `c` is one.
pub open spec fn digit_value(c: char, radix: nat) -> Option<nat> {
    let v = c as u32;
    let d: int = if 48 <= v <= 57 {
        v - 48
    } else if 65 <= v <= 70 {
        v - 55
    } else if 97 <= v <= 102 {
        v - 87
    } else {
        100
    };
    if d < radix {
        Some(d as nat)
    } else {
        None
    }
}

/// Whether every character of `s` is a digit in base `radix`.
pub open spec fn all_digits(s: Seq<char>, radix: nat) -> bool {
    forall|i: int| 0 <= i < s.len() ==> (#[trigger] digit_value(s[i], radix)) is Some
}

/// The value of a string of digits, most significant first.
pub open spec fn digits_value(s: Seq<char>, radix: nat) -> nat
    decreases s.len(),
{
    if s.len() == 0 {
        0
    } else {
        digits_value(s.drop_last(), radix) * radix + digit_value(s.last(), radix)->0
    }
}

/// The value of `s` read as an unsigned number in base `radix`: a
/// non-empty string of digits, with no sign, whose value is at most `max`.
pub open spec fn parse_unsigned(s: Seq<char>, radix: nat, max: nat) -> Option<nat> {
    if s.len() > 0 && all_digits(s, radix) && digits_value(s, radix) <= max {
        Some(digits_value(s, radix))
    } else {
        None
    }
}

/// The hexadecimal digit of `d` (`d < 16`), upper-case.
pub fn hex_digit(d: u32) -> (c: char)
    requires
        d < 16,
    ensures
        c == hex_char(d as nat),
{
    let c = if d < 10 {
        char_of(48 + d)
    } else {
        char_of(55 + d)
    };
    c
}

/// The hexadecimal digit of `d` (`d < 16`), lower-case.
pub fn hex_digit_lower(d: u32) -> (c: char)
    requires
        d < 16,
    ensures
        c == hex_char_lower(d as nat),
{
    if d < 10 {
        char_of(48 + d)
    } else {
        char_of(87 + d)
    }
}

/// The ASCII character with code `v`.
fn char_of(v: u32) -> (c: char)
    requires
        v < 128,
    ensures
        c == (v as char),
{
    let b: u8 = v as u8;
    b as char
}

/// Appends `v` as exactly `w` upper-case hexadecimal digits.
pub fn push_hex_fixed(out: &mut Vec<char>, v: u64, w: usize)
    ensures
        final(out)@ == old(out)@ + hex_fixed(v as nat, w as nat),
    decreases w,
{
    if w > 0 {
        push_hex_fixed(out, v / 16, w - 1);
        out.push(hex_digit((v % 16) as u32));
    }
}

/// Appends `v` in upper-case hexadecimal, without leading zeros.
pub fn push_hex_min(out: &mut Vec<char>, v: u64)
    ensures
        final(out)@ == old(out)@ + hex_min(v as nat),
    decreases v,
{
    if v >= 16 {
        push_hex_min(out, v / 16);
    }
    out.push(hex_digit((v % 16) as u32));
}

/// Appends `v` in lower-case hexadecimal, without leading zeros.
pub fn push_hex_min_lower(out: &mut Vec<char>, v: u64)
    ensures
        final(out)@ == old(out)@ + hex_min_lower(v as nat),
    decreases v,
{
    if v >= 16 {
        push_hex_min_lower(out, v / 16);
    }
    out.push(hex_digit_lower((v % 16) as u32));
}

/// Appends `v` in decimal, without leading zeros.
pub fn push_dec(out: &mut Vec<char>, v: u64)
    ensures
        final(out)@ == old(out)@ + dec(v as nat),
    decreases v,
{
    if v >= 10 {
        push_dec(out, v / 10);
    }
    out.push(char_of(48 + (v % 10) as u32));
}

/// Appends `v` as exactly `w` decimal digits.
pub fn push_dec_fixed(out: &mut Vec<char>, v: u64, w: usize)
    ensures
        final(out)@ == old(out)@ + dec_fixed(v as nat, w as nat),
    decreases w,
{
    if w > 0 {
        push_dec_fixed(out, v / 10, w - 1);
        out.push(char_of(48 + (v % 10) as u32));
    }
}

/// Appends each byte as two upper-case hexadecimal digits.
pub fn push_hex_bytes(out: &mut Vec<char>, s: &[u8])
    ensures
        final(out)@ == old(out)@ + hex_bytes(s@),
{
    let ghost start = out@;
    let mut i: usize = 0;
    while i < s.len()
        invariant
            i <= s@.len(),
            out@ == start + hex_bytes(s@.take(i as int)),
        decreases s@.len() - i,
    {
        let ghost before = out@;
        push_hex_fixed(out, s[i] as u64, 2);
        proof {
            assert(s@.take(i + 1).drop_last() =~= s@.take(i as int));
            assert(s@.take(i + 1).last() == s@[i as int]);
            assert(out@ =~= start + hex_bytes(s@.take(i + 1)));
        }
        i = i + 1;
    }
    proof {
        assert(s@.take(s@.len() as int) =~= s@);
    }
}

/// The value of `c` as a digit in base `radix`, if it is one.
pub fn digit_of(c: char, radix: u32) -> (r: Option<u32>)
    requires
        radix <= 16,
    ensures
        r is Some <==> digit_value(c, radix as nat) is Some,
        r matches Some(d) ==> d == digit_value(c, radix as nat)->0 && d < radix,
{
    let v = c as u32;
    let d: u32 = if 48 <= v && v <= 57 {
        v - 48
    } else if 65 <= v && v <= 70 {
        v - 55
    } else if 97 <= v && v <= 102 {
        v - 87
    } else {
        100
    };
    if d < radix {
        Some(d)
    } else {
        None
    }
}

/// Appending a digit extends the value.
pub proof fn lemma_digits_value_push(s: Seq<char>, c: char, radix: nat)
    ensures
        digits_value(s.push(c), radix) == digits_value(s, radix) * radix + digit_value(c, radix)->0,
{
    assert(s.push(c).drop_last() =~= s);
}

/// A longer string of digits never has a smaller value.
pub proof fn lemma_digits_value_prefix(s: Seq<char>, i: int, radix: nat)
    requires
        0 <= i <= s.len(),
        radix >= 1,
    ensures
        digits_value(s.take(i), radix) <= digits_value(s, radix),
    decreases s.len() - i,
{
    if i < s.len() {
        lemma_digits_value_prefix(s, i + 1, radix);
        assert(s.take(i + 1).drop_last() =~= s.take(i));
        let a = digits_value(s.take(i), radix);
        assert(a <= a * radix) by (nonlinear_arith)
            requires radix >= 1;
    } else {
        assert(s.take(i) =~= s);
    }
}

/// Parses `s[from..to]` as an unsigned number in base `radix`: digits
/// only, no sign, and a value of at most `max`.
pub fn parse_unsigned_exec(s: &[char], from: usize, to: usize, radix: u32, max: u64) -> (r: Option<u64>)
    requires
        from <= to <= s@.len(),
        2 <= radix <= 16,
    ensures
        r is Some <==> parse_unsigned(s@.subrange(from as int, to as int), radix as nat, max as nat) is Some,
        r matches Some(v) ==> v == parse_unsigned(s@.subrange(from as int, to as int), radix as nat, max as nat)->0,
{
    let ghost sub = s@.subrange(from as int, to as int);
    if from == to {
        return None;
    }
    let mut acc: u64 = 0;
    let mut i: usize = from;
    while i < to
        invariant
            from <= i <= to <= s@.len(),
            2 <= radix <= 16,
            sub == s@.subrange(from as int, to as int),
            sub.len() > 0,
            all_digits(sub.take(i - from), radix as nat),
            acc == digits_value(sub.take(i - from), radix as nat),
            acc <= max,
        decreases to - i,
    {
        let dg = digit_of(s[i], radix);
        proof {
            assert(sub[i - from] == s@[i as int]);
        }
        match dg {
            None => {
                proof {
                    assert(digit_value(sub[i - from], radix as nat) is None);
                }
                return None;
            },
            Some(v) => {
                proof {
                    lemma_digits_value_push(sub.take(i - from), s@[i as int], radix as nat);
                    assert(sub.take(i - from).push(s@[i as int]) =~= sub.take(i + 1 - from));
                }
                if v as u64 > max || acc > (max - v as u64) / radix as u64 {
                    proof {
                        let n = digits_value(sub.take(i + 1 - from), radix as nat);
                        assert(n == acc * radix + v);
                        if v > max {
                            assert(acc * radix + v > max) by (nonlinear_arith)
                                requires v > max, acc >= 0, radix >= 2;
                        } else {
                            assert(acc * radix + v > max) by (nonlinear_arith)
                                requires acc > (max - v) / (radix as int), radix >= 2, v <= max;
                        }
                        if all_digits(sub, radix as nat) {
                            lemma_digits_value_prefix(sub, i + 1 - from, radix as nat);
                        }
                    }
                    return None;
                }
                proof {
                    assert(acc * radix + v <= max) by (nonlinear_arith)
                        requires acc <= (max - v) / (radix as int), radix >= 2, v <= max;
                }
                acc = acc * radix as u64 + v as u64;
                proof {
                    assert forall|k: int| 0 <= k < sub.take(i + 1 - from).len() implies
                        (#[trigger] digit_value(sub.take(i + 1 - from)[k], radix as nat)) is Some by {
                        if k < i - from {
                            assert(sub.take(i + 1 - from)[k] == sub.take(i - from)[k]);
                        }
                    }
                }
                i = i + 1;
            },
        }
    }
    proof {
        assert(sub.take(to - from) =~= sub);
    }
    Some(acc)
}

/// Appends `v` as exactly `w` lower-case hexadecimal digits.
pub fn push_hex_fixed_lower(out: &mut Vec<char>, v: u64, w: usize)
    ensures
        final(out)@ == old(out)@ + hex_fixed_lower(v as nat, w as nat),
    decreases w,
{
    if w > 0 {
        push_hex_fixed_lower(out, v / 16, w - 1);
        out.push(hex_digit_lower((v % 16) as u32));
    }
}

/// Appends the characters of `s`.
pub fn push_str(out: &mut Vec<char>, s: &str)
    ensures
        final(out)@ == old(out)@ + s@,
{
    let n = s.unicode_len();
    let ghost start = out@;
    let mut i: usize = 0;
    while i < n
        invariant
            i <= n == s@.len(),
            out@ == start + s@.take(i as int),
        decreases n - i,
    {
        out.push(s.get_char(i));
        i = i + 1;
        assert(out@ =~= start + s@.take(i as int));
    }
    assert(s@.take(i as int) =~= s@);
}

/// The characters of `s`, in a vector.
pub fn chars_of(s: &str) -> (r: Vec<char>)
    ensures
        r@ == s@,
{
    let mut out: Vec<char> = Vec::new();
    push_str(&mut out, s);
    assert(out@ =~= s@);
    out
}

/// Whether two strings hold the same characters.
pub fn str_eq(a: &str, b: &str) -> (r: bool)
    ensures
        r == (a@ == b@),
{
    let n = a.unicode_len();
    if n != b.unicode_len() {
        return false;
    }
    let mut i: usize = 0;
    while i < n
        invariant
            i <= n == a@.len() == b@.len(),
            forall|j: int| 0 <= j < i ==> a@[j] == b@[j],
        decreases n - i,
    {
        if a.get_char(i) != b.get_char(i) {
            return false;
        }
        i = i + 1;
    }
    assert(a@ =~= b@);
    true
}

/// Collects characters into a `String` (`String::from_iter`), which holds
/// exactly those characters in order.
#[verifier::external_body]
pub fn string_from_chars(chars: &[char]) -> (r: String)
    ensures
        r@ == chars@,
{
    chars.iter().collect()
}

// ===== Reading back what was written =====

/// `16^n`.
pub open spec fn pow16(n: nat) -> nat
    decreases n,
{
    if n == 0 {
        1
    } else {
        16 * pow16((n - 1) as nat)
    }
}

/// `10^n`.
pub open spec fn pow10(n: nat) -> nat
    decreases n,
{
    if n == 0 {
        1
    } else {
        10 * pow10((n - 1) as nat)
    }
}

/// A hex digit character reads back as its value, and is none of the
/// separators of the formats here.
pub proof fn lemma_hex_char(d: nat)
    requires
        d < 16,
    ensures
        digit_value(hex_char(d), 16) == Some(d),
        d < 10 ==> digit_value(hex_char(d), 10) == Some(d),
        hex_char(d) != ' ' && hex_char(d) != '.' && hex_char(d) != '#' && hex_char(d) != 'R',
        hex_char(d) != '(' && hex_char(d) != ')' && hex_char(d) != '+' && hex_char(d) != '-',
{
}

/// A decimal digit character reads back as its value.
pub proof fn lemma_dec_char(d: nat)
    requires
        d < 10,
    ensures
        digit_value(((48 + d) as u32) as char, 10) == Some(d),
        digit_value(((48 + d) as u32) as char, 16) == Some(d),
        ((48 + d) as u32) as char == hex_char(d),
{
}

/// The digits of a number in exactly `w` hex digits read back as the
/// number, when it fits.
pub proof fn lemma_hex_fixed_value(v: nat, w: nat)
    requires
        v < pow16(w),
    ensures
        hex_fixed(v, w).len() == w,
        all_digits(hex_fixed(v, w), 16),
        digits_value(hex_fixed(v, w), 16) == v,
    decreases w,
{
    if w == 0 {
    } else {
        let p = pow16((w - 1) as nat);
        assert(v / 16 < p) by (nonlinear_arith)
            requires
                v < 16 * p,
                p > 0,
        ;
        assert(pow16((w - 1) as nat) > 0) by {
            lemma_pow16_positive((w - 1) as nat);
        }
        lemma_hex_fixed_value(v / 16, (w - 1) as nat);
        lemma_hex_char(v % 16);
        let s = hex_fixed(v / 16, (w - 1) as nat);
        lemma_digits_value_push(s, hex_char(v % 16), 16);
        assert forall|i: int| 0 <= i < hex_fixed(v, w).len() implies (#[trigger] digit_value(
            hex_fixed(v, w)[i],
            16,
        )) is Some by {
            if i < w - 1 {
                assert(hex_fixed(v, w)[i] == s[i]);
            }
        }
    }
}

/// Powers of 16 are positive.
pub proof fn lemma_pow16_positive(n: nat)
    ensures
        pow16(n) > 0,
    decreases n,
{
    if n > 0 {
        lemma_pow16_positive((n - 1) as nat);
    }
}

/// The decimal digits of a number read back as the number.
pub proof fn lemma_dec_value(v: nat)
    ensures
        dec(v).len() >= 1,
        all_digits(dec(v), 10),
        digits_value(dec(v), 10) == v,
    decreases v,
{
    if v < 10 {
        lemma_dec_char(v);
        let c = ((48 + v) as u32) as char;
        lemma_digits_value_push(Seq::<char>::empty(), c, 10);
        assert(dec(v) =~= Seq::<char>::empty().push(c));
    } else {
        lemma_dec_value(v / 10);
        lemma_dec_char(v % 10);
        let s = dec(v / 10);
        lemma_digits_value_push(s, ((48 + v % 10) as u32) as char, 10);
        assert forall|i: int| 0 <= i < dec(v).len() implies (#[trigger] digit_value(dec(v)[i], 10)) is Some by {
            if i < s.len() {
                assert(dec(v)[i] == s[i]);
            }
        }
    }
}

/// The digits of a number in exactly `w` decimal digits read back as the
/// number, when it fits.
pub proof fn lemma_dec_fixed_value(v: nat, w: nat)
    requires
        v < pow10(w),
    ensures
        dec_fixed(v, w).len() == w,
        all_digits(dec_fixed(v, w), 10),
        digits_value(dec_fixed(v, w), 10) == v,
    decreases w,
{
    if w == 0 {
    } else {
        let p = pow10((w - 1) as nat);
        assert(v / 10 < p) by (nonlinear_arith)
            requires
                v < 10 * p,
                p > 0,
        ;
        assert(pow10((w - 1) as nat) > 0) by {
            lemma_pow10_positive((w - 1) as nat);
        }
        lemma_dec_fixed_value(v / 10, (w - 1) as nat);
        lemma_dec_char(v % 10);
        let s = dec_fixed(v / 10, (w - 1) as nat);
        lemma_digits_value_push(s, ((48 + v % 10) as u32) as char, 10);
        assert forall|i: int| 0 <= i < dec_fixed(v, w).len() implies (#[trigger] digit_value(
            dec_fixed(v, w)[i],
            10,
        )) is Some by {
            if i < w - 1 {
                assert(dec_fixed(v, w)[i] == s[i]);
            }
        }
    }
}

/// Powers of 10 are positive.
pub proof fn lemma_pow10_positive(n: nat)
    ensures
        pow10(n) > 0,
    decreases n,
{
    if n > 0 {
        lemma_pow10_positive((n - 1) as nat);
    }
}

/// A non-empty string of digits parses as its value, when it fits.
pub proof fn lemma_parse_digits(s: Seq<char>, radix: nat, max: nat)
    requires
        s.len() >= 1,
        all_digits(s, radix),
        digits_value(s, radix) <= max,
        2 <= radix <= 16,
    ensures
        parse_unsigned(s, radix, max) == Some(digits_value(s, radix)),
{
}

/// Each byte is written as two hex digits.
pub proof fn lemma_hex_bytes(d: Seq<u8>)
    ensures
        hex_bytes(d).len() == 2 * d.len(),
        forall|i: int| 0 <= i < d.len() ==> #[trigger] hex_bytes(d)[2 * i] == hex_char((d[i] / 16) as nat)
            && hex_bytes(d)[2 * i + 1] == hex_char((d[i] % 16) as nat),
    decreases d.len(),
{
    if d.len() > 0 {
        let p = d.drop_last();
        lemma_hex_bytes(p);
        let b = d.last();
        reveal_with_fuel(hex_fixed, 3);
        assert(hex_fixed(b as nat, 2) =~= seq![hex_char(((b / 16) % 16) as nat), hex_char((b % 16) as nat)]);
        assert((b / 16) % 16 == b / 16);
        assert forall|i: int| 0 <= i < d.len() implies #[trigger] hex_bytes(d)[2 * i] == hex_char(
            (d[i] / 16) as nat,
        ) && hex_bytes(d)[2 * i + 1] == hex_char((d[i] % 16) as nat) by {
            if i < d.len() - 1 {
                assert(hex_bytes(d)[2 * i] == hex_bytes(p)[2 * i]);
                assert(hex_bytes(d)[2 * i + 1] == hex_bytes(p)[2 * i + 1]);
                assert(p[i] == d[i]);
            }
        }
    }
}

} // verus!
