//! Numeric fields as sysfs, PCI bus ids and version strings write them:
//! `str::trim`, leading `0x`/`0X` markers, and `from_str_radix` in base 10 or 16.

use vstd::prelude::*;
use vstd::string::*;

verus! {

/// `char::is_whitespace`: the characters with the Unicode White_Space property.
pub open spec fn spec_is_whitespace(c: char) -> bool {
    let v = c as u32;
    (0x9 <= v <= 0xd) || v == 0x20 || v == 0x85 || v == 0xa0 || v == 0x1680 || (0x2000 <= v
        <= 0x200a) || v == 0x2028 || v == 0x2029 || v == 0x202f || v == 0x205f || v == 0x3000
}

pub open spec fn spec_trim_start(s: Seq<char>) -> Seq<char>
    decreases s.len(),
{
    if s.len() > 0 && spec_is_whitespace(s[0]) {
        spec_trim_start(s.drop_first())
    } else {
        s
    }
}

pub open spec fn spec_trim_end(s: Seq<char>) -> Seq<char>
    decreases s.len(),
{
    if s.len() > 0 && spec_is_whitespace(s.last()) {
        spec_trim_end(s.drop_last())
    } else {
        s
    }
}

/// `str::trim`.
pub open spec fn spec_trim(s: Seq<char>) -> Seq<char> {
    spec_trim_end(spec_trim_start(s))
}

/// `trim_start_matches` with the two-character pattern `a b`: every leading
/// repetition removed.
pub open spec fn spec_strip_all2(s: Seq<char>, a: char, b: char) -> Seq<char>
    decreases s.len(),
{
    if s.len() >= 2 && s[0] == a && s[1] == b {
        spec_strip_all2(s.subrange(2, s.len() as int), a, b)
    } else {
        s
    }
}

/// The value of one digit in base `radix` (10 or 16), letters of either case.
pub open spec fn spec_digit(c: char, radix: nat) -> Option<nat> {
    let v = c as u32;
    if 0x30 <= v <= 0x39 {
        Some((v - 0x30) as nat)
    } else if radix == 16 && 0x61 <= v <= 0x66 {
        Some((v - 0x61 + 10) as nat)
    } else if radix == 16 && 0x41 <= v <= 0x46 {
        Some((v - 0x41 + 10) as nat)
    } else {
        None
    }
}

/// The value of a run of digits in base `radix` (0 for none); `None` if any
/// character is not a digit.
pub open spec fn spec_radix_value(s: Seq<char>, radix: nat) -> Option<nat>
    decreases s.len(),
{
    if s.len() == 0 {
        Some(0)
    } else {
        match (spec_radix_value(s.drop_last(), radix), spec_digit(s.last(), radix)) {
            (Some(v), Some(d)) => Some(radix * v + d),
            _ => None,
        }
    }
}

/// `from_str_radix(s, radix)` for an unsigned type whose largest value is
/// `max`: an optional `+`, then at least one digit, and a value that fits.
pub open spec fn spec_from_radix(s: Seq<char>, radix: nat, max: nat) -> Option<nat> {
    let digits = if s.len() > 1 && s[0] == '+' {
        s.drop_first()
    } else {
        s
    };
    if digits.len() == 0 {
        None
    } else {
        match spec_radix_value(digits, radix) {
            Some(v) => if v <= max {
                Some(v)
            } else {
                None
            },
            None => None,
        }
    }
}

/// `from_str_radix(s, 16)`.
pub open spec fn spec_from_hex(s: Seq<char>, max: nat) -> Option<nat> {
    spec_from_radix(s, 16, max)
}

/// A sysfs hex field: trimmed, its `0x` and then `0X` markers removed, parsed.
pub open spec fn spec_parse_sysfs_hex(s: Seq<char>, max: nat) -> Option<nat> {
    spec_from_hex(spec_strip_all2(spec_strip_all2(spec_trim(s), '0', 'x'), '0', 'X'), max)
}

fn is_whitespace(c: char) -> (b: bool)
    ensures
        b == spec_is_whitespace(c),
{
    let v = c as u32;
    (0x9 <= v && v <= 0xd) || v == 0x20 || v == 0x85 || v == 0xa0 || v == 0x1680 || (0x2000 <= v
        && v <= 0x200a) || v == 0x2028 || v == 0x2029 || v == 0x202f || v == 0x205f || v == 0x3000
}

fn digit(c: char, radix: u64) -> (d: Option<u64>)
    requires
        radix == 10 || radix == 16,
    ensures
        match spec_digit(c, radix as nat) {
            Some(v) => d == Some(v as u64),
            None => d is None,
        },
{
    let v = c as u32;
    if 0x30 <= v && v <= 0x39 {
        Some((v - 0x30) as u64)
    } else if radix == 16 && 0x61 <= v && v <= 0x66 {
        Some((v - 0x61 + 10) as u64)
    } else if radix == 16 && 0x41 <= v && v <= 0x46 {
        Some((v - 0x41 + 10) as u64)
    } else {
        None
    }
}

/// The value of `s[from..to]` as digits in base `radix`, capped at `max + 1`.
fn radix_value_capped(s: &str, from: usize, to: usize, radix: u64, max: u64) -> (r: Option<u128>)
    requires
        from <= to <= s@.len(),
        radix == 10 || radix == 16,
    ensures
        match spec_radix_value(s@.subrange(from as int, to as int), radix as nat) {
            Some(v) => r == Some((if v <= max {
                v
            } else {
                (max + 1) as nat
            }) as u128),
            None => r is None,
        },
{
    let ghost digits = s@.subrange(from as int, to as int);
    let mut acc: u128 = 0;
    let cap: u128 = max as u128 + 1;
    let mut i: usize = from;
    while i < to
        invariant
            from <= i <= to <= s@.len(),
            radix == 10 || radix == 16,
            cap == max + 1,
            acc <= cap,
            digits == s@.subrange(from as int, to as int),
            spec_radix_value(s@.subrange(from as int, i as int), radix as nat) matches Some(v) && acc == (if v
                <= max {
                v
            } else {
                (max + 1) as nat
            }),
        decreases to - i,
    {
        let c = s.get_char(i);
        proof {
            assert(s@.subrange(from as int, i + 1).drop_last() =~= s@.subrange(from as int, i as int));
            assert(s@.subrange(from as int, i + 1).last() == c);
        }
        let d = match digit(c, radix) {
            Some(d) => d,
            None => {
                proof {
                    lemma_radix_value_invalid_extends(s@.subrange(from as int, to as int), radix as nat, (i - from) as int);
                    assert(s@.subrange(from as int, to as int).subrange(0, (i - from) + 1) =~= s@.subrange(from as int, i + 1));
                }
                return None;
            },
        };
        assert(d < 16);
        assert((radix as u128) * acc <= cap * 16) by (nonlinear_arith)
            requires
                acc <= cap,
                radix <= 16,
        ;
        let next = (radix as u128) * acc + (d as u128);
        proof {
            let v = spec_radix_value(s@.subrange(from as int, i as int), radix as nat)->0;
            assert(spec_radix_value(s@.subrange(from as int, i + 1), radix as nat) == Some(
                (radix * v + d) as nat,
            ));
            assert(v > max ==> radix * v + d > max) by (nonlinear_arith)
                requires
                    radix >= 10,
                    d >= 0,
            ;
            assert(acc == cap ==> (radix as u128) * acc >= cap) by (nonlinear_arith)
                requires
                    radix >= 10,
                    cap >= 1,
            ;
        }
        let ghost old_acc = acc;
        acc = if next > cap {
            cap
        } else {
            next
        };
        proof {
            let v = spec_radix_value(s@.subrange(from as int, i as int), radix as nat)->0;
            let v2 = (radix * v + d) as nat;
            if v <= max {
                assert(old_acc == v);
                assert(next == v2);
            } else {
                assert(old_acc == cap);
                assert(v2 > max);
            }
            assert(acc == (if v2 <= max { v2 } else { (max + 1) as nat }));
        }
        i = i + 1;
    }
    Some(acc)
}

/// Once a prefix holds a non-digit, so does every longer prefix.
proof fn lemma_radix_value_invalid_extends(s: Seq<char>, radix: nat, k: int)
    requires
        0 <= k < s.len(),
        spec_radix_value(s.subrange(0, k + 1), radix) is None,
    ensures
        spec_radix_value(s, radix) is None,
    decreases s.len() - k,
{
    if k + 1 < s.len() {
        assert(s.subrange(0, k + 2).drop_last() =~= s.subrange(0, k + 1));
        lemma_radix_value_invalid_extends(s, radix, k + 1);
    } else {
        assert(s.subrange(0, k + 1) =~= s);
    }
}

/// `from_str_radix(s[from..to], radix)` for a type whose largest value is `max`.
pub fn from_radix_range(s: &str, from: usize, to: usize, radix: u64, max: u64) -> (r: Option<u64>)
    requires
        from <= to <= s@.len(),
        radix == 10 || radix == 16,
    ensures
        match spec_from_radix(s@.subrange(from as int, to as int), radix as nat, max as nat) {
            Some(v) => r == Some(v as u64),
            None => r is None,
        },
{
    let ghost t = s@.subrange(from as int, to as int);
    let mut a = from;
    if to - from > 1 && s.get_char(from) == '+' {
        a = from + 1;
        assert(t.drop_first() =~= s@.subrange(a as int, to as int));
    } else {
        assert(t =~= s@.subrange(a as int, to as int));
    }
    if a == to {
        return None;
    }
    match radix_value_capped(s, a, to, radix, max) {
        Some(v) => if v <= max as u128 {
            Some(v as u64)
        } else {
            None
        },
        None => None,
    }
}

/// `from_str_radix(s[from..to], 16)` for a type whose largest value is `max`.
pub fn from_hex_range(s: &str, from: usize, to: usize, max: u64) -> (r: Option<u64>)
    requires
        from <= to <= s@.len(),
    ensures
        match spec_from_hex(s@.subrange(from as int, to as int), max as nat) {
            Some(v) => r == Some(v as u64),
            None => r is None,
        },
{
    from_radix_range(s, from, to, 16, max)
}

/// `str::parse` of `s[from..to]` for an unsigned type whose largest value is
/// `max`.
pub fn from_decimal_range(s: &str, from: usize, to: usize, max: u64) -> (r: Option<u64>)
    requires
        from <= to <= s@.len(),
    ensures
        match spec_from_radix(s@.subrange(from as int, to as int), 10, max as nat) {
            Some(v) => r == Some(v as u64),
            None => r is None,
        },
{
    from_radix_range(s, from, to, 10, max)
}

/// `from_str_radix(s, 16)` for a type whose largest value is `max`.
pub fn parse_hex(s: &str, max: u64) -> (r: Option<u64>)
    ensures
        match spec_from_hex(s@, max as nat) {
            Some(v) => r == Some(v as u64),
            None => r is None,
        },
{
    let n = s.unicode_len();
    proof {
        assert(s@.subrange(0, n as int) =~= s@);
    }
    from_hex_range(s, 0, n, max)
}

/// The bounds of `str::trim` on `s`.
pub fn trim_bounds(s: &str) -> (r: (usize, usize))
    ensures
        r.0 <= r.1 <= s@.len(),
        s@.subrange(r.0 as int, r.1 as int) == spec_trim(s@),
{
    let n = s.unicode_len();
    proof {
        assert(s@.subrange(0, n as int) =~= s@);
    }
    let mut a: usize = 0;
    while a < n && is_whitespace(s.get_char(a))
        invariant
            a <= n,
            n == s@.len(),
            spec_trim_start(s@) == spec_trim_start(s@.subrange(a as int, n as int)),
        decreases n - a,
    {
        proof {
            assert(s@.subrange(a as int, n as int).drop_first() =~= s@.subrange(a + 1, n as int));
        }
        a = a + 1;
    }
    let mut b: usize = n;
    while b > a && is_whitespace(s.get_char(b - 1))
        invariant
            a <= b <= n,
            n == s@.len(),
            spec_trim_start(s@) == s@.subrange(a as int, n as int),
            spec_trim(s@) == spec_trim_end(s@.subrange(a as int, b as int)),
        decreases b - a,
    {
        proof {
            assert(s@.subrange(a as int, b as int).drop_last() =~= s@.subrange(a as int, b - 1));
        }
        b = b - 1;
    }
    (a, b)
}

/// Leading repetitions of the two-character marker `m0 m1` in `s[from..to]`
/// skipped.
fn skip_marker(s: &str, from: usize, to: usize, m0: char, m1: char) -> (a: usize)
    requires
        from <= to <= s@.len(),
    ensures
        from <= a <= to,
        s@.subrange(a as int, to as int) == spec_strip_all2(s@.subrange(from as int, to as int), m0, m1),
{
    let mut a = from;
    while to - a >= 2 && s.get_char(a) == m0 && s.get_char(a + 1) == m1
        invariant
            from <= a <= to <= s@.len(),
            spec_strip_all2(s@.subrange(from as int, to as int), m0, m1) == spec_strip_all2(
                s@.subrange(a as int, to as int),
                m0,
                m1,
            ),
        decreases to - a,
    {
        proof {
            assert(s@.subrange(a as int, to as int).subrange(2, (to - a) as int) =~= s@.subrange(
                a + 2,
                to as int,
            ));
        }
        a = a + 2;
    }
    a
}

/// A sysfs hex field such as `"0x10de\n"`, for a type whose largest value is
/// `max`.
pub fn parse_sysfs_hex(s: &str, max: u64) -> (r: Option<u64>)
    ensures
        match spec_parse_sysfs_hex(s@, max as nat) {
            Some(v) => r == Some(v as u64),
            None => r is None,
        },
{
    let (a, b) = trim_bounds(s);
    let a1 = skip_marker(s, a, b, '0', 'x');
    let a2 = skip_marker(s, a1, b, '0', 'X');
    from_hex_range(s, a2, b, max)
}

} // verus!
