//! Small verified string helpers shared by the name and path tables.
use vstd::prelude::*;
use vstd::string::*;

verus! {

/// Character-wise string equality.
pub fn str_eq(a: &str, b: &str) -> (r: bool)
    ensures
        r == (a@ == b@),
{
    let n = a.unicode_len();
    if n != b.unicode_len() {
        return false;
    }
    let mut i: usize = 0;
    while i < n
        invariant
            n == a@.len(),
            n == b@.len(),
            i <= n,
            forall|k: int| 0 <= k < i ==> a@[k] == b@[k],
        decreases n - i,
    {
        if a.get_char(i) != b.get_char(i) {
            return false;
        }
        i = i + 1;
    }
    assert(a@ =~= b@);
    true
}

/// `s` begins with `prefix`.
pub fn str_starts_with(s: &str, prefix: &str) -> (r: bool)
    ensures
        r == (prefix@.len() <= s@.len() && s@.subrange(0, prefix@.len() as int) == prefix@),
{
    let n = prefix.unicode_len();
    if n > s.unicode_len() {
        return false;
    }
    let mut i: usize = 0;
    while i < n
        invariant
            n == prefix@.len(),
            n <= s@.len(),
            i <= n,
            forall|k: int| 0 <= k < i ==> s@[k] == prefix@[k],
        decreases n - i,
    {
        if s.get_char(i) != prefix.get_char(i) {
            assert(s@.subrange(0, n as int)[i as int] != prefix@[i as int]);
            return false;
        }
        i = i + 1;
    }
    assert(s@.subrange(0, n as int) =~= prefix@);
    true
}

/// A new `String` holding `a` followed by `b`.
pub fn concat2(a: &str, b: &str) -> (r: String)
    ensures
        r@ == a@ + b@,
{
    let mut s = String::from_str(a);
    s.append(b);
    s
}


/// Lower-case hexadecimal digits, in value order.
pub open spec fn hex_alphabet() -> Seq<char> {
    seq!['0', '1', '2', '3', '4', '5', '6', '7', '8', '9', 'a', 'b', 'c', 'd', 'e', 'f']
}

/// The last `width` hexadecimal digits of `v`, most significant first, zero-padded.
pub open spec fn spec_hex_digits(v: nat, width: nat) -> Seq<char>
    decreases width,
{
    if width == 0 {
        Seq::empty()
    } else {
        spec_hex_digits(v / 16, (width - 1) as nat) + seq![hex_alphabet()[(v % 16) as int]]
    }
}

/// Decimal digits of `v` without padding.
pub open spec fn spec_decimal(v: nat) -> Seq<char>
    decreases v,
{
    if v < 10 {
        seq![hex_alphabet()[v as int]]
    } else {
        spec_decimal(v / 10) + seq![hex_alphabet()[(v % 10) as int]]
    }
}

fn append_digit(s: &mut String, d: u64)
    requires
        d < 16,
    ensures
        final(s)@ == old(s)@ + seq![hex_alphabet()[d as int]],
{
    let alphabet = "0123456789abcdef";
    proof {
        reveal_strlit("0123456789abcdef");
        assert(alphabet@ =~= hex_alphabet());
    }
    let digit = alphabet.substring_char(d as usize, (d + 1) as usize);
    proof {
        assert(digit@ =~= seq![hex_alphabet()[d as int]]);
    }
    s.append(digit);
}

/// Appends the last `width` hexadecimal digits of `v`, zero-padded.
pub fn append_hex(s: &mut String, v: u64, width: usize)
    ensures
        final(s)@ == old(s)@ + spec_hex_digits(v as nat, width as nat),
    decreases width,
{
    if width == 0 {
        assert(old(s)@ + spec_hex_digits(v as nat, 0) =~= old(s)@);
        return;
    }
    append_hex(s, v / 16, width - 1);
    append_digit(s, v % 16);
    assert(old(s)@ + spec_hex_digits(v as nat, width as nat) =~= old(s)@ + spec_hex_digits(
        (v / 16) as nat,
        (width - 1) as nat,
    ) + seq![hex_alphabet()[(v % 16) as int]]);
}

/// Appends the decimal digits of `v`.
pub fn append_decimal(s: &mut String, v: u64)
    ensures
        final(s)@ == old(s)@ + spec_decimal(v as nat),
    decreases v,
{
    if v < 10 {
        append_digit(s, v);
    } else {
        append_decimal(s, v / 10);
        append_digit(s, v % 10);
        assert(old(s)@ + spec_decimal(v as nat) =~= old(s)@ + spec_decimal((v / 10) as nat)
            + seq![hex_alphabet()[(v % 10) as int]]);
    }
}

/// `s` ends with `suffix`.
pub fn str_ends_with(s: &str, suffix: &str) -> (r: bool)
    ensures
        r == (suffix@.len() <= s@.len() && s@.subrange(s@.len() - suffix@.len(), s@.len() as int)
            == suffix@),
{
    let n = s.unicode_len();
    let m = suffix.unicode_len();
    if m > n {
        return false;
    }
    let base = n - m;
    let mut i: usize = 0;
    while i < m
        invariant
            n == s@.len(),
            m == suffix@.len(),
            base == n - m,
            i <= m,
            forall|k: int| 0 <= k < i ==> s@[base + k] == suffix@[k],
        decreases m - i,
    {
        if s.get_char(base + i) != suffix.get_char(i) {
            assert(s@.subrange(base as int, n as int)[i as int] != suffix@[i as int]);
            return false;
        }
        i = i + 1;
    }
    assert(s@.subrange(base as int, n as int) =~= suffix@);
    true
}

/// `needle` occurs in `hay`.
pub fn str_contains(hay: &str, needle: &str) -> (b: bool)
    ensures
        b == crate::nvml::format::spec_contains(hay@, needle@),
{
    let n = hay.unicode_len();
    let m = needle.unicode_len();
    if m > n {
        return false;
    }
    let last = n - m;
    let mut i: usize = 0;
    while i <= last
        invariant
            n == hay@.len(),
            m == needle@.len(),
            last == n - m,
            i <= last,
            forall|j: int| 0 <= j < i ==> #[trigger] hay@.subrange(j, j + m) != needle@,
        decreases last - i,
    {
        let mut k: usize = 0;
        let mut same = true;
        while k < m
            invariant
                k <= m,
                i + m <= n,
                n == hay@.len(),
                m == needle@.len(),
                same ==> forall|q: int| 0 <= q < k ==> hay@[i + q] == needle@[q],
                !same ==> hay@.subrange(i as int, i + m) != needle@,
            decreases m - k,
        {
            if same && hay.get_char(i + k) != needle.get_char(k) {
                same = false;
                assert(hay@.subrange(i as int, i + m)[k as int] != needle@[k as int]);
            }
            k = k + 1;
        }
        if same {
            assert(hay@.subrange(i as int, i + m) =~= needle@);
            return true;
        }
        if i == last {
            proof {
                assert forall|j: int| 0 <= j && j + m <= hay@.len() implies #[trigger] hay@.subrange(
                    j,
                    j + m,
                ) != needle@ by {}
            }
            return false;
        }
        i = i + 1;
    }
    false
}

} // verus!
