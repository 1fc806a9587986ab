//! Text helpers: comparisons of strings and the decimal and hexadecimal
//! renderings of numbers used in summaries and report tables.
use vstd::prelude::*;

verus! {

/// `String::push`: appends one character at the end of the string.
#[verifier::external_body]
pub fn push_char(s: &mut String, c: char)
    ensures
        final(s)@ == old(s)@.push(c),
{
    s.push(c);
}

/// Appends `t` at the end of `s`.
pub fn push_str(s: &mut String, t: &str)
    ensures
        final(s)@ == old(s)@ + t@,
{
    s.append(t);
}

/// Whether two strings hold the same characters.
pub fn str_eq(a: &str, b: &str) -> (r: bool)
    ensures
        r == (a@ == b@),
{
    let n = a.unicode_len();
    if n != b.unicode_len() {
        return false;
    }
    let mut i: usize = 0;
    while i < n
        invariant
            n == a@.len(),
            n == b@.len(),
            i <= n,
            forall|j: int| 0 <= j < i ==> a@[j] == b@[j],
        decreases n - i,
    {
        if a.get_char(i) != b.get_char(i) {
            return false;
        }
        i += 1;
    }
    assert(a@ =~= b@);
    true
}

/// `s` begins with `prefix`.
pub open spec fn has_prefix(s: Seq<char>, prefix: Seq<char>) -> bool {
    prefix.len() <= s.len() && s.subrange(0, prefix.len() as int) == prefix
}

/// Whether `s` begins with `prefix`.
pub fn starts_with(s: &str, prefix: &str) -> (r: bool)
    ensures
        r == has_prefix(s@, prefix@),
{
    let n = prefix.unicode_len();
    if n > s.unicode_len() {
        return false;
    }
    let mut i: usize = 0;
    while i < n
        invariant
            n == prefix@.len(),
            n <= s@.len(),
            i <= n,
            forall|j: int| 0 <= j < i ==> s@[j] == prefix@[j],
        decreases n - i,
    {
        if s.get_char(i) != prefix.get_char(i) {
            return false;
        }
        i += 1;
    }
    assert(s@.subrange(0, n as int) =~= prefix@);
    true
}

/// The digit character of value `d` (`0`..`9`, then `a`..`f` or `A`..`F`).
pub open spec fn digit_char(d: int, upper: bool) -> char {
    if d < 10 {
        (48 + d) as char
    } else if upper {
        (55 + d) as char
    } else {
        (87 + d) as char
    }
}

/// Decimal rendering of `n`, without leading zeros.
pub open spec fn dec(n: nat) -> Seq<char>
    decreases n,
{
    if n < 10 {
        seq![digit_char(n as int, false)]
    } else {
        dec(n / 10).push(digit_char((n % 10) as int, false))
    }
}

/// Hexadecimal rendering of `n`, without leading zeros and without prefix.
pub open spec fn hex(n: nat, upper: bool) -> Seq<char>
    decreases n,
{
    if n < 16 {
        seq![digit_char(n as int, upper)]
    } else {
        hex(n / 16, upper).push(digit_char((n % 16) as int, upper))
    }
}

/// The last `width` hexadecimal digits of `n` in lower case, with leading zeros.
pub open spec fn hex_padded(n: nat, width: nat) -> Seq<char>
    decreases width,
{
    if width == 0 {
        seq![]
    } else {
        hex_padded(n / 16, (width - 1) as nat).push(digit_char((n % 16) as int, false))
    }
}

/// `0x` followed by the lower-case hexadecimal rendering of `n`.
pub open spec fn hex_prefixed(n: nat) -> Seq<char> {
    seq!['0', 'x'] + hex(n, false)
}

fn digit(d: u64, upper: bool) -> (c: char)
    requires
        d < 16,
    ensures
        c == digit_char(d as int, upper),
{
    let b: u8 = if d < 10 {
        48 + d as u8
    } else if upper {
        55 + d as u8
    } else {
        87 + d as u8
    };
    b as char
}

/// Appends the decimal rendering of `n`.
pub fn push_dec(s: &mut String, n: u64)
    ensures
        final(s)@ == old(s)@ + dec(n as nat),
    decreases n,
{
    if n >= 10 {
        push_dec(s, n / 10);
    }
    push_char(s, digit(n % 10, false));
    assert(final(s)@ =~= old(s)@ + dec(n as nat)) by {
        if n >= 10 {
            assert(dec(n as nat) == dec((n / 10) as nat).push(digit_char((n % 10) as int, false)));
        }
    }
}

/// Appends the hexadecimal rendering of `n` (no prefix, no leading zeros).
pub fn push_hex(s: &mut String, n: u64, upper: bool)
    ensures
        final(s)@ == old(s)@ + hex(n as nat, upper),
    decreases n,
{
    if n >= 16 {
        push_hex(s, n / 16, upper);
    }
    push_char(s, digit(n % 16, upper));
    assert(final(s)@ =~= old(s)@ + hex(n as nat, upper)) by {
        if n >= 16 {
            assert(hex(n as nat, upper) == hex((n / 16) as nat, upper).push(
                digit_char((n % 16) as int, upper),
            ));
        }
    }
}

/// Appends the last `width` lower-case hexadecimal digits of `n`, zero padded.
pub fn push_hex_padded(s: &mut String, n: u64, width: u64)
    ensures
        final(s)@ == old(s)@ + hex_padded(n as nat, width as nat),
    decreases width,
{
    if width > 0 {
        push_hex_padded(s, n / 16, width - 1);
        push_char(s, digit(n % 16, false));
        assert(final(s)@ =~= old(s)@ + hex_padded(n as nat, width as nat));
    } else {
        assert(final(s)@ =~= old(s)@ + hex_padded(n as nat, width as nat));
    }
}

/// Appends `0x` and the lower-case hexadecimal rendering of `n`.
pub fn push_hex_prefixed(s: &mut String, n: u64)
    ensures
        final(s)@ == old(s)@ + hex_prefixed(n as nat),
{
    push_char(s, '0');
    push_char(s, 'x');
    push_hex(s, n, false);
    assert(final(s)@ =~= old(s)@ + hex_prefixed(n as nat));
}

/// `c` is a hexadecimal digit of either case.
pub open spec fn is_hex_digit(c: char) -> bool {
    ('0' <= c && c <= '9') || ('a' <= c && c <= 'f') || ('A' <= c && c <= 'F')
}

/// Value of a hexadecimal digit.
pub open spec fn hex_digit_value(c: char) -> nat {
    if '0' <= c && c <= '9' {
        (c as int - 48) as nat
    } else if 'a' <= c && c <= 'f' {
        (c as int - 87) as nat
    } else {
        (c as int - 55) as nat
    }
}

/// Every character is a hexadecimal digit.
pub open spec fn all_hex_digits(d: Seq<char>) -> bool {
    forall|i: int| 0 <= i < d.len() ==> is_hex_digit(#[trigger] d[i])
}

/// Value of a string of hexadecimal digits, most significant first.
pub open spec fn hex_value(d: Seq<char>) -> nat
    decreases d.len(),
{
    if d.len() == 0 {
        0
    } else {
        hex_value(d.drop_last()) * 16 + hex_digit_value(d.last())
    }
}

/// The digits of a `0x`-prefixed hex number: what follows `0x`, without an optional `+`.
pub open spec fn hex_number_digits(s: Seq<char>) -> Seq<char> {
    let rest = s.subrange(2, s.len() as int);
    if rest.len() > 0 && rest[0] == '+' {
        rest.drop_first()
    } else {
        rest
    }
}

/// The number written as `0x` followed by hexadecimal digits (an optional `+` first), where
/// it is at most `max`; `None` for any other text.
pub open spec fn hex_number(s: Seq<char>, max: nat) -> Option<nat> {
    let d = hex_number_digits(s);
    if has_prefix(s, "0x"@) && d.len() > 0 && all_hex_digits(d) && hex_value(d) <= max {
        Some(hex_value(d))
    } else {
        None
    }
}

proof fn lemma_hex_value_grows(d: Seq<char>, k: int)
    requires
        0 <= k <= d.len(),
    ensures
        hex_value(d.take(k)) <= hex_value(d),
    decreases d.len() - k,
{
    if k < d.len() {
        lemma_hex_value_grows(d, k + 1);
        assert(d.take(k + 1).drop_last() =~= d.take(k));
    } else {
        assert(d.take(k) =~= d);
    }
}

fn hex_digit_of(c: char) -> (r: Option<u64>)
    ensures
        is_hex_digit(c) ==> r == Some(hex_digit_value(c) as u64),
        !is_hex_digit(c) ==> r is None,
{
    if '0' <= c && c <= '9' {
        Some(c as u64 - 48)
    } else if 'a' <= c && c <= 'f' {
        Some(c as u64 - 87)
    } else if 'A' <= c && c <= 'F' {
        Some(c as u64 - 55)
    } else {
        None
    }
}

/// Parses a `0x`-prefixed hexadecimal number (as the capture file writes numbers) that must
/// not exceed `max`.
pub fn parse_hex_prefixed(s: &str, max: u64) -> (r: Option<u64>)
    ensures
        match hex_number(s@, max as nat) {
            Some(v) => r == Some(v as u64),
            None => r is None,
        },
{
    proof {
        reveal_strlit("0x");
    }
    if !starts_with(s, "0x") {
        return None;
    }
    let n = s.unicode_len();
    let mut i: usize = 2;
    if i < n && s.get_char(i) == '+' {
        i = 3;
    }
    let start = i;
    let ghost d = hex_number_digits(s@);
    assert(d =~= s@.subrange(start as int, n as int));
    if start == n {
        return None;
    }
    let mut value: u64 = 0;
    while i < n
        invariant
            2 <= start <= i <= n,
            n == s@.len(),
            d == s@.subrange(start as int, n as int),
            d == hex_number_digits(s@),
            has_prefix(s@, "0x"@),
            all_hex_digits(d.take(i - start)),
            value == hex_value(d.take(i - start)),
            value <= max,
        decreases n - i,
    {
        let c = s.get_char(i);
        assert(c == d[i - start]);
        assert(d.take(i - start + 1).drop_last() =~= d.take(i - start));
        match hex_digit_of(c) {
            None => {
                assert(!is_hex_digit(d[i - start]));
                assert(!all_hex_digits(d));
                return None;
            },
            Some(v) => {
                if v > max || value > (max - v) / 16 {
                    proof {
                        assert(hex_value(d.take(i - start + 1)) == value * 16 + v);
                        assert(value * 16 + v > max) by (nonlinear_arith)
                            requires
                                v > max || value > (max - v) / 16,
                                v <= max ==> (max - v) / 16 * 16 + 15 >= max - v,
                                value >= 0,
                        {};
                        lemma_hex_value_grows(d, i - start + 1);
                    }
                    return None;
                }
                proof {
                    assert(value * 16 + v <= max) by (nonlinear_arith)
                        requires
                            value <= (max - v) / 16,
                            v <= 15,
                    {};
                }
                value = value * 16 + v;
                assert(all_hex_digits(d.take(i - start + 1)));
            },
        }
        i += 1;
    }
    assert(d.take(n - start) =~= d);
    Some(value)
}

} // verus!
