//! Process identifiers as they are written to and read from the PID file.

use vstd::prelude::*;
use crate::text::{hex_digit, hex_digit_text};

verus! {

/// Unicode `White_Space`, the characters that `str::trim` removes.
pub open spec fn is_white_space(c: char) -> bool {
    ||| ('\u{9}' <= c && c <= '\u{d}')
    ||| c == ' '
    ||| c == '\u{85}'
    ||| c == '\u{a0}'
    ||| c == '\u{1680}'
    ||| ('\u{2000}' <= c && c <= '\u{200a}')
    ||| c == '\u{2028}'
    ||| c == '\u{2029}'
    ||| c == '\u{202f}'
    ||| c == '\u{205f}'
    ||| c == '\u{3000}'
}

fn white_space(c: char) -> (r: bool)
    ensures
        r == is_white_space(c),
{
    ('\u{9}' <= c && c <= '\u{d}') || c == ' ' || c == '\u{85}' || c == '\u{a0}' || c
        == '\u{1680}' || ('\u{2000}' <= c && c <= '\u{200a}') || c == '\u{2028}' || c == '\u{2029}'
        || c == '\u{202f}' || c == '\u{205f}' || c == '\u{3000}'
}

/// The text with leading and trailing white space removed.
pub open spec fn trimmed(s: Seq<char>) -> Seq<char>
    decreases s.len(),
{
    if s.len() > 0 && is_white_space(s[0]) {
        trimmed(s.drop_first())
    } else if s.len() > 0 && is_white_space(s.last()) {
        trimmed(s.drop_last())
    } else {
        s
    }
}

/// Is `c` an ASCII decimal digit?
pub open spec fn is_digit(c: char) -> bool {
    '0' <= c && c <= '9'
}

/// The value of a string of decimal digits.
pub open spec fn digits_value(d: Seq<char>) -> int
    decreases d.len(),
{
    if d.len() == 0 {
        0
    } else {
        digits_value(d.drop_last()) * 10 + (d.last() as int - '0' as int)
    }
}

/// The digits after an optional leading `+`.
pub open spec fn unsigned_digits(s: Seq<char>) -> Seq<char> {
    if s.len() > 0 && s[0] == '+' {
        s.drop_first()
    } else {
        s
    }
}

/// What `str::parse::<u32>` gives for `s`: an optional `+`, then at least one
/// decimal digit and nothing else, with a value that fits in 32 bits.
pub open spec fn parse_u32(s: Seq<char>) -> Option<u32> {
    let d = unsigned_digits(s);
    if d.len() > 0 && (forall|i: int| 0 <= i < d.len() ==> is_digit(#[trigger] d[i])) && digits_value(
        d,
    ) <= u32::MAX {
        Some(digits_value(d) as u32)
    } else {
        None
    }
}

/// The process identifier that the text of a PID file names, read as the
/// text trimmed of white space and parsed as a 32-bit unsigned number.
pub open spec fn pid_of_text(s: Seq<char>) -> Option<u32> {
    parse_u32(trimmed(s))
}

/// Trimming from both ends, one character at a time, is the same as trimming.
proof fn lemma_trimmed_bounds(s: Seq<char>, a: int, b: int)
    requires
        0 <= a <= b <= s.len(),
        forall|i: int| 0 <= i < a ==> is_white_space(#[trigger] s[i]),
        forall|i: int| b <= i < s.len() ==> is_white_space(#[trigger] s[i]),
        a == b || (!is_white_space(s[a]) && !is_white_space(s[b - 1])),
    ensures
        trimmed(s) == s.subrange(a, b),
    decreases s.len(),
{
    if a > 0 {
        let t = s.drop_first();
        assert forall|i: int| 0 <= i < a - 1 implies is_white_space(#[trigger] t[i]) by {
            assert(t[i] == s[i + 1]);
        }
        assert forall|i: int| b - 1 <= i < t.len() implies is_white_space(#[trigger] t[i]) by {
            assert(t[i] == s[i + 1]);
        }
        lemma_trimmed_bounds(t, a - 1, b - 1);
        assert(t.subrange(a - 1, b - 1) =~= s.subrange(a, b));
    } else if b < s.len() {
        let t = s.drop_last();
        if s.len() > 0 && is_white_space(s[0]) {
            // then a == b == 0 and everything is white space
            assert(a == b);
            assert forall|i: int| 0 <= i < t.len() implies is_white_space(#[trigger] t[i]) by {
                assert(t[i] == s[i]);
            }
            let u = s.drop_first();
            assert forall|i: int| 0 <= i < u.len() implies is_white_space(#[trigger] u[i]) by {
                assert(u[i] == s[i + 1]);
            }
            lemma_trimmed_bounds(u, 0, 0);
            assert(u.subrange(0, 0) =~= s.subrange(a, b));
        } else {
            assert forall|i: int| b <= i < t.len() implies is_white_space(#[trigger] t[i]) by {
                assert(t[i] == s[i]);
            }
            assert forall|i: int| 0 <= i < a implies is_white_space(#[trigger] t[i]) by {
                assert(t[i] == s[i]);
            }
            lemma_trimmed_bounds(t, a, b);
            assert(t.subrange(a, b) =~= s.subrange(a, b));
        }
    } else {
        assert(s.subrange(a, b) =~= s);
        if s.len() > 0 {
            assert(!is_white_space(s[0]));
            assert(s.last() == s[b - 1]);
        }
    }
}

/// The positions where `text` is left after trimming: the first character
/// that is not white space, and one past the last such character.
fn trim_bounds(text: &str) -> (r: (usize, usize))
    ensures
        r.0 <= r.1 <= text@.len(),
        trimmed(text@) == text@.subrange(r.0 as int, r.1 as int),
{
    let n = text.unicode_len();
    let mut a: usize = 0;
    while a < n && white_space(text.get_char(a))
        invariant
            n == text@.len(),
            a <= n,
            forall|i: int| 0 <= i < a ==> is_white_space(#[trigger] text@[i]),
        decreases n - a,
    {
        a = a + 1;
    }
    let mut b: usize = n;
    while b > a && white_space(text.get_char(b - 1))
        invariant
            n == text@.len(),
            a <= b <= n,
            forall|i: int| b <= i < n ==> is_white_space(#[trigger] text@[i]),
        decreases b - a,
    {
        b = b - 1;
    }
    proof {
        lemma_trimmed_bounds(text@, a as int, b as int);
    }
    (a, b)
}

/// Whether the text is empty once white space is trimmed from both ends.
pub fn is_blank(text: &str) -> (r: bool)
    ensures
        r == (trimmed(text@).len() == 0),
{
    let (a, b) = trim_bounds(text);
    a == b
}

/// The process identifier to probe for `pid`, as the operating system's
/// signed type: `None` for 0 and for values beyond that type, which would
/// address a process group rather than one process.
pub fn probe_target(pid: u32) -> (r: Option<i32>)
    ensures
        r == (if 1 <= pid <= i32::MAX {
            Some(pid as i32)
        } else {
            None::<i32>
        }),
{
    if pid >= 1 && pid <= 0x7fff_ffff {
        Some(pid as i32)
    } else {
        None
    }
}

/// Reads the process identifier from the text of a PID file: surrounding
/// white space is ignored, then the rest must be a 32-bit unsigned decimal
/// number with an optional leading `+`.
pub fn parse_pid(text: &str) -> (r: Option<u32>)
    ensures
        r == pid_of_text(text@),
{
    let n = text.unicode_len();
    let (a, b) = trim_bounds(text);
    let ghost t = text@.subrange(a as int, b as int);
    let mut i = a;
    if i < b && text.get_char(i) == '+' {
        i = i + 1;
    }
    let ghost d = text@.subrange(i as int, b as int);
    assert(d == unsigned_digits(t)) by {
        if t.len() > 0 && t[0] == '+' {
            assert(d =~= t.drop_first());
        } else {
            assert(d =~= t);
        }
    }
    if i == b {
        return None;
    }
    let start = i;
    let mut value: u32 = 0;
    while i < b
        invariant
            n == text@.len(),
            start <= i <= b <= n,
            d == text@.subrange(start as int, b as int),
            d == unsigned_digits(t),
            trimmed(text@) == t,
            forall|k: int| start <= k < i ==> is_digit(#[trigger] text@[k]),
            value == digits_value(text@.subrange(start as int, i as int)),
        decreases b - i,
    {
        let c = text.get_char(i);
        let ghost prefix = text@.subrange(start as int, i as int);
        let ghost next = text@.subrange(start as int, i + 1);
        assert(next.drop_last() =~= prefix);
        if !('0' <= c && c <= '9') {
            assert(d[i - start] == c);
            assert(!is_digit(d[i - start]));
            return None;
        }
        let digit = (c as u32) - ('0' as u32);
        if value > 429496729 || (value == 429496729 && digit > 5) {
            proof {
                assert(d.subrange(0, i - start + 1) =~= next);
                assert(next.last() == c);
                assert(digits_value(next) > u32::MAX);
                if forall|k: int| 0 <= k < d.len() ==> is_digit(#[trigger] d[k]) {
                    lemma_digits_value_grows(d, (i - start + 1) as int);
                }
            }
            return None;
        }
        value = value * 10 + digit;
        i = i + 1;
    }
    assert(text@.subrange(start as int, b as int) =~= d);
    Some(value)
}

/// The value of digits is never negative.
proof fn lemma_digits_value_nonneg(d: Seq<char>)
    requires
        forall|i: int| 0 <= i < d.len() ==> is_digit(#[trigger] d[i]),
    ensures
        digits_value(d) >= 0,
    decreases d.len(),
{
    if d.len() > 0 {
        let e = d.drop_last();
        assert forall|i: int| 0 <= i < e.len() implies is_digit(#[trigger] e[i]) by {
            assert(e[i] == d[i]);
        }
        lemma_digits_value_nonneg(e);
        assert(is_digit(d[d.len() - 1]));
    }
}

/// A prefix of a string of digits never has a larger value than the whole.
proof fn lemma_digits_value_grows(d: Seq<char>, k: int)
    requires
        0 <= k <= d.len(),
        forall|i: int| 0 <= i < d.len() ==> is_digit(#[trigger] d[i]),
    ensures
        digits_value(d.subrange(0, k)) <= digits_value(d),
    decreases d.len() - k,
{
    if k < d.len() {
        lemma_digits_value_grows(d, k + 1);
        let p = d.subrange(0, k);
        let q = d.subrange(0, k + 1);
        assert(q.drop_last() =~= p);
        assert forall|i: int| 0 <= i < p.len() implies is_digit(#[trigger] p[i]) by {
            assert(p[i] == d[i]);
        }
        lemma_digits_value_nonneg(p);
        assert(q.last() == d[k]);
        assert(is_digit(d[k]));
    } else {
        assert(d.subrange(0, k) =~= d);
    }
}

/// The decimal digits of `n`, most significant first, without leading zeros.
pub open spec fn decimal_digits(n: nat) -> Seq<char>
    decreases n,
{
    if n < 10 {
        seq![hex_digit(n as int)]
    } else {
        decimal_digits(n / 10) + seq![hex_digit((n % 10) as int)]
    }
}

/// Appends the decimal digits of `n`.
fn push_decimal(s: &mut String, n: u32)
    ensures
        final(s)@ == old(s)@ + decimal_digits(n as nat),
    decreases n,
{
    if n >= 10 {
        push_decimal(s, n / 10);
    }
    s.append(hex_digit_text((n % 10) as u8));
    assert(final(s)@ =~= old(s)@ + decimal_digits(n as nat));
}

/// The decimal text of a number, as `to_string` writes it.
pub fn decimal_text(n: u32) -> (s: String)
    ensures
        s@ == decimal_digits(n as nat),
{
    let mut s = String::new();
    push_decimal(&mut s, n);
    assert(s@ =~= decimal_digits(n as nat));
    s
}

/// Decimal digits are digits, and they spell the number.
proof fn lemma_decimal_digits(n: nat)
    ensures
        decimal_digits(n).len() > 0,
        forall|i: int| 0 <= i < decimal_digits(n).len() ==> is_digit(#[trigger] decimal_digits(n)[i]),
        digits_value(decimal_digits(n)) == n,
    decreases n,
{
    let last = (n % 10) as int;
    assert(hex_digit(last) as int == '0' as int + last);
    if n >= 10 {
        lemma_decimal_digits(n / 10);
        let d = decimal_digits(n);
        assert(d.drop_last() =~= decimal_digits(n / 10));
        assert(d.last() == hex_digit(last));
        assert(digits_value(d) == digits_value(d.drop_last()) * 10 + (d.last() as int - '0' as int));
        assert(n == (n / 10) * 10 + last);
        assert forall|i: int| 0 <= i < d.len() implies is_digit(#[trigger] d[i]) by {
            if i < d.len() - 1 {
                assert(d[i] == decimal_digits(n / 10)[i]);
            }
        }
    } else {
        let d = decimal_digits(n);
        assert(d.drop_last() =~= Seq::<char>::empty());
        assert(digits_value(d) == digits_value(d.drop_last()) * 10 + (d.last() as int - '0' as int));
        assert(digits_value(Seq::<char>::empty()) == 0);
    }
}

/// The PID written to the PID file reads back as the same PID.
pub proof fn lemma_pid_text_round_trip(n: u32)
    ensures
        pid_of_text(decimal_digits(n as nat)) == Some(n),
{
    let d = decimal_digits(n as nat);
    lemma_decimal_digits(n as nat);
    assert(!is_white_space(d[0]));
    assert(!is_white_space(d.last()));
    assert(trimmed(d) == d);
    assert(unsigned_digits(d) == d);
}

} // verus!
