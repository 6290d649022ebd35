//! Dates and times in the canonical text the driver manager gives them as:
//! `yyyy-mm-dd`, `hh:mm:ss`, and `yyyy-mm-dd hh:mm:ss` with an optional
//! fraction of one to nine digits after a `.`.

use vstd::prelude::*;
use crate::types::{all_digits, digit_char, digits_value, is_digit};
use crate::value::{Date, Time, Timestamp};

verus! {

pub open spec fn pow10(n: nat) -> int
    decreases n,
{
    if n == 0 {
        1
    } else {
        10 * pow10((n - 1) as nat)
    }
}

/// The value of the digits `s[start..start + len]`, when they are all
/// digits.
pub open spec fn field(s: Seq<char>, start: int, len: int) -> Option<int> {
    if 0 <= start && 0 < len && start + len <= s.len() && all_digits(s.subrange(start, start + len)) {
        Some(digits_value(s.subrange(start, start + len)))
    } else {
        None
    }
}

/// `yyyy-mm-dd`.
pub open spec fn parsed_date(s: Seq<char>) -> Option<Date> {
    if s.len() == 10 && s[4] == '-' && s[7] == '-' && field(s, 0, 4) is Some && field(s, 5, 2) is Some
        && field(s, 8, 2) is Some {
        Some(
            Date {
                year: field(s, 0, 4)->0 as i16,
                month: field(s, 5, 2)->0 as u16,
                day: field(s, 8, 2)->0 as u16,
            },
        )
    } else {
        None
    }
}

/// `hh:mm:ss` at `start`.
pub open spec fn clock_at(s: Seq<char>, start: int) -> bool {
    s[start + 2] == ':' && s[start + 5] == ':' && field(s, start, 2) is Some && field(
        s,
        start + 3,
        2,
    ) is Some && field(s, start + 6, 2) is Some
}

/// `hh:mm:ss`.
pub open spec fn parsed_time(s: Seq<char>) -> Option<Time> {
    if s.len() == 8 && clock_at(s, 0) {
        Some(
            Time {
                hour: field(s, 0, 2)->0 as u16,
                minute: field(s, 3, 2)->0 as u16,
                second: field(s, 6, 2)->0 as u16,
            },
        )
    } else {
        None
    }
}

/// The nanoseconds a fraction `s[20..]` of a timestamp text stands for.
pub open spec fn fraction_of(s: Seq<char>) -> Option<int> {
    if s.len() == 19 {
        Some(0)
    } else if 21 <= s.len() <= 29 && s[19] == '.' && field(s, 20, s.len() - 20) is Some {
        Some(field(s, 20, s.len() - 20)->0 * pow10((29 - s.len()) as nat))
    } else {
        None
    }
}

/// `yyyy-mm-dd hh:mm:ss[.fffffffff]`.
pub open spec fn parsed_timestamp(s: Seq<char>) -> Option<Timestamp> {
    if s.len() >= 19 && parsed_date(s.subrange(0, 10)) is Some && s[10] == ' ' && clock_at(s, 11)
        && fraction_of(s) is Some {
        let d = parsed_date(s.subrange(0, 10))->0;
        Some(
            Timestamp {
                year: d.year,
                month: d.month,
                day: d.day,
                hour: field(s, 11, 2)->0 as u16,
                minute: field(s, 14, 2)->0 as u16,
                second: field(s, 17, 2)->0 as u16,
                fraction: fraction_of(s)->0 as u32,
            },
        )
    } else {
        None
    }
}

proof fn lemma_pow10_monotone(a: nat, b: nat)
    requires
        a <= b,
    ensures
        pow10(a) <= pow10(b),
    decreases b,
{
    lemma_pow10_positive(b);
    if a < b {
        lemma_pow10_monotone(a, (b - 1) as nat);
    }
}

proof fn lemma_pow10_positive(n: nat)
    ensures
        pow10(n) >= 1,
    decreases n,
{
    if n > 0 {
        lemma_pow10_positive((n - 1) as nat);
    }
}

/// The value of `len` digits of `s` at `start`, if they are all digits.
fn digits_at(s: &str, start: usize, len: usize) -> (r: Option<u64>)
    requires
        0 < len <= 9,
        start + len <= s@.len(),
    ensures
        match r {
            Some(v) => field(s@, start as int, len as int) == Some(v as int) && v < pow10(
                len as nat,
            ),
            None => field(s@, start as int, len as int) is None,
        },
{
    let total = s.unicode_len();
    let ghost whole = s@.subrange(start as int, start + len);
    let mut acc: u64 = 0;
    let mut i: usize = start;
    while i < start + len
        invariant
            start <= i <= start + len,
            start + len <= s@.len(),
            total == s@.len(),
            0 < len <= 9,
            whole == s@.subrange(start as int, start + len),
            acc == digits_value(s@.subrange(start as int, i as int)),
            acc < pow10((i - start) as nat),
            pow10((i - start) as nat) <= 1_000_000_000,
            forall|j: int| start <= j < i ==> is_digit(#[trigger] s@[j]),
        decreases start + len - i,
    {
        let c = s.get_char(i);
        if !('0' <= c && c <= '9') {
            proof {
                assert(!is_digit(whole[i - start]));
            }
            return None;
        }
        let d = (c as u32 - '0' as u32) as u64;
        proof {
            let p = pow10((i - start) as nat);
            assert(s@.subrange(start as int, i + 1).drop_last() =~= s@.subrange(start as int, i as int));
            assert(pow10((i + 1 - start) as nat) == 10 * p);
            assert(acc * 10 + d < 10 * p) by (nonlinear_arith)
                requires
                    acc < p,
                    d <= 9,
            ;
            lemma_pow10_monotone((i + 1 - start) as nat, 9);
            assert(pow10(9) == 1_000_000_000) by {
                reveal_with_fuel(pow10, 10);
            }
        }
        acc = acc * 10 + d;
        i = i + 1;
    }
    proof {
        assert forall|j: int| 0 <= j < whole.len() implies is_digit(#[trigger] whole[j]) by {
            assert(whole[j] == s@[start + j]);
        }
    }
    Some(acc)
}

/// Parses `yyyy-mm-dd`.
pub fn parse_date(s: &str) -> (r: Option<Date>)
    ensures
        r == parsed_date(s@),
{
    if s.unicode_len() != 10 || s.get_char(4) != '-' || s.get_char(7) != '-' {
        return None;
    }
    let y = match digits_at(s, 0, 4) {
        Some(v) => v,
        None => return None,
    };
    let m = match digits_at(s, 5, 2) {
        Some(v) => v,
        None => return None,
    };
    let d = match digits_at(s, 8, 2) {
        Some(v) => v,
        None => return None,
    };
    proof {
        reveal_with_fuel(pow10, 5);
    }
    Some(Date { year: y as i16, month: m as u16, day: d as u16 })
}

/// Reads `hh:mm:ss` at `start`.
fn clock_fields(s: &str, start: usize) -> (r: Option<(u16, u16, u16)>)
    requires
        start + 8 <= s@.len(),
    ensures
        match r {
            Some(t) => clock_at(s@, start as int) && t.0 == field(s@, start as int, 2)->0
                && t.1 == field(s@, start + 3, 2)->0 && t.2 == field(s@, start + 6, 2)->0,
            None => !clock_at(s@, start as int),
        },
{
    let _n = s.unicode_len();
    if s.get_char(start + 2) != ':' || s.get_char(start + 5) != ':' {
        return None;
    }
    let h = match digits_at(s, start, 2) {
        Some(v) => v,
        None => return None,
    };
    let m = match digits_at(s, start + 3, 2) {
        Some(v) => v,
        None => return None,
    };
    let sec = match digits_at(s, start + 6, 2) {
        Some(v) => v,
        None => return None,
    };
    proof {
        reveal_with_fuel(pow10, 3);
    }
    Some((h as u16, m as u16, sec as u16))
}

/// Parses `hh:mm:ss`.
pub fn parse_time(s: &str) -> (r: Option<Time>)
    ensures
        r == parsed_time(s@),
{
    if s.unicode_len() != 8 {
        return None;
    }
    match clock_fields(s, 0) {
        Some((hour, minute, second)) => Some(Time { hour, minute, second }),
        None => None,
    }
}

/// Parses `yyyy-mm-dd hh:mm:ss` with an optional fraction of a second.
pub fn parse_timestamp(s: &str) -> (r: Option<Timestamp>)
    ensures
        r == parsed_timestamp(s@),
{
    let n = s.unicode_len();
    if n < 19 {
        return None;
    }
    let day = match parse_date(s.substring_char(0, 10)) {
        Some(d) => d,
        None => return None,
    };
    if s.get_char(10) != ' ' {
        return None;
    }
    let (hour, minute, second) = match clock_fields(s, 11) {
        Some(t) => t,
        None => return None,
    };
    let fraction: u64 = if n == 19 {
        0
    } else if 21 <= n && n <= 29 && s.get_char(19) == '.' {
        let f = match digits_at(s, 20, n - 20) {
            Some(v) => v,
            None => return None,
        };
        let mut scale: u64 = 1;
        let mut k: usize = n;
        while k < 29
            invariant
                21 <= n <= k <= 29,
                scale == pow10((k - n) as nat),
                scale <= 100_000_000,
            decreases 29 - k,
        {
            proof {
                lemma_pow10_monotone((k + 1 - n) as nat, 8);
                assert(pow10(8) == 100_000_000) by {
                    reveal_with_fuel(pow10, 9);
                }
                assert(pow10((k + 1 - n) as nat) == 10 * pow10((k - n) as nat));
            }
            scale = scale * 10;
            k = k + 1;
        }
        proof {
            lemma_pow10_positive((n - 20) as nat);
            assert(pow10((n - 20) as nat) * pow10((29 - n) as nat) == 1_000_000_000) by {
                lemma_pow10_add((n - 20) as nat, (29 - n) as nat);
                reveal_with_fuel(pow10, 10);
            }
            assert(f * scale < 1_000_000_000) by (nonlinear_arith)
                requires
                    f < pow10((n - 20) as nat),
                    scale == pow10((29 - n) as nat),
                    pow10((n - 20) as nat) * pow10((29 - n) as nat) == 1_000_000_000,
                    scale >= 0,
            ;
        }
        f * scale
    } else {
        return None;
    };
    Some(
        Timestamp {
            year: day.year,
            month: day.month,
            day: day.day,
            hour,
            minute,
            second,
            fraction: fraction as u32,
        },
    )
}

proof fn lemma_pow10_add(a: nat, b: nat)
    ensures
        pow10(a) * pow10(b) == pow10(a + b),
    decreases a,
{
    if a > 0 {
        lemma_pow10_add((a - 1) as nat, b);
        assert(pow10(a) * pow10(b) == 10 * (pow10((a - 1) as nat) * pow10(b))) by (nonlinear_arith)
            requires
                pow10(a) == 10 * pow10((a - 1) as nat),
        ;
    }
}

/// The last `w` decimal digits of `n`, with leading zeros.
pub open spec fn fixed_digits(n: nat, w: nat) -> Seq<char>
    decreases w,
{
    if w == 0 {
        Seq::empty()
    } else {
        fixed_digits(n / 10, (w - 1) as nat).push(digit_char(n % 10))
    }
}

/// A year as four digits, after a `-` when negative.
pub open spec fn year_text(y: i16) -> Seq<char> {
    if y < 0 {
        seq!['-'] + fixed_digits((-y) as nat, 4)
    } else {
        fixed_digits(y as nat, 4)
    }
}

/// `yyyy-mm-dd`.
pub open spec fn date_text(d: Date) -> Seq<char> {
    year_text(d.year) + seq!['-'] + fixed_digits(d.month as nat, 2) + seq!['-'] + fixed_digits(
        d.day as nat,
        2,
    )
}

/// `hh:mm:ss`.
pub open spec fn time_text(t: Time) -> Seq<char> {
    fixed_digits(t.hour as nat, 2) + seq![':'] + fixed_digits(t.minute as nat, 2) + seq![':']
        + fixed_digits(t.second as nat, 2)
}

/// `yyyy-mm-dd hh:mm:ss`, followed by `.` and nine digits of nanoseconds
/// when the fraction is not zero.
pub open spec fn timestamp_text(t: Timestamp) -> Seq<char> {
    date_text(Date { year: t.year, month: t.month, day: t.day }) + seq![' '] + time_text(
        Time { hour: t.hour, minute: t.minute, second: t.second },
    ) + if t.fraction == 0 {
        Seq::empty()
    } else {
        seq!['.'] + fixed_digits(t.fraction as nat, 9)
    }
}

pub(crate) fn digit_str(d: u32) -> (r: &'static str)
    requires
        d < 10,
    ensures
        r@ == seq![digit_char(d as nat)],
{
    proof {
        reveal_strlit("0");
        reveal_strlit("1");
        reveal_strlit("2");
        reveal_strlit("3");
        reveal_strlit("4");
        reveal_strlit("5");
        reveal_strlit("6");
        reveal_strlit("7");
        reveal_strlit("8");
        reveal_strlit("9");
    }
    let r = match d {
        0 => "0",
        1 => "1",
        2 => "2",
        3 => "3",
        4 => "4",
        5 => "5",
        6 => "6",
        7 => "7",
        8 => "8",
        _ => "9",
    };
    assert(r@ =~= seq![digit_char(d as nat)]);
    r
}

/// Appends the last `w` digits of `n`, with leading zeros.
fn append_fixed(out: &mut String, n: u32, w: usize)
    ensures
        final(out)@ == old(out)@ + fixed_digits(n as nat, w as nat),
    decreases w,
{
    if w == 0 {
        assert(old(out)@ + fixed_digits(n as nat, 0) =~= old(out)@);
        return;
    }
    append_fixed(out, n / 10, w - 1);
    out.append(digit_str(n % 10));
    assert(final(out)@ =~= old(out)@ + fixed_digits(n as nat, w as nat));
}

fn append_date(out: &mut String, d: Date)
    ensures
        final(out)@ == old(out)@ + date_text(d),
{
    if d.year < 0 {
        out.append("-");
        proof {
            reveal_strlit("-");
        }
        append_fixed(out, (-(d.year as i32)) as u32, 4);
    } else {
        append_fixed(out, d.year as u32, 4);
    }
    out.append("-");
    append_fixed(out, d.month as u32, 2);
    out.append("-");
    append_fixed(out, d.day as u32, 2);
    proof {
        reveal_strlit("-");
        assert(final(out)@ =~= old(out)@ + date_text(d));
    }
}

fn append_time(out: &mut String, t: Time)
    ensures
        final(out)@ == old(out)@ + time_text(t),
{
    append_fixed(out, t.hour as u32, 2);
    out.append(":");
    append_fixed(out, t.minute as u32, 2);
    out.append(":");
    append_fixed(out, t.second as u32, 2);
    proof {
        reveal_strlit(":");
        assert(final(out)@ =~= old(out)@ + time_text(t));
    }
}

/// The canonical text of a date.
pub fn format_date(d: Date) -> (r: String)
    ensures
        r@ == date_text(d),
{
    let mut out = String::new();
    append_date(&mut out, d);
    assert(out@ =~= date_text(d));
    out
}

/// The canonical text of a time.
pub fn format_time(t: Time) -> (r: String)
    ensures
        r@ == time_text(t),
{
    let mut out = String::new();
    append_time(&mut out, t);
    assert(out@ =~= time_text(t));
    out
}

/// The canonical text of a timestamp.
pub fn format_timestamp(t: Timestamp) -> (r: String)
    ensures
        r@ == timestamp_text(t),
{
    let mut out = String::new();
    append_date(&mut out, Date { year: t.year, month: t.month, day: t.day });
    out.append(" ");
    append_time(&mut out, Time { hour: t.hour, minute: t.minute, second: t.second });
    if t.fraction != 0 {
        out.append(".");
        append_fixed(&mut out, t.fraction, 9);
    }
    proof {
        reveal_strlit(" ");
        reveal_strlit(".");
    }
    assert(out@ =~= timestamp_text(t));
    out
}

} // verus!
