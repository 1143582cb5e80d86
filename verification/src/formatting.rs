//! How dates, times and durations are written for the user and for the
//! forms: `%Y-%m-%d`, `HH:MM`, `%Y-%m-%d %H:%M:%S`, minutes with one decimal,
//! and hours-and-minutes totals.
use vstd::prelude::*;
use vstd::string::*;
use vstd::arithmetic::power2::*;
use crate::calendar::{Date, DateTime, Time};
use crate::text::{
    decimal, digit, digit_char, has_no_outer_whitespace, push_char, push_decimal, push_signed,
    push_zero_padded, signed_decimal, zero_padded,
};

verus! {

pub open spec fn two_digits(n: int) -> Seq<char> {
    zero_padded(n as nat, 2)
}

/// `%Y`: four digits with leading zeros for years 0 through 9999, otherwise
/// an explicit sign followed by at least four digits.
pub open spec fn year_text(y: int) -> Seq<char> {
    if 0 <= y <= 9999 {
        zero_padded(y as nat, 4)
    } else if y < 0 {
        seq!['-'] + zero_padded((-y) as nat, 4)
    } else {
        seq!['+'] + zero_padded(y as nat, 4)
    }
}

/// `%Y-%m-%d`.
pub open spec fn date_text(d: Date) -> Seq<char> {
    year_text(d.year as int) + seq!['-'] + two_digits(d.month as int) + seq!['-'] + two_digits(
        d.day as int,
    )
}

/// `%H:%M`.
pub open spec fn hm_text(t: Time) -> Seq<char> {
    two_digits(t.hour as int) + seq![':'] + two_digits(t.minute as int)
}

/// `%Y-%m-%d %H:%M:%S`; a leap second is written as second 60.
pub open spec fn datetime_text(dt: DateTime) -> Seq<char> {
    date_text(dt.date) + seq![' '] + hm_text(dt.time) + seq![':'] + two_digits(
        dt.time.second + dt.time.nano / 1_000_000_000,
    )
}

/// `{year}-{month:02}`: the key under which a month's minutes are summed.
pub open spec fn month_key_text(year: int, month: int) -> Seq<char> {
    signed_decimal(year) + seq!['-'] + two_digits(month)
}

pub open spec fn is_digit(c: char) -> bool {
    '0' <= c <= '9'
}

// ---------------------------------------------------------------------------
// Minutes with one decimal, as `format!("{:.1}", seconds as f64 / 60.0)`
// writes them.
//
// For a whole number of seconds s, the value s/60 in tenths is s/6. Only when
// s % 6 == 3 does it lie halfway between two tenths; the binary double that
// is nearest to s/60 then lies just above or just below that half, or on it
// when s/60 is a multiple of 1/40 (a dyadic fraction). The functions below
// decide which, from the 53-bit significand of the double.
// ---------------------------------------------------------------------------

/// The exponent `e` with `20 * 2^e <= x < 40 * 2^e`, for `x >= 1` and
/// `e >= lower`, searching upward from `lower`.
pub open spec fn binary_exponent_from(x: nat, e: int) -> int
    decreases 64 - e,
{
    if e >= 64 {
        e
    } else if (x as int) < 40 * pow2_int(e) && 20 * pow2_int(e) <= x {
        e
    } else {
        binary_exponent_from(x, e + 1)
    }
}

/// 2^e for e >= 0 (1 below).
pub open spec fn pow2_int(e: int) -> int {
    if e <= 0 {
        1
    } else {
        pow2(e as nat) as int
    }
}

/// Whether the double nearest to x/20 (x odd, not a multiple of 5) lies
/// above x/20.
pub open spec fn nearest_double_above(x: nat) -> bool {
    let e = double_exponent(x);
    let residue = ((x % 5) * pow2_mod5((50 - e) as nat)) % 5;
    residue == 3 || residue == 4
}

/// floor(log2(x / 20)) for x >= 1.
pub open spec fn double_exponent(x: nat) -> int {
    if x >= 20 {
        binary_exponent_from(x, 0)
    } else {
        -scale_up_steps(x, 1)
    }
}

/// The least k >= start with x * 2^k >= 20.
pub open spec fn scale_up_steps(x: nat, k: nat) -> nat
    decreases 6 - k,
{
    if k >= 6 || x * pow2_int(k as int) >= 20 {
        k
    } else {
        scale_up_steps(x, k + 1)
    }
}

pub open spec fn pow2_mod5(p: nat) -> int {
    if p % 4 == 0 {
        1
    } else if p % 4 == 1 {
        2
    } else if p % 4 == 2 {
        4
    } else {
        3
    }
}

/// The tenths of a minute that `{:.1}` shows for `s` seconds.
pub open spec fn displayed_tenths(s: nat) -> nat {
    let q = s / 6;
    let r = s % 6;
    if r < 3 {
        q
    } else if r > 3 {
        q + 1
    } else if (2 * q + 1) % 5 == 0 {
        if q % 2 == 0 {
            q
        } else {
            q + 1
        }
    } else if nearest_double_above(2 * q + 1) {
        q + 1
    } else {
        q
    }
}

pub open spec fn tenths_text(t: nat) -> Seq<char> {
    decimal(t / 10) + seq!['.'] + seq![digit_char((t % 10) as int)]
}

/// The text of `format_duration_minutes(seconds)`.
pub open spec fn duration_minutes_text(seconds: int) -> Seq<char> {
    tenths_text(displayed_tenths(if seconds < 0 { 0 } else { seconds as nat }))
}

/// The text of `format_entry_minutes(seconds)`: a negative duration shows
/// with a minus sign (also when it rounds to zero).
pub open spec fn entry_minutes_text(seconds: int) -> Seq<char> {
    if seconds < 0 {
        seq!['-'] + duration_minutes_text(-seconds)
    } else {
        duration_minutes_text(seconds)
    }
}

/// `{h}h{m}m`, or `{m}m` under an hour, for a whole number of minutes; a
/// negative count shows as zero.
pub open spec fn hours_minutes_text(total_minutes: int) -> Seq<char> {
    let t = if total_minutes < 0 {
        0
    } else {
        total_minutes
    };
    if t / 60 > 0 {
        decimal((t / 60) as nat) + seq!['h'] + decimal((t % 60) as nat) + seq!['m']
    } else {
        decimal((t % 60) as nat) + seq!['m']
    }
}

// ---------------------------------------------------------------------------
// Lemmas
// ---------------------------------------------------------------------------

pub proof fn lemma_decimal_digits(n: nat)
    ensures
        decimal(n).len() >= 1,
        forall|i: int| 0 <= i < decimal(n).len() ==> is_digit(#[trigger] decimal(n)[i]),
    decreases n,
{
    if n >= 10 {
        lemma_decimal_digits(n / 10);
        let a = decimal(n / 10);
        assert forall|i: int| 0 <= i < decimal(n).len() implies is_digit(
            #[trigger] decimal(n)[i],
        ) by {
            if i < a.len() {
                assert(decimal(n)[i] == a[i]);
            }
        }
    }
}

pub proof fn lemma_zero_padded_digits(n: nat, w: nat)
    ensures
        zero_padded(n, w).len() >= 1,
        forall|i: int| 0 <= i < zero_padded(n, w).len() ==> is_digit(#[trigger] zero_padded(n, w)[i]),
{
    lemma_decimal_digits(n);
    let d = decimal(n);
    if d.len() < w {
        let z = Seq::new((w - d.len()) as nat, |i: int| '0');
        assert forall|i: int| 0 <= i < zero_padded(n, w).len() implies is_digit(
            #[trigger] zero_padded(n, w)[i],
        ) by {
            if i < z.len() {
                assert(zero_padded(n, w)[i] == z[i]);
            } else {
                assert(zero_padded(n, w)[i] == d[i - z.len()]);
            }
        }
    }
}

/// The `%Y-%m-%d` text of a date neither starts nor ends with whitespace.
pub proof fn lemma_date_text_plain(d: Date)
    ensures
        has_no_outer_whitespace(date_text(d)),
{
    let y = year_text(d.year as int);
    lemma_zero_padded_digits(d.day as nat, 2);
    if 0 <= d.year <= 9999 {
        lemma_zero_padded_digits(d.year as nat, 4);
        assert(y[0] == zero_padded(d.year as nat, 4)[0]);
    } else if d.year < 0 {
        assert(y[0] == '-');
    } else {
        assert(y[0] == '+');
    }
    let t = date_text(d);
    let dd = two_digits(d.day as int);
    assert(t.last() == dd.last());
    assert(t[0] == y[0]);
}

/// The `%H:%M` text of a time neither starts nor ends with whitespace.
pub proof fn lemma_hm_text_plain(t: Time)
    ensures
        has_no_outer_whitespace(hm_text(t)),
{
    lemma_zero_padded_digits(t.hour as nat, 2);
    lemma_zero_padded_digits(t.minute as nat, 2);
    let s = hm_text(t);
    assert(s[0] == two_digits(t.hour as int)[0]);
    assert(s.last() == two_digits(t.minute as int).last());
}

// ---------------------------------------------------------------------------
// Executable formatting
// ---------------------------------------------------------------------------

/// Appends `%Y`.
fn push_year(out: &mut String, y: i32)
    ensures
        final(out)@ == old(out)@ + year_text(y as int),
{
    if 0 <= y && y <= 9999 {
        push_zero_padded(out, y as u64, 4);
    } else if y < 0 {
        push_char(out, '-');
        let m: u64 = if y == i32::MIN {
            2147483648u64
        } else {
            (-y) as u64
        };
        push_zero_padded(out, m, 4);
        assert(old(out)@.push('-') + zero_padded(m as nat, 4) =~= old(out)@ + year_text(y as int));
    } else {
        push_char(out, '+');
        push_zero_padded(out, y as u64, 4);
        assert(old(out)@.push('+') + zero_padded(y as nat, 4) =~= old(out)@ + year_text(y as int));
    }
}

/// A date as `%Y-%m-%d`.
pub fn format_date(date: &Date) -> (r: String)
    ensures
        r@ == date_text(*date),
{
    let mut out = String::new();
    push_year(&mut out, date.year);
    push_char(&mut out, '-');
    push_zero_padded(&mut out, date.month as u64, 2);
    push_char(&mut out, '-');
    push_zero_padded(&mut out, date.day as u64, 2);
    assert(out@ =~= date_text(*date));
    out
}

/// A time of day as `HH:MM`.
pub fn format_hm(time: &Time) -> (r: String)
    ensures
        r@ == hm_text(*time),
{
    let mut out = String::new();
    push_zero_padded(&mut out, time.hour as u64, 2);
    push_char(&mut out, ':');
    push_zero_padded(&mut out, time.minute as u64, 2);
    assert(out@ =~= hm_text(*time));
    out
}

/// A date and time as `%Y-%m-%d %H:%M:%S`.
pub fn format_datetime(time: &DateTime) -> (r: String)
    requires
        time.wf(),
    ensures
        r@ == datetime_text(*time),
{
    let mut out = format_date(&time.date);
    push_char(&mut out, ' ');
    let hm = format_hm(&time.time);
    out.append(hm.as_str());
    push_char(&mut out, ':');
    let sec: u64 = time.time.second as u64 + (time.time.nano / 1_000_000_000) as u64;
    push_zero_padded(&mut out, sec, 2);
    assert(out@ =~= datetime_text(*time));
    out
}

/// `{year}-{month:02}`.
pub fn format_month_key(year: i32, month: u32) -> (r: String)
    ensures
        r@ == month_key_text(year as int, month as int),
{
    let mut out = String::new();
    push_signed(&mut out, year as i64);
    push_char(&mut out, '-');
    push_zero_padded(&mut out, month as u64, 2);
    assert(out@ =~= month_key_text(year as int, month as int));
    out
}

fn pow2_mod5_exec(p: u64) -> (r: u64)
    ensures
        r == pow2_mod5(p as nat),
{
    if p % 4 == 0 {
        1
    } else if p % 4 == 1 {
        2
    } else if p % 4 == 2 {
        4
    } else {
        3
    }
}

fn pow2_exec(e: u64) -> (r: u64)
    requires
        e < 64,
    ensures
        r == pow2_int(e as int),
{
    let mut r: u64 = 1;
    let mut i: u64 = 0;
    proof {
        lemma2_to64();
    }
    while i < e
        invariant
            i <= e < 64,
            r == pow2_int(i as int),
            r == pow2(i as nat),
        decreases e - i,
    {
        proof {
            lemma_pow2_unfold((i + 1) as nat);
            lemma_pow2_strictly_increases((i + 1) as nat, 64);
            lemma2_to64();
        }
        r = r * 2;
        i = i + 1;
    }
    r
}

/// floor(log2(x / 20)) for 1 <= x < 2^54.
fn double_exponent_exec(x: u64) -> (r: i64)
    requires
        1 <= x < 0x40_0000_0000_0000u64,
    ensures
        r == double_exponent(x as nat),
        -6 <= r <= 50,
{
    if x >= 20 {
        let mut e: u64 = 0;
        while e < 64 && !((x as u128) < 40 * (pow2_exec(e) as u128) && 20 * (pow2_exec(
            e,
        ) as u128) <= x as u128)
            invariant
                e <= 64,
                binary_exponent_from(x as nat, e as int) == binary_exponent_from(x as nat, 0),
                20 * pow2_int(e as int) <= x,
            decreases 64 - e,
        {
            proof {
                lemma2_to64();
                lemma2_to64_rest();
                if e < 63 {
                    lemma_pow2_unfold((e + 1) as nat);
                }
                if e > 0 {
                    lemma_pow2_unfold(e as nat);
                }
            }
            e = e + 1;
        }
        proof {
            lemma2_to64_rest();
            if e >= 51 {
                if e > 51 {
                    lemma_pow2_strictly_increases(51, e as nat);
                }
            }
        }
        e as i64
    } else {
        let mut k: u64 = 1;
        proof {
            lemma2_to64();
        }
        loop
            invariant
                1 <= k <= 6,
                x < 20,
                scale_up_steps(x as nat, k as nat) == scale_up_steps(x as nat, 1),
                pow2_int(1) == 2 && pow2_int(2) == 4 && pow2_int(3) == 8,
                pow2_int(4) == 16 && pow2_int(5) == 32,
            ensures
                1 <= k <= 6,
                scale_up_steps(x as nat, k as nat) == k,
                scale_up_steps(x as nat, k as nat) == scale_up_steps(x as nat, 1),
            decreases 6 - k,
        {
            if k >= 6 {
                break;
            }
            let p = pow2_exec(k);
            assert(p <= 32) by {
                if k == 1 {
                } else if k == 2 {
                } else if k == 3 {
                } else if k == 4 {
                } else {
                }
            }
            if x * p >= 20 {
                break;
            }
            k = k + 1;
        }
        -(k as i64)
    }
}

/// Minutes with one decimal, as the timer shows the elapsed time; negative
/// durations show as zero. The text is the one that the nearest binary
/// double to `seconds / 60` gives when rounded to one decimal.
pub fn format_duration_minutes(seconds: i64) -> (r: String)
    requires
        seconds <= 0x20_0000_0000_0000,
    ensures
        r@ == duration_minutes_text(seconds as int),
{
    let s: u64 = if seconds < 0 {
        0
    } else {
        seconds as u64
    };
    let q = s / 6;
    let rem = s % 6;
    let tenths: u64 = if rem < 3 {
        q
    } else if rem > 3 {
        q + 1
    } else if (2 * q + 1) % 5 == 0 {
        if q % 2 == 0 {
            q
        } else {
            q + 1
        }
    } else {
        let x = 2 * q + 1;
        let e = double_exponent_exec(x);
        let p: u64 = (50 - e) as u64;
        let residue = ((x % 5) * pow2_mod5_exec(p)) % 5;
        if residue == 3 || residue == 4 {
            q + 1
        } else {
            q
        }
    };
    let mut out = String::new();
    push_decimal(&mut out, tenths / 10);
    push_char(&mut out, '.');
    push_char(&mut out, digit(tenths % 10));
    assert(out@ =~= duration_minutes_text(seconds as int));
    out
}

/// The minutes of an entry with one decimal, as the tables show them; a
/// negative duration keeps its sign. The text is the one that the nearest
/// binary double to `seconds / 60` gives when rounded to one decimal.
pub fn format_entry_minutes(seconds: i64) -> (r: String)
    requires
        -0x20_0000_0000_0000 <= seconds <= 0x20_0000_0000_0000,
    ensures
        r@ == entry_minutes_text(seconds as int),
{
    if seconds < 0 {
        let mut out = String::new();
        push_char(&mut out, '-');
        let rest = format_duration_minutes(-seconds);
        out.append(rest.as_str());
        assert(out@ =~= entry_minutes_text(seconds as int));
        out
    } else {
        format_duration_minutes(seconds)
    }
}

/// A total of whole minutes in hours and minutes (`{h}h{m}m`, or `{m}m`
/// under an hour); a negative count shows as zero.
pub fn format_minutes_hours(total_minutes: i64) -> (r: String)
    ensures
        r@ == hours_minutes_text(total_minutes as int),
{
    let total: u64 = if total_minutes <= 0 {
        0
    } else {
        total_minutes as u64
    };
    let hours = total / 60;
    let minutes = total % 60;
    let mut out = String::new();
    if hours > 0 {
        push_decimal(&mut out, hours);
        push_char(&mut out, 'h');
    }
    push_decimal(&mut out, minutes);
    push_char(&mut out, 'm');
    assert(out@ =~= hours_minutes_text(total_minutes as int));
    out
}

} // verus!
