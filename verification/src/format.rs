//! Small formatting helpers used by the listing and dashboard pages.
use vstd::prelude::*;
use chrono::{Datelike, Timelike};
use vstd::utf8::{decode_utf8, valid_utf8};
use crate::text::{chars_of, dec, dec_padded, push_dec, push_dec_padded};

verus! {

// ----------------------------------------------------------------------------
// Byte sizes
// ----------------------------------------------------------------------------

/// `1024` to the power `e`.
pub open spec fn pow1024(e: nat) -> nat
    decreases e,
{
    if e == 0 { 1 } else { 1024 * pow1024((e - 1) as nat) }
}

/// The unit of a byte count: the largest power of 1024 (up to 1024^5) that does not exceed it.
pub open spec fn size_exponent(b: nat) -> nat {
    if b >= pow1024(5) { 5 }
    else if b >= pow1024(4) { 4 }
    else if b >= pow1024(3) { 3 }
    else if b >= pow1024(2) { 2 }
    else if b >= pow1024(1) { 1 }
    else { 0 }
}

/// The name of a unit.
pub open spec fn unit_name(e: nat) -> Seq<char> {
    if e == 0 { "B"@ }
    else if e == 1 { "KB"@ }
    else if e == 2 { "MB"@ }
    else if e == 3 { "GB"@ }
    else if e == 4 { "TB"@ }
    else { "PB"@ }
}

/// `n / d` rounded to the nearest integer, ties to even (as decimal formatting rounds).
pub open spec fn div_round_even(n: nat, d: nat) -> nat
    recommends
        d > 0,
{
    let q = n / d;
    let r = n % d;
    if 2 * r > d || (2 * r == d && q % 2 == 1) { q + 1 } else { q }
}

/// The distance between neighbouring `f64` values around the byte count `b` (below 2^64):
/// one below 2^53, and twice as much from each power of two on.
pub open spec fn double_spacing(b: nat) -> nat {
    if b < 0x20_0000_0000_0000 { 1 }
    else if b < 0x40_0000_0000_0000 { 2 }
    else if b < 0x80_0000_0000_0000 { 4 }
    else if b < 0x100_0000_0000_0000 { 8 }
    else if b < 0x200_0000_0000_0000 { 16 }
    else if b < 0x400_0000_0000_0000 { 32 }
    else if b < 0x800_0000_0000_0000 { 64 }
    else if b < 0x1000_0000_0000_0000 { 128 }
    else if b < 0x2000_0000_0000_0000 { 256 }
    else if b < 0x4000_0000_0000_0000 { 512 }
    else if b < 0x8000_0000_0000_0000 { 1024 }
    else { 2048 }
}

/// `b as f64`: the nearest `f64` value, ties to the even one.
pub open spec fn as_double(b: nat) -> nat {
    let q = double_spacing(b);
    div_round_even(b, q) * q
}

/// The unit `(x as f64).log(1024.0).floor()` picks for the value `x`, capped at `PB`: the
/// largest power of 1024 not above `x`, except just below 1024^5, where the double-precision
/// quotient of the two logarithms already rounds to 5 (from 1024^5 - 3 on).
pub open spec fn float_size_exponent(x: nat) -> nat {
    if x + 3 >= pow1024(5) { 5 } else { size_exponent(x) }
}

/// A byte count for humans, as the floating-point computation writes it: `-` when unknown;
/// else the count as an `f64`, divided by its unit (exactly, the unit being a power of two),
/// with no decimal from ten units on and one decimal below, rounded to nearest, ties to even.
pub open spec fn bytes_label(bytes: Option<u64>) -> Seq<char> {
    match bytes {
        None => "-"@,
        Some(b) => {
            if b == 0 {
                "0 B"@
            } else {
                let x = as_double(b as nat);
                let e = float_size_exponent(x);
                let d = pow1024(e);
                if x >= 10 * d {
                    dec(div_round_even(x, d)) + " "@ + unit_name(e)
                } else {
                    let q = div_round_even(10 * x, d);
                    dec(q / 10) + "."@ + dec(q % 10) + " "@ + unit_name(e)
                }
            }
        },
    }
}

proof fn lemma_round_times(n: nat, q: nat)
    requires
        q > 0,
    ensures
        div_round_even(n, q) * q <= n + q,
{
    let t = n / q;
    assert(t * q <= n) by (nonlinear_arith) requires t == n / q, q > 0;
    assert(div_round_even(n, q) <= t + 1);
    assert(div_round_even(n, q) * q <= (t + 1) * q) by (nonlinear_arith)
        requires div_round_even(n, q) <= t + 1, q > 0;
    assert((t + 1) * q == t * q + q) by (nonlinear_arith);
}

proof fn lemma_round_bounds(n: nat, d: nat)
    requires
        d > 0,
    ensures
        div_round_even(n, d) <= n / d + 1,
        n / d <= n,
        n < 100 * d ==> div_round_even(n, d) <= 100,
        n >= 1 ==> div_round_even(n, d) <= n,
{
    if d == 1 {
        assert(n / d == n && n % d == 0) by (nonlinear_arith) requires d == 1;
    }
    if n < d {
        assert(n / d == 0) by (nonlinear_arith) requires n < d, d > 0;
    }
    if d >= 2 && n >= 2 {
        assert(n / d <= n / 2) by (nonlinear_arith) requires d >= 2, n >= 0;
    }
    assert(n / d <= n) by (nonlinear_arith) requires d > 0;
    if n < 100 * d {
        assert(n / d < 100) by (nonlinear_arith) requires d > 0, n < 100 * d;
    }
}

proof fn lemma_pow1024_values()
    ensures
        pow1024(0) == 1,
        pow1024(1) == 1024,
        pow1024(2) == 1048576,
        pow1024(3) == 1073741824,
        pow1024(4) == 1099511627776,
        pow1024(5) == 1125899906842624,
{
    reveal_with_fuel(pow1024, 6);
}

fn round_even(n: u128, d: u128) -> (q: u128)
    requires
        d > 0,
    ensures
        q == div_round_even(n as nat, d as nat),
{
    let q = n / d;
    let r = n % d;
    proof {
        assert(r < d);
        assert(q <= n);
    }
    if r > d - r || (r == d - r && q % 2 == 1) {
        proof {
            assert(q < n || d == 1 || n == 0 || q + 1 <= u128::MAX) by (nonlinear_arith)
                requires q == n / d, d > 0, r == n % d, n <= u128::MAX;
            assert(q + 1 <= u128::MAX) by (nonlinear_arith)
                requires q == n / d, d > 0, r == n % d, r > 0 || r == d - r, n <= u128::MAX, r < d;
        }
        q + 1
    } else {
        q
    }
}

/// The distance between neighbouring `f64` values around `b`.
fn spacing_of(b: u128) -> (q: u128)
    requires
        b <= u64::MAX,
    ensures
        q == double_spacing(b as nat),
        1 <= q <= 2048,
{
    if b < 0x20_0000_0000_0000 { 1 }
    else if b < 0x40_0000_0000_0000 { 2 }
    else if b < 0x80_0000_0000_0000 { 4 }
    else if b < 0x100_0000_0000_0000 { 8 }
    else if b < 0x200_0000_0000_0000 { 16 }
    else if b < 0x400_0000_0000_0000 { 32 }
    else if b < 0x800_0000_0000_0000 { 64 }
    else if b < 0x1000_0000_0000_0000 { 128 }
    else if b < 0x2000_0000_0000_0000 { 256 }
    else if b < 0x4000_0000_0000_0000 { 512 }
    else if b < 0x8000_0000_0000_0000 { 1024 }
    else { 2048 }
}

/// Writes a byte count for humans, e.g. `0 B`, `512 B`, `1.5 KB`, `12 MB`; `-` when unknown.
/// It gives what computing with `f64` values gives.
pub fn format_bytes(bytes: Option<u64>) -> (r: String)
    ensures
        r@ == bytes_label(bytes),
{
    match bytes {
        None => {
            let r = String::from_str("-");
            assert(r@ == bytes_label(bytes));
            r
        },
        Some(b) => {
            if b == 0 {
                return String::from_str("0 B");
            }
            proof { lemma_pow1024_values(); }
            let q = spacing_of(b as u128);
            proof {
                lemma_round_times(b as nat, q as nat);
                lemma_round_bounds(b as nat, q as nat);
            }
            let x: u128 = round_even(b as u128, q) * q;
            assert(x == as_double(b as nat));
            let (e, d, unit): (u64, u128, &str) =
                if x + 3 >= 1125899906842624 { (5, 1125899906842624, "PB") }
                else if x >= 1099511627776 { (4, 1099511627776, "TB") }
                else if x >= 1073741824 { (3, 1073741824, "GB") }
                else if x >= 1048576 { (2, 1048576, "MB") }
                else if x >= 1024 { (1, 1024, "KB") }
                else { (0, 1, "B") };
            assert(d == pow1024(float_size_exponent(x as nat)));
            assert(unit@ == unit_name(float_size_exponent(x as nat)));
            let mut out = String::new();
            if x >= 10 * d {
                let t = round_even(x, d);
                proof {
                    lemma_round_bounds(x as nat, d as nat);
                    if d == 1 {
                        assert(x < 1024);
                    } else {
                        assert(d >= 1024);
                        assert(x / d <= x / 1024) by (nonlinear_arith)
                            requires d >= 1024, x >= 0;
                    }
                }
                push_dec(&mut out, t as u64);
            } else {
                let t = round_even(10 * x, d);
                proof {
                    lemma_round_bounds((10 * x) as nat, d as nat);
                }
                push_dec(&mut out, (t / 10) as u64);
                out.append(".");
                push_dec(&mut out, (t % 10) as u64);
            }
            out.append(" ");
            out.append(unit);
            assert(out@ == bytes_label(bytes));
            out
        },
    }
}

/// Whether `host` must be bracketed when it is used as the host part of a URL:
/// it holds a colon and is not already bracketed.
pub open spec fn needs_brackets(host: Seq<char>) -> bool {
    &&& host.contains(':')
    &&& !(host.len() > 0 && host[0] == '[')
    &&& !(host.len() > 0 && host.last() == ']')
}

/// The host as it appears in a URL.
pub open spec fn url_host(host: Seq<char>) -> Seq<char> {
    if needs_brackets(host) {
        seq!['['] + host + seq![']']
    } else {
        host
    }
}

/// Writes a host for use in a URL, bracketing IPv6 literals such as `::1`.
pub fn format_url_host(host: &str) -> (res: String)
    ensures
        res@ == url_host(host@),
{
    let cs = chars_of(host);
    let mut has_colon = false;
    let mut i: usize = 0;
    while i < cs.len()
        invariant
            i <= cs.len(),
            has_colon == cs@.take(i as int).contains(':'),
        decreases cs.len() - i,
    {
        if cs[i] == ':' {
            has_colon = true;
        }
        proof {
            let prev = cs@.take(i as int);
            let next = cs@.take(i + 1);
            assert(next =~= prev.push(cs@[i as int]));
            if cs@[i as int] == ':' {
                assert(next[i as int] == ':');
            }
            if prev.contains(':') {
                let j = choose|j: int| 0 <= j < prev.len() && prev[j] == ':';
                assert(next[j] == ':');
            }
        }
        i = i + 1;
    }
    proof {
        assert(cs@.take(cs.len() as int) =~= cs@);
    }
    let starts = cs.len() > 0 && cs[0] == '[';
    let ends = cs.len() > 0 && cs[cs.len() - 1] == ']';
    if has_colon && !starts && !ends {
        let mut out = String::new();
        out.push('[');
        out.append(host);
        out.push(']');
        out
    } else {
        String::from_str(host)
    }
}

// ----------------------------------------------------------------------------
// Dates
// ----------------------------------------------------------------------------

/// A calendar date and time of day, as `chrono` reports it.
#[derive(Clone, Copy, PartialEq, Eq, Debug)]
pub struct CivilTime {
    pub year: i32,
    /// 1 to 12.
    pub month: u32,
    /// 1 to 31.
    pub day: u32,
    /// 0 to 23.
    pub hour: u32,
    /// 0 to 59.
    pub minute: u32,
    /// 0 to 59.
    pub second: u32,
    /// Days since Monday, 0 to 6.
    pub weekday: u32,
}

/// The ranges that `chrono`'s accessors document for each field.
pub open spec fn civil_in_range(t: CivilTime) -> bool {
    &&& 1 <= t.month <= 12
    &&& 1 <= t.day <= 31
    &&& t.hour <= 23
    &&& t.minute <= 59
    &&& t.second <= 59
    &&& t.weekday <= 6
}

/// The UTC calendar time `chrono` gives for `secs` seconds after the Unix epoch, if it can
/// represent it.
pub uninterp spec fn utc_civil_time(secs: i64) -> Option<CivilTime>;

/// Calls `chrono::DateTime::from_timestamp(secs, 0)` and reads the UTC calendar fields of the
/// result; `None` where chrono cannot represent the time. The contract names the result and
/// states the documented field ranges.
#[verifier::external_body]
fn utc_time(secs: i64) -> (r: Option<CivilTime>)
    ensures
        r == utc_civil_time(secs),
        r matches Some(t) ==> civil_in_range(t),
{
    match chrono::DateTime::from_timestamp(secs, 0) {
        Some(d) => Some(CivilTime {
            year: d.year(), month: d.month(), day: d.day(), hour: d.hour(), minute: d.minute(),
            second: d.second(), weekday: d.weekday().num_days_from_monday(),
        }),
        None => None,
    }
}

/// The UTC calendar time of `secs + off` seconds after the Unix epoch, if that fits an `i64`
/// and `chrono` represents it.
pub open spec fn shifted_civil(secs: i64, off: int) -> Option<CivilTime> {
    if i64::MIN <= secs + off <= i64::MAX { utc_civil_time((secs + off) as i64) } else { None }
}

/// `chrono` represents the times a day before and a day after `secs` (its range has no gaps,
/// so every time in between too).
pub open spec fn a_day_within_range(secs: i64) -> bool {
    shifted_civil(secs, -86400) is Some && shifted_civil(secs, 86400) is Some
}

/// Calls `chrono::DateTime::from_timestamp(secs, 0)` and reads the calendar fields of the
/// result in the machine's local time zone (`with_timezone(&chrono::Local)`); `None` where
/// chrono cannot represent the time, which is where the UTC reading is `None` too, as both
/// come from the same `from_timestamp`. The local fields are those of the UTC time shifted by
/// the zone's offset at that time, a `FixedOffset` of less than a day either way; the
/// contract states that for times a day away from chrono's limits (nearer to them the shifted
/// time may leave chrono's range, and the fields are those of its overflowing arithmetic),
/// and the documented field ranges. Which offset applies depends on the machine's time zone
/// and is left open.
#[verifier::external_body]
fn local_time(secs: i64) -> (r: Option<CivilTime>)
    ensures
        (r is Some) == (utc_civil_time(secs) is Some),
        r matches Some(t) ==> civil_in_range(t),
        r is Some && a_day_within_range(secs) ==>
            exists|off: int| -86400 < off < 86400 && #[trigger] shifted_civil(secs, off) == r,
{
    match chrono::DateTime::from_timestamp(secs, 0) {
        Some(u) => {
            let d = u.with_timezone(&chrono::Local);
            Some(CivilTime {
            year: d.year(), month: d.month(), day: d.day(), hour: d.hour(), minute: d.minute(),
            second: d.second(), weekday: d.weekday().num_days_from_monday(),
            })
        },
        None => None,
    }
}

/// A year as `%Y` writes it: four digits with leading zeros from 0 to 9999, and a sign
/// before at least four digits otherwise.
pub open spec fn year_text(y: i32) -> Seq<char> {
    if 0 <= y <= 9999 {
        dec_padded(y as nat, 4)
    } else if y > 9999 {
        "+"@ + dec_padded(y as nat, 4)
    } else {
        "-"@ + dec_padded((-y) as nat, 4)
    }
}

/// `%H:%M:%S`.
pub open spec fn clock_text(t: CivilTime) -> Seq<char> {
    dec_padded(t.hour as nat, 2) + ":"@ + dec_padded(t.minute as nat, 2) + ":"@ + dec_padded(t.second as nat, 2)
}

/// `%Y/%m/%d %H:%M:%S`.
pub open spec fn datetime_text(t: CivilTime) -> Seq<char> {
    year_text(t.year) + "/"@ + dec_padded(t.month as nat, 2) + "/"@ + dec_padded(t.day as nat, 2) + " "@ + clock_text(t)
}

/// English abbreviation of a weekday, counted from Monday.
pub open spec fn weekday_name(d: u32) -> Seq<char> {
    if d == 0 { "Mon"@ }
    else if d == 1 { "Tue"@ }
    else if d == 2 { "Wed"@ }
    else if d == 3 { "Thu"@ }
    else if d == 4 { "Fri"@ }
    else if d == 5 { "Sat"@ }
    else { "Sun"@ }
}

/// English abbreviation of a month, counted from 1.
pub open spec fn month_name(m: u32) -> Seq<char> {
    if m == 1 { "Jan"@ }
    else if m == 2 { "Feb"@ }
    else if m == 3 { "Mar"@ }
    else if m == 4 { "Apr"@ }
    else if m == 5 { "May"@ }
    else if m == 6 { "Jun"@ }
    else if m == 7 { "Jul"@ }
    else if m == 8 { "Aug"@ }
    else if m == 9 { "Sep"@ }
    else if m == 10 { "Oct"@ }
    else if m == 11 { "Nov"@ }
    else { "Dec"@ }
}

/// `%a, %d %b %Y %H:%M:%S GMT`, the date format of HTTP headers.
pub open spec fn http_date_text(t: CivilTime) -> Seq<char> {
    weekday_name(t.weekday) + ", "@ + dec_padded(t.day as nat, 2) + " "@ + month_name(t.month) + " "@
        + year_text(t.year) + " "@ + clock_text(t) + " GMT"@
}

fn push_year(out: &mut String, y: i32)
    ensures
        final(out)@ == old(out)@ + year_text(y),
{
    if 0 <= y && y <= 9999 {
        push_dec_padded(out, y as u64, 4);
    } else if y > 9999 {
        out.append("+");
        push_dec_padded(out, y as u64, 4);
    } else {
        out.append("-");
        let a: u64 = (-(y as i64)) as u64;
        push_dec_padded(out, a, 4);
    }
}

fn push_clock(out: &mut String, t: &CivilTime)
    ensures
        final(out)@ == old(out)@ + clock_text(*t),
{
    push_dec_padded(out, t.hour as u64, 2);
    out.append(":");
    push_dec_padded(out, t.minute as u64, 2);
    out.append(":");
    push_dec_padded(out, t.second as u64, 2);
    assert(final(out)@ =~= old(out)@ + clock_text(*t));
}

/// Writes a calendar time as `%Y/%m/%d %H:%M:%S`.
pub fn format_datetime(t: &CivilTime) -> (r: String)
    ensures
        r@ == datetime_text(*t),
{
    let mut out = String::new();
    push_year(&mut out, t.year);
    out.append("/");
    push_dec_padded(&mut out, t.month as u64, 2);
    out.append("/");
    push_dec_padded(&mut out, t.day as u64, 2);
    out.append(" ");
    push_clock(&mut out, t);
    assert(out@ =~= datetime_text(*t));
    out
}

/// What `format_date` may write for `mtime`: `-` when it is unknown or beyond what `chrono`
/// represents; else a calendar time, which (a day away from chrono's limits) is the UTC time
/// shifted by an offset of less than a day: the offset of the machine's time zone.
pub open spec fn possible_date_label(mtime: Option<i64>, label: Seq<char>) -> bool {
    match mtime {
        None => label == "-"@,
        Some(secs) => match utc_civil_time(secs) {
            None => label == "-"@,
            Some(_) => {
                &&& exists|t: CivilTime| civil_in_range(t) && label == datetime_text(t)
                &&& a_day_within_range(secs) ==> exists|off: int| -86400 < off < 86400
                    && (#[trigger] shifted_civil(secs, off) matches Some(u) && label == datetime_text(u))
            },
        },
    }
}

/// Writes a modification time (seconds after the Unix epoch) in the local time zone as
/// `%Y/%m/%d %H:%M:%S`; `-` when unknown or beyond what `chrono` represents.
pub fn format_date(mtime: Option<i64>) -> (r: String)
    ensures
        possible_date_label(mtime, r@),
{
    match mtime {
        None => String::from_str("-"),
        Some(secs) => match local_time(secs) {
            Some(t) => {
                let r = format_datetime(&t);
                proof {
                    if a_day_within_range(secs) {
                        let off = choose|off: int| -86400 < off < 86400 && #[trigger] shifted_civil(secs, off) == Some(t);
                        assert(-86400 < off < 86400 && shifted_civil(secs, off) == Some(t));
                        assert(shifted_civil(secs, off) matches Some(u) && r@ == datetime_text(u));
                    }
                }
                r
            },
            None => String::from_str("-"),
        },
    }
}

fn weekday_str(d: u32) -> (s: &'static str)
    ensures
        s@ == weekday_name(d),
{
    if d == 0 { "Mon" }
    else if d == 1 { "Tue" }
    else if d == 2 { "Wed" }
    else if d == 3 { "Thu" }
    else if d == 4 { "Fri" }
    else if d == 5 { "Sat" }
    else { "Sun" }
}

fn month_str(m: u32) -> (s: &'static str)
    ensures
        s@ == month_name(m),
{
    if m == 1 { "Jan" }
    else if m == 2 { "Feb" }
    else if m == 3 { "Mar" }
    else if m == 4 { "Apr" }
    else if m == 5 { "May" }
    else if m == 6 { "Jun" }
    else if m == 7 { "Jul" }
    else if m == 8 { "Aug" }
    else if m == 9 { "Sep" }
    else if m == 10 { "Oct" }
    else if m == 11 { "Nov" }
    else { "Dec" }
}

/// Writes a calendar time as `%a, %d %b %Y %H:%M:%S GMT`.
pub fn format_http_date(t: &CivilTime) -> (r: String)
    ensures
        r@ == http_date_text(*t),
{
    let mut out = String::new();
    out.append(weekday_str(t.weekday));
    out.append(", ");
    push_dec_padded(&mut out, t.day as u64, 2);
    out.append(" ");
    out.append(month_str(t.month));
    out.append(" ");
    push_year(&mut out, t.year);
    out.append(" ");
    push_clock(&mut out, t);
    out.append(" GMT");
    assert(out@ =~= http_date_text(*t));
    out
}

/// The HTTP date (UTC) of `secs` seconds after the Unix epoch; `None` beyond what `chrono`
/// represents.
pub fn http_date(secs: i64) -> (r: Option<String>)
    ensures
        match utc_civil_time(secs) {
            Some(t) => r matches Some(s) && s@ == http_date_text(t),
            None => r is None,
        },
{
    match utc_time(secs) {
        Some(t) => Some(format_http_date(&t)),
        None => None,
    }
}

// ----------------------------------------------------------------------------
// Content types
// ----------------------------------------------------------------------------

/// The MIME type `mime_guess` gives for a file extension (its first guess, or
/// `application/octet-stream` when it knows none).
pub uninterp spec fn guessed_mime(ext: Seq<char>) -> Seq<char>;

/// Calls `mime_guess::from_ext(ext).first_or_octet_stream()` and writes the MIME type. The
/// contract names the result; the one fact stated is what the source shows for an empty
/// extension, which has no guess.
#[verifier::external_body]
fn mime_from_ext(ext: &str) -> (r: String)
    ensures
        r@ == guessed_mime(ext@),
        ext@.len() == 0 ==> r@ == "application/octet-stream"@,
{
    mime_guess::from_ext(ext).first_or_octet_stream().to_string()
}

/// Calls `String::from_utf8`, which takes the bytes as text exactly when they are valid UTF-8;
/// the contract states that, with the text they encode.
#[verifier::external_body]
fn utf8_text(bytes: &Vec<u8>) -> (r: Option<String>)
    ensures
        match r {
            Some(t) => valid_utf8(bytes@) && t@ == decode_utf8(bytes@),
            None => !valid_utf8(bytes@),
        },
{
    String::from_utf8(bytes.clone()).ok()
}

/// Index of the last `.` (byte 46) in `name`, if any.
pub open spec fn last_dot(name: Seq<u8>) -> Option<int>
    decreases name.len(),
{
    if name.len() == 0 {
        None
    } else if name.last() == 46 {
        Some(name.len() - 1)
    } else {
        last_dot(name.drop_last())
    }
}

/// `Path::extension` of a file name: the bytes after the last `.`, unless there is no `.` or
/// the only bytes before it are none (a name such as `.profile`).
pub open spec fn file_extension(name: Seq<u8>) -> Option<Seq<u8>> {
    match last_dot(name) {
        Some(k) => if k > 0 { Some(name.skip(k + 1)) } else { None },
        None => None,
    }
}

/// The content type `mime_guess::from_path` guesses for a file name: that of its extension
/// when it has one that is text (UTF-8), else `application/octet-stream`.
pub open spec fn content_type(name: Seq<u8>) -> Seq<char> {
    match file_extension(name) {
        Some(ext) => if valid_utf8(ext) { guessed_mime(decode_utf8(ext)) } else { "application/octet-stream"@ },
        None => "application/octet-stream"@,
    }
}

proof fn lemma_last_dot(name: Seq<u8>, k: int)
    requires
        0 <= k <= name.len(),
        forall|j: int| k <= j < name.len() ==> name[j] != 46,
    ensures
        k > 0 && name[k - 1] == 46 ==> last_dot(name) == Some(k - 1),
        k == 0 ==> last_dot(name) is None,
    decreases name.len(),
{
    if name.len() > 0 && name.len() > k {
        assert forall|j: int| k <= j < name.drop_last().len() implies name.drop_last()[j] != 46 by {
            assert(name.drop_last()[j] == name[j]);
        }
        lemma_last_dot(name.drop_last(), k);
    }
}

/// The content type of a file, guessed from the extension of its name (its bytes).
pub fn content_type_for(name: &Vec<u8>) -> (r: String)
    ensures
        r@ == content_type(name@),
{
    let mut k: usize = name.len();
    while k > 0 && name[k - 1] != 46
        invariant
            k <= name.len(),
            forall|j: int| k <= j < name.len() ==> name@[j] != 46,
        decreases k,
    {
        k = k - 1;
    }
    proof {
        lemma_last_dot(name@, k as int);
    }
    if k > 1 {
        let mut ext: Vec<u8> = Vec::new();
        let mut i = k;
        while i < name.len()
            invariant
                k <= i <= name.len(),
                ext@ == name@.subrange(k as int, i as int),
            decreases name.len() - i,
        {
            ext.push(name[i]);
            proof {
                assert(ext@ =~= name@.subrange(k as int, i + 1));
            }
            i = i + 1;
        }
        proof {
            assert(ext@ =~= name@.skip(k as int));
        }
        match utf8_text(&ext) {
            Some(t) => mime_from_ext(t.as_str()),
            None => String::from_str("application/octet-stream"),
        }
    } else {
        String::from_str("application/octet-stream")
    }
}

} // verus!
