//! Character-level helpers shared by the formatting, parsing and rendering modules.
use vstd::prelude::*;

verus! {

/// `String::push` from std, which appends one character; its documentation says exactly
/// that, and the contract states it.
pub assume_specification[ String::push ](s: &mut String, ch: char)
    ensures
        final(s)@ == old(s)@.push(ch),
;

/// The characters of `s`, in order.
pub fn chars_of(s: &str) -> (v: Vec<char>)
    ensures
        v@ == s@,
{
    let mut v: Vec<char> = Vec::new();
    for c in it: s.chars()
        invariant
            v@ == it.seq().take(it.index() as int),
            it.seq() == s@,
    {
        v.push(c);
    }
    v
}

/// A string holding the characters of `cs[from..to]`.
pub fn string_of_range(cs: &Vec<char>, from: usize, to: usize) -> (s: String)
    requires
        from <= to <= cs.len(),
    ensures
        s@ == cs@.subrange(from as int, to as int),
{
    let mut s = String::new();
    let mut i = from;
    while i < to
        invariant
            from <= i <= to <= cs.len(),
            s@ == cs@.subrange(from as int, i as int),
        decreases to - i,
    {
        s.push(cs[i]);
        proof {
            assert(cs@.subrange(from as int, i + 1) =~= cs@.subrange(from as int, i as int).push(cs@[i as int]));
        }
        i = i + 1;
    }
    s
}

/// A string holding the characters of `cs`.
pub fn string_of(cs: &Vec<char>) -> (s: String)
    ensures
        s@ == cs@,
{
    let s = string_of_range(cs, 0, cs.len());
    proof {
        assert(cs@.subrange(0, cs@.len() as int) =~= cs@);
    }
    s
}

// ----------------------------------------------------------------------------
// Decimal numbers
// ----------------------------------------------------------------------------

/// The ASCII digit for `d`, for `d < 10`.
pub open spec fn digit_char(d: nat) -> char {
    if d == 0 { '0' }
    else if d == 1 { '1' }
    else if d == 2 { '2' }
    else if d == 3 { '3' }
    else if d == 4 { '4' }
    else if d == 5 { '5' }
    else if d == 6 { '6' }
    else if d == 7 { '7' }
    else if d == 8 { '8' }
    else { '9' }
}

/// The decimal digits of `n`, without leading zeros (`0` for zero).
pub open spec fn dec(n: nat) -> Seq<char>
    decreases n,
{
    if n < 10 {
        seq![digit_char(n)]
    } else {
        dec(n / 10).push(digit_char(n % 10))
    }
}

/// `n` written in decimal with at least `width` digits, padded with leading zeros.
pub open spec fn dec_padded(n: nat, width: nat) -> Seq<char> {
    let d = dec(n);
    if d.len() >= width {
        d
    } else {
        Seq::new((width - d.len()) as nat, |i: int| '0') + d
    }
}

fn digit(d: u64) -> (c: char)
    requires
        d < 10,
    ensures
        c == digit_char(d as nat),
{
    match d {
        0 => '0',
        1 => '1',
        2 => '2',
        3 => '3',
        4 => '4',
        5 => '5',
        6 => '6',
        7 => '7',
        8 => '8',
        _ => '9',
    }
}

/// Appends the decimal digits of `n` to `out`.
pub fn push_dec(out: &mut String, n: u64)
    ensures
        final(out)@ == old(out)@ + dec(n as nat),
    decreases n,
{
    if n >= 10 {
        push_dec(out, n / 10);
    }
    out.push(digit(n % 10));
}

/// `n` in decimal.
pub fn dec_string(n: u64) -> (s: String)
    ensures
        s@ == dec(n as nat),
{
    let mut s = String::new();
    push_dec(&mut s, n);
    s
}

/// Decimal numbers have at least one digit; one below ten, two below a hundred.
pub proof fn lemma_dec_len(n: nat)
    ensures
        dec(n).len() >= 1,
        n < 10 ==> dec(n).len() == 1,
        10 <= n < 100 ==> dec(n).len() == 2,
    decreases n,
{
    if n >= 10 {
        lemma_dec_len(n / 10);
    }
}

/// Appends `n` to `out` with at least `width` digits, zero-padded on the left.
pub fn push_dec_padded(out: &mut String, n: u64, width: usize)
    ensures
        final(out)@ == old(out)@ + dec_padded(n as nat, width as nat),
{
    let digits = dec_string(n);
    let cs = chars_of(digits.as_str());
    proof { lemma_dec_len(n as nat); }
    let ghost start = out@;
    if cs.len() < width {
        let pad = width - cs.len();
        let mut i: usize = 0;
        while i < pad
            invariant
                i <= pad,
                out@ == start + Seq::new(i as nat, |k: int| '0'),
            decreases pad - i,
        {
            out.push('0');
            proof {
                assert(Seq::new((i + 1) as nat, |k: int| '0') =~= Seq::new(i as nat, |k: int| '0').push('0'));
            }
            i = i + 1;
        }
    }
    out.append(digits.as_str());
    proof {
        assert(final(out)@ =~= old(out)@ + dec_padded(n as nat, width as nat));
    }
}

/// Whether `c` is an ASCII decimal digit.
pub open spec fn is_digit(c: char) -> bool {
    '0' <= c <= '9'
}

/// The value of an ASCII decimal digit.
pub open spec fn digit_value(c: char) -> nat {
    (c as int - '0' as int) as nat
}

/// The value of a non-empty run of ASCII digits.
pub open spec fn digits_value(s: Seq<char>) -> nat
    decreases s.len(),
{
    if s.len() == 0 {
        0
    } else {
        digits_value(s.drop_last()) * 10 + digit_value(s.last())
    }
}

/// Every character of `s` is an ASCII digit.
pub open spec fn all_digits(s: Seq<char>) -> bool {
    forall|i: int| 0 <= i < s.len() ==> is_digit(#[trigger] s[i])
}

/// What `str::parse` gives for an unsigned integer type whose largest value is `max`:
/// an optional `+`, then one or more ASCII digits, of value at most `max`.
pub open spec fn parse_unsigned(s: Seq<char>, max: nat) -> Option<nat> {
    let body = if s.len() > 0 && s[0] == '+' { s.drop_first() } else { s };
    if body.len() > 0 && all_digits(body) && digits_value(body) <= max {
        Some(digits_value(body))
    } else {
        None
    }
}

proof fn lemma_digits_value_push(s: Seq<char>, c: char)
    ensures
        digits_value(s.push(c)) == digits_value(s) * 10 + digit_value(c),
{
    assert(s.push(c).drop_last() =~= s);
}

proof fn lemma_digits_value_monotone(s: Seq<char>, k: int)
    requires
        0 <= k <= s.len(),
        all_digits(s),
    ensures
        digits_value(s.take(k)) <= digits_value(s),
    decreases s.len() - k,
{
    if k < s.len() {
        lemma_digits_value_monotone(s, k + 1);
        assert(s.take(k + 1) =~= s.take(k).push(s[k]));
        lemma_digits_value_push(s.take(k), s[k]);
    } else {
        assert(s.take(k) =~= s);
    }
}

proof fn lemma_digit_char_value(d: nat)
    requires
        d < 10,
    ensures
        is_digit(digit_char(d)),
        digit_value(digit_char(d)) == d,
{
    if d == 0 {} else if d == 1 {} else if d == 2 {} else if d == 3 {} else if d == 4 {}
    else if d == 5 {} else if d == 6 {} else if d == 7 {} else if d == 8 {} else {}
}

/// The decimal digits of `n` are digits, and read back as `n`.
pub proof fn lemma_dec_digits(n: nat)
    ensures
        all_digits(dec(n)),
        digits_value(dec(n)) == n,
        dec(n).len() >= 1,
    decreases n,
{
    if n >= 10 {
        lemma_dec_digits(n / 10);
        lemma_digits_value_push(dec(n / 10), digit_char(n % 10));
        lemma_digit_char_value(n % 10);
        assert(dec(n) == dec(n / 10).push(digit_char(n % 10)));
        assert(digits_value(dec(n)) == digits_value(dec(n / 10)) * 10 + digit_value(digit_char(n % 10)));
        assert(n == (n / 10) * 10 + n % 10);
        assert forall|i: int| 0 <= i < dec(n).len() implies is_digit(#[trigger] dec(n)[i]) by {
            if i < dec(n / 10).len() {
                assert(dec(n)[i] == dec(n / 10)[i]);
            }
        }
    } else {
        lemma_digit_char_value(n);
        assert(dec(n) =~= seq![digit_char(n)]);
        assert(dec(n).drop_last() =~= Seq::<char>::empty());
        assert(digits_value(Seq::<char>::empty()) == 0);
        assert(digits_value(dec(n)) == digits_value(dec(n).drop_last()) * 10 + digit_value(dec(n).last()));
    }
}

/// Parses `cs` as `str::parse` does for an unsigned integer type whose largest value is `max`.
pub fn parse_unsigned_chars(cs: &Vec<char>, max: u64) -> (res: Option<u64>)
    ensures
        match res {
            Some(v) => parse_unsigned(cs@, max as nat) == Some(v as nat),
            None => parse_unsigned(cs@, max as nat) is None,
        },
{
    let start: usize = if cs.len() > 0 && cs[0] == '+' { 1 } else { 0 };
    let ghost body = if cs@.len() > 0 && cs@[0] == '+' { cs@.drop_first() } else { cs@ };
    proof {
        assert(body =~= cs@.subrange(start as int, cs@.len() as int));
        assert(parse_unsigned(cs@, max as nat) == (if body.len() > 0 && all_digits(body) && digits_value(body) <= max as nat {
            Some(digits_value(body))
        } else {
            None
        }));
    }
    if start >= cs.len() {
        return None;
    }
    let mut value: u64 = 0;
    let mut i = start;
    while i < cs.len()
        invariant
            start <= i <= cs.len(),
            body =~= cs@.subrange(start as int, cs@.len() as int),
            parse_unsigned(cs@, max as nat) == (if body.len() > 0 && all_digits(body) && digits_value(body) <= max as nat {
                Some(digits_value(body))
            } else {
                None
            }),
            all_digits(body.take(i - start)),
            value as nat == digits_value(body.take(i - start)),
            value <= max,
        decreases cs.len() - i,
    {
        let c = cs[i];
        if !('0' <= c && c <= '9') {
            proof {
                assert(body[i - start] == c);
                assert(!all_digits(body));
                assert(parse_unsigned(cs@, max as nat) is None);
            }
            return None;
        }
        let d = (c as u64) - 48;
        proof {
            assert(body.take(i - start + 1) =~= body.take(i - start).push(c));
            lemma_digits_value_push(body.take(i - start), c);
        }
        if d > max || value > (max - d) / 10 {
            proof {
                assert(value * 10 + d > max) by (nonlinear_arith)
                    requires d > max || value > (max - d) / 10, d <= max || d > max;
                assert(all_digits(body.take(i - start + 1)));
                if all_digits(body) {
                    lemma_digits_value_monotone(body, i - start + 1);
                }
                assert(parse_unsigned(cs@, max as nat) is None);
            }
            return None;
        }
        proof {
            assert(value * 10 + d <= max) by (nonlinear_arith)
                requires value <= (max - d) / 10, d <= max;
        }
        value = value * 10 + d;
        i = i + 1;
    }
    proof {
        assert(body.take(body.len() as int) =~= body);
    }
    Some(value)
}

// ----------------------------------------------------------------------------
// Whitespace
// ----------------------------------------------------------------------------

/// `char::is_whitespace`: the Unicode `White_Space` property.
pub open spec fn is_whitespace(c: char) -> bool {
    ||| ('\u{9}' <= c <= '\u{d}')
    ||| c == ' '
    ||| c == '\u{85}'
    ||| c == '\u{a0}'
    ||| c == '\u{1680}'
    ||| ('\u{2000}' <= c <= '\u{200a}')
    ||| c == '\u{2028}'
    ||| c == '\u{2029}'
    ||| c == '\u{202f}'
    ||| c == '\u{205f}'
    ||| c == '\u{3000}'
}

fn whitespace(c: char) -> (b: bool)
    ensures
        b == is_whitespace(c),
{
    ('\u{9}' <= c && c <= '\u{d}') || c == ' ' || c == '\u{85}' || c == '\u{a0}' || c == '\u{1680}'
        || ('\u{2000}' <= c && c <= '\u{200a}') || c == '\u{2028}' || c == '\u{2029}'
        || c == '\u{202f}' || c == '\u{205f}' || c == '\u{3000}'
}

/// Number of leading whitespace characters of `s`.
pub open spec fn leading_ws(s: Seq<char>) -> nat
    decreases s.len(),
{
    if s.len() > 0 && is_whitespace(s[0]) {
        1 + leading_ws(s.drop_first())
    } else {
        0
    }
}

/// Number of trailing whitespace characters of `s`.
pub open spec fn trailing_ws(s: Seq<char>) -> nat
    decreases s.len(),
{
    if s.len() > 0 && is_whitespace(s.last()) {
        1 + trailing_ws(s.drop_last())
    } else {
        0
    }
}

/// `str::trim`: `s` without its leading and trailing whitespace.
pub open spec fn trim(s: Seq<char>) -> Seq<char> {
    let front = s.skip(leading_ws(s) as int);
    front.take(front.len() - trailing_ws(front))
}

proof fn lemma_leading_ws(s: Seq<char>, k: int)
    requires
        0 <= k <= s.len(),
        forall|j: int| 0 <= j < k ==> is_whitespace(#[trigger] s[j]),
    ensures
        k == s.len() || !is_whitespace(s[k]) ==> leading_ws(s) == k,
        leading_ws(s) <= s.len(),
    decreases k,
{
    if k > 0 {
        lemma_leading_ws(s.drop_first(), k - 1);
    } else {
        lemma_leading_ws_bound(s);
    }
}

proof fn lemma_leading_ws_bound(s: Seq<char>)
    ensures
        leading_ws(s) <= s.len(),
    decreases s.len(),
{
    if s.len() > 0 {
        lemma_leading_ws_bound(s.drop_first());
    }
}

proof fn lemma_trailing_ws(s: Seq<char>, k: int)
    requires
        0 <= k <= s.len(),
        forall|j: int| s.len() - k <= j < s.len() ==> is_whitespace(#[trigger] s[j]),
    ensures
        k == s.len() || !is_whitespace(s[s.len() - k - 1]) ==> trailing_ws(s) == k,
        trailing_ws(s) <= s.len(),
    decreases k,
{
    if k > 0 {
        assert forall|j: int| s.drop_last().len() - (k - 1) <= j < s.drop_last().len() implies is_whitespace(#[trigger] s.drop_last()[j]) by {
            assert(s.drop_last()[j] == s[j]);
        }
        lemma_trailing_ws(s.drop_last(), k - 1);
    } else {
        lemma_trailing_ws_bound(s);
    }
}

proof fn lemma_trailing_ws_bound(s: Seq<char>)
    ensures
        trailing_ws(s) <= s.len(),
    decreases s.len(),
{
    if s.len() > 0 {
        lemma_trailing_ws_bound(s.drop_last());
    }
}

/// The bounds `(start, end)` of `trim(cs)` within `cs`.
pub fn trim_bounds(cs: &Vec<char>) -> (r: (usize, usize))
    ensures
        r.0 <= r.1 <= cs.len(),
        cs@.subrange(r.0 as int, r.1 as int) == trim(cs@),
{
    let mut start: usize = 0;
    while start < cs.len() && whitespace(cs[start])
        invariant
            start <= cs.len(),
            forall|j: int| 0 <= j < start ==> is_whitespace(#[trigger] cs@[j]),
        decreases cs.len() - start,
    {
        start = start + 1;
    }
    proof {
        lemma_leading_ws(cs@, start as int);
    }
    let ghost front = cs@.skip(start as int);
    let mut end: usize = cs.len();
    while end > start && whitespace(cs[end - 1])
        invariant
            start <= end <= cs.len(),
            front == cs@.skip(start as int),
            forall|j: int| end - start <= j < front.len() ==> is_whitespace(#[trigger] front[j]),
        decreases end,
    {
        proof {
            assert(front[end - 1 - start] == cs@[end - 1]);
        }
        end = end - 1;
    }
    proof {
        let k = front.len() - (end - start);
        assert forall|j: int| front.len() - k <= j < front.len() implies is_whitespace(#[trigger] front[j]) by {}
        if end > start {
            assert(front[front.len() - k - 1] == cs@[end - 1]);
        }
        lemma_trailing_ws(front, k);
        assert(cs@.subrange(start as int, end as int) =~= front.take(front.len() - trailing_ws(front)));
    }
    (start, end)
}

/// The end of `cs` without its trailing whitespace.
pub fn trim_end_bound(cs: &Vec<char>) -> (end: usize)
    ensures
        end <= cs.len(),
        cs@.take(end as int) == cs@.take(cs@.len() - trailing_ws(cs@)),
{
    let mut end: usize = cs.len();
    while end > 0 && whitespace(cs[end - 1])
        invariant
            end <= cs.len(),
            forall|j: int| end <= j < cs.len() ==> is_whitespace(#[trigger] cs@[j]),
        decreases end,
    {
        end = end - 1;
    }
    proof {
        let k = cs.len() - end;
        lemma_trailing_ws(cs@, k as int);
    }
    end
}

// ----------------------------------------------------------------------------
// Comparison
// ----------------------------------------------------------------------------

/// Lexicographic order on character sequences: the order of `str`'s `<`, since UTF-8
/// preserves the order of code points.
pub open spec fn chars_lt(a: Seq<char>, b: Seq<char>) -> bool
    decreases a.len(),
{
    if a.len() == 0 {
        b.len() > 0
    } else if b.len() == 0 {
        false
    } else if a[0] != b[0] {
        a[0] < b[0]
    } else {
        chars_lt(a.drop_first(), b.drop_first())
    }
}

/// `a < b` in lexicographic order.
pub fn chars_less(a: &Vec<char>, b: &Vec<char>) -> (r: bool)
    ensures
        r == chars_lt(a@, b@),
{
    let mut i: usize = 0;
    proof {
        assert(a@.skip(0) =~= a@);
        assert(b@.skip(0) =~= b@);
    }
    while i < a.len() && i < b.len() && a[i] == b[i]
        invariant
            i <= a.len(),
            i <= b.len(),
            forall|j: int| 0 <= j < i ==> a@[j] == b@[j],
            chars_lt(a@, b@) == chars_lt(a@.skip(i as int), b@.skip(i as int)),
        decreases a.len() - i,
    {
        proof {
            assert(a@.skip(i as int).drop_first() =~= a@.skip(i + 1));
            assert(b@.skip(i as int).drop_first() =~= b@.skip(i + 1));
        }
        i = i + 1;
    }
    if i == a.len() {
        i < b.len()
    } else if i == b.len() {
        false
    } else {
        a[i] < b[i]
    }
}

/// No text comes before itself.
pub proof fn lemma_chars_lt_irreflexive(a: Seq<char>)
    ensures
        !chars_lt(a, a),
    decreases a.len(),
{
    if a.len() > 0 {
        lemma_chars_lt_irreflexive(a.drop_first());
    }
}

/// Of two different texts, exactly one comes first.
pub proof fn lemma_chars_lt_total(a: Seq<char>, b: Seq<char>)
    ensures
        a != b ==> chars_lt(a, b) || chars_lt(b, a),
        !(chars_lt(a, b) && chars_lt(b, a)),
    decreases a.len(),
{
    if a.len() > 0 && b.len() > 0 && a[0] == b[0] {
        lemma_chars_lt_total(a.drop_first(), b.drop_first());
        if a.drop_first() == b.drop_first() {
            assert(a =~= seq![a[0]] + a.drop_first());
            assert(b =~= seq![b[0]] + b.drop_first());
        }
    } else if a.len() == 0 && b.len() == 0 {
        assert(a =~= b);
    }
}

/// The order of texts is transitive.
pub proof fn lemma_chars_lt_transitive(a: Seq<char>, b: Seq<char>, c: Seq<char>)
    requires
        chars_lt(a, b),
        chars_lt(b, c),
    ensures
        chars_lt(a, c),
    decreases a.len(),
{
    if a.len() > 0 && b.len() > 0 && c.len() > 0 && a[0] == b[0] && b[0] == c[0] {
        lemma_chars_lt_transitive(a.drop_first(), b.drop_first(), c.drop_first());
    }
}

// ----------------------------------------------------------------------------
// Affixes
// ----------------------------------------------------------------------------

/// Whether `cs` begins with `prefix`.
pub fn has_prefix(cs: &Vec<char>, prefix: &str) -> (r: bool)
    ensures
        r == (prefix@.len() <= cs@.len() && cs@.take(prefix@.len() as int) == prefix@),
{
    let p = chars_of(prefix);
    if p.len() > cs.len() {
        return false;
    }
    let mut i: usize = 0;
    while i < p.len()
        invariant
            i <= p.len() <= cs.len(),
            p@ == prefix@,
            forall|j: int| 0 <= j < i ==> cs@[j] == p@[j],
        decreases p.len() - i,
    {
        if cs[i] != p[i] {
            proof {
                assert(cs@.take(p@.len() as int)[i as int] != p@[i as int]);
                if cs@.take(prefix@.len() as int) == prefix@ {
                    assert(cs@.take(prefix@.len() as int)[i as int] == prefix@[i as int]);
                }
            }
            return false;
        }
        i = i + 1;
    }
    proof {
        assert(cs@.take(p@.len() as int) =~= p@);
    }
    true
}

/// Whether `cs` ends with `suffix`.
pub fn has_suffix(cs: &Vec<char>, suffix: &str) -> (r: bool)
    ensures
        r == (suffix@.len() <= cs@.len() && cs@.skip(cs@.len() - suffix@.len()) == suffix@),
{
    let p = chars_of(suffix);
    if p.len() > cs.len() {
        return false;
    }
    let off = cs.len() - p.len();
    let mut i: usize = 0;
    while i < p.len()
        invariant
            i <= p.len() <= cs.len(),
            off == cs.len() - p.len(),
            p@ == suffix@,
            forall|j: int| 0 <= j < i ==> cs@[off + j] == p@[j],
        decreases p.len() - i,
    {
        if cs[off + i] != p[i] {
            proof {
                assert(cs@.skip(off as int)[i as int] != p@[i as int]);
                if cs@.skip(cs@.len() - suffix@.len()) == suffix@ {
                    assert(cs@.skip(cs@.len() - suffix@.len())[i as int] == suffix@[i as int]);
                }
            }
            return false;
        }
        i = i + 1;
    }
    proof {
        assert(cs@.skip(off as int) =~= p@);
    }
    true
}

// ----------------------------------------------------------------------------
// Path segments
// ----------------------------------------------------------------------------

/// The pieces of `s` between slashes, as `str::split('/')` gives them (always at least one).
pub open spec fn split_slash(s: Seq<char>) -> Seq<Seq<char>>
    decreases s.len(),
{
    if s.len() == 0 {
        seq![Seq::<char>::empty()]
    } else {
        let p = split_slash(s.drop_last());
        if s.last() == '/' {
            p.push(Seq::<char>::empty())
        } else {
            p.update(p.len() - 1, p.last().push(s.last()))
        }
    }
}

/// Whether a piece is kept: it is not empty, and it is not `.` when `drop_dots` holds.
pub open spec fn kept_piece(p: Seq<char>, drop_dots: bool) -> bool {
    p.len() > 0 && !(drop_dots && p == seq!['.'])
}

/// The kept pieces, in order.
pub open spec fn kept_pieces(ps: Seq<Seq<char>>, drop_dots: bool) -> Seq<Seq<char>>
    decreases ps.len(),
{
    if ps.len() == 0 {
        seq![]
    } else {
        let r = kept_pieces(ps.drop_last(), drop_dots);
        if kept_piece(ps.last(), drop_dots) { r.push(ps.last()) } else { r }
    }
}

/// The non-empty pieces of `s` between slashes (and without `.` pieces when `drop_dots`).
pub open spec fn path_segments(s: Seq<char>, drop_dots: bool) -> Seq<Seq<char>> {
    kept_pieces(split_slash(s), drop_dots)
}

/// Strings as character sequences.
pub open spec fn strings_view(v: Seq<String>) -> Seq<Seq<char>> {
    Seq::new(v.len(), |i: int| v[i]@)
}

proof fn lemma_split_slash_nonempty(s: Seq<char>)
    ensures
        split_slash(s).len() >= 1,
    decreases s.len(),
{
    if s.len() > 0 {
        lemma_split_slash_nonempty(s.drop_last());
    }
}

/// The non-empty pieces of `cs` between slashes, leaving out `.` pieces when `drop_dots`.
pub fn split_path(cs: &Vec<char>, drop_dots: bool) -> (r: Vec<String>)
    ensures
        strings_view(r@) == path_segments(cs@, drop_dots),
{
    let mut out: Vec<String> = Vec::new();
    let mut cur: Vec<char> = Vec::new();
    let mut k: usize = 0;
    proof {
        assert(cs@.take(0) =~= Seq::<char>::empty());
        assert(split_slash(cs@.take(0)).drop_last() =~= Seq::<Seq<char>>::empty());
        assert(strings_view(out@) =~= Seq::<Seq<char>>::empty());
    }
    while k < cs.len()
        invariant
            k <= cs.len(),
            split_slash(cs@.take(k as int)).len() >= 1,
            strings_view(out@) == kept_pieces(split_slash(cs@.take(k as int)).drop_last(), drop_dots),
            cur@ == split_slash(cs@.take(k as int)).last(),
        decreases cs.len() - k,
    {
        let c = cs[k];
        let ghost sp = split_slash(cs@.take(k as int));
        proof {
            assert(cs@.take(k + 1).drop_last() =~= cs@.take(k as int));
            assert(cs@.take(k + 1).last() == c);
            lemma_split_slash_nonempty(cs@.take(k + 1));
        }
        if c == '/' {
            let keep = cur.len() > 0 && !(drop_dots && cur.len() == 1 && cur[0] == '.');
            proof {
                assert(split_slash(cs@.take(k + 1)) == sp.push(Seq::<char>::empty()));
                assert(sp.push(Seq::<char>::empty()).drop_last() =~= sp);
                assert(sp =~= sp.drop_last().push(sp.last()));
                if cur@ == seq!['.'] {
                    assert(cur.len() == 1 && cur@[0] == '.');
                }
                if cur.len() == 1 && cur@[0] == '.' {
                    assert(cur@ =~= seq!['.']);
                }
                assert(keep == kept_piece(sp.last(), drop_dots));
            }
            if keep {
                let piece = string_of(&cur);
                let ghost before = out@;
                out.push(piece);
                proof {
                    assert(strings_view(out@) =~= strings_view(before).push(cur@));
                }
            }
            cur = Vec::new();
            proof {
                assert(cur@ =~= Seq::<char>::empty());
            }
        } else {
            cur.push(c);
            proof {
                let sp2 = sp.update(sp.len() - 1, sp.last().push(c));
                assert(split_slash(cs@.take(k + 1)) == sp2);
                assert(sp2.drop_last() =~= sp.drop_last());
            }
        }
        k = k + 1;
    }
    let ghost sp = split_slash(cs@.take(k as int));
    proof {
        assert(cs@.take(k as int) =~= cs@);
        assert(sp =~= sp.drop_last().push(sp.last()));
        if cur.len() == 1 && cur@[0] == '.' {
            assert(cur@ =~= seq!['.']);
        }
    }
    if cur.len() > 0 && !(drop_dots && cur.len() == 1 && cur[0] == '.') {
        let piece = string_of(&cur);
        let ghost before = out@;
        out.push(piece);
        proof {
            assert(strings_view(out@) =~= strings_view(before).push(cur@));
        }
    }
    out
}

} // verus!
