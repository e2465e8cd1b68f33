//! HTML escaping and URL percent-encoding, through the `html_escape` and `urlencoding` crates.
use vstd::prelude::*;
use vstd::utf8::*;
use vstd::string::*;

verus! {

// ----------------------------------------------------------------------------
// HTML escaping
// ----------------------------------------------------------------------------

/// The replacement of one character in HTML text: `&`, `<` and `>` become entities.
pub open spec fn text_entity(c: char) -> Seq<char> {
    if c == '&' {
        "&amp;"@
    } else if c == '<' {
        "&lt;"@
    } else if c == '>' {
        "&gt;"@
    } else {
        seq![c]
    }
}

/// The replacement of one character in a double-quoted attribute: as in text, and `"` too.
pub open spec fn attr_entity(c: char) -> Seq<char> {
    if c == '"' {
        "&quot;"@
    } else {
        text_entity(c)
    }
}

/// `s` escaped for HTML text.
pub open spec fn escaped_text(s: Seq<char>) -> Seq<char>
    decreases s.len(),
{
    if s.len() == 0 {
        seq![]
    } else {
        escaped_text(s.drop_last()) + text_entity(s.last())
    }
}

/// `s` escaped for a double-quoted HTML attribute.
pub open spec fn escaped_attr(s: Seq<char>) -> Seq<char>
    decreases s.len(),
{
    if s.len() == 0 {
        seq![]
    } else {
        escaped_attr(s.drop_last()) + attr_entity(s.last())
    }
}

/// Calls `html_escape::encode_text`, which replaces `&`, `<` and `>` by `&amp;`, `&lt;` and
/// `&gt;` and keeps every other character; the contract states exactly that.
#[verifier::external_body]
fn encode_text(s: &str) -> (r: String)
    ensures
        r@ == escaped_text(s@),
{
    html_escape::encode_text(s).into_owned()
}

/// Calls `html_escape::encode_double_quoted_attribute`, which replaces `&`, `<`, `>` and `"`
/// by `&amp;`, `&lt;`, `&gt;` and `&quot;` and keeps every other character; the contract
/// states exactly that.
#[verifier::external_body]
fn encode_double_quoted_attribute(s: &str) -> (r: String)
    ensures
        r@ == escaped_attr(s@),
{
    html_escape::encode_double_quoted_attribute(s).into_owned()
}

/// Escapes `s` for use as HTML text.
pub fn escape_html(s: &str) -> (r: String)
    ensures
        r@ == escaped_text(s@),
{
    encode_text(s)
}

/// Escapes `s` for use inside a double-quoted HTML attribute.
pub fn escape_attr(s: &str) -> (r: String)
    ensures
        r@ == escaped_attr(s@),
{
    encode_double_quoted_attribute(s)
}

/// Escaped HTML text holds no `<` or `>`, so it can never open or close a tag.
pub proof fn escaped_text_has_no_angle_brackets(s: Seq<char>)
    ensures
        !escaped_text(s).contains('<'),
        !escaped_text(s).contains('>'),
    decreases s.len(),
{
    if s.len() > 0 {
        escaped_text_has_no_angle_brackets(s.drop_last());
        let e = text_entity(s.last());
        reveal_strlit("&amp;");
        reveal_strlit("&lt;");
        reveal_strlit("&gt;");
        assert(!e.contains('<') && !e.contains('>'));
        lemma_not_contains_concat(escaped_text(s.drop_last()), e, '<');
        lemma_not_contains_concat(escaped_text(s.drop_last()), e, '>');
    }
}

/// An escaped attribute value holds no `"`, so it can never end the attribute early.
pub proof fn escaped_attr_has_no_quote(s: Seq<char>)
    ensures
        !escaped_attr(s).contains('"'),
    decreases s.len(),
{
    if s.len() > 0 {
        escaped_attr_has_no_quote(s.drop_last());
        let e = attr_entity(s.last());
        reveal_strlit("&amp;");
        reveal_strlit("&lt;");
        reveal_strlit("&gt;");
        reveal_strlit("&quot;");
        assert(!e.contains('"'));
        lemma_not_contains_concat(escaped_attr(s.drop_last()), e, '"');
    }
}

proof fn lemma_not_contains_concat(a: Seq<char>, b: Seq<char>, c: char)
    requires
        !a.contains(c),
        !b.contains(c),
    ensures
        !(a + b).contains(c),
{
    if (a + b).contains(c) {
        let k = choose|k: int| 0 <= k < (a + b).len() && (a + b)[k] == c;
        if k < a.len() {
            assert(a[k] == c);
        } else {
            assert(b[k - a.len()] == c);
        }
    }
}

// ----------------------------------------------------------------------------
// Percent-encoding
// ----------------------------------------------------------------------------

/// Bytes that `urlencoding::encode` keeps as they are: ASCII letters, digits, `-`, `.`, `_`, `~`.
pub open spec fn is_unreserved(b: u8) -> bool {
    ||| (48 <= b <= 57)
    ||| (65 <= b <= 90)
    ||| (97 <= b <= 122)
    ||| b == 45 || b == 46 || b == 95 || b == 126
}

/// The upper-case hexadecimal digit for `d < 16`.
pub open spec fn hex_upper(d: nat) -> char {
    if d < 10 {
        ((d + 48) as u32) as char
    } else {
        ((d + 55) as u32) as char
    }
}

/// The percent-encoding of a byte string: unreserved bytes stay, every other byte `b`
/// becomes `%` and two upper-case hex digits.
pub open spec fn percent_encoded(b: Seq<u8>) -> Seq<char>
    decreases b.len(),
{
    if b.len() == 0 {
        seq![]
    } else {
        let x = b[0];
        let head = if is_unreserved(x) {
            seq![(x as u32) as char]
        } else {
            seq!['%', hex_upper((x / 16) as nat), hex_upper((x % 16) as nat)]
        };
        head + percent_encoded(b.skip(1))
    }
}

/// `s` percent-encoded, by the bytes of its UTF-8 encoding.
pub open spec fn url_encoded(s: Seq<char>) -> Seq<char> {
    percent_encoded(encode_utf8(s))
}

/// The value of an ASCII hexadecimal digit, either case.
pub open spec fn hex_value(b: u8) -> Option<u8> {
    if 48 <= b <= 57 {
        Some((b - 48) as u8)
    } else if 65 <= b <= 70 {
        Some((b - 55) as u8)
    } else if 97 <= b <= 102 {
        Some((b - 87) as u8)
    } else {
        None
    }
}

/// Percent-decoding of a byte string: `%` followed by two hex digits becomes that byte,
/// any other byte (a `%` among them) stays as it is.
pub open spec fn percent_decoded(b: Seq<u8>) -> Seq<u8>
    decreases b.len(),
{
    if b.len() == 0 {
        seq![]
    } else if b[0] == 37 && b.len() >= 3 && hex_value(b[1]) is Some && hex_value(b[2]) is Some {
        seq![(hex_value(b[1]).unwrap() * 16 + hex_value(b[2]).unwrap()) as u8] + percent_decoded(b.skip(3))
    } else {
        seq![b[0]] + percent_decoded(b.skip(1))
    }
}

/// What `urlencoding::decode` gives for `s`: its percent-decoded bytes read as UTF-8,
/// or nothing when they are not valid UTF-8.
pub open spec fn url_decoded(s: Seq<char>) -> Option<Seq<char>> {
    let bytes = percent_decoded(encode_utf8(s));
    if valid_utf8(bytes) {
        Some(decode_utf8(bytes))
    } else {
        None
    }
}

/// Calls `urlencoding::encode`, which percent-encodes every UTF-8 byte of `s` except ASCII
/// letters, digits, `-`, `.`, `_` and `~`, with upper-case hex digits; the contract states
/// exactly that.
#[verifier::external_body]
fn urlencoding_encode(s: &str) -> (r: String)
    ensures
        r@ == url_encoded(s@),
{
    urlencoding::encode(s).into_owned()
}

/// Calls `urlencoding::decode`, which percent-decodes the bytes of `s` (a `%` that is not
/// followed by two hex digits stays as it is) and reads the result as UTF-8, failing when it
/// is not valid UTF-8; the contract states exactly that.
#[verifier::external_body]
fn urlencoding_decode(s: &str) -> (r: Option<String>)
    ensures
        match r {
            Some(d) => url_decoded(s@) == Some(d@),
            None => url_decoded(s@) is None,
        },
{
    match urlencoding::decode(s) {
        Ok(d) => Some(d.into_owned()),
        Err(_) => None,
    }
}

/// Percent-encodes `s` for use as one segment of a URL path.
pub fn url_encode(s: &str) -> (r: String)
    ensures
        r@ == url_encoded(s@),
{
    urlencoding_encode(s)
}

/// Decodes a percent-encoded URL path; `None` when the decoded bytes are not UTF-8.
pub fn url_decode(s: &str) -> (r: Option<String>)
    ensures
        match r {
            Some(d) => url_decoded(s@) == Some(d@),
            None => url_decoded(s@) is None,
        },
{
    urlencoding_decode(s)
}


/// The byte values of ASCII characters.
pub open spec fn ascii_bytes(cs: Seq<char>) -> Seq<u8> {
    Seq::new(cs.len(), |i: int| cs[i] as u8)
}

proof fn lemma_percent_encoded_ascii(b: Seq<u8>)
    ensures
        is_ascii_chars(percent_encoded(b)),
    decreases b.len(),
{
    if b.len() > 0 {
        lemma_percent_encoded_ascii(b.skip(1));
        let x = b[0];
        let head = if is_unreserved(x) {
            seq![(x as u32) as char]
        } else {
            seq!['%', hex_upper((x / 16) as nat), hex_upper((x % 16) as nat)]
        };
        assert(is_ascii_chars(head));
        assert(percent_encoded(b) == head + percent_encoded(b.skip(1)));
        vstd::utf8::is_ascii_chars_concat(percent_encoded(b), head, percent_encoded(b.skip(1)));
    }
}

proof fn lemma_decode_encoded(b: Seq<u8>)
    ensures
        percent_decoded(ascii_bytes(percent_encoded(b))) == b,
    decreases b.len(),
{
    if b.len() > 0 {
        lemma_decode_encoded(b.skip(1));
        let x = b[0];
        let rest = percent_encoded(b.skip(1));
        let enc = percent_encoded(b);
        let bytes = ascii_bytes(enc);
        if is_unreserved(x) {
            let head = seq![(x as u32) as char];
            assert(enc == head + rest);
            assert(((x as u32) as char) as u8 == x);
            assert(bytes[0] == x);
            assert(bytes.skip(1) =~= ascii_bytes(rest));
            assert(bytes =~= seq![bytes[0]] + bytes.skip(1));
        } else {
            let hi = (x / 16) as nat;
            let lo = (x % 16) as nat;
            let head = seq!['%', hex_upper(hi), hex_upper(lo)];
            assert(enc == head + rest);
            assert(bytes[0] == 37);
            assert(hex_value(bytes[1]) == Some(hi as u8));
            assert(hex_value(bytes[2]) == Some(lo as u8));
            assert(bytes.skip(3) =~= ascii_bytes(rest));
            assert(bytes =~= seq![bytes[0], bytes[1], bytes[2]] + bytes.skip(3));
            assert((hi * 16 + lo) as u8 == x);
        }
        assert(b =~= seq![x] + b.skip(1));
    }
}

/// Decoding undoes encoding: the percent-encoding of a name, decoded as a request path
/// is, gives the name back.
pub proof fn url_decode_inverts_url_encode(s: Seq<char>)
    ensures
        url_decoded(url_encoded(s)) == Some(s),
{
    let b = encode_utf8(s);
    let enc = percent_encoded(b);
    lemma_percent_encoded_ascii(b);
    vstd::utf8::is_ascii_chars_encode_utf8(enc);
    assert(encode_utf8(enc) =~= ascii_bytes(enc));
    lemma_decode_encoded(b);
    vstd::utf8::encode_utf8_valid_utf8(s);
    vstd::utf8::encode_utf8_decode_utf8(s);
}

proof fn lemma_encode_utf8_concat(a: Seq<char>, b: Seq<char>)
    ensures
        encode_utf8(a + b) == encode_utf8(a) + encode_utf8(b),
    decreases a.len(),
{
    if a.len() == 0 {
        assert(a + b =~= b);
        assert(encode_utf8(a) + encode_utf8(b) =~= encode_utf8(b));
    } else {
        assert((a + b)[0] == a[0]);
        assert((a + b).drop_first() =~= a.drop_first() + b);
        lemma_encode_utf8_concat(a.drop_first(), b);
        assert(encode_utf8(a + b) =~= encode_utf8(a) + encode_utf8(b));
    }
}

proof fn lemma_percent_decoded_push_slash(x: Seq<u8>)
    ensures
        percent_decoded(x.push(47)) == percent_decoded(x).push(47),
    decreases x.len(),
{
    let y = x.push(47);
    if x.len() == 0 {
        assert(y[0] == 47);
        assert(y.skip(1) =~= Seq::<u8>::empty());
        assert(percent_decoded(y.skip(1)) =~= Seq::<u8>::empty());
        assert(percent_decoded(y) =~= seq![47u8]);
        assert(percent_decoded(x) =~= Seq::<u8>::empty());
    } else if x[0] == 37 && x.len() >= 3 && hex_value(x[1]) is Some && hex_value(x[2]) is Some {
        assert(y[1] == x[1] && y[2] == x[2]);
        assert(y.skip(3) =~= x.skip(3).push(47));
        lemma_percent_decoded_push_slash(x.skip(3));
        assert(percent_decoded(y) =~= percent_decoded(x).push(47));
    } else {
        assert(y[0] == x[0]);
        if x.len() >= 3 {
            assert(y[1] == x[1] && y[2] == x[2]);
        } else if x.len() == 2 {
            assert(y[2] == 47);
            assert(hex_value(y[2]) is None);
        }
        assert(y.skip(1) =~= x.skip(1).push(47));
        lemma_percent_decoded_push_slash(x.skip(1));
        assert(percent_decoded(y) =~= percent_decoded(x).push(47));
    }
}

/// Appending `/` to a path that decodes appends `/` to what it decodes to.
pub proof fn url_decoded_push_slash(s: Seq<char>)
    requires
        url_decoded(s) is Some,
    ensures
        url_decoded(s + "/"@) == Some(url_decoded(s).unwrap() + "/"@),
{
    reveal_strlit("/");
    let b = encode_utf8(s);
    let p = percent_decoded(b);
    let d = decode_utf8(p);
    vstd::utf8::is_ascii_chars_encode_utf8("/"@);
    assert(encode_utf8("/"@) =~= seq![47u8]);
    lemma_encode_utf8_concat(s, "/"@);
    assert(encode_utf8(s + "/"@) =~= b.push(47));
    lemma_percent_decoded_push_slash(b);
    vstd::utf8::decode_utf8_encode_utf8(p);
    lemma_encode_utf8_concat(d, "/"@);
    assert(p.push(47) =~= encode_utf8(d + "/"@));
    vstd::utf8::encode_utf8_valid_utf8(d + "/"@);
    vstd::utf8::encode_utf8_decode_utf8(d + "/"@);
}

} // verus!
