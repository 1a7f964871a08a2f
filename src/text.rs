//! Text helpers: string equality, decimal numerals, path-segment encoding,
//! and the outside encoders (form encoding, JSON string literals, lower
//! case, header checks).

use vstd::prelude::*;
use vstd::string::StringSliceAdditionalSpecFns;
use vstd::utf8::encode_utf8;

verus! {

/// Whether two string slices hold the same characters.
pub fn str_eq(a: &str, b: &str) -> (r: bool)
    ensures
        r == (a@ == b@),
{
    let n = a.unicode_len();
    let m = b.unicode_len();
    if n != m {
        return false;
    }
    let mut i: usize = 0;
    while i < n
        invariant
            n == a@.len(),
            m == b@.len(),
            n == m,
            i <= n,
            forall|k: int| 0 <= k < i ==> a@[k] == b@[k],
        decreases n - i,
    {
        if a.get_char(i) != b.get_char(i) {
            return false;
        }
        i = i + 1;
    }
    assert(a@ =~= b@);
    true
}

/// The ASCII digit of a value below ten.
pub open spec fn digit_char(d: nat) -> char {
    if d == 0 { '0' }
    else if d == 1 { '1' }
    else if d == 2 { '2' }
    else if d == 3 { '3' }
    else if d == 4 { '4' }
    else if d == 5 { '5' }
    else if d == 6 { '6' }
    else if d == 7 { '7' }
    else if d == 8 { '8' }
    else { '9' }
}

/// The decimal numeral of a natural number, without leading zeros.
pub open spec fn decimal(n: nat) -> Seq<char>
    decreases n,
{
    if n < 10 {
        seq![digit_char(n)]
    } else {
        decimal(n / 10).push(digit_char(n % 10))
    }
}

/// The decimal numeral of an integer, with a leading `-` when negative.
pub open spec fn signed_decimal(i: int) -> Seq<char> {
    if i < 0 {
        seq!['-'] + decimal((-i) as nat)
    } else {
        decimal(i as nat)
    }
}

fn digit_str(d: u64) -> (r: &'static str)
    requires
        d < 10,
    ensures
        r@ == seq![digit_char(d as nat)],
{
    proof {
        reveal_strlit("0");
        reveal_strlit("1");
        reveal_strlit("2");
        reveal_strlit("3");
        reveal_strlit("4");
        reveal_strlit("5");
        reveal_strlit("6");
        reveal_strlit("7");
        reveal_strlit("8");
        reveal_strlit("9");
    }
    if d == 0 { "0" }
    else if d == 1 { "1" }
    else if d == 2 { "2" }
    else if d == 3 { "3" }
    else if d == 4 { "4" }
    else if d == 5 { "5" }
    else if d == 6 { "6" }
    else if d == 7 { "7" }
    else if d == 8 { "8" }
    else {
        assert(d == 9);
        "9"
    }
}

/// Appends the decimal numeral of `n` to `out`.
pub fn push_decimal(out: &mut String, n: u64)
    ensures
        final(out)@ == old(out)@ + decimal(n as nat),
    decreases n,
{
    if n >= 10 {
        push_decimal(out, n / 10);
    }
    out.append(digit_str(n % 10));
    proof {
        if n >= 10 {
            assert(decimal(n as nat) == decimal((n / 10) as nat).push(digit_char((n % 10) as nat)));
        }
    }
    assert(final(out)@ =~= old(out)@ + decimal(n as nat));
}

/// The decimal numeral of a signed 32-bit integer.
pub fn i32_to_decimal(i: i32) -> (r: String)
    ensures
        r@ == signed_decimal(i as int),
{
    let mut out = String::new();
    if i < 0 {
        out.append("-");
        proof { reveal_strlit("-"); }
        let m: i64 = -(i as i64);
        push_decimal(&mut out, m as u64);
        assert(out@ =~= signed_decimal(i as int));
    } else {
        push_decimal(&mut out, i as u64);
        assert(out@ =~= signed_decimal(i as int));
    }
    out
}

/// The decimal numeral of an unsigned 16-bit integer.
pub fn u16_to_decimal(n: u16) -> (r: String)
    ensures
        r@ == decimal(n as nat),
{
    let mut out = String::new();
    push_decimal(&mut out, n as u64);
    assert(out@ =~= decimal(n as nat));
    out
}

/// Whether form encoding keeps a byte as it is: ASCII letters, digits and
/// `*` (42), `-` (45), `.` (46), `_` (95).
pub open spec fn form_unchanged(b: u8) -> bool {
    (97 <= b <= 122) || (65 <= b <= 90) || (48 <= b <= 57) || b == 42 || b == 45 || b == 46
        || b == 95
}

/// The upper-case hexadecimal digit of a value below sixteen.
pub open spec fn hex_upper(d: nat) -> char {
    if d < 10 {
        digit_char(d)
    } else if d == 10 {
        'A'
    } else if d == 11 {
        'B'
    } else if d == 12 {
        'C'
    } else if d == 13 {
        'D'
    } else if d == 14 {
        'E'
    } else {
        'F'
    }
}

/// The form encoding of one byte.
pub open spec fn form_byte(b: u8) -> Seq<char> {
    if form_unchanged(b) {
        seq![b as char]
    } else if b == 32 {
        seq!['+']
    } else {
        seq!['%', hex_upper((b / 16) as nat), hex_upper((b % 16) as nat)]
    }
}

/// The `application/x-www-form-urlencoded` encoding of a byte string.
pub open spec fn form_encode(bytes: Seq<u8>) -> Seq<char>
    decreases bytes.len(),
{
    if bytes.len() == 0 {
        Seq::empty()
    } else {
        form_byte(bytes[0]) + form_encode(bytes.drop_first())
    }
}

/// The value of a hexadecimal digit (either case); zero for any other
/// character.
pub open spec fn hex_value(c: char) -> nat {
    if '0' <= c <= '9' {
        (c as nat - '0' as nat) as nat
    } else if 'A' <= c <= 'F' {
        (c as nat - 'A' as nat + 10) as nat
    } else if 'a' <= c <= 'f' {
        (c as nat - 'a' as nat + 10) as nat
    } else {
        0
    }
}

/// Form decoding: `%` and two hex digits give a byte, `+` a space, any
/// other character its own code.
pub open spec fn form_decode(text: Seq<char>) -> Seq<u8>
    decreases text.len(),
{
    if text.len() == 0 {
        Seq::empty()
    } else if text[0] == '%' && text.len() >= 3 {
        seq![(hex_value(text[1]) * 16 + hex_value(text[2])) as u8] + form_decode(text.skip(3))
    } else if text[0] == '+' {
        seq![32u8] + form_decode(text.skip(1))
    } else {
        seq![text[0] as u8] + form_decode(text.skip(1))
    }
}

proof fn lemma_hex_round_trip(d: nat)
    requires
        d < 16,
    ensures
        hex_value(hex_upper(d)) == d,
{
}

/// Decoding a form encoding gives back the bytes that were encoded.
pub proof fn lemma_form_decode_encode(bytes: Seq<u8>)
    ensures
        form_decode(form_encode(bytes)) == bytes,
    decreases bytes.len(),
{
    if bytes.len() > 0 {
        let b = bytes[0];
        let head = form_byte(b);
        let rest = form_encode(bytes.drop_first());
        let text = form_encode(bytes);
        assert(text == head + rest);
        lemma_form_decode_encode(bytes.drop_first());
        assert(text.skip(head.len() as int) =~= rest);
        if form_unchanged(b) {
            assert(text[0] == b as char);
            assert((b as char) as u8 == b);
        } else if b == 32 {
        } else {
            lemma_hex_round_trip((b / 16) as nat);
            lemma_hex_round_trip((b % 16) as nat);
            assert(text[1] == hex_upper((b / 16) as nat) && text[2] == hex_upper((b % 16) as nat));
            assert((b / 16) * 16 + b % 16 == b);
        }
        assert(form_decode(text) =~= bytes);
    }
}

/// Whether a path segment keeps a character as it is: the unreserved
/// characters of URIs, ASCII letters, digits and `-`, `.`, `_`, `~`.
pub open spec fn segment_unreserved(c: char) -> bool {
    ('a' <= c <= 'z') || ('A' <= c <= 'Z') || ('0' <= c <= '9') || c == '-' || c == '.' || c
        == '_' || c == '~'
}

/// Each byte written as `%` and two upper-case hex digits.
pub open spec fn percent_bytes(bytes: Seq<u8>) -> Seq<char>
    decreases bytes.len(),
{
    if bytes.len() == 0 {
        Seq::empty()
    } else {
        percent_bytes(bytes.drop_last()) + seq![
            '%',
            hex_upper((bytes.last() / 16) as nat),
            hex_upper((bytes.last() % 16) as nat),
        ]
    }
}

/// How a path segment writes one character: unreserved ones stay, any
/// other is percent-encoded byte by byte in UTF-8.
pub open spec fn segment_char(c: char) -> Seq<char> {
    if segment_unreserved(c) {
        seq![c]
    } else {
        percent_bytes(encode_utf8(seq![c]))
    }
}

/// The percent-encoding of a text as one URL path segment.
pub open spec fn segment_encode(s: Seq<char>) -> Seq<char>
    decreases s.len(),
{
    if s.len() == 0 {
        Seq::empty()
    } else {
        segment_encode(s.drop_last()) + segment_char(s.last())
    }
}

proof fn lemma_percent_bytes_safe(bytes: Seq<u8>)
    ensures
        forall|k: int|
            0 <= k < percent_bytes(bytes).len() ==> (segment_unreserved(
                #[trigger] percent_bytes(bytes)[k],
            ) || percent_bytes(bytes)[k] == '%'),
    decreases bytes.len(),
{
    if bytes.len() > 0 {
        lemma_percent_bytes_safe(bytes.drop_last());
        let b = bytes.last();
        assert(segment_unreserved(hex_upper((b / 16) as nat)));
        assert(segment_unreserved(hex_upper((b % 16) as nat)));
        let pre = percent_bytes(bytes.drop_last());
        let tail = seq!['%', hex_upper((b / 16) as nat), hex_upper((b % 16) as nat)];
        assert(percent_bytes(bytes) == pre + tail);
        assert forall|k: int| 0 <= k < percent_bytes(bytes).len() implies (segment_unreserved(
            #[trigger] percent_bytes(bytes)[k],
        ) || percent_bytes(bytes)[k] == '%') by {
            if k < pre.len() {
                assert(percent_bytes(bytes)[k] == pre[k]);
            } else {
                assert(percent_bytes(bytes)[k] == tail[k - pre.len()]);
            }
        }
    }
}

/// A path segment encoding holds only unreserved characters and `%`, so
/// no `/`, `?`, `#` or space in the text can change a URL's path or start
/// its query.
pub proof fn lemma_segment_encode_is_safe(s: Seq<char>)
    ensures
        forall|k: int|
            0 <= k < segment_encode(s).len() ==> (segment_unreserved(
                #[trigger] segment_encode(s)[k],
            ) || segment_encode(s)[k] == '%'),
    decreases s.len(),
{
    if s.len() > 0 {
        lemma_segment_encode_is_safe(s.drop_last());
        lemma_percent_bytes_safe(encode_utf8(seq![s.last()]));
        let pre = segment_encode(s.drop_last());
        let tail = segment_char(s.last());
        assert(segment_encode(s) == pre + tail);
        assert forall|k: int| 0 <= k < segment_encode(s).len() implies (segment_unreserved(
            #[trigger] segment_encode(s)[k],
        ) || segment_encode(s)[k] == '%') by {
            if k < pre.len() {
                assert(segment_encode(s)[k] == pre[k]);
            } else {
                assert(segment_encode(s)[k] == tail[k - pre.len()]);
            }
        }
    }
}

fn hex_digit_str(d: u8) -> (r: &'static str)
    requires
        d < 16,
    ensures
        r@ == seq![hex_upper(d as nat)],
{
    if d < 10 {
        digit_str(d as u64)
    } else if d == 10 {
        proof { reveal_strlit("A"); }
        "A"
    } else if d == 11 {
        proof { reveal_strlit("B"); }
        "B"
    } else if d == 12 {
        proof { reveal_strlit("C"); }
        "C"
    } else if d == 13 {
        proof { reveal_strlit("D"); }
        "D"
    } else if d == 14 {
        proof { reveal_strlit("E"); }
        "E"
    } else {
        proof { reveal_strlit("F"); }
        "F"
    }
}

fn is_segment_unreserved(c: char) -> (r: bool)
    ensures
        r == segment_unreserved(c),
{
    ('a' <= c && c <= 'z') || ('A' <= c && c <= 'Z') || ('0' <= c && c <= '9') || c == '-' || c
        == '.' || c == '_' || c == '~'
}

/// Percent-encodes a text for use as one URL path segment, so that no `/`,
/// `?`, `#` or space in it can change the path or start a query.
pub fn encode_path_segment(s: &str) -> (r: String)
    ensures
        r@ == segment_encode(s@),
{
    let n = s.unicode_len();
    let mut out = String::new();
    let mut i: usize = 0;
    while i < n
        invariant
            n == s@.len(),
            i <= n,
            out@ == segment_encode(s@.take(i as int)),
        decreases n - i,
    {
        let c = s.get_char(i);
        let piece = s.substring_char(i, i + 1);
        assert(piece@ =~= seq![c]);
        assert(s@.take(i + 1).drop_last() =~= s@.take(i as int));
        assert(s@.take(i + 1).last() == c);
        if is_segment_unreserved(c) {
            out.append(piece);
        } else {
            let bytes = piece.as_bytes();
            let ghost before = out@;
            let mut j: usize = 0;
            while j < bytes.len()
                invariant
                    j <= bytes@.len(),
                    bytes@ == encode_utf8(seq![c]),
                    out@ == before + percent_bytes(bytes@.take(j as int)),
                decreases bytes@.len() - j,
            {
                let b = bytes[j];
                out.append("%");
                out.append(hex_digit_str(b / 16));
                out.append(hex_digit_str(b % 16));
                proof {
                    reveal_strlit("%");
                    assert(bytes@.take(j + 1).drop_last() =~= bytes@.take(j as int));
                    assert(bytes@.take(j + 1).last() == b);
                }
                assert(out@ =~= before + percent_bytes(bytes@.take(j + 1)));
                j = j + 1;
            }
            assert(bytes@.take(bytes@.len() as int) =~= bytes@);
        }
        assert(out@ =~= segment_encode(s@.take(i + 1)));
        i = i + 1;
    }
    assert(s@.take(n as int) =~= s@);
    out
}

/// Whether a character may stand in a form-encoded text: an ASCII letter or
/// digit, or one of `*`, `-`, `.`, `_`, `+`, `%`.
pub open spec fn form_safe_char(c: char) -> bool {
    ('a' <= c <= 'z') || ('A' <= c <= 'Z') || ('0' <= c <= '9') || c == '*' || c == '-' || c
        == '.' || c == '_' || c == '+' || c == '%'
}

proof fn lemma_form_byte_safe(b: u8)
    ensures
        forall|k: int| 0 <= k < form_byte(b).len() ==> form_safe_char(#[trigger] form_byte(b)[k]),
{
    assert(form_safe_char(hex_upper((b / 16) as nat)));
    assert(form_safe_char(hex_upper((b % 16) as nat)));
}

/// Form encoding leaves no reserved character in a text: every character
/// of the encoding is a letter, a digit, or one of `*-._+%`, so `@`, `/`,
/// `?`, `#`, `&` and spaces never survive into a path segment.
pub proof fn lemma_form_encode_is_path_safe(bytes: Seq<u8>)
    ensures
        forall|k: int|
            0 <= k < form_encode(bytes).len() ==> form_safe_char(#[trigger] form_encode(bytes)[k]),
    decreases bytes.len(),
{
    if bytes.len() > 0 {
        lemma_form_encode_is_path_safe(bytes.drop_first());
        lemma_form_byte_safe(bytes[0]);
        let head = form_byte(bytes[0]);
        let rest = form_encode(bytes.drop_first());
        assert(form_encode(bytes) == head + rest);
        assert forall|k: int| 0 <= k < form_encode(bytes).len() implies form_safe_char(
            #[trigger] form_encode(bytes)[k],
        ) by {
            if k < head.len() {
                assert(form_encode(bytes)[k] == head[k]);
            } else {
                assert(form_encode(bytes)[k] == rest[k - head.len()]);
            }
        }
    }
}

/// Relies on `url::form_urlencoded::byte_serialize` over the UTF-8 bytes of
/// `s`: each byte that `form_unchanged` accepts is kept, a space becomes
/// `+`, and any other byte becomes `%` and two upper-case hex digits.
#[verifier::external_body]
pub(crate) fn form_urlencode(s: &str) -> (r: String)
    ensures
        r@ == form_encode(s.spec_bytes()),
{
    url::form_urlencoded::byte_serialize(s.as_bytes()).collect::<String>()
}

/// What `str::to_lowercase` makes of a text.
pub uninterp spec fn lower_of(s: Seq<char>) -> Seq<char>;

/// Relies on `str::to_lowercase`: the result depends on the characters alone.
#[verifier::external_body]
pub(crate) fn to_lower(s: &str) -> (r: String)
    ensures
        r@ == lower_of(s@),
{
    s.to_lowercase()
}

/// The lower-case hexadecimal digit of a value below sixteen.
pub open spec fn hex_lower(d: nat) -> char {
    if d < 10 {
        digit_char(d)
    } else if d == 10 {
        'a'
    } else if d == 11 {
        'b'
    } else if d == 12 {
        'c'
    } else if d == 13 {
        'd'
    } else if d == 14 {
        'e'
    } else {
        'f'
    }
}

/// How a JSON string literal writes one character: a quote and a backslash
/// get a backslash before them; backspace, tab, line feed, form feed and
/// carriage return become `\b`, `\t`, `\n`, `\f`, `\r`; any other character
/// below 0x20 becomes `\u00` and two lower-case hex digits; the rest stay.
pub open spec fn json_char(c: char) -> Seq<char> {
    if c == '"' {
        seq!['\\', '"']
    } else if c == '\\' {
        seq!['\\', '\\']
    } else if c == '\u{8}' {
        seq!['\\', 'b']
    } else if c == '\t' {
        seq!['\\', 't']
    } else if c == '\n' {
        seq!['\\', 'n']
    } else if c == '\u{c}' {
        seq!['\\', 'f']
    } else if c == '\r' {
        seq!['\\', 'r']
    } else if (c as u32) < 32 {
        seq!['\\', 'u', '0', '0', hex_lower((c as nat) / 16), hex_lower((c as nat) % 16)]
    } else {
        seq![c]
    }
}

/// The escaped characters of a JSON string literal.
pub open spec fn json_escape(s: Seq<char>) -> Seq<char>
    decreases s.len(),
{
    if s.len() == 0 {
        Seq::empty()
    } else {
        json_char(s[0]) + json_escape(s.drop_first())
    }
}

/// The JSON string literal of a text: quotes around its escaped characters.
pub open spec fn json_string_of(s: Seq<char>) -> Seq<char> {
    seq!['"'] + json_escape(s) + seq!['"']
}

/// Relies on serde_json's compact writer for a `Value::String`
/// (`format_escaped_str` with its `ESCAPE` table and `write_char_escape`),
/// which writes the text as `json_string_of` says.
#[verifier::external_body]
pub(crate) fn json_string(s: &str) -> (r: String)
    ensures
        r@ == json_string_of(s@),
{
    serde_json::Value::String(s.to_string()).to_string()
}

/// Whether HTTP accepts a byte in a header value: a tab, or any byte from
/// 32 up but 127.
pub open spec fn header_byte_ok(b: u8) -> bool {
    (b >= 32 && b != 127) || b == 9
}

/// Whether HTTP accepts a whole byte string as a header value.
pub open spec fn header_value_ok(bytes: Seq<u8>) -> bool {
    forall|i: int| 0 <= i < bytes.len() ==> header_byte_ok(#[trigger] bytes[i])
}

/// Relies on `reqwest::header::HeaderValue::from_str`, which refuses a
/// value exactly when one of its UTF-8 bytes fails `header_byte_ok`.
#[verifier::external_body]
pub(crate) fn is_valid_header_value(s: &str) -> (r: bool)
    ensures
        r == header_value_ok(s.spec_bytes()),
{
    reqwest::header::HeaderValue::from_str(s).is_ok()
}

} // verus!
