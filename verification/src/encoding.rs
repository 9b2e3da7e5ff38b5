//! Mathematical statements of the byte and text encodings that the shell
//! integration relies on: UTF-8 (from vstd), standard Base64 with padding,
//! UTF-16 little-endian, and JSON string literals.
use vstd::prelude::*;

verus! {

/// The Base64 digit for a six-bit value (RFC 4648 standard alphabet).
pub open spec fn base64_digit(v: int) -> char {
    if v < 26 {
        (65 + v) as char
    } else if v < 52 {
        (97 + (v - 26)) as char
    } else if v < 62 {
        (48 + (v - 52)) as char
    } else if v == 62 {
        '+'
    } else {
        '/'
    }
}

/// Standard Base64 with `=` padding (RFC 4648, section 4).
pub open spec fn base64_encode(b: Seq<u8>) -> Seq<char>
    decreases b.len(),
{
    if b.len() == 0 {
        seq![]
    } else if b.len() == 1 {
        seq![base64_digit((b[0] as int) / 4), base64_digit(((b[0] as int) % 4) * 16), '=', '=']
    } else if b.len() == 2 {
        seq![
            base64_digit((b[0] as int) / 4),
            base64_digit(((b[0] as int) % 4) * 16 + (b[1] as int) / 16),
            base64_digit(((b[1] as int) % 16) * 4),
            '=',
        ]
    } else {
        seq![
            base64_digit((b[0] as int) / 4),
            base64_digit(((b[0] as int) % 4) * 16 + (b[1] as int) / 16),
            base64_digit(((b[1] as int) % 16) * 4 + (b[2] as int) / 64),
            base64_digit((b[2] as int) % 64),
        ] + base64_encode(b.skip(3))
    }
}

/// A character that can occur in standard padded Base64 text.
pub open spec fn is_base64_char(c: char) -> bool {
    ('A' <= c && c <= 'Z') || ('a' <= c && c <= 'z') || ('0' <= c && c <= '9') || c == '+' || c
        == '/' || c == '='
}

/// Every character of a Base64 encoding belongs to the Base64 alphabet.
pub proof fn lemma_base64_alphabet(b: Seq<u8>)
    ensures
        forall|i: int|
            0 <= i < base64_encode(b).len() ==> #[trigger] is_base64_char(base64_encode(b)[i]),
    decreases b.len(),
{
    if b.len() > 2 {
        lemma_base64_alphabet(b.skip(3));
        let head = seq![
            base64_digit((b[0] as int) / 4),
            base64_digit(((b[0] as int) % 4) * 16 + (b[1] as int) / 16),
            base64_digit(((b[1] as int) % 16) * 4 + (b[2] as int) / 64),
            base64_digit((b[2] as int) % 64),
        ];
        assert(base64_encode(b) == head + base64_encode(b.skip(3)));
        assert forall|i: int| 0 <= i < base64_encode(b).len() implies #[trigger] is_base64_char(
            base64_encode(b)[i],
        ) by {
            if i >= 4 {
                assert(base64_encode(b)[i] == base64_encode(b.skip(3))[i - 4]);
            }
        }
    }
}

} // verus!

verus! {

/// The UTF-8 text of a path's bytes, when they are valid UTF-8.
pub open spec fn utf8_text(bytes: Seq<u8>) -> Option<Seq<char>> {
    if vstd::utf8::valid_utf8(bytes) {
        Some(vstd::utf8::decode_utf8(bytes))
    } else {
        None
    }
}

/// A character after which a POSIX shell word can no longer be written bare.
pub open spec fn posix_special(c: char) -> bool {
    c == '\n' || c == '\'' || c == '|' || c == '&' || c == ';' || c == '<' || c == '>' || c == '('
        || c == ')' || c == '$' || c == '`' || c == '\\' || c == '"' || c == ' ' || c == '\t' || c
        == '*' || c == '?' || c == '[' || c == '#' || c == '~' || c == '=' || c == '%'
}

/// A word that has to be quoted before a POSIX shell reads it literally.
pub open spec fn posix_needs_quoting(s: Seq<char>) -> bool {
    s.len() == 0 || exists|i: int| 0 <= i < s.len() && #[trigger] posix_special(s[i])
}

/// The text of `s` inside single quotes: each `'` becomes `'\''`.
pub open spec fn escape_single_quotes(s: Seq<char>) -> Seq<char>
    decreases s.len(),
{
    if s.len() == 0 {
        seq![]
    } else if s[0] == '\'' {
        seq!['\'', '\\', '\'', '\''] + escape_single_quotes(s.drop_first())
    } else {
        seq![s[0]] + escape_single_quotes(s.drop_first())
    }
}

/// The word `s` in single quotes.
pub open spec fn single_quoted(s: Seq<char>) -> Seq<char> {
    seq!['\''] + escape_single_quotes(s) + seq!['\'']
}

/// Escaping the quotes of two texts one after the other escapes the quotes of
/// the whole.
pub proof fn lemma_escape_single_quotes_concat(a: Seq<char>, b: Seq<char>)
    ensures
        escape_single_quotes(a + b) == escape_single_quotes(a) + escape_single_quotes(b),
    decreases a.len(),
{
    if a.len() > 0 {
        lemma_escape_single_quotes_concat(a.drop_first(), b);
        assert((a + b).drop_first() == a.drop_first() + b);
        assert((a + b)[0] == a[0]);
    } else {
        assert(a + b == b);
    }
}

/// POSIX shell quoting with the least quoting needed: the word itself when it
/// holds no special character, otherwise the word in single quotes.
pub open spec fn posix_quote(s: Seq<char>) -> Seq<char> {
    if posix_needs_quoting(s) {
        single_quoted(s)
    } else {
        s
    }
}

/// The value a POSIX shell reads from a word, outside single quotes: a
/// backslash takes the next character literally and `'` opens a quoted part.
pub open spec fn posix_word_unquoted(w: Seq<char>) -> Seq<char>
    decreases w.len(), 1int,
{
    if w.len() == 0 {
        seq![]
    } else if w[0] == '\'' {
        posix_word_quoted(w.drop_first())
    } else if w[0] == '\\' && w.len() >= 2 {
        seq![w[1]] + posix_word_unquoted(w.skip(2))
    } else {
        seq![w[0]] + posix_word_unquoted(w.drop_first())
    }
}

/// The value a POSIX shell reads inside single quotes, up to the closing `'`.
pub open spec fn posix_word_quoted(w: Seq<char>) -> Seq<char>
    decreases w.len(), 0int,
{
    if w.len() == 0 {
        seq![]
    } else if w[0] == '\'' {
        posix_word_unquoted(w.drop_first())
    } else {
        seq![w[0]] + posix_word_quoted(w.drop_first())
    }
}

proof fn lemma_bare_word(s: Seq<char>)
    requires
        forall|i: int| 0 <= i < s.len() ==> !#[trigger] posix_special(s[i]),
    ensures
        posix_word_unquoted(s) == s,
    decreases s.len(),
{
    if s.len() > 0 {
        assert(!posix_special(s[0]));
        assert forall|i: int| 0 <= i < s.drop_first().len() implies !#[trigger] posix_special(
            s.drop_first()[i],
        ) by {
            assert(!posix_special(s[i + 1]));
        }
        lemma_bare_word(s.drop_first());
        assert(s == seq![s[0]] + s.drop_first());
    }
}

proof fn lemma_escaped_body(s: Seq<char>)
    ensures
        posix_word_quoted(escape_single_quotes(s) + seq!['\'']) == s,
    decreases s.len(),
{
    let close = seq!['\''];
    if s.len() == 0 {
        assert(escape_single_quotes(s) + close == close);
        assert(close[0] == '\'');
        assert(close.drop_first() =~= Seq::<char>::empty());
        assert(posix_word_quoted(close) == posix_word_unquoted(close.drop_first()));
        assert(s =~= Seq::<char>::empty());
    } else {
        let rest = escape_single_quotes(s.drop_first()) + close;
        lemma_escaped_body(s.drop_first());
        if s[0] == '\'' {
            let w = seq!['\'', '\\', '\'', '\''] + escape_single_quotes(s.drop_first()) + close;
            assert(escape_single_quotes(s) + close == w);
            assert(w.drop_first() == seq!['\\', '\'', '\''] + rest);
            assert(w[0] == '\'');
            assert(posix_word_quoted(w) == posix_word_unquoted(w.drop_first()));
            let u = seq!['\\', '\'', '\''] + rest;
            assert(u[0] == '\\' && u[1] == '\'' && u.len() >= 2);
            assert(u.skip(2) == seq!['\''] + rest);
            assert((seq!['\''] + rest).drop_first() == rest);
            assert(posix_word_unquoted(u) == seq!['\''] + posix_word_unquoted(u.skip(2)));
            assert((seq!['\''] + rest)[0] == '\'');
            assert(posix_word_unquoted(seq!['\''] + rest) == posix_word_quoted(rest));
            assert(s == seq!['\''] + s.drop_first());
        } else {
            let w = seq![s[0]] + rest;
            assert(escape_single_quotes(s) + close == w);
            assert(w.drop_first() == rest);
            assert(w[0] == s[0]);
            assert(posix_word_quoted(w) == seq![s[0]] + posix_word_quoted(rest));
            assert(s == seq![s[0]] + s.drop_first());
        }
    }
}

/// A POSIX shell reads back exactly the value that was put in single quotes.
pub proof fn lemma_single_quoted_round_trip(s: Seq<char>)
    ensures
        posix_word_unquoted(single_quoted(s)) == s,
{
    lemma_escaped_body(s);
    let w = seq!['\''] + escape_single_quotes(s) + seq!['\''];
    assert(w.drop_first() == escape_single_quotes(s) + seq!['\'']);
}

/// A POSIX shell reads back exactly the value that `posix_quote` quoted.
pub proof fn lemma_posix_quote_round_trip(s: Seq<char>)
    ensures
        posix_word_unquoted(posix_quote(s)) == s,
{
    if posix_needs_quoting(s) {
        lemma_escaped_body(s);
        let w = seq!['\''] + escape_single_quotes(s) + seq!['\''];
        assert(w.drop_first() == escape_single_quotes(s) + seq!['\'']);
    } else {
        lemma_bare_word(s);
    }
}

} // verus!

verus! {

/// The UTF-16 code units of a character sequence.
pub open spec fn utf16_units(s: Seq<char>) -> Seq<u16>
    decreases s.len(),
{
    if s.len() == 0 {
        seq![]
    } else {
        let c = s[0] as u32;
        if c < 0x10000 {
            seq![c as u16] + utf16_units(s.drop_first())
        } else {
            let v = (c - 0x10000) as int;
            seq![(0xD800 + v / 1024) as u16, (0xDC00 + v % 1024) as u16] + utf16_units(
                s.drop_first(),
            )
        }
    }
}

/// Little-endian bytes of a sequence of 16-bit units: low byte first.
pub open spec fn little_endian_bytes(units: Seq<u16>) -> Seq<u8>
    decreases units.len(),
{
    if units.len() == 0 {
        seq![]
    } else {
        seq![(units[0] % 256) as u8, (units[0] / 256) as u8] + little_endian_bytes(units.drop_first())
    }
}

/// A lower-case hexadecimal digit.
pub open spec fn hex_digit(v: int) -> char {
    if v < 10 {
        (48 + v) as char
    } else {
        (87 + v) as char
    }
}

/// One character as it stands inside a JSON string literal: a quote and a
/// backslash behind a backslash, the control characters with a short escape
/// (`\b`, `\t`, `\n`, `\f`, `\r`) in that form, the other control
/// characters as `\u00` and two hexadecimal digits, everything else as
/// itself.
pub open spec fn json_char(c: char) -> Seq<char> {
    let v = c as int;
    if c == '"' {
        seq!['\\', '"']
    } else if c == '\\' {
        seq!['\\', '\\']
    } else if v == 8 {
        seq!['\\', 'b']
    } else if v == 9 {
        seq!['\\', 't']
    } else if v == 10 {
        seq!['\\', 'n']
    } else if v == 12 {
        seq!['\\', 'f']
    } else if v == 13 {
        seq!['\\', 'r']
    } else if v < 32 {
        seq!['\\', 'u', '0', '0', hex_digit(v / 16), hex_digit(v % 16)]
    } else {
        seq![c]
    }
}

/// The characters of `s` as they stand inside a JSON string literal.
pub open spec fn json_escape(s: Seq<char>) -> Seq<char>
    decreases s.len(),
{
    if s.len() == 0 {
        seq![]
    } else {
        json_escape(s.drop_last()) + json_char(s.last())
    }
}

/// A character's value is never negative.
proof fn lemma_char_value(c: char)
    ensures
        0 <= c as int,
{
    assert(0 <= c as u32);
}

/// No character of a JSON-escaped text is a line feed.
proof fn lemma_json_escape_no_line_feed(s: Seq<char>)
    ensures
        forall|i: int| 0 <= i < json_escape(s).len() ==> #[trigger] json_escape(s)[i] != '\n',
    decreases s.len(),
{
    if s.len() > 0 {
        lemma_json_escape_no_line_feed(s.drop_last());
        let c = s.last();
        let v = c as int;
        let last = json_char(c);
        assert forall|k: int| 0 <= k < last.len() implies #[trigger] last[k] != '\n' by {
            if v < 32 && v != 8 && v != 9 && v != 10 && v != 12 && v != 13 {
                lemma_char_value(c);
                assert(0 <= v / 16 < 2 && 0 <= v % 16 < 16) by (nonlinear_arith)
                    requires
                        0 <= v < 32,
                ;
            }
        }
        let e = json_escape(s);
        assert(e == json_escape(s.drop_last()) + last);
        assert forall|i: int| 0 <= i < e.len() implies #[trigger] e[i] != '\n' by {
            if i < json_escape(s.drop_last()).len() {
                assert(e[i] == json_escape(s.drop_last())[i]);
            } else {
                assert(e[i] == last[i - json_escape(s.drop_last()).len()]);
            }
        }
    }
}

/// A JSON string literal opens with a quote and holds no line feed.
pub proof fn lemma_json_quote_shape(s: Seq<char>)
    ensures
        json_quote(s).len() >= 2,
        json_quote(s)[0] == '"',
        forall|i: int| 0 <= i < json_quote(s).len() ==> #[trigger] json_quote(s)[i] != '\n',
{
    lemma_json_escape_no_line_feed(s);
    let q = json_quote(s);
    assert forall|i: int| 0 <= i < q.len() implies #[trigger] q[i] != '\n' by {
        if 0 < i < q.len() - 1 {
            assert(q[i] == json_escape(s)[i - 1]);
        }
    }
}

/// The JSON string literal whose value is `s`.
pub open spec fn json_quote(s: Seq<char>) -> Seq<char> {
    seq!['"'] + json_escape(s) + seq!['"']
}

/// The six-bit value of a Base64 digit.
pub open spec fn base64_value(c: char) -> int {
    if 'A' <= c && c <= 'Z' {
        c as int - 65
    } else if 'a' <= c && c <= 'z' {
        c as int - 97 + 26
    } else if '0' <= c && c <= '9' {
        c as int - 48 + 52
    } else if c == '+' {
        62
    } else {
        63
    }
}

/// Each Base64 digit stands for its six-bit value, and none is the padding.
pub proof fn lemma_base64_digit_value(v: int)
    requires
        0 <= v < 64,
    ensures
        base64_value(base64_digit(v)) == v,
        base64_digit(v) != '=',
{
}

/// The bytes that padded standard Base64 text stands for.
pub open spec fn base64_decode(t: Seq<char>) -> Seq<u8>
    decreases t.len(),
{
    if t.len() < 4 {
        seq![]
    } else {
        let v0 = base64_value(t[0]);
        let v1 = base64_value(t[1]);
        let v2 = base64_value(t[2]);
        let v3 = base64_value(t[3]);
        let b0 = (v0 * 4 + v1 / 16) as u8;
        let b1 = ((v1 % 16) * 16 + v2 / 4) as u8;
        let b2 = ((v2 % 4) * 64 + v3) as u8;
        if t[2] == '=' {
            seq![b0]
        } else if t[3] == '=' {
            seq![b0, b1]
        } else {
            seq![b0, b1, b2] + base64_decode(t.skip(4))
        }
    }
}

proof fn lemma_base64_byte_split(x: int, y: int, z: int)
    requires
        0 <= x < 256,
        0 <= y < 256,
        0 <= z < 256,
    ensures
        0 <= x / 4 < 64,
        0 <= (x % 4) * 16 + y / 16 < 64,
        0 <= (y % 16) * 4 + z / 64 < 64,
        0 <= z % 64 < 64,
        (x / 4) * 4 + ((x % 4) * 16 + y / 16) / 16 == x,
        (((x % 4) * 16 + y / 16) % 16) * 16 + ((y % 16) * 4 + z / 64) / 4 == y,
        (((y % 16) * 4 + z / 64) % 4) * 64 + z % 64 == z,
{
    assert(0 <= x / 4 < 64) by (nonlinear_arith)
        requires
            0 <= x < 256,
    ;
    assert((x / 4) * 4 + x % 4 == x) by (nonlinear_arith);
    assert(y / 16 < 16) by (nonlinear_arith)
        requires
            0 <= y < 256,
    ;
    assert(((x % 4) * 16 + y / 16) / 16 == x % 4) by (nonlinear_arith)
        requires
            0 <= x % 4 < 4,
            0 <= y / 16 < 16,
    ;
    assert(((x % 4) * 16 + y / 16) % 16 == y / 16) by (nonlinear_arith)
        requires
            0 <= x % 4 < 4,
            0 <= y / 16 < 16,
    ;
    assert((y / 16) * 16 + y % 16 == y) by (nonlinear_arith);
    assert(z / 64 < 4) by (nonlinear_arith)
        requires
            0 <= z < 256,
    ;
    assert(((y % 16) * 4 + z / 64) / 4 == y % 16) by (nonlinear_arith)
        requires
            0 <= y % 16 < 16,
            0 <= z / 64 < 4,
    ;
    assert(((y % 16) * 4 + z / 64) % 4 == z / 64) by (nonlinear_arith)
        requires
            0 <= y % 16 < 16,
            0 <= z / 64 < 4,
    ;
    assert((z / 64) * 64 + z % 64 == z) by (nonlinear_arith);
}

/// Decoding standard Base64 gives back the bytes that were encoded.
pub proof fn lemma_base64_round_trip(b: Seq<u8>)
    ensures
        base64_decode(base64_encode(b)) == b,
    decreases b.len(),
{
    if b.len() == 0 {
    } else {
        let x = b[0] as int;
        let y = if b.len() > 1 { b[1] as int } else { 0 };
        let z = if b.len() > 2 { b[2] as int } else { 0 };
        lemma_base64_byte_split(x, y, z);
        lemma_base64_digit_value(x / 4);
        lemma_base64_digit_value((x % 4) * 16 + y / 16);
        lemma_base64_digit_value((y % 16) * 4 + z / 64);
        lemma_base64_digit_value(z % 64);
        let t = base64_encode(b);
        if b.len() == 1 {
            assert(((x % 4) * 16) / 16 == x % 4);
            assert(base64_decode(t) =~= b);
        } else if b.len() == 2 {
            assert(base64_decode(t) =~= b);
        } else {
            lemma_base64_round_trip(b.skip(3));
            assert(t.skip(4) =~= base64_encode(b.skip(3)));
            assert(b =~= seq![b[0], b[1], b[2]] + b.skip(3));
            assert(base64_decode(t) =~= seq![b[0], b[1], b[2]] + base64_decode(base64_encode(b.skip(3))));
        }
    }
}

/// The 16-bit units whose little-endian bytes are `b`, low byte first.
pub open spec fn little_endian_units(b: Seq<u8>) -> Seq<u16>
    decreases b.len(),
{
    if b.len() < 2 {
        seq![]
    } else {
        seq![(b[0] as int + (b[1] as int) * 256) as u16] + little_endian_units(b.skip(2))
    }
}

/// Reading little-endian bytes back gives the units that were written.
pub proof fn lemma_little_endian_round_trip(u: Seq<u16>)
    ensures
        little_endian_units(little_endian_bytes(u)) == u,
    decreases u.len(),
{
    if u.len() > 0 {
        let b = little_endian_bytes(u);
        lemma_little_endian_round_trip(u.drop_first());
        assert(b.skip(2) =~= little_endian_bytes(u.drop_first()));
        assert((u[0] % 256) + (u[0] / 256) * 256 == u[0]);
        assert(little_endian_units(b) =~= seq![u[0]] + u.drop_first());
        assert(u =~= seq![u[0]] + u.drop_first());
    }
}

/// The characters that UTF-16 code units stand for: a high surrogate and
/// the unit after it make one character, any other unit is one by itself.
pub open spec fn utf16_decode(u: Seq<u16>) -> Seq<char>
    decreases u.len(),
{
    if u.len() == 0 {
        seq![]
    } else if 0xD800 <= u[0] < 0xDC00 && u.len() >= 2 {
        seq![(((u[0] as int - 0xD800) * 1024 + (u[1] as int - 0xDC00) + 0x10000) as u32) as char]
            + utf16_decode(u.skip(2))
    } else {
        seq![(u[0] as u32) as char] + utf16_decode(u.drop_first())
    }
}

/// Decoding the UTF-16 units of a text gives back the text.
pub proof fn lemma_utf16_round_trip(s: Seq<char>)
    ensures
        utf16_decode(utf16_units(s)) == s,
    decreases s.len(),
{
    if s.len() > 0 {
        let c = s[0];
        let code = c as u32;
        vstd::utf8::char_is_scalar(c);
        vstd::utf8::char_u32_cast(c, code);
        lemma_utf16_round_trip(s.drop_first());
        let u = utf16_units(s);
        if code < 0x10000 {
            assert(u =~= seq![code as u16] + utf16_units(s.drop_first()));
            assert(((code as u16) as u32) == code);
            assert(u.drop_first() =~= utf16_units(s.drop_first()));
        } else {
            let v = (code - 0x10000) as int;
            let high = (0xD800 + v / 1024) as u16;
            let low = (0xDC00 + v % 1024) as u16;
            assert(v / 1024 < 1024) by (nonlinear_arith)
                requires
                    0 <= v < 0x100000,
            ;
            assert(u =~= seq![high, low] + utf16_units(s.drop_first()));
            assert(u.skip(2) =~= utf16_units(s.drop_first()));
            assert((v / 1024) * 1024 + v % 1024 == v) by (nonlinear_arith);
            assert((((high as int - 0xD800) * 1024 + (low as int - 0xDC00) + 0x10000) as u32) == code);
        }
        assert(s =~= seq![c] + s.drop_first());
    }
}

} // verus!
