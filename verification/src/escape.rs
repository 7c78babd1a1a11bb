//! Percent-encoding of query parameters.
//!
//! A parameter is sent as its UTF-8 bytes. A byte that stands for an
//! unreserved character (a letter, a digit, `-`, `.`, `_` or `~`) is sent as
//! that character, every other byte as `%` and two upper-case hexadecimal
//! digits. An escaped parameter therefore holds none of the characters that
//! structure a query string.

use vstd::prelude::*;
use vstd::string::*;

verus! {

/// The byte stands for a character that needs no escaping.
pub open spec fn spec_is_unreserved(b: u8) -> bool {
    ||| ('A' as u8) <= b <= ('Z' as u8)
    ||| ('a' as u8) <= b <= ('z' as u8)
    ||| ('0' as u8) <= b <= ('9' as u8)
    ||| b == ('-' as u8)
    ||| b == ('.' as u8)
    ||| b == ('_' as u8)
    ||| b == ('~' as u8)
}

/// The upper-case hexadecimal digit for a value below sixteen.
pub open spec fn spec_hex_digit(value: u8) -> char {
    if value < 10 {
        (('0' as u8) + value) as u8 as char
    } else {
        (('A' as u8) + (value - 10)) as u8 as char
    }
}

/// The characters that one byte is sent as.
pub open spec fn spec_escape_byte(b: u8) -> Seq<char> {
    if spec_is_unreserved(b) {
        seq![b as char]
    } else {
        seq!['%', spec_hex_digit(b / 16), spec_hex_digit(b % 16)]
    }
}

/// The characters that a sequence of bytes is sent as.
pub open spec fn spec_escape_bytes(bytes: Seq<u8>) -> Seq<char>
    decreases bytes.len(),
{
    if bytes.len() == 0 {
        Seq::empty()
    } else {
        spec_escape_byte(bytes.first()) + spec_escape_bytes(bytes.drop_first())
    }
}

/// The escaped form of a text: that of its UTF-8 bytes.
pub open spec fn spec_escape(text: Seq<char>) -> Seq<char> {
    spec_escape_bytes(vstd::utf8::encode_utf8(text))
}

/// Escaping a sequence of bytes that ends in `b` is escaping what stands
/// before `b`, then `b`.
pub proof fn lemma_escape_bytes_push(bytes: Seq<u8>, b: u8)
    ensures
        spec_escape_bytes(bytes.push(b)) == spec_escape_bytes(bytes) + spec_escape_byte(b),
    decreases bytes.len(),
{
    if bytes.len() == 0 {
        assert(bytes.push(b).drop_first() == Seq::<u8>::empty());
        assert(spec_escape_bytes(bytes.push(b).drop_first()) == Seq::<char>::empty());
    } else {
        lemma_escape_bytes_push(bytes.drop_first(), b);
        assert(bytes.push(b).drop_first() == bytes.drop_first().push(b));
        assert(bytes.push(b).first() == bytes.first());
    }
}

/// Appends one character to a string, by `String::push` of the standard
/// library: afterwards the string holds what it held, then `c`.
#[verifier::external_body]
fn push_char(text: &mut String, c: char)
    ensures
        final(text)@ == old(text)@.push(c),
{
    text.push(c);
}

/// Tells whether a byte stands for an unreserved character.
pub fn is_unreserved(b: u8) -> (unreserved: bool)
    ensures
        unreserved == spec_is_unreserved(b),
{
    let upper = ('A' as u8) <= b && b <= ('Z' as u8);
    let lower = ('a' as u8) <= b && b <= ('z' as u8);
    let digit = ('0' as u8) <= b && b <= ('9' as u8);
    let mark = b == ('-' as u8) || b == ('.' as u8) || b == ('_' as u8) || b == ('~' as u8);
    upper || lower || digit || mark
}

/// The upper-case hexadecimal digit for a value below sixteen.
fn hex_digit(value: u8) -> (digit: char)
    requires
        value < 16,
    ensures
        digit == spec_hex_digit(value),
{
    if value < 10 {
        (('0' as u8) + value) as char
    } else {
        (('A' as u8) + (value - 10)) as char
    }
}

/// Escapes a text for use as a query parameter.
pub fn escape(text: &str) -> (escaped: String)
    ensures
        escaped@ == spec_escape(text@),
{
    let bytes = text.as_bytes();
    let mut escaped = String::new();
    let mut i: usize = 0;
    while i < bytes.len()
        invariant
            i <= bytes.len(),
            escaped@ == spec_escape_bytes(bytes@.take(i as int)),
        decreases bytes.len() - i,
    {
        let b = bytes[i];
        proof {
            lemma_escape_bytes_push(bytes@.take(i as int), b);
            assert(bytes@.take(i as int).push(b) == bytes@.take(i + 1));
        }
        if is_unreserved(b) {
            push_char(&mut escaped, b as char);
        } else {
            push_char(&mut escaped, '%');
            push_char(&mut escaped, hex_digit(b / 16));
            push_char(&mut escaped, hex_digit(b % 16));
        }
        i = i + 1;
    }
    proof {
        assert(bytes@.take(i as int) == bytes@);
    }
    escaped
}

/// The character is one that escaping leaves as it is.
pub open spec fn spec_is_plain(c: char) -> bool {
    (c as u32) < 128 && spec_is_unreserved(c as u8)
}

/// The value of a hexadecimal digit, upper or lower case.
pub open spec fn spec_hex_value(c: char) -> Option<u8> {
    if '0' <= c <= '9' {
        Some((c as u8 - '0' as u8) as u8)
    } else if 'A' <= c <= 'F' {
        Some((c as u8 - 'A' as u8 + 10) as u8)
    } else if 'a' <= c <= 'f' {
        Some((c as u8 - 'a' as u8 + 10) as u8)
    } else {
        None
    }
}

/// The bytes that an escaped text stands for, as its receiver reads them:
/// `%` and two hexadecimal digits give one byte, a plain character gives
/// its own. A text that is no escaped form stands for nothing.
pub open spec fn spec_unescape(text: Seq<char>) -> Option<Seq<u8>>
    decreases text.len(),
{
    if text.len() == 0 {
        Some(Seq::empty())
    } else if text[0] == '%' {
        if text.len() >= 3 && spec_hex_value(text[1]) is Some && spec_hex_value(text[2]) is Some {
            match spec_unescape(text.skip(3)) {
                Some(rest) => Some(
                    seq![(spec_hex_value(text[1])->0 * 16 + spec_hex_value(text[2])->0) as u8]
                        + rest,
                ),
                None => None,
            }
        } else {
            None
        }
    } else if spec_is_plain(text[0]) {
        match spec_unescape(text.skip(1)) {
            Some(rest) => Some(seq![text[0] as u8] + rest),
            None => None,
        }
    } else {
        None
    }
}

/// A hexadecimal digit is plain, and its value is the one it was made from.
pub proof fn lemma_hex_digit(value: u8)
    requires
        value < 16,
    ensures
        spec_is_plain(spec_hex_digit(value)),
        spec_hex_value(spec_hex_digit(value)) == Some(value),
{
}

/// Law: an escaped text holds plain characters and `%` only. None of `&`,
/// `=`, `?`, `#`, `/`, `+` or a blank occurs in it, so it cannot end a query
/// parameter or start another.
pub proof fn lemma_escaped_is_inert(bytes: Seq<u8>)
    ensures
        forall|i: int|
            0 <= i < spec_escape_bytes(bytes).len() ==> {
                let c = #[trigger] spec_escape_bytes(bytes)[i];
                &&& spec_is_plain(c) || c == '%'
                &&& c != '&' && c != '=' && c != '?' && c != '#' && c != '/' && c != '+' && c != ' '
            },
    decreases bytes.len(),
{
    if bytes.len() > 0 {
        let head = spec_escape_byte(bytes.first());
        let tail = spec_escape_bytes(bytes.drop_first());
        lemma_escaped_is_inert(bytes.drop_first());
        lemma_hex_digit(bytes.first() / 16);
        lemma_hex_digit(bytes.first() % 16);
        assert forall|i: int| 0 <= i < (head + tail).len() implies {
            let c = #[trigger] (head + tail)[i];
            &&& spec_is_plain(c) || c == '%'
            &&& c != '&' && c != '=' && c != '?' && c != '#' && c != '/' && c != '+' && c != ' '
        } by {
            if i >= head.len() {
                assert((head + tail)[i] == tail[i - head.len()]);
            }
        }
    }
}

/// Law: escaping loses nothing. The receiver reads from an escaped sequence
/// of bytes exactly the bytes that were escaped.
pub proof fn lemma_unescape_escape_bytes(bytes: Seq<u8>)
    ensures
        spec_unescape(spec_escape_bytes(bytes)) == Some(bytes),
    decreases bytes.len(),
{
    if bytes.len() > 0 {
        let b = bytes.first();
        let head = spec_escape_byte(b);
        let tail = spec_escape_bytes(bytes.drop_first());
        let text = head + tail;
        lemma_unescape_escape_bytes(bytes.drop_first());
        lemma_hex_digit(b / 16);
        lemma_hex_digit(b % 16);
        assert(text.skip(head.len() as int) == tail);
        assert(seq![b] + bytes.drop_first() == bytes);
        if spec_is_unreserved(b) {
            assert(text[0] == b as char);
        } else {
            assert(text[0] == '%');
            assert(text[1] == spec_hex_digit(b / 16));
            assert(text[2] == spec_hex_digit(b % 16));
            assert((b / 16) * 16 + b % 16 == b);
        }
    }
}

/// Law: the receiver of an escaped text reads the UTF-8 bytes of the text
/// that was escaped, and those bytes decode to that text.
pub proof fn lemma_unescape_escape(text: Seq<char>)
    ensures
        spec_unescape(spec_escape(text)) == Some(vstd::utf8::encode_utf8(text)),
        vstd::utf8::decode_utf8(vstd::utf8::encode_utf8(text)) == text,
{
    lemma_unescape_escape_bytes(vstd::utf8::encode_utf8(text));
    vstd::utf8::encode_utf8_decode_utf8(text);
}

} // verus!
