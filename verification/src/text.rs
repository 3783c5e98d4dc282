//! Plain facts about header text: which characters a header value may hold,
//! which bytes read back as text, and how an integer is written in decimal.

use vstd::prelude::*;
use vstd::utf8::{encode_utf8, is_ascii_chars, is_ascii_chars_encode_utf8};

verus! {

/// A character that may stand in header text: a tab, or anything from the
/// space upwards except the delete character.
pub open spec fn is_header_char(c: char) -> bool {
    c == '\t' || (c >= ' ' && c != '\x7f')
}

/// Text that can be encoded as a header value: every character may stand in
/// header text.
pub open spec fn is_header_text(text: Seq<char>) -> bool {
    forall|i: int| 0 <= i < text.len() ==> is_header_char(#[trigger] text[i])
}

/// A byte that reads back as text: a tab or a printable ASCII character.
pub open spec fn is_text_byte(b: u8) -> bool {
    b == 9 || (32 <= b && b < 127)
}

/// A header value that reads back as text: every byte is a text byte.
pub open spec fn is_text_value(bytes: Seq<u8>) -> bool {
    forall|i: int| 0 <= i < bytes.len() ==> is_text_byte(#[trigger] bytes[i])
}

/// The text that a value made of ASCII bytes reads back as: byte by byte.
pub open spec fn ascii_text(bytes: Seq<u8>) -> Seq<char> {
    Seq::new(bytes.len(), |i: int| bytes[i] as char)
}

/// Text that was read out of a header value can go into a header value, and
/// gives back the bytes that it was read from.
pub proof fn lemma_text_value_encodes(bytes: Seq<u8>)
    requires
        is_text_value(bytes),
    ensures
        is_header_text(ascii_text(bytes)),
        encode_utf8(ascii_text(bytes)) == bytes,
{
    let text = ascii_text(bytes);
    assert forall|i: int| 0 <= i < text.len() implies {
        &&& '\0' <= #[trigger] text[i] <= '\u{7f}'
        &&& is_header_char(text[i])
        &&& text[i] as u8 == bytes[i]
    } by {
        assert(is_text_byte(bytes[i]));
    }
    assert(is_ascii_chars(text));
    is_ascii_chars_encode_utf8(text);
    assert(encode_utf8(text) =~= bytes);
}

/// The decimal digits of a natural number, most significant first, as ASCII
/// bytes.
pub open spec fn decimal_digits(n: nat) -> Seq<u8>
    decreases n,
{
    if n < 10 {
        seq![(48 + n) as u8]
    } else {
        decimal_digits(n / 10).push((48 + n % 10) as u8)
    }
}

/// An integer written in decimal as ASCII bytes, with a leading minus sign
/// when it is negative.
pub open spec fn decimal_text(n: int) -> Seq<u8> {
    if n < 0 {
        seq![45u8] + decimal_digits((-n) as nat)
    } else {
        decimal_digits(n as nat)
    }
}

} // verus!
