//! From the bytes of a token to its text: decoding, trimming, upper case,
//! and the comparison of strings. The first three are the standard library's,
//! taken on trust as stated here.

use std::string::FromUtf8Error;
use vstd::prelude::*;
use vstd::utf8::*;

use crate::error::HttpError;

verus! {

/// Whether an ASCII character is white space: a tab, a line feed, a vertical
/// tab, a form feed, a carriage return or a space.
pub open spec fn ascii_white_space(c: char) -> bool {
    c == ' ' || '\t' <= c <= '\r'
}

/// What `char::is_whitespace` returns for a character: whether Unicode gives
/// it the property `White_Space`.
pub uninterp spec fn unicode_white_space(c: char) -> bool;

/// Whether a character is white space: one of the six of ASCII, or a
/// character beyond ASCII that Unicode counts as white space.
pub open spec fn white_space(c: char) -> bool {
    if c <= '\u{7f}' {
        ascii_white_space(c)
    } else {
        unicode_white_space(c)
    }
}

/// A text without the white space at its start and at its end.
pub open spec fn trimmed(s: Seq<char>) -> Seq<char>
    decreases s.len(),
{
    if s.len() == 0 {
        s
    } else if white_space(s.first()) {
        trimmed(s.drop_first())
    } else if white_space(s.last()) {
        trimmed(s.drop_last())
    } else {
        s
    }
}

/// The characters that `str::to_uppercase` gives for `s`: its upper case as
/// Unicode defines it.
pub uninterp spec fn uppercased(s: Seq<char>) -> Seq<char>;

/// The upper case of an ASCII character: the capital of a small letter, and
/// any other character itself.
pub open spec fn ascii_upper(c: char) -> char {
    if 'a' <= c <= 'z' {
        ((c as u32 - 32) as u32) as char
    } else {
        c
    }
}

/// The upper case of a text of ASCII characters, character by character.
pub open spec fn ascii_upper_text(s: Seq<char>) -> Seq<char> {
    s.map_values(|c: char| ascii_upper(c))
}

/// The upper case of a text: character by character where all its characters
/// are ASCII, else as Unicode defines it.
pub open spec fn upper_case(s: Seq<char>) -> Seq<char> {
    if is_ascii_chars(s) {
        ascii_upper_text(s)
    } else {
        uppercased(s)
    }
}

/// `std::string::FromUtf8Error`, the error of `String::from_utf8`. It is
/// carried, never looked into.
#[verifier::external_type_specification]
#[verifier::external_body]
pub struct ExFromUtf8Error(FromUtf8Error);

/// `String::from_utf8` succeeds exactly on well-formed UTF-8, and the string it
/// then returns holds the characters that those bytes encode.
pub assume_specification[ String::from_utf8 ](vec: Vec<u8>) -> (r: Result<String, FromUtf8Error>)
    ensures
        r is Ok <==> valid_utf8(vec@),
        r matches Ok(s) ==> s@ == decode_utf8(vec@),
;

/// `str::trim` returns the slice without the white space at its start and at
/// its end, so that what is left neither starts nor ends with white space.
/// White space is what `char::is_whitespace` says: among the ASCII characters
/// the six of [`ascii_white_space`], beyond them what [`unicode_white_space`]
/// names.
pub assume_specification[ str::trim ](s: &str) -> (r: &str)
    ensures
        r@ == trimmed(s@),
        r@.len() > 0 ==> !unicode_white_space(r@.first()) && !unicode_white_space(r@.last()),
;

/// `str::to_uppercase` returns the string named by [`uppercased`]. Of a string
/// of ASCII characters that is the string with each small letter replaced by
/// its capital.
pub assume_specification[ str::to_uppercase ](s: &str) -> (r: String)
    ensures
        r@ == uppercased(s@),
        is_ascii_chars(s@) ==> r@ == ascii_upper_text(s@),
;

/// The text of a token: its bytes decoded as UTF-8, then trimmed.
pub open spec fn token_text(bytes: Seq<u8>) -> Result<Seq<char>, HttpError> {
    if valid_utf8(bytes) {
        Ok(trimmed(decode_utf8(bytes)))
    } else {
        Err(HttpError::TextDecodeError)
    }
}

/// Turns the bytes of a token into its text.
pub fn decode_token(bytes: Vec<u8>) -> (r: Result<String, HttpError>)
    ensures
        r is Ok <==> token_text(bytes@) is Ok,
        r matches Ok(s) ==> token_text(bytes@) == Ok::<Seq<char>, HttpError>(s@),
        r matches Err(e) ==> token_text(bytes@) == Err::<Seq<char>, HttpError>(e),
{
    match String::from_utf8(bytes) {
        Ok(text) => Ok(text.as_str().trim().to_owned()),
        Err(_) => Err(HttpError::TextDecodeError),
    }
}

/// Whether two strings hold the same characters.
pub fn str_eq(a: &str, b: &str) -> (r: bool)
    ensures
        r == (a@ == b@),
{
    broadcast use encode_utf8_decode_utf8;

    let x = a.as_bytes();
    let y = b.as_bytes();
    if x.len() != y.len() {
        return false;
    }
    let mut i: usize = 0;
    while i < x.len()
        invariant
            i <= x.len(),
            x.len() == y.len(),
            x@ == encode_utf8(a@),
            y@ == encode_utf8(b@),
            forall|k: int| 0 <= k < i ==> x@[k] == y@[k],
        decreases x.len() - i,
    {
        if x[i] != y[i] {
            return false;
        }
        i += 1;
    }
    assert(x@ =~= y@);
    assert(b@ == decode_utf8(encode_utf8(b@)));
    true
}

/// White space at the end of a text makes no difference to what is left of
/// it when it is trimmed.
pub proof fn trimmed_ignores_trailing(s: Seq<char>, c: char)
    requires
        white_space(c),
    ensures
        trimmed(s.push(c)) == trimmed(s),
    decreases s.len(),
{
    let longer = s.push(c);
    if s.len() == 0 {
        assert(longer.drop_first() =~= s);
    } else if white_space(s.first()) {
        assert(longer.drop_first() =~= s.drop_first().push(c));
        trimmed_ignores_trailing(s.drop_first(), c);
    } else {
        assert(longer.drop_last() =~= s);
    }
}

/// An ASCII byte at the end of a sequence of bytes is a character of its own:
/// the bytes are well-formed with it exactly if they are without it, and they
/// then decode to the same text with that character at the end.
pub proof fn ascii_byte_at_the_end(bytes: Seq<u8>, byte: u8)
    requires
        byte <= 0x7f,
    ensures
        valid_utf8(bytes.push(byte)) == valid_utf8(bytes),
        valid_utf8(bytes) ==> decode_utf8(bytes.push(byte)) == decode_utf8(bytes).push(
            byte as char,
        ),
{
    let longer = bytes.push(byte);
    let last = seq![byte];
    let text = seq![byte as char];
    assert(longer =~= bytes + last);
    is_ascii_chars_encode_utf8(text);
    encode_utf8_valid_utf8(text);
    encode_utf8_decode_utf8(text);
    if valid_utf8(bytes) {
        valid_utf8_concat(bytes, last);
    }
    if valid_utf8(longer) {
        let at = bytes.len() as int;
        is_char_boundary_iff_not_is_continuation_byte(longer, at);
        valid_utf8_split(longer, at);
        decode_utf8_split(longer, at);
        assert(longer.subrange(0, at) =~= bytes);
        assert(longer.subrange(at, longer.len() as int) =~= last);
    }
}

/// White space of ASCII at the end of a token makes no difference to the
/// token's text.
pub proof fn token_text_ignores_trailing(bytes: Seq<u8>, byte: u8)
    requires
        byte == 0x20 || 0x09 <= byte <= 0x0d,
    ensures
        token_text(bytes.push(byte)) == token_text(bytes),
{
    ascii_byte_at_the_end(bytes, byte);
    if valid_utf8(bytes) {
        trimmed_ignores_trailing(decode_utf8(bytes), byte as char);
    }
}

/// The text of a token of ASCII bytes: the bytes are well-formed and decode
/// to as many characters, one for each byte, and the token's text is what is
/// left of those when they are trimmed.
pub proof fn ascii_token_text(bytes: Seq<u8>)
    requires
        forall|i: int| 0 <= i < bytes.len() ==> bytes[i] <= 0x7f,
    ensures
        valid_utf8(bytes),
        decode_utf8(bytes) == bytes.map_values(|b: u8| b as char),
        is_ascii_chars(decode_utf8(bytes)),
        token_text(bytes) == Ok::<Seq<char>, HttpError>(
            trimmed(bytes.map_values(|b: u8| b as char)),
        ),
    decreases bytes.len(),
{
    if bytes.len() > 0 {
        let front = bytes.drop_last();
        ascii_token_text(front);
        ascii_byte_at_the_end(front, bytes.last());
        assert(bytes =~= front.push(bytes.last()));
    }
}

} // verus!
