//! Text and byte encodings that the vault relies on: base64, UTF-8 and
//! random bytes.

use vstd::prelude::*;
use vstd::utf8::*;

verus! {

/// The standard, padded base64 text of `bytes`.
pub uninterp spec fn base64_text(bytes: Seq<u8>) -> Seq<char>;

/// The bytes that `text` stands for as base64 in the standard alphabet, with
/// or without its padding; `None` where the decoder refuses `text`.
pub uninterp spec fn base64_bytes(text: Seq<char>) -> Option<Seq<u8>>;

/// The model of bytes that may be absent.
pub open spec fn bytes_view(bytes: Option<Vec<u8>>) -> Option<Seq<u8>> {
    match bytes {
        Some(b) => Some(b@),
        None => None,
    }
}

/// The model of a text that may be absent.
pub open spec fn text_view(text: Option<String>) -> Option<Seq<char>> {
    match text {
        Some(t) => Some(t@),
        None => None,
    }
}

/// The model of a list of texts.
pub open spec fn texts_view(texts: Seq<String>) -> Seq<Seq<char>> {
    texts.map_values(|t: String| t@)
}

/// A copy of a text that may be absent.
pub fn clone_text(text: &Option<String>) -> (copy: Option<String>)
    ensures
        text_view(copy) == text_view(*text),
{
    match text {
        Some(t) => Some(t.clone()),
        None => None,
    }
}

/// Number of characters in the padded base64 text of `n` bytes.
pub open spec fn base64_len(n: int) -> int {
    4 * ((n + 2) / 3)
}

/// Upper bound on the number of bytes that a base64 text of `n` bytes of
/// input decodes to.
pub open spec fn base64_decoded_bound(n: int) -> int {
    (n + 3) / 4 * 3
}

/// `base64::encode`: the text is the standard padded encoding of `bytes`,
/// four ASCII characters for every three bytes (rounded up), and decodes
/// back to `bytes`. The outside function panics when the length of the text
/// does not fit in `usize`.
#[verifier::external_body]
pub(crate) fn base64_encode(bytes: &[u8]) -> (text: String)
    requires
        base64_len(bytes@.len() as int) <= usize::MAX,
    ensures
        text@ == base64_text(bytes@),
        text@.len() == base64_len(bytes@.len() as int),
        is_ascii_chars(text@),
        base64_bytes(text@) == Some(bytes@),
{
    ::base64::encode(bytes)
}

/// `base64::decode`: the bytes that the text decodes to, `None` where the
/// outside function reports an error. It reads the standard alphabet and
/// takes text whose padding is left out. Every four bytes of input give at
/// most three bytes. The outside function panics when rounding the length of the
/// input up overflows `usize`.
#[verifier::external_body]
pub(crate) fn base64_decode(text: &str) -> (bytes: Option<Vec<u8>>)
    requires
        encode_utf8(text@).len() <= usize::MAX - 7,
    ensures
        bytes_view(bytes) == base64_bytes(text@),
        bytes matches Some(b) ==> b@.len() <= base64_decoded_bound(
            encode_utf8(text@).len() as int,
        ),
{
    match ::base64::decode(text) {
        Ok(bytes) => Some(bytes),
        Err(_) => None,
    }
}

/// `String::from_utf8`: the text that `bytes` encode, `None` where they are
/// not valid UTF-8.
#[verifier::external_body]
pub(crate) fn utf8_to_string(bytes: Vec<u8>) -> (text: Option<String>)
    ensures
        text is Some <==> valid_utf8(bytes@),
        text matches Some(t) ==> t@ == decode_utf8(bytes@),
{
    match String::from_utf8(bytes) {
        Ok(text) => Some(text),
        Err(_) => None,
    }
}

/// `rand::random::<u8>`: one byte from the thread's random generator. Nothing
/// is known of its value.
#[verifier::external_body]
pub(crate) fn random_byte() -> u8 {
    ::rand::random::<u8>()
}

/// Draws `length` random bytes.
pub fn random_bytes(length: usize) -> (bytes: Vec<u8>)
    ensures
        bytes@.len() == length,
{
    let mut bytes: Vec<u8> = Vec::new();
    let mut i: usize = 0;
    while i < length
        invariant
            i <= length,
            bytes@.len() == i,
        decreases length - i,
    {
        bytes.push(random_byte());
        i = i + 1;
    }
    bytes
}

/// `String::from_iter` on the characters: the text that they make up.
#[verifier::external_body]
pub(crate) fn text_of_chars(chars: &Vec<char>) -> (text: String)
    ensures
        text@ == chars@,
{
    String::from_iter(chars.iter())
}

/// The characters of a text.
pub(crate) fn chars_of(text: &str) -> (chars: Vec<char>)
    ensures
        chars@ == text@,
{
    let mut chars: Vec<char> = Vec::new();
    for c in it: text.chars()
        invariant
            it.seq() == text@,
            chars@ == text@.take(it.index() as int),
    {
        chars.push(c);
    }
    chars
}

} // verus!
