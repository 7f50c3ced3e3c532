//! Text as bytes.
use vstd::prelude::*;
use vstd::utf8::{decode_utf8, encode_utf8, valid_utf8};

verus! {

/// `String::into_bytes`: the UTF-8 encoding of the text.
pub assume_specification[ String::into_bytes ](text: String) -> (bytes: Vec<u8>)
    ensures
        bytes@ == encode_utf8(text@),
;

/// `String::push`: the text with one more character at its end.
pub assume_specification[ String::push ](text: &mut String, c: char)
    ensures
        final(text)@ == old(text)@.push(c),
;

/// What the error of `String::from_utf8` says of bytes that are not UTF-8.
pub uninterp spec fn utf8_error_text(bytes: Seq<u8>) -> Seq<char>;

/// `String::from_utf8`, its error turned into the text that it displays: the
/// text that the bytes encode if they are valid UTF-8, an error otherwise.
#[verifier::external_body]
pub(crate) fn text_from_utf8(bytes: Vec<u8>) -> (text: Result<String, String>)
    ensures
        text is Ok <==> valid_utf8(bytes@),
        text matches Ok(text) ==> text@ == decode_utf8(bytes@),
        text matches Err(error) ==> error@ == utf8_error_text(bytes@),
{
    String::from_utf8(bytes).map_err(|error| error.to_string())
}

/// The text of bytes in ISO Latin-1: each byte is the character of the same
/// number.
pub open spec fn decode_latin1(bytes: Seq<u8>) -> Seq<char> {
    Seq::new(bytes.len(), |i: int| bytes[i] as char)
}

/// The text of bytes in ISO Latin-1.
pub fn text_from_latin1(bytes: &Vec<u8>) -> (text: String)
    ensures
        text@ == decode_latin1(bytes@),
{
    let mut text = String::new();
    let mut i: usize = 0;
    while i < bytes.len()
        invariant
            i <= bytes@.len(),
            text@ == decode_latin1(bytes@.take(i as int)),
        decreases bytes@.len() - i,
    {
        text.push(bytes[i] as char);
        i = i + 1;
    }
    assert(bytes@.take(i as int) == bytes@);
    text
}

} // verus!
