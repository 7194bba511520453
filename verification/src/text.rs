//! Text from bytes and from characters.
use vstd::prelude::*;
use vstd::utf8::{decode_utf8, valid_utf8};

verus! {

/// The text of the bytes, if they are UTF-8.
///
/// Trusted: `String::from_utf8` of std gives the string that the bytes
/// encode, and fails where the bytes are not valid UTF-8.
#[verifier::external_body]
pub(crate) fn text_of(bytes: Vec<u8>) -> (text: Option<String>)
    ensures
        match text {
            Some(s) => valid_utf8(bytes@) && s@ == decode_utf8(bytes@),
            None => !valid_utf8(bytes@),
        },
{
    String::from_utf8(bytes).ok()
}

/// Appends the character to the text.
///
/// Trusted: `String::push` of std appends the character to the end of the string.
#[verifier::external_body]
pub(crate) fn push_char(text: &mut String, c: char)
    ensures
        final(text)@ == old(text)@.push(c),
{
    text.push(c);
}

/// The text in capitals with an underscore between two words, where a word
/// starts at a capital letter that follows a small one and at what is no
/// letter or digit.
pub uninterp spec fn shouty_snake_case(text: Seq<char>) -> Seq<char>;

/// The text in capitals with an underscore between two words.
///
/// Trusted: `AsShoutySnakeCase` of heck writes the words of the text in
/// capitals with an underscore between them; nothing but the text goes into it.
#[verifier::external_body]
pub(crate) fn to_shouty_snake_case(text: &str) -> (shouted: String)
    ensures
        shouted@ == shouty_snake_case(text@),
{
    format!("{}", heck::AsShoutySnakeCase(text))
}

} // verus!
