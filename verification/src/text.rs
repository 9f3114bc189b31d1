use vstd::prelude::*;
use vstd::utf8::{decode_utf8, valid_utf8};

verus! {

/// Whether a character has the Unicode `White_Space` property, the property
/// `char::is_whitespace` and `str::trim` go by: tab through carriage return,
/// space, next line, no-break space, ogham space mark, the spaces from en quad
/// to hair space, line and paragraph separators, narrow no-break space, medium
/// mathematical space and ideographic space.
pub open spec fn is_white_space(c: char) -> bool {
    let code = c as u32;
    ||| 0x9 <= code <= 0xD
    ||| code == 0x20
    ||| code == 0x85
    ||| code == 0xA0
    ||| code == 0x1680
    ||| 0x2000 <= code <= 0x200A
    ||| code == 0x2028
    ||| code == 0x2029
    ||| code == 0x202F
    ||| code == 0x205F
    ||| code == 0x3000
}

/// Whether `c` is white space.
fn char_is_whitespace(c: char) -> (answer: bool)
    ensures
        answer == is_white_space(c),
{
    let code: u32 = c as u32;
    (0x9 <= code && code <= 0xD) || code == 0x20 || code == 0x85 || code == 0xA0 || code == 0x1680
        || (0x2000 <= code && code <= 0x200A) || code == 0x2028 || code == 0x2029 || code == 0x202F
        || code == 0x205F || code == 0x3000
}

/// Calls `String::from_utf8`: the bytes decoded as UTF-8 when they are valid
/// UTF-8, nothing otherwise (the outside error is dropped).
#[verifier::external_body]
pub(crate) fn decode_utf8_bytes(bytes: Vec<u8>) -> (text: Option<String>)
    ensures
        text is Some <==> valid_utf8(bytes@),
        text matches Some(text) ==> text@ == decode_utf8(bytes@),
{
    String::from_utf8(bytes).ok()
}

/// A text is blank when every character of it is white space; such a text
/// trims to nothing.
pub open spec fn is_blank(text: Seq<char>) -> bool {
    forall|i: int| 0 <= i < text.len() ==> #[trigger] is_white_space(text[i])
}

/// Whether `text` trims to the empty string.
pub(crate) fn is_blank_text(text: &str) -> (blank: bool)
    ensures
        blank == is_blank(text@),
{
    broadcast use vstd::string::group_string_axioms;
    let ghost all = text@;
    for c in it: text.chars()
        invariant
            all == text@,
            it.seq() == all,
            forall|i: int| 0 <= i < it.index() ==> #[trigger] is_white_space(all[i]),
    {
        if !char_is_whitespace(c) {
            return false;
        }
    }
    true
}

} // verus!
