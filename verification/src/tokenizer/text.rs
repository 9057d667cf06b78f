use vstd::prelude::*;

verus! {

/// `String::push` of the standard library: the text afterwards is the text before with the
/// one character `c` added at its end. This is taken from the documentation of the standard
/// library and is not proved here.
pub assume_specification[ String::push ](text: &mut String, c: char)
    ensures
        final(text)@ == old(text)@.push(c),
;

/// `char::from_u32` of the standard library: a number that is a Unicode scalar value, that
/// is at most 0x10FFFF and no surrogate, gives the character with that number; every other
/// number gives `None`. This is taken from the documentation of the standard library and is
/// not proved here.
pub assume_specification[ char::from_u32 ](i: u32) -> (r: Option<char>)
    ensures
        r == if i <= 0xD7FF || (0xE000 <= i && i <= 0x10FFFF) {
            Some(i as char)
        } else {
            None
        },
;

} // verus!
