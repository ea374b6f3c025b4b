use vstd::prelude::*;

verus! {

/// A code point of one of the three private-use areas of Unicode:
/// U+E000..=U+F8FF, U+F0000..=U+FFFFD and U+100000..=U+10FFFD.
pub open spec fn private_use(c: char) -> bool {
    let n = c as u32;
    (0xE000 <= n && n <= 0xF8FF) || (0xF0000 <= n && n <= 0xFFFFD) || (0x100000 <= n && n
        <= 0x10FFFD)
}

/// Whether `c` lies in a private-use area. Platforms use these code points for
/// their own signalling, so such characters are never handed to the application.
pub fn is_private_use_character(c: char) -> (r: bool)
    ensures
        r == private_use(c),
{
    let n = c as u32;
    (0xE000 <= n && n <= 0xF8FF) || (0xF0000 <= n && n <= 0xFFFFD) || (0x100000 <= n && n
        <= 0x10FFFD)
}

} // verus!
