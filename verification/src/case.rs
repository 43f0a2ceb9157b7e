use vstd::prelude::*;

verus! {

/// What `str::to_lowercase` returns for `s`: the Unicode lowercase mapping
/// of each character, one character possibly becoming several.
pub uninterp spec fn lowercase(s: Seq<char>) -> Seq<char>;

/// What `str::to_uppercase` returns for `s`: the Unicode uppercase mapping
/// of each character, one character possibly becoming several.
pub uninterp spec fn uppercase(s: Seq<char>) -> Seq<char>;

/// Every character is ASCII.
pub open spec fn all_ascii(s: Seq<char>) -> bool {
    forall|i: int| 0 <= i < s.len() ==> (#[trigger] s[i] as u32) < 128
}

/// `A`..`Z` to `a`..`z`, every other character kept.
pub open spec fn ascii_lower(c: char) -> char {
    if 'A' <= c <= 'Z' {
        ((c as u32) + 32) as char
    } else {
        c
    }
}

/// `a`..`z` to `A`..`Z`, every other character kept.
pub open spec fn ascii_upper(c: char) -> char {
    if 'a' <= c <= 'z' {
        ((c as u32) - 32) as char
    } else {
        c
    }
}

pub open spec fn ascii_lowercase(s: Seq<char>) -> Seq<char> {
    s.map_values(|c: char| ascii_lower(c))
}

pub open spec fn ascii_uppercase(s: Seq<char>) -> Seq<char> {
    s.map_values(|c: char| ascii_upper(c))
}

/// Calls `str::to_lowercase`. Its contract claims only that the result is
/// a function of `s` alone, named `lowercase`, that a text with a character
/// gives a text with at least one (every character maps to one or more), and
/// that on ASCII text it
/// maps `A`..`Z` to `a`..`z` and keeps every other character (the Unicode
/// lowercase mapping of each ASCII character is that one character); the
/// Unicode case tables it applies to other text are not restated here.
#[verifier::external_body]
pub(crate) fn to_lowercase(s: &str) -> (r: String)
    ensures
        r@ == lowercase(s@),
        s@.len() > 0 ==> r@.len() > 0,
        all_ascii(s@) ==> r@ == ascii_lowercase(s@),
{
    s.to_lowercase()
}

/// Calls `str::to_uppercase`. Its contract claims only that the result is
/// a function of `s` alone, named `uppercase`, that a text with a character
/// gives a text with at least one (every character maps to one or more), and
/// that on ASCII text it
/// maps `a`..`z` to `A`..`Z` and keeps every other character (the Unicode
/// uppercase mapping of each ASCII character is that one character); the
/// Unicode case tables it applies to other text are not restated here.
#[verifier::external_body]
pub(crate) fn to_uppercase(s: &str) -> (r: String)
    ensures
        r@ == uppercase(s@),
        s@.len() > 0 ==> r@.len() > 0,
        all_ascii(s@) ==> r@ == ascii_uppercase(s@),
{
    s.to_uppercase()
}

} // verus!
