//! Cross-cutting input validation: the blank-username and email-shape rules.

use vstd::prelude::*;
use vstd::string::StrSliceExecFns;

verus! {

/// The characters with Unicode's `White_Space` property: exactly the set
/// that `str::trim` strips from both ends.
pub open spec fn is_space_char(c: char) -> bool {
    c == ' ' || c == '\t' || c == '\n' || c == '\r' || c == '\u{0b}' || c == '\u{0c}'
        || c == '\u{85}' || c == '\u{a0}' || c == '\u{1680}' || c == '\u{2000}'
        || c == '\u{2001}' || c == '\u{2002}' || c == '\u{2003}' || c == '\u{2004}'
        || c == '\u{2005}' || c == '\u{2006}' || c == '\u{2007}' || c == '\u{2008}'
        || c == '\u{2009}' || c == '\u{200a}' || c == '\u{2028}' || c == '\u{2029}'
        || c == '\u{202f}' || c == '\u{205f}' || c == '\u{3000}'
}

/// A string is blank when trimming leaves nothing: every character is
/// white space (an empty string is blank).
pub open spec fn is_blank(s: Seq<char>) -> bool {
    forall|i: int| 0 <= i < s.len() ==> is_space_char(s[i])
}

/// The email rule: the string contains an `@` character somewhere.
pub open spec fn has_at(s: Seq<char>) -> bool {
    exists|i: int| 0 <= i < s.len() && s[i] == '@'
}

/// Decides membership in the `White_Space` set.
pub fn char_is_space(c: char) -> (r: bool)
    ensures
        r == is_space_char(c),
{
    match c {
        ' ' | '\t' | '\n' | '\r' | '\u{0b}' | '\u{0c}' | '\u{85}' | '\u{a0}' | '\u{1680}'
        | '\u{2000}' | '\u{2001}' | '\u{2002}' | '\u{2003}' | '\u{2004}' | '\u{2005}'
        | '\u{2006}' | '\u{2007}' | '\u{2008}' | '\u{2009}' | '\u{200a}' | '\u{2028}'
        | '\u{2029}' | '\u{202f}' | '\u{205f}' | '\u{3000}' => true,
        _ => false,
    }
}

/// Decides whether a username is empty or consists of white space only.
pub fn username_blank(s: &str) -> (r: bool)
    ensures
        r == is_blank(s@),
{
    let n = s.unicode_len();
    let mut i: usize = 0;
    while i < n
        invariant
            n == s@.len(),
            i <= n,
            forall|j: int| 0 <= j < i ==> is_space_char(s@[j]),
        decreases n - i,
    {
        let c = s.get_char(i);
        if !char_is_space(c) {
            assert(!is_blank(s@)) by {
                assert(!is_space_char(s@[i as int]));
            }
            return false;
        }
        i += 1;
    }
    true
}

/// Decides whether a string contains an `@` character.
pub fn email_has_at(s: &str) -> (r: bool)
    ensures
        r == has_at(s@),
{
    let n = s.unicode_len();
    let mut i: usize = 0;
    while i < n
        invariant
            n == s@.len(),
            i <= n,
            forall|j: int| 0 <= j < i ==> s@[j] != '@',
        decreases n - i,
    {
        let c = s.get_char(i);
        if c == '@' {
            assert(has_at(s@)) by {
                assert(s@[i as int] == '@');
            }
            return true;
        }
        i += 1;
    }
    false
}

} // verus!
