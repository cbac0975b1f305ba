//! Syntactic validity of account identifiers.
//!
//! An account identifier is 2 to 64 characters, each a lowercase letter, a
//! digit, or one of the separators `-`, `_`, `.`; a separator may not begin
//! or end the identifier and two separators may not be adjacent.

use vstd::prelude::*;
use vstd::string::StrSliceExecFns;

verus! {

/// A lowercase ASCII letter or an ASCII digit.
pub open spec fn is_name_char(c: char) -> bool {
    (97 <= c as u32 && c as u32 <= 122) || (48 <= c as u32 && c as u32 <= 57)
}

/// One of the separators `-` (45), `_` (95), `.` (46).
pub open spec fn is_separator_char(c: char) -> bool {
    c as u32 == 45 || c as u32 == 95 || c as u32 == 46
}

/// The account-identifier grammar: bounded length, only name characters and
/// separators, and no leading, trailing or adjacent separator.
pub open spec fn valid_account_id(s: Seq<char>) -> bool {
    &&& 2 <= s.len() <= 64
    &&& forall|i: int|
        0 <= i < s.len() ==> is_name_char(#[trigger] s[i]) || is_separator_char(s[i])
    &&& !is_separator_char(s[0])
    &&& !is_separator_char(s[s.len() - 1])
    &&& forall|i: int|
        0 < i < s.len() ==> !(is_separator_char(s[i - 1]) && is_separator_char(#[trigger] s[i]))
}

/// Decides `valid_account_id` for a string.
pub fn is_valid_account_id(s: &str) -> (r: bool)
    ensures
        r == valid_account_id(s@),
{
    let n = s.unicode_len();
    if n < 2 || n > 64 {
        return false;
    }
    let mut last_sep = true;
    let mut i: usize = 0;
    while i < n
        invariant
            0 <= i <= n,
            2 <= n <= 64,
            n == s@.len(),
            forall|j: int| 0 <= j < i ==> is_name_char(#[trigger] s@[j]) || is_separator_char(s@[j]),
            forall|j: int|
                0 < j < i ==> !(is_separator_char(s@[j - 1]) && is_separator_char(#[trigger] s@[j])),
            i == 0 ==> last_sep,
            i > 0 ==> last_sep == is_separator_char(s@[i - 1]),
            i > 0 ==> !is_separator_char(s@[0]),
        decreases n - i,
    {
        let c = s.get_char(i);
        let u = c as u32;
        let name_char = (97 <= u && u <= 122) || (48 <= u && u <= 57);
        let sep_char = u == 45 || u == 95 || u == 46;
        if !name_char && !sep_char {
            return false;
        }
        if sep_char && last_sep {
            return false;
        }
        last_sep = sep_char;
        i = i + 1;
    }
    !last_sep
}

} // verus!
