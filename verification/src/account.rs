//! Syntactic validation of account identifiers.
//!
//! The host accepts an account identifier when it is 2 to 64 characters
//! long, drawn from lowercase letters, digits and the separators `-`,
//! `_` and `.`, with no separator at the start or the end and no two
//! separators adjacent (each dot-separated part matches
//! `[a-z0-9]+([-_][a-z0-9]+)*`).
use vstd::prelude::*;
use vstd::string::StrSliceExecFns;

verus! {

/// A separator character of an account identifier.
pub open spec fn is_account_separator(c: char) -> bool {
    c == '-' || c == '_' || c == '.'
}

/// A non-separator character allowed in an account identifier.
pub open spec fn is_account_symbol(c: char) -> bool {
    ('a' <= c && c <= 'z') || ('0' <= c && c <= '9')
}

/// The host's rule for a syntactically valid account identifier.
pub open spec fn valid_account_id(s: Seq<char>) -> bool {
    &&& 2 <= s.len() && s.len() <= 64
    &&& forall|i: int|
        0 <= i < s.len() ==> is_account_symbol(#[trigger] s[i]) || is_account_separator(s[i])
    &&& forall|i: int|
        0 <= i < s.len() && is_account_separator(#[trigger] s[i]) ==> i > 0
            && !is_account_separator(s[i - 1])
    &&& !is_account_separator(s[s.len() - 1])
}

/// Decides `valid_account_id` for a character sequence held as a string.
pub fn is_valid_account(s: &str) -> (b: bool)
    ensures
        b == valid_account_id(s@),
{
    let n = s.unicode_len();
    if n < 2 || n > 64 {
        return false;
    }
    let mut i: usize = 0;
    // As in the host's validator, the scan starts as if a separator
    // preceded the string, so a leading separator is rejected.
    let mut prev_sep: bool = true;
    while i < n
        invariant
            2 <= n <= 64,
            n == s@.len(),
            0 <= i <= n,
            forall|j: int|
                0 <= j < i ==> is_account_symbol(#[trigger] s@[j]) || is_account_separator(s@[j]),
            forall|j: int|
                0 <= j < i && is_account_separator(#[trigger] s@[j]) ==> j > 0
                    && !is_account_separator(s@[j - 1]),
            prev_sep == if i == 0 {
                true
            } else {
                is_account_separator(s@[i - 1])
            },
        decreases n - i,
    {
        let c = s.get_char(i);
        let sep = c == '-' || c == '_' || c == '.';
        let sym = ('a' <= c && c <= 'z') || ('0' <= c && c <= '9');
        if !sep && !sym {
            return false;
        }
        if sep && prev_sep {
            return false;
        }
        prev_sep = sep;
        i = i + 1;
    }
    !prev_sep
}

} // verus!
