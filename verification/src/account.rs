//! Validity of account identifiers: the signer of a transaction and the
//! account a status lookup is keyed by.
//!
//! An identifier is 2 to 64 characters of lowercase letters and digits,
//! broken by single separators (`-`, `_`, `.`) that never stand first,
//! last, or next to another separator.

use vstd::prelude::*;

verus! {

/// A character admissible outside separator positions.
pub open spec fn is_account_char(c: char) -> bool {
    ('a' <= c && c <= 'z') || ('0' <= c && c <= '9')
}

/// A separator character.
pub open spec fn is_account_separator(c: char) -> bool {
    c == '-' || c == '_' || c == '.'
}

/// What it means for a character sequence to be a valid account id.
pub open spec fn valid_account_id_seq(s: Seq<char>) -> bool {
    &&& 2 <= s.len() <= 64
    &&& forall|i: int|
        0 <= i < s.len() ==> (is_account_char(#[trigger] s[i]) || is_account_separator(s[i]))
    &&& !is_account_separator(s[0])
    &&& !is_account_separator(s[s.len() - 1])
    &&& forall|i: int|
        0 <= i < s.len() - 1 ==> !(is_account_separator(#[trigger] s[i])
            && is_account_separator(s[i + 1]))
}

/// Decides validity of an account identifier.
pub fn is_valid_account_id(account_id: &str) -> (r: bool)
    ensures
        r == valid_account_id_seq(account_id@),
{
    let n = account_id.unicode_len();
    if n < 2 || n > 64 {
        return false;
    }
    let mut last_sep: bool = true;
    let mut i: usize = 0;
    while i < n
        invariant
            2 <= n <= 64,
            n == account_id@.len(),
            0 <= i <= n,
            forall|j: int|
                0 <= j < i ==> (is_account_char(#[trigger] account_id@[j])
                    || is_account_separator(account_id@[j])),
            forall|j: int|
                0 <= j < i - 1 ==> !(is_account_separator(#[trigger] account_id@[j])
                    && is_account_separator(account_id@[j + 1])),
            i == 0 ==> last_sep,
            i > 0 ==> last_sep == is_account_separator(account_id@[i - 1]),
            i > 0 ==> !is_account_separator(account_id@[0]),
        decreases n - i,
    {
        let c = account_id.get_char(i);
        let ok_char = ('a' <= c && c <= 'z') || ('0' <= c && c <= '9');
        let sep = c == '-' || c == '_' || c == '.';
        if !ok_char && !sep {
            return false;
        }
        if sep && last_sep {
            return false;
        }
        last_sep = sep;
        i += 1;
    }
    !last_sep
}

} // verus!
