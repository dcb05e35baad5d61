//! A look at an Argon2 hash string before the backend reads it.
//!
//! The backend multiplies the parallelism that a hash string names before it
//! checks its range, so a string that names a huge one must not reach it.
//! Such a string is no hash of any password; it is told apart here, on the
//! characters of the string alone.

use crate::text::characters;
use vstd::prelude::*;

verus! {

/// The highest degree of parallelism that Argon2 allows: 2^24 - 1.
pub const MAX_PARALLELISM: u32 = 16777215;

/// Whether `c` is one of the ten decimal digits.
pub open spec fn is_digit(c: char) -> bool {
    '0' <= c && c <= '9'
}

/// The number that the decimal digits from position `from` on spell, read
/// after a number `read` that earlier digits gave. It ends at the first
/// character that is no digit, or at the end of the text.
pub open spec fn number_from(text: Seq<char>, from: int, read: nat) -> nat
    decreases text.len() - from,
{
    if 0 <= from < text.len() && is_digit(text[from]) {
        number_from(text, from + 1, read * 10 + (text[from] as u32 - '0' as u32) as nat)
    } else {
        read
    }
}

/// Whether the two characters at `at` are `p=`, the name of the parallelism
/// in the parameters of a hash string.
pub open spec fn names_parallelism(text: Seq<char>, at: int) -> bool {
    0 <= at && at + 1 < text.len() && text[at] == 'p' && text[at + 1] == '='
}

/// Whether every `p=` in the text is followed by a number of at most
/// 2^24 - 1. No other part of a hash string may hold a `=` behind a `p`, so
/// this holds of every string that names an allowed parallelism, or none.
pub open spec fn parallelism_in_range(text: Seq<char>) -> bool {
    forall|at: int| #[trigger]
        names_parallelism(text, at) ==> number_from(text, at + 2, 0) <= MAX_PARALLELISM
}

/// Further digits never make a number smaller.
pub proof fn lemma_number_grows(text: Seq<char>, from: int, read: nat)
    ensures
        number_from(text, from, read) >= read,
    decreases text.len() - from,
{
    if 0 <= from < text.len() && is_digit(text[from]) {
        lemma_number_grows(
            text,
            from + 1,
            read * 10 + (text[from] as u32 - '0' as u32) as nat,
        );
    }
}

/// Whether the number that starts at `from` is at most 2^24 - 1.
fn number_in_range(chars: &Vec<char>, from: usize) -> (in_range: bool)
    ensures
        in_range == (number_from(chars@, from as int, 0) <= MAX_PARALLELISM),
{
    let mut at: usize = from;
    let mut read: u32 = 0;
    while at < chars.len() && '0' <= chars[at] && chars[at] <= '9'
        invariant
            from <= at,
            read <= MAX_PARALLELISM,
            number_from(chars@, from as int, 0) == number_from(chars@, at as int, read as nat),
        decreases chars.len() - at,
    {
        let digit: u32 = chars[at] as u32 - '0' as u32;
        let next: u32 = read * 10 + digit;
        if next > MAX_PARALLELISM {
            proof {
                lemma_number_grows(chars@, at + 1, next as nat);
            }
            return false;
        }
        read = next;
        at = at + 1;
    }
    true
}

/// Whether every `p=` in `text` is followed by a number of at most
/// 2^24 - 1.
pub fn has_parallelism_in_range(text: &str) -> (in_range: bool)
    ensures
        in_range == parallelism_in_range(text@),
{
    let chars = characters(text);
    let mut at: usize = 0;
    while at < chars.len()
        invariant
            chars@ == text@,
            forall|before: int|
                0 <= before < at && #[trigger] names_parallelism(text@, before) ==> number_from(
                    text@,
                    before + 2,
                    0,
                ) <= MAX_PARALLELISM,
        decreases chars.len() - at,
    {
        if chars[at] == 'p' && at + 1 < chars.len() && chars[at + 1] == '=' {
            assert(names_parallelism(text@, at as int));
            if !number_in_range(&chars, at + 2) {
                return false;
            }
        }
        at = at + 1;
    }
    true
}

} // verus!
