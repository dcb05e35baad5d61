//! The complexity requirement on new passwords: an estimated strength
//! score, compared with a configured minimum.

use crate::backend::estimate_score;
use crate::text::characters;
use vstd::prelude::*;

verus! {

/// The highest score that the estimator gives.
pub const MAX_SCORE: u8 = 4;

/// How many characters of a password the estimator is shown: 20 where
/// `usize` has 64 bits, 12 where it has fewer.
///
/// The estimator counts with unchecked arithmetic: it takes the factorial
/// of the number of patterns that it finds, in `usize`, and multiplies
/// ranks and numbers of variations, and powers of the number of neighbours
/// of a key, in `u64`. On no more characters than these none of that
/// overflows.
pub open spec fn estimated_len() -> nat {
    if usize::BITS >= 64 {
        20
    } else {
        12
    }
}

/// The part of a password that is estimated: the password itself, or its
/// first `estimated_len()` characters where it is longer.
pub open spec fn estimated_part(password: Seq<char>) -> Seq<char> {
    if password.len() <= estimated_len() {
        password
    } else {
        password.take(estimated_len() as int)
    }
}

/// The requirement itself: the score reaches the minimum.
pub open spec fn meets_minimum(score: u8, minimum_complexity: u8) -> bool {
    score >= minimum_complexity
}

/// Whether `enough` is an answer that may be given for the estimated part
/// `estimated` of a password.
///
/// The estimator's score is not fixed by the characters alone (it weighs
/// years against the current one, and it walks hash maps), so the answer is
/// described by what every score allows: it lies in `0..=4`, and it is 0
/// where nothing is to be estimated.
pub open spec fn complexity_admits(estimated: Seq<char>, minimum_complexity: u8, enough: bool) -> bool {
    exists|score: u8|
        {
            &&& score <= MAX_SCORE
            &&& estimated.len() == 0 ==> score == 0
            &&& enough == #[trigger] meets_minimum(score, minimum_complexity)
        }
}

/// Compares a score with the configured minimum.
pub fn score_meets_minimum(score: u8, minimum_complexity: u8) -> (enough: bool)
    ensures
        enough == meets_minimum(score, minimum_complexity),
{
    score >= minimum_complexity
}

/// The number of characters that the estimator is shown on this machine.
pub fn estimated_limit() -> (limit: usize)
    ensures
        limit == estimated_len(),
{
    if usize::BITS >= 64 {
        20
    } else {
        12
    }
}

/// Estimates the strength of `password` and compares it with the minimum.
///
/// A password of more than `estimated_len()` characters is judged by its
/// first `estimated_len()` characters alone. A minimum of 0 lets every
/// password pass and a minimum above 4 lets none pass; the empty password
/// passes a minimum of 0 only.
pub fn password_meets_minimum(password: &str, minimum_complexity: u8) -> (enough: bool)
    ensures
        complexity_admits(estimated_part(password@), minimum_complexity, enough),
        minimum_complexity == 0 ==> enough,
        minimum_complexity > MAX_SCORE ==> !enough,
        password@.len() == 0 ==> enough == (minimum_complexity == 0),
{
    let mut shown = characters(password);
    let limit = estimated_limit();
    if shown.len() > limit {
        shown.truncate(limit);
    }
    assert(shown@ =~= estimated_part(password@));
    let score: u8 = estimate_score(shown.as_slice());
    let enough = score_meets_minimum(score, minimum_complexity);
    assert(enough == meets_minimum(score, minimum_complexity));
    enough
}

/// No password is refused under a minimum of 0, none is admitted under a
/// minimum above 4, and the empty password is admitted under a minimum of 0
/// only.
pub proof fn lemma_complexity_bounds(password: Seq<char>, minimum_complexity: u8, enough: bool)
    requires
        complexity_admits(password, minimum_complexity, enough),
    ensures
        minimum_complexity == 0 ==> enough,
        minimum_complexity > MAX_SCORE ==> !enough,
        password.len() == 0 ==> enough == (minimum_complexity == 0),
{
}

} // verus!
