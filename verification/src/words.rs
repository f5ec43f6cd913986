//! The word counter.
//!
//! What counts as a word is decided by `voca_rs`, which segments text by
//! Unicode word boundaries. The count is therefore an uninterpreted function
//! of the text, and nothing in this module is proved.

use vstd::prelude::*;

verus! {

/// The number of words that `voca_rs` finds in `subject` when words are told
/// apart by `pattern`.
pub uninterp spec fn word_count(subject: Seq<char>, pattern: Seq<char>) -> usize;

/// Calls `voca_rs::count::count_words`.
///
/// Assumed: the count depends on the two texts alone, and a subject without
/// characters has no words.
#[verifier::external_body]
pub(crate) fn count(subject: &str, pattern: &str) -> (n: usize)
    ensures
        n == word_count(subject@, pattern@),
        subject@.len() == 0 ==> n == 0,
{
    voca_rs::count::count_words(subject, pattern)
}

} // verus!
