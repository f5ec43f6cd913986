//! Counting the words of a document.

use crate::delta::{document_of, plain_text, Delta, MalformedDocument};
use crate::words::{count, word_count};
use vstd::prelude::*;

verus! {

/// The number of words in a text. A text without characters has none; in any
/// other text the words are those that the word counter finds on its own,
/// with no pattern given to it.
pub open spec fn words(text: Seq<char>) -> usize {
    if text.len() == 0 {
        0
    } else {
        word_count(text, Seq::empty())
    }
}

/// The outcome of counting the words of a serialized document: the words of
/// its text where it stands for a delta, a refusal where it does not.
pub open spec fn words_of_document(text: Seq<char>) -> Result<usize, MalformedDocument> {
    match document_of(text) {
        Some(ops) => Ok(words(plain_text(ops))),
        None => Err(MalformedDocument),
    }
}

impl Delta {
    /// Counts the words of the document's text.
    pub fn count_words(&self) -> (n: usize)
        ensures
            n == words(plain_text(self@)),
    {
        let text = self.text();
        proof {
            reveal_strlit("");
            assert(""@ =~= Seq::<char>::empty());
        }
        count(text.as_str(), "")
    }
}

/// Counts the words of a serialized document.
///
/// The text must be JSON of the form `{"ops": [{"insert": ...}, ...]}`. Only
/// inserts that are strings count; they are joined in order, with nothing in
/// between, before the words are counted.
pub fn try_count_words(text: &str) -> (r: Result<usize, MalformedDocument>)
    ensures
        r == words_of_document(text@),
{
    match Delta::from_json(text) {
        Ok(delta) => Ok(delta.count_words()),
        Err(e) => Err(e),
    }
}

} // verus!
