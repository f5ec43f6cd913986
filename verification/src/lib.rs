//! Word counts for rich-text documents.
//!
//! A document body is a *delta*: JSON of the form
//! `{"ops": [{"insert": ..., "attributes": ...}, ...]}`, an ordered list of
//! insert operations. An operation inserts a run of text when its `insert`
//! member is a string, and something else (an image, say) when it is any
//! other value. Formatting attributes are optional and never read.
//!
//! [`try_count_words`] decodes such a document, joins its text runs in
//! document order with nothing in between, and counts the words of the
//! result. A document that does not have this shape is refused as a
//! [`MalformedDocument`].
//!
//! The modules:
//! - [`delta`]: the document model, how it is decoded, and its text;
//! - [`count`]: the word count of a document;
//! - [`laws`]: what holds of every document;
//! - [`json`] and [`words`]: the JSON decoder and the word counter, both
//!   taken from other crates and specified here without proof.

pub mod count;
pub mod delta;
pub mod json;
pub mod laws;
pub mod words;

pub use count::try_count_words;
pub use delta::{Delta, DeltaOps, Ignored, Insert, MalformedDocument};
