//! The document model: a delta is an ordered list of insert operations.

use crate::json::{json_elements, json_member, json_string, json_value, member, parse};
use vstd::prelude::*;

verus! {

/// The one way a document is refused: it does not have the shape of a delta.
#[derive(Debug, Clone, Copy, PartialEq, Eq)]
pub struct MalformedDocument;

/// Stands for a value that the document held and that was not kept.
#[derive(Debug, Clone, Copy, PartialEq, Eq)]
pub struct Ignored;

/// What an operation inserts.
#[derive(Debug, PartialEq, Eq)]
pub enum Insert {
    /// A run of text.
    Text(String),
    /// Anything that is not text, such as an image. Its content is not kept.
    Other,
}

impl View for Insert {
    type V = Option<Seq<char>>;

    /// The text of a text insert, `None` for any other.
    open spec fn view(&self) -> Option<Seq<char>> {
        match self {
            Insert::Text(run) => Some(run@),
            Insert::Other => None,
        }
    }
}

/// One operation as a mathematical value.
pub struct Operation {
    /// The inserted text, or `None` where the operation inserts something else.
    pub insert: Option<Seq<char>>,
    /// Whether formatting attributes came with the operation.
    pub attributes: Option<Ignored>,
}

/// One step of a delta: what it inserts, and whether it was formatted.
#[derive(Debug, PartialEq, Eq)]
pub struct DeltaOps {
    insert: Insert,
    attributes: Option<Ignored>,
}

impl View for DeltaOps {
    type V = Operation;

    closed spec fn view(&self) -> Operation {
        Operation { insert: self.insert@, attributes: self.attributes }
    }
}

/// A document body: its operations in document order.
#[derive(Debug, PartialEq, Eq)]
pub struct Delta {
    ops: Vec<DeltaOps>,
}

impl View for Delta {
    type V = Seq<Operation>;

    closed spec fn view(&self) -> Seq<Operation> {
        self.ops@.map_values(|op: DeltaOps| op@)
    }
}

/// The operation that a JSON value stands for: it must have an `insert`
/// member, which is text exactly when it is a string. An `attributes` member
/// is noted and otherwise left alone.
pub open spec fn operation_of(value: serde_json::Value) -> Option<Operation> {
    match json_member(value, "insert"@) {
        Some(payload) => Some(
            Operation {
                insert: json_string(payload),
                attributes: if json_member(value, "attributes"@) is Some {
                    Some(Ignored)
                } else {
                    None
                },
            },
        ),
        None => None,
    }
}

/// The operations that a JSON value stands for: it must have an `ops` member
/// that is an array, every element of which stands for an operation.
pub open spec fn operations_of(value: serde_json::Value) -> Option<Seq<Operation>> {
    match json_member(value, "ops"@) {
        Some(ops) => match json_elements(ops) {
            Some(elements) => if forall|i: int|
                0 <= i < elements.len() ==> operation_of(#[trigger] elements[i]) is Some {
                Some(elements.map_values(|element: serde_json::Value| operation_of(element)->0))
            } else {
                None
            },
            None => None,
        },
        None => None,
    }
}

/// The operations that a serialized document stands for: the text must be
/// JSON, and the value it denotes must stand for a sequence of operations.
pub open spec fn document_of(text: Seq<char>) -> Option<Seq<Operation>> {
    match json_value(text) {
        Some(value) => operations_of(value),
        None => None,
    }
}

/// The texts of the text operations, in document order.
pub open spec fn text_runs(ops: Seq<Operation>) -> Seq<Seq<char>> {
    ops.filter_map(|op: Operation| op.insert)
}

/// The text of a document: its text runs joined with nothing in between.
pub open spec fn plain_text(ops: Seq<Operation>) -> Seq<char> {
    text_runs(ops).flatten()
}

impl DeltaOps {
    /// An operation that inserts `insert`, with or without formatting.
    pub fn new(insert: Insert, attributes: Option<Ignored>) -> (op: DeltaOps)
        ensures
            op@ == (Operation { insert: insert@, attributes }),
    {
        DeltaOps { insert, attributes }
    }

    /// What the operation inserts.
    pub fn insert(&self) -> (r: &Insert)
        ensures
            r@ == self@.insert,
    {
        &self.insert
    }

    /// Whether formatting attributes came with the operation.
    pub fn attributes(&self) -> (r: Option<Ignored>)
        ensures
            r == self@.attributes,
    {
        self.attributes
    }

    /// Decodes one operation from a JSON value.
    pub fn from_value(value: &serde_json::Value) -> (r: Result<DeltaOps, MalformedDocument>)
        ensures
            match operation_of(*value) {
                Some(op) => r matches Ok(decoded) && decoded@ == op,
                None => r is Err,
            },
    {
        match member(value, "insert") {
            Some(payload) => {
                let insert = match payload.as_str() {
                    Some(run) => Insert::Text(run.to_owned()),
                    None => Insert::Other,
                };
                let attributes = match member(value, "attributes") {
                    Some(_) => Some(Ignored),
                    None => None,
                };
                Ok(DeltaOps { insert, attributes })
            },
            None => Err(MalformedDocument),
        }
    }
}

impl Delta {
    /// The document made of `ops`, in that order.
    pub fn new(ops: Vec<DeltaOps>) -> (delta: Delta)
        ensures
            delta@ == ops@.map_values(|op: DeltaOps| op@),
    {
        Delta { ops }
    }

    /// The operations, in document order.
    pub fn ops(&self) -> (r: &Vec<DeltaOps>)
        ensures
            r@.map_values(|op: DeltaOps| op@) == self@,
    {
        &self.ops
    }

    /// Decodes a document body from a JSON value.
    pub fn from_value(value: &serde_json::Value) -> (r: Result<Delta, MalformedDocument>)
        ensures
            match operations_of(*value) {
                Some(ops) => r matches Ok(delta) && delta@ == ops,
                None => r is Err,
            },
    {
        let elements = match member(value, "ops") {
            Some(ops) => match ops.as_array() {
                Some(elements) => elements,
                None => { return Err(MalformedDocument); },
            },
            None => { return Err(MalformedDocument); },
        };
        let mut ops: Vec<DeltaOps> = Vec::new();
        let mut i: usize = 0;
        while i < elements.len()
            invariant
                i <= elements.len(),
                ops.len() == i,
                json_member(*value, "ops"@) matches Some(list) && json_elements(list) == Some(
                    elements@,
                ),
                forall|j: int| 0 <= j < i ==> operation_of(#[trigger] elements@[j]) == Some(ops@[j]@),
            decreases elements.len() - i,
        {
            match DeltaOps::from_value(&elements[i]) {
                Ok(op) => ops.push(op),
                Err(e) => { return Err(e); },
            }
            i += 1;
        }
        let delta = Delta { ops };
        assert(delta@ =~= operations_of(*value)->0);
        Ok(delta)
    }

    /// Decodes a serialized document body.
    pub fn from_json(text: &str) -> (r: Result<Delta, MalformedDocument>)
        ensures
            match document_of(text@) {
                Some(ops) => r matches Ok(delta) && delta@ == ops,
                None => r is Err,
            },
    {
        match parse(text) {
            Ok(value) => Delta::from_value(&value),
            Err(_) => Err(MalformedDocument),
        }
    }

    /// The text of the document.
    pub fn text(&self) -> (r: String)
        ensures
            r@ == plain_text(self@),
    {
        let mut text = String::new();
        let mut i: usize = 0;
        while i < self.ops.len()
            invariant
                i <= self.ops.len(),
                text@ == plain_text(self@.take(i as int)),
            decreases self.ops.len() - i,
        {
            match &self.ops[i].insert {
                Insert::Text(run) => text.append(run.as_str()),
                Insert::Other => {},
            }
            proof {
                let done = self@.take(i as int);
                self@.lemma_filter_map_take_succ(|op: Operation| op.insert, i as int);
                match self@[i as int].insert {
                    Some(run) => {
                        text_runs(done).lemma_flatten_push(run);
                        assert(text_runs(done) + seq![run] =~= text_runs(done).push(run));
                    },
                    None => {
                        assert(text_runs(done) + Seq::<Seq<char>>::empty() =~= text_runs(done));
                    },
                }
            }
            i += 1;
        }
        assert(self@.take(i as int) =~= self@);
        text
    }
}

} // verus!
