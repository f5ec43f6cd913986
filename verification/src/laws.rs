//! What holds of every document, proved from the definitions in `delta` and
//! `count`.

use crate::count::{words, words_of_document};
use crate::delta::{operation_of, operations_of, plain_text, text_runs, Operation};
use crate::json::{json_elements, json_member, json_value};
use vstd::prelude::*;

verus! {

/// Document order is kept: the text runs of two sequences of operations laid
/// end to end are the runs of the first followed by the runs of the second.
pub proof fn lemma_text_runs_concat(a: Seq<Operation>, b: Seq<Operation>)
    ensures
        text_runs(a + b) == text_runs(a) + text_runs(b),
    decreases b.len(),
{
    if b.len() == 0 {
        assert(a + b =~= a);
        assert(text_runs(a) + text_runs(b) =~= text_runs(a));
    } else {
        lemma_text_runs_concat(a, b.drop_last());
        assert((a + b).drop_last() =~= a + b.drop_last());
        assert((a + b).last() == b.last());
        assert(text_runs(a + b) =~= text_runs(a) + text_runs(b));
    }
}

/// Text runs are joined with no separator: the text of two parts laid end to
/// end is the text of the first directly followed by the text of the second.
/// So a word that is split over two operations counts as it would in one.
pub proof fn lemma_no_separator(a: Seq<Operation>, b: Seq<Operation>)
    ensures
        plain_text(a + b) == plain_text(a) + plain_text(b),
{
    lemma_text_runs_concat(a, b);
    vstd::seq_lib::lemma_flatten_concat(text_runs(a), text_runs(b));
}

/// The text of a single operation is its run of text, or nothing at all
/// where it inserts something else.
pub proof fn lemma_single_operation(op: Operation)
    ensures
        plain_text(seq![op]) == match op.insert {
            Some(run) => run,
            None => Seq::empty(),
        },
{
    Seq::lemma_filter_map_singleton(op, |o: Operation| o.insert);
    if let Some(run) = op.insert {
        seq![run].lemma_flatten_one_element();
    }
}

/// In a document made of text operations alone, the text is the plain
/// concatenation of all inserted strings, in order, and the count is the
/// number of words in it.
pub proof fn lemma_text_only(ops: Seq<Operation>)
    requires
        forall|i: int| 0 <= i < ops.len() ==> (#[trigger] ops[i]).insert is Some,
    ensures
        plain_text(ops) == ops.map_values(|op: Operation| op.insert->0).flatten(),
        words(plain_text(ops)) == words(ops.map_values(|op: Operation| op.insert->0).flatten()),
{
    lemma_text_runs_of_text_only(ops);
}

proof fn lemma_text_runs_of_text_only(ops: Seq<Operation>)
    requires
        forall|i: int| 0 <= i < ops.len() ==> (#[trigger] ops[i]).insert is Some,
    ensures
        text_runs(ops) =~= ops.map_values(|op: Operation| op.insert->0),
    decreases ops.len(),
{
    if ops.len() > 0 {
        lemma_text_runs_of_text_only(ops.drop_last());
    }
}

/// An operation that inserts no text adds nothing, wherever it stands: the
/// text around it, and so the count, is what it would be without it.
pub proof fn lemma_embed_adds_nothing(
    before: Seq<Operation>,
    embed: Operation,
    after: Seq<Operation>,
)
    requires
        embed.insert is None,
    ensures
        plain_text(before + seq![embed] + after) == plain_text(before + after),
        words(plain_text(before + seq![embed] + after)) == words(plain_text(before + after)),
{
    lemma_no_separator(before + seq![embed], after);
    lemma_no_separator(before, seq![embed]);
    lemma_single_operation(embed);
    lemma_no_separator(before, after);
    assert(plain_text(before) + Seq::<char>::empty() =~= plain_text(before));
}

/// A document without text operations has no text, and so no words. An
/// empty document is one of these.
pub proof fn lemma_embeds_alone(ops: Seq<Operation>)
    requires
        forall|i: int| 0 <= i < ops.len() ==> (#[trigger] ops[i]).insert is None,
    ensures
        plain_text(ops) == Seq::<char>::empty(),
        words(plain_text(ops)) == 0,
    decreases ops.len(),
{
    if ops.len() > 0 {
        lemma_embeds_alone(ops.drop_last());
    }
}

/// Formatting attributes never count: two documents whose operations insert
/// the same things, one by one, have the same text and the same count,
/// whatever attributes either of them carries.
pub proof fn lemma_attributes_ignored(a: Seq<Operation>, b: Seq<Operation>)
    requires
        a.len() == b.len(),
        forall|i: int| 0 <= i < a.len() ==> (#[trigger] a[i]).insert == b[i].insert,
    ensures
        text_runs(a) == text_runs(b),
        plain_text(a) == plain_text(b),
        words(plain_text(a)) == words(plain_text(b)),
    decreases a.len(),
{
    if a.len() > 0 {
        assert forall|i: int| 0 <= i < a.len() - 1 implies (#[trigger] a.drop_last()[i]).insert
            == b.drop_last()[i].insert by {
            assert(a[i].insert == b[i].insert);
        }
        lemma_attributes_ignored(a.drop_last(), b.drop_last());
        assert(a.last().insert == b.last().insert);
    }
}

/// Nothing but the `insert` members decides what a decoded document stands
/// for, as far as its text goes: of two values whose `ops` arrays agree,
/// element by element, on the `insert` member, either both are refused or
/// both are accepted, with the same text and the same count. Attributes, and
/// any other member, neither change the count nor cause a refusal.
pub proof fn lemma_only_inserts_matter(a: serde_json::Value, b: serde_json::Value)
    requires
        json_member(a, "ops"@) matches Some(list_a) && json_member(b, "ops"@) matches Some(list_b)
            && json_elements(list_a) matches Some(elements_a) && json_elements(
            list_b,
        ) matches Some(elements_b) && elements_a.len() == elements_b.len() && forall|i: int|
            0 <= i < elements_a.len() ==> json_member(#[trigger] elements_a[i], "insert"@)
                == json_member(elements_b[i], "insert"@),
    ensures
        operations_of(a) is Some <==> operations_of(b) is Some,
        operations_of(a) matches Some(ops_a) ==> {
            &&& plain_text(ops_a) == plain_text(operations_of(b)->0)
            &&& words(plain_text(ops_a)) == words(plain_text(operations_of(b)->0))
        },
{
    let elements_a = json_elements(json_member(a, "ops"@)->0)->0;
    let elements_b = json_elements(json_member(b, "ops"@)->0)->0;
    assert forall|i: int| 0 <= i < elements_a.len() implies (operation_of(
        #[trigger] elements_a[i],
    ) is Some <==> operation_of(elements_b[i]) is Some) by {}
    if operations_of(a) is Some {
        assert forall|i: int| 0 <= i < elements_b.len() implies operation_of(
            #[trigger] elements_b[i],
        ) is Some by {
            assert(operation_of(elements_a[i]) is Some);
        }
        lemma_attributes_ignored(operations_of(a)->0, operations_of(b)->0);
    } else {
        let i = choose|i: int|
            0 <= i < elements_a.len() && !(operation_of(#[trigger] elements_a[i]) is Some);
        assert(!(operation_of(elements_b[i]) is Some));
    }
}

/// A serialized document is refused in exactly three cases: the text is not
/// JSON; the value it denotes has no `ops` member that is an array; or one
/// of the elements of that array has no `insert` member. In every other case
/// a count comes back.
pub proof fn lemma_refused_when_malformed(text: Seq<char>)
    ensures
        json_value(text) is None ==> words_of_document(text) is Err,
        json_value(text) matches Some(value) ==> (words_of_document(text) is Err <==> {
            ||| json_member(value, "ops"@) is None
            ||| json_member(value, "ops"@) matches Some(list) && json_elements(list) is None
            ||| json_member(value, "ops"@) matches Some(list) && json_elements(list) matches Some(
                elements,
            ) && exists|i: int|
                0 <= i < elements.len() && json_member(#[trigger] elements[i], "insert"@) is None
        }),
{
}

} // verus!
