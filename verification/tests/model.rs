use delta_words::{Delta, DeltaOps, Ignored, Insert, MalformedDocument};
use serde_json::{Number, Value};

fn text_op(s: &str) -> DeltaOps {
    DeltaOps::new(Insert::Text(s.to_string()), None)
}

fn object(members: Vec<(&str, Value)>) -> Value {
    let mut map = serde_json::Map::new();
    for (key, value) in members {
        map.insert(key.to_string(), value);
    }
    Value::Object(map)
}

fn string(s: &str) -> Value {
    Value::String(s.to_string())
}

#[test]
fn text_joins_the_runs_in_order() {
    let delta = Delta::new(vec![text_op("The quick brown fox"), text_op("es jump.")]);
    assert_eq!(delta.text(), "The quick brown foxes jump.");
}

#[test]
fn text_skips_what_is_not_text() {
    let delta = Delta::new(vec![
        DeltaOps::new(Insert::Other, None),
        text_op("foo"),
        DeltaOps::new(Insert::Other, Some(Ignored)),
        text_op("bar"),
        DeltaOps::new(Insert::Other, None),
    ]);
    assert_eq!(delta.text(), "foobar");
    assert_eq!(delta.count_words(), 1);
}

#[test]
fn text_of_an_empty_delta_is_empty() {
    let delta = Delta::new(Vec::new());
    assert_eq!(delta.text(), "");
    assert_eq!(delta.count_words(), 0);
}

#[test]
fn text_keeps_every_character_of_a_run() {
    let delta = Delta::new(vec![text_op("  a "), text_op(""), text_op(" b\n")]);
    assert_eq!(delta.text(), "  a  b\n");
    assert_eq!(delta.count_words(), 2);
}

#[test]
fn text_only_delta_counts_the_words_of_the_concatenation() {
    let runs = ["Gravity - can ", "cross dimen", "sions!"];
    let delta = Delta::new(runs.iter().map(|s| text_op(s)).collect());
    let joined = runs.concat();
    assert_eq!(joined, "Gravity - can cross dimensions!");
    assert_eq!(delta.text(), joined);
    assert_eq!(delta.count_words(), 4);
    assert_eq!(delta.count_words(), voca_rs::count::count_words(&joined, ""));
}

#[test]
fn attributes_do_not_change_text_or_count() {
    let bare = Delta::new(vec![text_op("alpha "), text_op("beta")]);
    let formatted = Delta::new(vec![
        DeltaOps::new(Insert::Text("alpha ".to_string()), Some(Ignored)),
        DeltaOps::new(Insert::Text("beta".to_string()), Some(Ignored)),
    ]);
    assert_eq!(bare.text(), formatted.text());
    assert_eq!(bare.count_words(), 2);
    assert_eq!(formatted.count_words(), 2);
}

#[test]
fn an_operation_gives_back_what_it_was_made_of() {
    let op = DeltaOps::new(Insert::Text("foo".to_string()), Some(Ignored));
    assert_eq!(op.insert(), &Insert::Text("foo".to_string()));
    assert_eq!(op.attributes(), Some(Ignored));
    let embed = DeltaOps::new(Insert::Other, None);
    assert_eq!(embed.insert(), &Insert::Other);
    assert_eq!(embed.attributes(), None);
}

#[test]
fn a_delta_gives_back_its_operations_in_order() {
    let delta = Delta::new(vec![text_op("a"), DeltaOps::new(Insert::Other, None), text_op("b")]);
    assert_eq!(delta.ops().len(), 3);
    assert_eq!(delta.ops()[0], text_op("a"));
    assert_eq!(delta.ops()[1], DeltaOps::new(Insert::Other, None));
    assert_eq!(delta.ops()[2], text_op("b"));
}

#[test]
fn an_operation_is_decoded_from_its_insert_member() {
    let value = object(vec![("insert", string("foo bar"))]);
    assert_eq!(DeltaOps::from_value(&value), Ok(text_op("foo bar")));
}

#[test]
fn an_operation_notes_that_it_has_attributes() {
    let value = object(vec![
        ("attributes", object(vec![("bold", Value::Bool(true))])),
        ("insert", string("foo")),
    ]);
    assert_eq!(
        DeltaOps::from_value(&value),
        Ok(DeltaOps::new(Insert::Text("foo".to_string()), Some(Ignored)))
    );
}

#[test]
fn an_insert_that_is_not_a_string_is_decoded_as_other() {
    let payloads = vec![
        object(vec![("image", string("x.png"))]),
        Value::Number(Number::from(3)),
        Value::Bool(false),
        Value::Null,
        Value::Array(vec![string("a")]),
    ];
    for payload in payloads {
        let value = object(vec![("insert", payload)]);
        assert_eq!(DeltaOps::from_value(&value), Ok(DeltaOps::new(Insert::Other, None)));
    }
}

#[test]
fn an_operation_without_insert_is_refused() {
    assert_eq!(DeltaOps::from_value(&object(vec![])), Err(MalformedDocument));
    assert_eq!(
        DeltaOps::from_value(&object(vec![("attributes", Value::Null)])),
        Err(MalformedDocument)
    );
    assert_eq!(DeltaOps::from_value(&string("insert")), Err(MalformedDocument));
    assert_eq!(
        DeltaOps::from_value(&Value::Array(vec![string("insert")])),
        Err(MalformedDocument)
    );
}

#[test]
fn a_delta_is_decoded_in_document_order() {
    let value = object(vec![(
        "ops",
        Value::Array(vec![
            object(vec![("insert", string("one "))]),
            object(vec![("insert", object(vec![("image", string("x.png"))]))]),
            object(vec![("insert", string("two")), ("attributes", Value::Null)]),
        ]),
    )]);
    let expected = Delta::new(vec![
        text_op("one "),
        DeltaOps::new(Insert::Other, None),
        DeltaOps::new(Insert::Text("two".to_string()), Some(Ignored)),
    ]);
    assert_eq!(Delta::from_value(&value), Ok(expected));
}

#[test]
fn a_delta_without_operations_is_decoded() {
    let value = object(vec![("ops", Value::Array(Vec::new()))]);
    assert_eq!(Delta::from_value(&value), Ok(Delta::new(Vec::new())));
}

#[test]
fn a_value_without_an_ops_sequence_is_refused() {
    assert_eq!(Delta::from_value(&object(vec![])), Err(MalformedDocument));
    assert_eq!(Delta::from_value(&object(vec![("ops", string("x"))])), Err(MalformedDocument));
    assert_eq!(Delta::from_value(&Value::Array(Vec::new())), Err(MalformedDocument));
    assert_eq!(Delta::from_value(&Value::Null), Err(MalformedDocument));
}

#[test]
fn one_bad_operation_refuses_the_whole_delta() {
    let value = object(vec![(
        "ops",
        Value::Array(vec![
            object(vec![("insert", string("one"))]),
            object(vec![("retain", Value::Number(Number::from(1)))]),
        ]),
    )]);
    assert_eq!(Delta::from_value(&value), Err(MalformedDocument));
}

#[test]
fn a_serialized_delta_is_decoded_in_document_order() {
    let doc = r#"{"ops":[{"insert":"one "},{"insert":{"image":"x.png"}},{"insert":"two","attributes":{"bold":true}}]}"#;
    let expected = Delta::new(vec![
        text_op("one "),
        DeltaOps::new(Insert::Other, None),
        DeltaOps::new(Insert::Text("two".to_string()), Some(Ignored)),
    ]);
    assert_eq!(Delta::from_json(doc), Ok(expected));
}

#[test]
fn a_serialized_delta_agrees_with_its_decoded_value() {
    let doc = r#"{"ops":[{"insert":"caf\u00e9 \"au lait\""},{"insert":7},{"insert":" noir"}]}"#;
    let value: Value = serde_json::from_str(doc).unwrap();
    assert_eq!(Delta::from_json(doc), Delta::from_value(&value));
    assert_eq!(Delta::from_json(doc).map(|d| d.text()), Ok("caf\u{e9} \"au lait\" noir".to_string()));
}

#[test]
fn a_text_that_is_no_delta_is_refused() {
    assert_eq!(Delta::from_json("{"), Err(MalformedDocument));
    assert_eq!(Delta::from_json("{}"), Err(MalformedDocument));
    assert_eq!(Delta::from_json(r#"{"ops":[{}]}"#), Err(MalformedDocument));
}
