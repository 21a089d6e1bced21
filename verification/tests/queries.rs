use tinymist::query::{map_elements, select, QueryOutput};
use tinymist::serialize::{
    finish, serialize, serializer, JsonValue, SerializeError, Serialized, Serializer,
};
use typst::foundations::{Content, IntoValue, Value};
use typst::text::TextElem;

fn elements() -> Vec<Content> {
    vec![TextElem::packed("a"), Content::empty(), TextElem::packed("c")]
}

fn many(values: Vec<Value>) -> QueryOutput<Value> {
    QueryOutput::Many(values)
}

fn one(value: impl IntoValue) -> QueryOutput<Value> {
    QueryOutput::One(value.into_value())
}

#[test]
fn values_of_elements() {
    let values = map_elements(elements(), &Some("text".to_owned()));
    assert_eq!(
        values,
        vec![Some("a".into_value()), None, Some("c".into_value())]
    );
    let values = map_elements(elements(), &None);
    assert_eq!(values.len(), 3);
    assert_eq!(values[0], Some(TextElem::packed("a").into_value()));
}

#[test]
fn selecting_values() {
    assert_eq!(
        select(vec![Some(1), None, Some(3)], false),
        Ok(QueryOutput::Many(vec![1, 3]))
    );
    assert_eq!(select(vec![Some(1), Some(2)], false), Ok(QueryOutput::Many(vec![1, 2])));
    let err = select(vec![Some(1), None, Some(3)], true).unwrap_err();
    assert_eq!(err.message(), "expected exactly one element, found 3");
    let nothing: Vec<Option<u8>> = vec![None];
    let err = select(nothing, true).unwrap_err();
    assert_eq!(err.message(), "no such field found for element");
    assert_eq!(select(vec![Some(1)], true), Ok(QueryOutput::One(1)));
}

#[test]
fn serializers_of_formats() {
    assert_eq!(serializer("json", true), Ok(Serializer::JsonPretty));
    assert_eq!(serializer("json", false), Ok(Serializer::Json));
    assert_eq!(serializer("yaml", true), Ok(Serializer::Yaml));
    assert_eq!(serializer("txt", false), Ok(Serializer::Text));
    assert_eq!(
        serializer("JSON", false),
        Err(SerializeError::Unsupported("JSON".to_owned()))
    );
}

#[test]
fn data_in_each_format() {
    let list = many(vec![1.into_value(), "b".into_value()]);
    assert_eq!(serialize(&list, "json", false), Ok("[1,\"b\"]".to_owned()));
    assert_eq!(
        serialize(&list, "json", true),
        Ok("[\n  1,\n  \"b\"\n]".to_owned())
    );
    assert_eq!(serialize(&list, "yaml", false), Ok("- 1\n- b\n".to_owned()));
    assert_eq!(serialize(&one("b"), "json", false), Ok("\"b\"".to_owned()));
    assert_eq!(serialize(&one("b"), "json", true), Ok("\"b\"".to_owned()));
    assert_eq!(serialize(&one("b"), "yaml", false), Ok("b\n".to_owned()));
    assert_eq!(serialize(&one("b"), "txt", false), Ok("b".to_owned()));
    assert_eq!(
        serialize(&list, "csv", false),
        Err(SerializeError::Unsupported("csv".to_owned()))
    );
}

#[test]
fn texts_in_json() {
    let cases = [
        ("", "\"\""),
        ("a\"b\\c/d", "\"a\\\"b\\\\c/d\""),
        ("\u{8}\t\n\u{c}\r", "\"\\b\\t\\n\\f\\r\""),
        ("\u{0}\u{1b}\u{1f}\u{7f}", "\"\\u0000\\u001b\\u001f\u{7f}\""),
        ("\u{e4}\u{1f600}", "\"\u{e4}\u{1f600}\""),
    ];
    for (text, json) in cases {
        assert_eq!(serialize(&one(text), "json", false), Ok(json.to_owned()));
        assert_eq!(serialize(&one(text), "json", true), Ok(json.to_owned()));
        assert_eq!(serde_json::from_str::<String>(json).unwrap(), text);
    }
}

#[test]
fn lists_in_json_are_made_of_their_values() {
    let values = vec![Value::None, true.into_value(), "a,]".into_value(), 2.5.into_value()];
    let parts: Vec<String> = values
        .iter()
        .map(|value| serialize(&one(value.clone()), "json", false).unwrap())
        .collect();
    assert_eq!(
        serialize(&many(values), "json", false),
        Ok(format!("[{}]", parts.join(",")))
    );
    assert_eq!(serialize(&many(vec![]), "json", false), Ok("[]".to_owned()));
}

#[test]
fn lists_are_not_written_as_text() {
    for list in [vec![], vec!["a".into_value()], vec![1.into_value(), "b".into_value()]] {
        let err = serialize(&many(list), "txt", true).unwrap_err();
        assert_eq!(err.message(), "expected a string value for format: txt, got array");
    }
}

#[test]
fn only_texts_are_written_as_text() {
    let kinds = [
        (one(Value::None), "null"),
        (one(true), "boolean"),
        (one(1), "number"),
        (many(vec![]), "array"),
        (one(TextElem::packed("a")), "object"),
    ];
    for (data, kind) in kinds {
        let err = serialize(&data, "txt", false).unwrap_err();
        assert_eq!(
            err,
            SerializeError::ExpectedString { format: "txt".to_owned(), kind: kind.to_owned() }
        );
    }
}

#[test]
fn outcomes_of_serializers() {
    let e = || "e".to_owned();
    let text = |text: &str| Serialized::Text(Ok(text.to_owned()));
    assert_eq!(finish("yaml", Serializer::Yaml, text("a: 1")), Ok("a: 1".to_owned()));
    assert_eq!(
        finish("json", Serializer::JsonPretty, Serialized::Text(Err(e()))),
        Err(SerializeError::Json(e()))
    );
    assert_eq!(
        finish("json", Serializer::Json, Serialized::Text(Err(e()))),
        Err(SerializeError::Json(e()))
    );
    assert_eq!(
        finish("yaml", Serializer::Yaml, Serialized::Text(Err(e()))),
        Err(SerializeError::Yaml(e()))
    );
    assert_eq!(
        finish("txt", Serializer::Text, Serialized::Value(Err(e()))),
        Err(SerializeError::JsonValue(e()))
    );
    assert_eq!(
        finish("txt", Serializer::Text, Serialized::Value(Ok(JsonValue::Str("s".to_owned())))),
        Ok("s".to_owned())
    );
    assert_eq!(SerializeError::Json(e()).message(), "serialize to json");
    assert_eq!(SerializeError::Yaml(e()).message(), "serialize to yaml");
    assert_eq!(SerializeError::JsonValue(e()).message(), "serialize to json value");
}

#[test]
fn kinds_of_json_values() {
    let kinds = [
        (JsonValue::Null, "null"),
        (JsonValue::Bool, "boolean"),
        (JsonValue::Number, "number"),
        (JsonValue::Str(String::new()), "string"),
        (JsonValue::Array, "array"),
        (JsonValue::Object, "object"),
    ];
    for (value, kind) in kinds {
        assert_eq!(value.kind(), kind);
    }
}
