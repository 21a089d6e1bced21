//! The formats in which queried elements are written.

use vstd::prelude::*;
use vstd::string::*;

use crate::document::outcome_view;
use crate::json::{lemma_json_string, quoted, read_string};
use crate::query::{QueryOutput, QueryOutputView};
use crate::text::{join_spec, same};

verus! {

/// How data is written.
#[derive(Debug, Clone, Copy, PartialEq, Eq, Structural)]
pub enum Serializer {
    /// JSON over several lines.
    JsonPretty,
    /// JSON in one line.
    Json,
    /// YAML.
    Yaml,
    /// The text that the data holds, by way of a JSON value.
    Text,
}

/// A JSON value, of which only strings are looked into.
#[derive(Debug, PartialEq, Eq)]
pub enum JsonValue {
    Null,
    Bool,
    Number,
    Str(String),
    Array,
    Object,
}

/// What a [`JsonValue`] says.
pub enum JsonValueView {
    Null,
    Bool,
    Number,
    Str(Seq<char>),
    Array,
    Object,
}

impl View for JsonValue {
    type V = JsonValueView;

    open spec fn view(&self) -> JsonValueView {
        match self {
            JsonValue::Null => JsonValueView::Null,
            JsonValue::Bool => JsonValueView::Bool,
            JsonValue::Number => JsonValueView::Number,
            JsonValue::Str(text) => JsonValueView::Str(text@),
            JsonValue::Array => JsonValueView::Array,
            JsonValue::Object => JsonValueView::Object,
        }
    }
}

impl JsonValueView {
    /// The name of the kind of a value.
    pub open spec fn kind_name(self) -> Seq<char> {
        match self {
            JsonValueView::Null => "null"@,
            JsonValueView::Bool => "boolean"@,
            JsonValueView::Number => "number"@,
            JsonValueView::Str(_) => "string"@,
            JsonValueView::Array => "array"@,
            JsonValueView::Object => "object"@,
        }
    }
}

impl JsonValue {
    /// Gives the name of the kind of a value.
    pub fn kind(&self) -> (kind: String)
        ensures
            kind@ == self@.kind_name(),
    {
        match self {
            JsonValue::Null => "null".to_owned(),
            JsonValue::Bool => "boolean".to_owned(),
            JsonValue::Number => "number".to_owned(),
            JsonValue::Str(_) => "string".to_owned(),
            JsonValue::Array => "array".to_owned(),
            JsonValue::Object => "object".to_owned(),
        }
    }
}

/// What a serializer made of the data, or the message of its error.
#[derive(Debug, PartialEq, Eq)]
pub enum Serialized {
    /// A text in JSON or YAML.
    Text(Result<String, String>),
    /// A JSON value.
    Value(Result<JsonValue, String>),
}

/// What a [`Serialized`] says.
pub enum SerializedView {
    Text(Result<Seq<char>, Seq<char>>),
    Value(Result<JsonValueView, Seq<char>>),
}

/// What a JSON value or the message of an error says.
pub open spec fn json_value_view(value: Result<JsonValue, String>) -> Result<
    JsonValueView,
    Seq<char>,
> {
    match value {
        Ok(value) => Ok(value@),
        Err(err) => Err(err@),
    }
}

impl View for Serialized {
    type V = SerializedView;

    open spec fn view(&self) -> SerializedView {
        match self {
            Serialized::Text(text) => SerializedView::Text(outcome_view(*text)),
            Serialized::Value(value) => SerializedView::Value(json_value_view(*value)),
        }
    }
}

/// Why data could not be written.
#[derive(Debug, PartialEq, Eq)]
pub enum SerializeError {
    /// Writing JSON failed.
    Json(String),
    /// Writing YAML failed.
    Yaml(String),
    /// Making a JSON value failed.
    JsonValue(String),
    /// A text was asked for, but the data is something else.
    ExpectedString { format: String, kind: String },
    /// There is no such format.
    Unsupported(String),
}

/// What a [`SerializeError`] says.
pub enum SerializeErrorView {
    Json(Seq<char>),
    Yaml(Seq<char>),
    JsonValue(Seq<char>),
    ExpectedString { format: Seq<char>, kind: Seq<char> },
    Unsupported(Seq<char>),
}

impl View for SerializeError {
    type V = SerializeErrorView;

    open spec fn view(&self) -> SerializeErrorView {
        match self {
            SerializeError::Json(err) => SerializeErrorView::Json(err@),
            SerializeError::Yaml(err) => SerializeErrorView::Yaml(err@),
            SerializeError::JsonValue(err) => SerializeErrorView::JsonValue(err@),
            SerializeError::ExpectedString { format, kind } => {
                SerializeErrorView::ExpectedString { format: format@, kind: kind@ }
            },
            SerializeError::Unsupported(format) => SerializeErrorView::Unsupported(format@),
        }
    }
}

impl SerializeErrorView {
    /// The message of the error.
    pub open spec fn message(self) -> Seq<char> {
        match self {
            SerializeErrorView::Json(_) => "serialize to json"@,
            SerializeErrorView::Yaml(_) => "serialize to yaml"@,
            SerializeErrorView::JsonValue(_) => "serialize to json value"@,
            SerializeErrorView::ExpectedString { format, kind } => {
                "expected a string value for format: "@ + format + ", got "@ + kind
            },
            SerializeErrorView::Unsupported(format) => {
                "unsupported format for query: "@ + format
            },
        }
    }
}

impl SerializeError {
    /// Writes the message of the error.
    pub fn message(&self) -> (message: String)
        ensures
            message@ == self@.message(),
    {
        match self {
            SerializeError::Json(_) => "serialize to json".to_owned(),
            SerializeError::Yaml(_) => "serialize to yaml".to_owned(),
            SerializeError::JsonValue(_) => "serialize to json value".to_owned(),
            SerializeError::ExpectedString { format, kind } => {
                let mut message = "expected a string value for format: ".to_owned();
                message.append(format.as_str());
                message.append(", got ");
                message.append(kind.as_str());
                message
            },
            SerializeError::Unsupported(format) => {
                let mut message = "unsupported format for query: ".to_owned();
                message.append(format.as_str());
                message
            },
        }
    }
}

/// How data in a format is written, if there is such a format.
pub open spec fn serializer_spec(format: Seq<char>, pretty: bool) -> Option<Serializer> {
    if format == "json"@ {
        Some(
            if pretty {
                Serializer::JsonPretty
            } else {
                Serializer::Json
            },
        )
    } else if format == "yaml"@ {
        Some(Serializer::Yaml)
    } else if format == "txt"@ {
        Some(Serializer::Text)
    } else {
        None
    }
}

/// What becomes of the outcome of the serializer of a format.
pub open spec fn finish_spec(
    format: Seq<char>,
    serializer: Serializer,
    outcome: SerializedView,
) -> Result<Seq<char>, SerializeErrorView> {
    match (serializer, outcome) {
        (_, SerializedView::Text(Ok(text))) => Ok(text),
        (Serializer::Yaml, SerializedView::Text(Err(err))) => Err(SerializeErrorView::Yaml(err)),
        (_, SerializedView::Text(Err(err))) => Err(SerializeErrorView::Json(err)),
        (_, SerializedView::Value(Ok(JsonValueView::Str(text)))) => Ok(text),
        (_, SerializedView::Value(Ok(value))) => Err(
            SerializeErrorView::ExpectedString { format, kind: value.kind_name() },
        ),
        (_, SerializedView::Value(Err(err))) => Err(SerializeErrorView::JsonValue(err)),
    }
}

/// Finds out how data in a format is written.
pub fn serializer(format: &str, pretty: bool) -> (serializer: Result<Serializer, SerializeError>)
    ensures
        match serializer {
            Ok(serializer) => serializer_spec(format@, pretty) == Some(serializer),
            Err(err) => {
                &&& serializer_spec(format@, pretty) is None
                &&& err@ == SerializeErrorView::Unsupported(format@)
            },
        },
{
    if same(format, "json") {
        if pretty {
            Ok(Serializer::JsonPretty)
        } else {
            Ok(Serializer::Json)
        }
    } else if same(format, "yaml") {
        Ok(Serializer::Yaml)
    } else if same(format, "txt") {
        Ok(Serializer::Text)
    } else {
        Err(SerializeError::Unsupported(format.to_owned()))
    }
}

/// Takes the outcome of the serializer of a format.
pub fn finish(format: &str, serializer: Serializer, outcome: Serialized) -> (text: Result<
    String,
    SerializeError,
>)
    ensures
        match text {
            Ok(text) => finish_spec(format@, serializer, outcome@) == Ok::<
                Seq<char>,
                SerializeErrorView,
            >(text@),
            Err(err) => finish_spec(format@, serializer, outcome@) == Err::<
                Seq<char>,
                SerializeErrorView,
            >(err@),
        },
{
    match outcome {
        Serialized::Text(Ok(text)) => Ok(text),
        Serialized::Text(Err(err)) => match serializer {
            Serializer::Yaml => Err(SerializeError::Yaml(err)),
            _ => Err(SerializeError::Json(err)),
        },
        Serialized::Value(Ok(JsonValue::Str(text))) => Ok(text),
        Serialized::Value(Ok(value)) => Err(
            SerializeError::ExpectedString { format: format.to_owned(), kind: value.kind() },
        ),
        Serialized::Value(Err(err)) => Err(SerializeError::JsonValue(err)),
    }
}

/// Whether a text is, where a JSON value is a string, that string in JSON.
pub open spec fn keeps_string(
    value: Result<JsonValueView, Seq<char>>,
    text: Result<Seq<char>, Seq<char>>,
) -> bool {
    value matches Ok(JsonValueView::Str(string)) ==> text matches Ok(text) && text == quoted(string)
}

/// The data in JSON over several lines, or the message of the error.
pub uninterp spec fn json_pretty_text(
    data: QueryOutputView<typst::foundations::Value>,
) -> Result<Seq<char>, Seq<char>>;

/// Calls `serde_json::to_string_pretty` on one value or on a list of values.
///
/// The result is a function of the data. What becomes a string as a JSON value is written as that
/// string.
#[verifier::external_body]
fn write_json_pretty(data: &QueryOutput<typst::foundations::Value>) -> (text: Result<
    String,
    String,
>)
    ensures
        outcome_view(text) == json_pretty_text(data@),
        keeps_string(json_value(data@), outcome_view(text)),
{
    match data {
        QueryOutput::One(value) => serde_json::to_string_pretty(value),
        QueryOutput::Many(values) => serde_json::to_string_pretty(values),
    }.map_err(|err| err.to_string())
}

/// The data in JSON in one line, or the message of the error.
pub uninterp spec fn json_text(
    data: QueryOutputView<typst::foundations::Value>,
) -> Result<Seq<char>, Seq<char>>;

/// The values of a list in JSON in one line, in brackets and separated by commas.
pub open spec fn list_text(values: Seq<typst::foundations::Value>) -> Seq<char> {
    let parts = values.map_values(
        |value: typst::foundations::Value| json_text(QueryOutputView::One(value))->Ok_0,
    );
    seq!['['] + join_spec(parts, ',') + seq![']']
}

/// Whether a text is, where data is a list, the list of its values in JSON, which all have one.
pub open spec fn keeps_list(
    data: QueryOutputView<typst::foundations::Value>,
    text: Result<Seq<char>, Seq<char>>,
) -> bool {
    data matches QueryOutputView::Many(values) ==> text matches Ok(text) ==> {
        &&& forall|i: int|
            0 <= i < values.len() ==> json_text(QueryOutputView::One(#[trigger] values[i])) is Ok
        &&& text == list_text(values)
    }
}

/// Calls `serde_json::to_string` on one value or on a list of values.
///
/// The result is a function of the data. What becomes a string as a JSON value is written as that
/// string. A list is written as its values are, in order.
#[verifier::external_body]
fn write_json(data: &QueryOutput<typst::foundations::Value>) -> (text: Result<String, String>)
    ensures
        outcome_view(text) == json_text(data@),
        keeps_string(json_value(data@), outcome_view(text)),
        keeps_list(data@, outcome_view(text)),
{
    match data {
        QueryOutput::One(value) => serde_json::to_string(value),
        QueryOutput::Many(values) => serde_json::to_string(values),
    }.map_err(|err| err.to_string())
}

/// The data in YAML, or the message of the error.
pub uninterp spec fn yaml_text(
    data: QueryOutputView<typst::foundations::Value>,
) -> Result<Seq<char>, Seq<char>>;

/// Calls `serde_yaml::to_string` on one value or on a list of values.
///
/// The result is a function of the data.
#[verifier::external_body]
fn write_yaml(data: &QueryOutput<typst::foundations::Value>) -> (text: Result<String, String>)
    ensures
        outcome_view(text) == yaml_text(data@),
{
    match data {
        QueryOutput::One(value) => serde_yaml::to_string(value),
        QueryOutput::Many(values) => serde_yaml::to_string(values),
    }.map_err(|err| err.to_string())
}

/// The data as a JSON value, or the message of the error.
pub uninterp spec fn json_value(
    data: QueryOutputView<typst::foundations::Value>,
) -> Result<JsonValueView, Seq<char>>;

/// Calls `serde_json::to_value` on one value or on a list of values.
///
/// The result is a function of the data. A list, if it becomes a value at all, becomes an array.
#[verifier::external_body]
fn make_json_value(data: &QueryOutput<typst::foundations::Value>) -> (value: Result<
    JsonValue,
    String,
>)
    ensures
        json_value_view(value) == json_value(data@),
        data@ is Many && value is Ok ==> value->Ok_0 is Array,
{
    let value = match data {
        QueryOutput::One(value) => serde_json::to_value(value),
        QueryOutput::Many(values) => serde_json::to_value(values),
    }.map_err(|err| err.to_string())?;
    Ok(match value {
        serde_json::Value::Null => JsonValue::Null,
        serde_json::Value::Bool(_) => JsonValue::Bool,
        serde_json::Value::Number(_) => JsonValue::Number,
        serde_json::Value::String(text) => JsonValue::Str(text),
        serde_json::Value::Array(_) => JsonValue::Array,
        serde_json::Value::Object(_) => JsonValue::Object,
    })
}

/// What a serializer makes of the data.
pub open spec fn outcome_spec(
    data: QueryOutputView<typst::foundations::Value>,
    serializer: Serializer,
) -> SerializedView {
    match serializer {
        Serializer::JsonPretty => SerializedView::Text(json_pretty_text(data)),
        Serializer::Json => SerializedView::Text(json_text(data)),
        Serializer::Yaml => SerializedView::Text(yaml_text(data)),
        Serializer::Text => SerializedView::Value(json_value(data)),
    }
}

/// The data in a format.
pub open spec fn serialize_spec(
    data: QueryOutputView<typst::foundations::Value>,
    format: Seq<char>,
    pretty: bool,
) -> Result<Seq<char>, SerializeErrorView> {
    match serializer_spec(format, pretty) {
        Some(serializer) => finish_spec(format, serializer, outcome_spec(data, serializer)),
        None => Err(SerializeErrorView::Unsupported(format)),
    }
}

/// Serialize data to the output format.
///
/// A list is never written as plain text. In JSON it is written as its values are, and a text comes
/// back from the JSON in which it is written.
pub fn serialize(
    data: &QueryOutput<typst::foundations::Value>,
    format: &str,
    pretty: bool,
) -> (text: Result<String, SerializeError>)
    ensures
        match text {
            Ok(text) => serialize_spec(data@, format@, pretty) == Ok::<
                Seq<char>,
                SerializeErrorView,
            >(text@),
            Err(err) => serialize_spec(data@, format@, pretty) == Err::<
                Seq<char>,
                SerializeErrorView,
            >(err@),
        },
        data@ is Many && format@ == "txt"@ ==> {
            &&& text matches Err(err)
            &&& err@ is JsonValue || err@ == (SerializeErrorView::ExpectedString {
                format: format@,
                kind: "array"@,
            })
        },
        format@ == "json"@ && !pretty ==> match text {
            Ok(text) => keeps_list(data@, Ok(text@)),
            Err(err) => err@ is Json,
        },
        format@ == "json"@ ==> (json_value(data@) matches Ok(JsonValueView::Str(value)) ==> {
            &&& text matches Ok(text)
            &&& text@ == quoted(value)
            &&& read_string(text@) == Some(value)
        }),
{
    proof {
        reveal_strlit("json");
        reveal_strlit("yaml");
        reveal_strlit("txt");
        assert("txt"@.len() != "json"@.len() && "txt"@.len() != "yaml"@.len());
        if let Ok(JsonValueView::Str(value)) = json_value(data@) {
            lemma_json_string(value);
        }
    }
    let serializer = match serializer(format, pretty) {
        Ok(serializer) => serializer,
        Err(err) => {
            return Err(err);
        },
    };
    let outcome = match serializer {
        Serializer::JsonPretty => Serialized::Text(write_json_pretty(data)),
        Serializer::Json => Serialized::Text(write_json(data)),
        Serializer::Yaml => Serialized::Text(write_yaml(data)),
        Serializer::Text => Serialized::Value(make_json_value(data)),
    };
    finish(format, serializer, outcome)
}

/// Data is written in three formats and no other, as plain text only where it is a text, and over
/// several lines or not only in JSON.
pub proof fn lemma_formats(
    data: QueryOutputView<typst::foundations::Value>,
    format: Seq<char>,
    pretty: bool,
)
    ensures
        serialize_spec(data, format, pretty) == Err::<Seq<char>, SerializeErrorView>(
            SerializeErrorView::Unsupported(format),
        ) <==> format != "json"@ && format != "yaml"@ && format != "txt"@,
        format == "txt"@ && serialize_spec(data, format, pretty) is Ok ==> json_value(data) == Ok::<
            JsonValueView,
            Seq<char>,
        >(JsonValueView::Str(serialize_spec(data, format, pretty)->Ok_0)),
        format != "json"@ ==> serialize_spec(data, format, pretty) == serialize_spec(
            data,
            format,
            !pretty,
        ),
{
    reveal_strlit("json");
    reveal_strlit("yaml");
    reveal_strlit("txt");
    assert("json"@[0] != "yaml"@[0]);
    assert("txt"@.len() != "json"@.len());
}

/// A format is written by the serializer of its name, and what that gives is what is written: its
/// text, or its error under the name of the format. Plain text is the string that the data is as a
/// JSON value, and every other value is refused by its kind.
pub proof fn lemma_serialized(
    data: QueryOutputView<typst::foundations::Value>,
    format: Seq<char>,
    pretty: bool,
)
    ensures
        format == "json"@ ==> serialize_spec(data, format, pretty) == match (if pretty {
            json_pretty_text(data)
        } else {
            json_text(data)
        }) {
            Ok(text) => Ok(text),
            Err(err) => Err(SerializeErrorView::Json(err)),
        },
        format == "yaml"@ ==> serialize_spec(data, format, pretty) == match yaml_text(data) {
            Ok(text) => Ok(text),
            Err(err) => Err(SerializeErrorView::Yaml(err)),
        },
        format == "txt"@ ==> serialize_spec(data, format, pretty) == match json_value(data) {
            Ok(JsonValueView::Str(text)) => Ok(text),
            Ok(JsonValueView::Null) => Err(
                SerializeErrorView::ExpectedString { format, kind: "null"@ },
            ),
            Ok(JsonValueView::Bool) => Err(
                SerializeErrorView::ExpectedString { format, kind: "boolean"@ },
            ),
            Ok(JsonValueView::Number) => Err(
                SerializeErrorView::ExpectedString { format, kind: "number"@ },
            ),
            Ok(JsonValueView::Array) => Err(
                SerializeErrorView::ExpectedString { format, kind: "array"@ },
            ),
            Ok(JsonValueView::Object) => Err(
                SerializeErrorView::ExpectedString { format, kind: "object"@ },
            ),
            Err(err) => Err(SerializeErrorView::JsonValue(err)),
        },
        format != "json"@ && format != "yaml"@ && format != "txt"@ ==> serialize_spec(
            data,
            format,
            pretty,
        ) == Err::<Seq<char>, SerializeErrorView>(SerializeErrorView::Unsupported(format)),
{
    lemma_formats(data, format, pretty);
    reveal_strlit("json");
    reveal_strlit("yaml");
    reveal_strlit("txt");
    assert("json"@[0] != "yaml"@[0]);
    assert("txt"@.len() != "json"@.len());
}

/// Only JSON is asked for over several lines or in one, and there is a serializer for no other
/// format than JSON, YAML and plain text.
pub proof fn lemma_serializers(format: Seq<char>, pretty: bool)
    ensures
        serializer_spec(format, pretty) == Some(Serializer::JsonPretty) <==> format == "json"@
            && pretty,
        serializer_spec(format, pretty) == Some(Serializer::Json) <==> format == "json"@ && !pretty,
        serializer_spec(format, pretty) == Some(Serializer::Yaml) <==> format == "yaml"@,
        serializer_spec(format, pretty) == Some(Serializer::Text) <==> format == "txt"@,
{
    reveal_strlit("json");
    reveal_strlit("yaml");
    reveal_strlit("txt");
    assert("json"@[0] != "yaml"@[0]);
    assert("txt"@.len() != "json"@.len());
}

/// A serializer that gives a text or a string has written the data, and any other outcome is an
/// error that keeps the message of the serializer, or tells the kind of the value.
pub proof fn lemma_finish(format: Seq<char>, serializer: Serializer, outcome: SerializedView)
    ensures
        finish_spec(format, serializer, outcome) is Ok <==> outcome matches SerializedView::Text(
            Ok(_),
        ) || outcome matches SerializedView::Value(Ok(JsonValueView::Str(_))),
        outcome matches SerializedView::Text(Ok(text)) ==> finish_spec(format, serializer, outcome)
            == Ok::<Seq<char>, SerializeErrorView>(text),
        outcome matches SerializedView::Value(Ok(JsonValueView::Str(text))) ==> finish_spec(
            format,
            serializer,
            outcome,
        ) == Ok::<Seq<char>, SerializeErrorView>(text),
        outcome matches SerializedView::Text(Err(err)) ==> finish_spec(format, serializer, outcome)
            == Err::<Seq<char>, SerializeErrorView>(
            if serializer == Serializer::Yaml {
                SerializeErrorView::Yaml(err)
            } else {
                SerializeErrorView::Json(err)
            },
        ),
        outcome matches SerializedView::Value(Err(err)) ==> finish_spec(format, serializer, outcome)
            == Err::<Seq<char>, SerializeErrorView>(SerializeErrorView::JsonValue(err)),
        outcome matches SerializedView::Value(Ok(value)) ==> !(value is Str) ==> finish_spec(
            format,
            serializer,
            outcome,
        ) == Err::<Seq<char>, SerializeErrorView>(
            SerializeErrorView::ExpectedString { format, kind: value.kind_name() },
        ),
{
}

/// The kinds of JSON values are called by their names, and the messages of errors tell the format
/// and the kind of the value.
pub proof fn lemma_serialize_messages(err: SerializeErrorView)
    ensures
        JsonValueView::Null.kind_name() == "null"@,
        JsonValueView::Bool.kind_name() == "boolean"@,
        JsonValueView::Number.kind_name() == "number"@,
        forall|text: Seq<char>| #[trigger] JsonValueView::Str(text).kind_name() == "string"@,
        JsonValueView::Array.kind_name() == "array"@,
        JsonValueView::Object.kind_name() == "object"@,
        err is Json ==> err.message() == "serialize to json"@,
        err is Yaml ==> err.message() == "serialize to yaml"@,
        err is JsonValue ==> err.message() == "serialize to json value"@,
        err matches SerializeErrorView::ExpectedString { format, kind } ==> err.message()
            == "expected a string value for format: "@ + format + ", got "@ + kind,
        err matches SerializeErrorView::Unsupported(format) ==> err.message()
            == "unsupported format for query: "@ + format,
{
}

/// Values, outcomes and errors say what they hold.
pub proof fn lemma_serialize_views(value: JsonValue, outcome: Serialized, err: SerializeError)
    ensures
        value@ == match value {
            JsonValue::Null => JsonValueView::Null,
            JsonValue::Bool => JsonValueView::Bool,
            JsonValue::Number => JsonValueView::Number,
            JsonValue::Str(text) => JsonValueView::Str(text@),
            JsonValue::Array => JsonValueView::Array,
            JsonValue::Object => JsonValueView::Object,
        },
        outcome@ == match outcome {
            Serialized::Text(Ok(text)) => SerializedView::Text(Ok(text@)),
            Serialized::Text(Err(reason)) => SerializedView::Text(Err(reason@)),
            Serialized::Value(Ok(value)) => SerializedView::Value(Ok(value@)),
            Serialized::Value(Err(reason)) => SerializedView::Value(Err(reason@)),
        },
        err@ == match err {
            SerializeError::Json(reason) => SerializeErrorView::Json(reason@),
            SerializeError::Yaml(reason) => SerializeErrorView::Yaml(reason@),
            SerializeError::JsonValue(reason) => SerializeErrorView::JsonValue(reason@),
            SerializeError::ExpectedString { format, kind } => SerializeErrorView::ExpectedString {
                format: format@,
                kind: kind@,
            },
            SerializeError::Unsupported(format) => SerializeErrorView::Unsupported(format@),
        },
{
}

} // verus!
