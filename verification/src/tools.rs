//! The two tools that force a model's reply into a shape, each with the
//! schema of its payload.
use vstd::prelude::*;
use crate::json::{field_from, field_of, members_of, text_in, JsonValue};

verus! {

/// A tool that the model is made to call: its name, what it is for, and the
/// schema of the payload it takes.
#[derive(Debug, PartialEq, Eq)]
pub struct ToolDefinition {
    pub name: String,
    pub description: String,
    pub schema: JsonValue,
}

/// The type that a property of a schema declares.
pub open spec fn declared_kind(property: JsonValue) -> Option<Seq<char>> {
    match members_of(property) {
        Some(members) => text_in(field_of(members, "type"@)),
        None => None,
    }
}

/// The description that a property of a schema carries.
pub open spec fn declared_description(property: JsonValue) -> Option<Seq<char>> {
    match members_of(property) {
        Some(members) => text_in(field_of(members, "description"@)),
        None => None,
    }
}

/// Whether `properties` declares the fields `names`, in order, each of the
/// type `kind` and with its description.
pub open spec fn declares(
    properties: Option<JsonValue>,
    names: Seq<Seq<char>>,
    descriptions: Seq<Seq<char>>,
    kind: Seq<char>,
) -> bool {
    match properties {
        Some(JsonValue::Object(members)) => {
            &&& members@.len() == names.len()
            &&& forall|at: int|
                0 <= at < names.len() ==> (#[trigger] members@[at]).0@ == names[at]
                    && declared_kind(members@[at].1) == Some(kind) && declared_description(
                    members@[at].1,
                ) == Some(descriptions[at])
        },
        _ => false,
    }
}

/// Whether `required` lists the fields `names`, in order.
pub open spec fn lists(required: Option<JsonValue>, names: Seq<Seq<char>>) -> bool {
    match required {
        Some(JsonValue::Array(items)) => {
            &&& items@.len() == names.len()
            &&& forall|at: int|
                0 <= at < names.len() ==> text_in(Some(#[trigger] items@[at])) == Some(names[at])
        },
        _ => false,
    }
}

/// Whether `schema` describes an object that must hold the fields `names`,
/// each of the type `kind`, described by `descriptions`.
pub open spec fn describes(
    schema: JsonValue,
    names: Seq<Seq<char>>,
    descriptions: Seq<Seq<char>>,
    kind: Seq<char>,
) -> bool {
    match members_of(schema) {
        Some(top) => {
            &&& text_in(field_of(top, "type"@)) == Some("object"@)
            &&& declares(field_of(top, "properties"@), names, descriptions, kind)
            &&& lists(field_of(top, "required"@), names)
        },
        None => false,
    }
}

/// The names of the fields given as pairs of name and description.
pub open spec fn names_of(fields: Seq<(String, String)>) -> Seq<Seq<char>> {
    Seq::new(fields.len(), |at: int| fields[at].0@)
}

/// The descriptions of the fields given as pairs of name and description.
pub open spec fn descriptions_of(fields: Seq<(String, String)>) -> Seq<Seq<char>> {
    Seq::new(fields.len(), |at: int| fields[at].1@)
}

/// The names of the fields of an emotion rating, as its schema lists them.
pub open spec fn emotion_fields() -> Seq<Seq<char>> {
    seq!["fear"@, "anger"@, "joy"@, "sad"@, "contempt"@, "disgust"@, "surprise"@]
}

/// The descriptions of the fields of an emotion rating.
pub open spec fn emotion_descriptions() -> Seq<Seq<char>> {
    seq![
        "Score for fear, ranging from 0.0 to 1.0."@,
        "Score for anger, ranging from 0.0 to 1.0."@,
        "Score for joy, ranging from 0.0 to 1.0."@,
        "Score for sad, ranging from 0.0 to 1.0."@,
        "Score for contempt, ranging from 0.0 to 1.0."@,
        "Score for disgust, ranging from 0.0 to 1.0."@,
        "Score for surprise, ranging from 0.0 to 1.0."@,
    ]
}

/// The names of the fields of daily advice.
pub open spec fn advice_fields() -> Seq<Seq<char>> {
    seq!["advice"@, "song"@]
}

/// The descriptions of the fields of daily advice.
pub open spec fn advice_descriptions() -> Seq<Seq<char>> {
    seq!["The one sentence advice."@, "The name of the song."@]
}

impl ToolDefinition {
    pub fn new(name: &str, description: &str, schema: JsonValue) -> (definition: ToolDefinition)
        ensures
            definition.name@ == name@,
            definition.description@ == description@,
            definition.schema == schema,
    {
        ToolDefinition {
            name: String::from_str(name),
            description: String::from_str(description),
            schema,
        }
    }
}

/// One property of a schema: its type and its description.
pub fn property(kind: &str, description: &str) -> (declared: JsonValue)
    ensures
        declared_kind(declared) == Some(kind@),
        declared_description(declared) == Some(description@),
{
    proof {
        reveal_strlit("type");
        reveal_strlit("description");
    }
    let mut members: Vec<(String, JsonValue)> = Vec::new();
    members.push((String::from_str("type"), JsonValue::Text(String::from_str(kind))));
    members.push(
        (String::from_str("description"), JsonValue::Text(String::from_str(description))),
    );
    proof {
        assert(members@[0].0@ == "type"@);
        assert(members@[1].0@ == "description"@);
        assert("type"@.len() != "description"@.len());
        assert(field_of(members@, "description"@) == field_from(members@, "description"@, 1));
    }
    JsonValue::Object(members)
}

/// The schema of an object that must hold each of `fields`, given as pairs of
/// name and description, all of the type `kind`.
pub fn object_schema(fields: &Vec<(String, String)>, kind: &str) -> (schema: JsonValue)
    ensures
        describes(schema, names_of(fields@), descriptions_of(fields@), kind@),
{
    let mut properties: Vec<(String, JsonValue)> = Vec::new();
    let mut required: Vec<JsonValue> = Vec::new();
    let mut at: usize = 0;
    while at < fields.len()
        invariant
            at <= fields.len(),
            properties@.len() == at,
            required@.len() == at,
            forall|seen: int|
                0 <= seen < at ==> (#[trigger] properties@[seen]).0@ == fields@[seen].0@
                    && declared_kind(properties@[seen].1) == Some(kind@) && declared_description(
                    properties@[seen].1,
                ) == Some(fields@[seen].1@),
            forall|seen: int|
                0 <= seen < at ==> text_in(Some(#[trigger] required@[seen])) == Some(
                    fields@[seen].0@,
                ),
        decreases fields.len() - at,
    {
        properties.push((fields[at].0.clone(), property(kind, fields[at].1.as_str())));
        required.push(JsonValue::Text(fields[at].0.clone()));
        at += 1;
    }
    proof {
        reveal_strlit("type");
        reveal_strlit("properties");
        reveal_strlit("required");
    }
    let mut top: Vec<(String, JsonValue)> = Vec::new();
    top.push((String::from_str("type"), JsonValue::Text(String::from_str("object"))));
    top.push((String::from_str("properties"), JsonValue::Object(properties)));
    top.push((String::from_str("required"), JsonValue::Array(required)));
    proof {
        assert(top@[0].0@ == "type"@);
        assert(top@[1].0@ == "properties"@);
        assert(top@[2].0@ == "required"@);
        assert("type"@.len() != "properties"@.len());
        assert("type"@.len() != "required"@.len());
        assert("properties"@.len() != "required"@.len());
        assert(field_of(top@, "properties"@) == field_from(top@, "properties"@, 1));
        assert(field_from(top@, "required"@, 1) == field_from(top@, "required"@, 2));
        assert(field_of(top@, "required"@) == field_from(top@, "required"@, 2));
    }
    JsonValue::Object(top)
}

fn field(name: &str, description: &str) -> (pair: (String, String))
    ensures
        pair.0@ == name@,
        pair.1@ == description@,
{
    (String::from_str(name), String::from_str(description))
}

/// The tool through which the model reports the seven readings of a text,
/// each a required number.
pub fn get_emotion_scores_tool_definition() -> (definition: ToolDefinition)
    ensures
        definition.name@ == "print_emotion_scores"@,
        definition.description@ == "Print emotion score of a given text."@,
        describes(definition.schema, emotion_fields(), emotion_descriptions(), "number"@),
{
    let mut fields: Vec<(String, String)> = Vec::new();
    fields.push(field("fear", "Score for fear, ranging from 0.0 to 1.0."));
    fields.push(field("anger", "Score for anger, ranging from 0.0 to 1.0."));
    fields.push(field("joy", "Score for joy, ranging from 0.0 to 1.0."));
    fields.push(field("sad", "Score for sad, ranging from 0.0 to 1.0."));
    fields.push(field("contempt", "Score for contempt, ranging from 0.0 to 1.0."));
    fields.push(field("disgust", "Score for disgust, ranging from 0.0 to 1.0."));
    fields.push(field("surprise", "Score for surprise, ranging from 0.0 to 1.0."));
    assert(names_of(fields@) =~= emotion_fields());
    assert(descriptions_of(fields@) =~= emotion_descriptions());
    ToolDefinition::new(
        "print_emotion_scores",
        "Print emotion score of a given text.",
        object_schema(&fields, "number"),
    )
}

/// The tool through which the model gives a day's advice and a song, each a
/// required string.
pub fn get_daily_advice_tool_definition() -> (definition: ToolDefinition)
    ensures
        definition.name@ == "print_advice_recommendation"@,
        definition.description@ == "Print advice and song recommendation."@,
        describes(definition.schema, advice_fields(), advice_descriptions(), "string"@),
{
    let mut fields: Vec<(String, String)> = Vec::new();
    fields.push(field("advice", "The one sentence advice."));
    fields.push(field("song", "The name of the song."));
    assert(names_of(fields@) =~= advice_fields());
    assert(descriptions_of(fields@) =~= advice_descriptions());
    ToolDefinition::new(
        "print_advice_recommendation",
        "Print advice and song recommendation.",
        object_schema(&fields, "string"),
    )
}

} // verus!
