use emotion_pipeline::extraction::{
    select_daily_advice, select_emotion_scores, tool_input, ContentBlock, ExtractionError,
};
use emotion_pipeline::json::{
    advice_payload, emotion_payload, lookup, number_field, parse_daily_advice,
    parse_emotion_scores, text_field, JsonValue,
};
use emotion_pipeline::score::{DailyAdvice, EmotionScores, Score};
use emotion_pipeline::tools::{
    get_daily_advice_tool_definition, get_emotion_scores_tool_definition, object_schema, property,
    ToolDefinition,
};

fn score(value: f64) -> Score {
    let bits = value.to_bits();
    let magnitude = (bits & 0x7fff_ffff_ffff_ffff) as i64;
    if bits >> 63 == 0 {
        Score::from_key(magnitude)
    } else {
        Score::from_key(-magnitude)
    }
}

fn number(name: &str, value: f64) -> (String, JsonValue) {
    (name.to_string(), JsonValue::Number(score(value)))
}

fn text(name: &str, value: &str) -> (String, JsonValue) {
    (name.to_string(), JsonValue::Text(value.to_string()))
}

fn full_payload(anger: f64) -> JsonValue {
    JsonValue::Object(vec![
        number("fear", 0.1),
        number("anger", anger),
        number("joy", 0.2),
        number("sad", 0.3),
        number("contempt", 0.4),
        number("disgust", 0.5),
        number("surprise", 0.6),
    ])
}

fn full_scores(anger: f64) -> EmotionScores {
    EmotionScores {
        anger: score(anger),
        contempt: score(0.4),
        disgust: score(0.5),
        fear: score(0.1),
        joy: score(0.2),
        surprise: score(0.6),
        sad: score(0.3),
    }
}

fn tool_use(name: &str, input: JsonValue) -> ContentBlock {
    ContentBlock::ToolUse { name: name.to_string(), input }
}

#[test]
fn failed_candidate_does_not_abort_the_scan() {
    let broken = JsonValue::Object(vec![number("anger", 0.9), text("fear", "high")]);
    let blocks = vec![
        tool_use("print_emotion_scores", broken),
        tool_use("print_emotion_scores", full_payload(0.7)),
    ];
    assert_eq!(select_emotion_scores(&blocks, "print_emotion_scores"), Ok(full_scores(0.7)));
}

#[test]
fn reply_without_tool_use_fails() {
    let blocks = vec![ContentBlock::Text("I would say angry.".to_string()), ContentBlock::Other];
    assert_eq!(
        select_emotion_scores(&blocks, "print_emotion_scores"),
        Err(ExtractionError::ExtractionFailed)
    );
    assert_eq!(
        select_daily_advice(&blocks, "print_advice_recommendation"),
        Err(ExtractionError::ExtractionFailed)
    );
    let empty: Vec<ContentBlock> = Vec::new();
    assert_eq!(
        select_emotion_scores(&empty, "print_emotion_scores"),
        Err(ExtractionError::ExtractionFailed)
    );
}

#[test]
fn reply_with_only_failing_candidates_fails() {
    let blocks = vec![
        tool_use("print_emotion_scores", JsonValue::Null),
        tool_use("print_emotion_scores", JsonValue::Array(vec![])),
    ];
    assert_eq!(
        select_emotion_scores(&blocks, "print_emotion_scores"),
        Err(ExtractionError::ExtractionFailed)
    );
}

#[test]
fn first_accepted_block_wins() {
    let blocks = vec![
        ContentBlock::Text("thinking".to_string()),
        tool_use("print_emotion_scores", full_payload(0.2)),
        tool_use("print_emotion_scores", full_payload(0.8)),
    ];
    assert_eq!(select_emotion_scores(&blocks, "print_emotion_scores"), Ok(full_scores(0.2)));
}

#[test]
fn block_of_another_tool_is_skipped() {
    let blocks = vec![
        tool_use("print_something_else", full_payload(0.2)),
        tool_use("print_emotion_scores", full_payload(0.8)),
    ];
    assert_eq!(select_emotion_scores(&blocks, "print_emotion_scores"), Ok(full_scores(0.8)));
    let only_other = vec![tool_use("print_something_else", full_payload(0.2))];
    assert_eq!(
        select_emotion_scores(&only_other, "print_emotion_scores"),
        Err(ExtractionError::ExtractionFailed)
    );
}

#[test]
fn tool_input_is_offered_only_under_the_tool_name() {
    let block = tool_use("a", JsonValue::Bool(true));
    assert_eq!(tool_input(&block, "a"), Some(&JsonValue::Bool(true)));
    assert_eq!(tool_input(&block, "b"), None);
    assert_eq!(tool_input(&ContentBlock::Other, "a"), None);
    assert_eq!(tool_input(&ContentBlock::Text("a".to_string()), "a"), None);
}

#[test]
fn advice_is_read_from_the_first_accepted_block() {
    let incomplete = JsonValue::Object(vec![text("advice", "Rest.")]);
    let complete =
        JsonValue::Object(vec![text("song", "Here Comes the Sun"), text("advice", "Take a walk.")]);
    let blocks = vec![
        tool_use("print_advice_recommendation", incomplete),
        tool_use("print_advice_recommendation", complete),
    ];
    assert_eq!(
        select_daily_advice(&blocks, "print_advice_recommendation"),
        Ok(DailyAdvice {
            advice: "Take a walk.".to_string(),
            song: "Here Comes the Sun".to_string()
        })
    );
}

#[test]
fn emotion_payload_needs_all_seven_numbers() {
    assert_eq!(parse_emotion_scores(&full_payload(0.3)), Some(full_scores(0.3)));
    let names = ["fear", "anger", "joy", "sad", "contempt", "disgust", "surprise"];
    for missing in names {
        let fields: Vec<(String, JsonValue)> =
            names.iter().filter(|name| **name != missing).map(|name| number(name, 0.5)).collect();
        assert_eq!(parse_emotion_scores(&JsonValue::Object(fields)), None);
    }
    let with_text = JsonValue::Object(vec![
        number("fear", 0.1),
        text("anger", "0.5"),
        number("joy", 0.2),
        number("sad", 0.3),
        number("contempt", 0.4),
        number("disgust", 0.5),
        number("surprise", 0.6),
    ]);
    assert_eq!(parse_emotion_scores(&with_text), None);
    assert_eq!(parse_emotion_scores(&JsonValue::Null), None);
    assert_eq!(parse_emotion_scores(&JsonValue::Text("anger".to_string())), None);
}

#[test]
fn emotion_payload_ignores_other_members() {
    let mut fields = vec![text("comment", "calm")];
    if let JsonValue::Object(rest) = full_payload(0.3) {
        fields.extend(rest);
    }
    assert_eq!(parse_emotion_scores(&JsonValue::Object(fields)), Some(full_scores(0.3)));
}

#[test]
fn advice_payload_needs_two_strings() {
    let good = JsonValue::Object(vec![text("advice", "Breathe."), text("song", "Imagine")]);
    assert_eq!(
        parse_daily_advice(&good),
        Some(DailyAdvice { advice: "Breathe.".to_string(), song: "Imagine".to_string() })
    );
    let no_song = JsonValue::Object(vec![text("advice", "Breathe.")]);
    assert_eq!(parse_daily_advice(&no_song), None);
    let wrong_kind = JsonValue::Object(vec![text("advice", "Breathe."), number("song", 1.0)]);
    assert_eq!(parse_daily_advice(&wrong_kind), None);
    assert_eq!(parse_daily_advice(&JsonValue::Bool(false)), None);
}

#[test]
fn lookup_finds_the_first_member_of_a_name() {
    let fields = vec![number("a", 0.1), text("b", "x"), number("a", 0.9)];
    assert_eq!(lookup(&fields, "a"), Some(&JsonValue::Number(score(0.1))));
    assert_eq!(lookup(&fields, "b"), Some(&JsonValue::Text("x".to_string())));
    assert_eq!(lookup(&fields, "c"), None);
    assert_eq!(number_field(&fields, "a"), Some(score(0.1)));
    assert_eq!(number_field(&fields, "b"), None);
    assert_eq!(text_field(&fields, "b"), Some("x".to_string()));
    assert_eq!(text_field(&fields, "a"), None);
}

fn member<'a>(value: &'a JsonValue, name: &str) -> &'a JsonValue {
    match value {
        JsonValue::Object(fields) => lookup(fields, name).unwrap(),
        _ => panic!("not an object"),
    }
}

fn check_schema(definition: &ToolDefinition, names: &[&str], kind: &str) {
    assert_eq!(member(&definition.schema, "type"), &JsonValue::Text("object".to_string()));
    let required: Vec<JsonValue> =
        names.iter().map(|name| JsonValue::Text(name.to_string())).collect();
    assert_eq!(member(&definition.schema, "required"), &JsonValue::Array(required));
    let properties = member(&definition.schema, "properties");
    for name in names {
        let declared = member(properties, name);
        assert_eq!(member(declared, "type"), &JsonValue::Text(kind.to_string()));
    }
}

#[test]
fn emotion_tool_definition() {
    let definition = get_emotion_scores_tool_definition();
    assert_eq!(definition.name, "print_emotion_scores");
    assert_eq!(definition.description, "Print emotion score of a given text.");
    check_schema(
        &definition,
        &["fear", "anger", "joy", "sad", "contempt", "disgust", "surprise"],
        "number",
    );
    let anger = member(member(&definition.schema, "properties"), "anger");
    assert_eq!(
        member(anger, "description"),
        &JsonValue::Text("Score for anger, ranging from 0.0 to 1.0.".to_string())
    );
}

#[test]
fn advice_tool_definition() {
    let definition = get_daily_advice_tool_definition();
    assert_eq!(definition.name, "print_advice_recommendation");
    assert_eq!(definition.description, "Print advice and song recommendation.");
    check_schema(&definition, &["advice", "song"], "string");
    let song = member(member(&definition.schema, "properties"), "song");
    assert_eq!(member(song, "description"), &JsonValue::Text("The name of the song.".to_string()));
}

#[test]
fn schema_builders() {
    let declared = property("boolean", "A flag.");
    assert_eq!(
        declared,
        JsonValue::Object(vec![text("type", "boolean"), text("description", "A flag.")])
    );
    let schema = object_schema(&vec![("flag".to_string(), "A flag.".to_string())], "boolean");
    let definition = ToolDefinition::new("print_flag", "Print a flag.", schema);
    assert_eq!(definition.name, "print_flag");
    check_schema(&definition, &["flag"], "boolean");
}

#[test]
fn written_readings_are_read_back_unchanged() {
    for anger in [0.0, 0.1, 0.25, 0.4, 0.5, 0.51, 0.9, 1.0, 1.7, -0.3] {
        let scores = full_scores(anger);
        assert_eq!(parse_emotion_scores(&emotion_payload(&scores)), Some(scores));
    }
    let payload = emotion_payload(&full_scores(0.9));
    match &payload {
        JsonValue::Object(fields) => {
            assert_eq!(fields.len(), 7);
            assert_eq!(number_field(fields, "anger"), Some(score(0.9)));
            assert_eq!(number_field(fields, "sad"), Some(score(0.3)));
            assert_eq!(number_field(fields, "surprise"), Some(score(0.6)));
        }
        other => panic!("not an object: {:?}", other),
    }
}

#[test]
fn written_advice_is_read_back_unchanged() {
    let advice =
        DailyAdvice { advice: "Take a walk.".to_string(), song: "Here Comes the Sun".to_string() };
    assert_eq!(parse_daily_advice(&advice_payload(&advice)), Some(advice));
}
