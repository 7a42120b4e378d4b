//! A JSON-like value and the two payload shapes that are read out of it.
use vstd::prelude::*;
use crate::score::{DailyAdvice, EmotionScores, Score};
use crate::text::text_eq;

verus! {

/// A JSON-like value. An object keeps its members in the order given; a
/// member is found by the first entry that carries its name.
#[derive(Debug, PartialEq, Eq)]
pub enum JsonValue {
    Null,
    Bool(bool),
    Number(Score),
    Text(String),
    Array(Vec<JsonValue>),
    Object(Vec<(String, JsonValue)>),
}

/// The value of the first member named `name` at or after position `start`.
pub open spec fn field_from(fields: Seq<(String, JsonValue)>, name: Seq<char>, start: int) -> Option<
    JsonValue,
>
    decreases fields.len() - start,
{
    if start < 0 || start >= fields.len() {
        None
    } else if fields[start].0@ == name {
        Some(fields[start].1)
    } else {
        field_from(fields, name, start + 1)
    }
}

/// The value of the member named `name`, if there is one.
pub open spec fn field_of(fields: Seq<(String, JsonValue)>, name: Seq<char>) -> Option<JsonValue> {
    field_from(fields, name, 0)
}

/// The reading held by a member that is present and a number.
pub open spec fn number_in(member: Option<JsonValue>) -> Option<Score> {
    match member {
        Some(JsonValue::Number(score)) => Some(score),
        _ => None,
    }
}

/// The characters held by a member that is present and a string.
pub open spec fn text_in(member: Option<JsonValue>) -> Option<Seq<char>> {
    match member {
        Some(JsonValue::Text(text)) => Some(text@),
        _ => None,
    }
}

/// The members of a value that is an object.
pub open spec fn members_of(payload: JsonValue) -> Option<Seq<(String, JsonValue)>> {
    match payload {
        JsonValue::Object(fields) => Some(fields@),
        _ => None,
    }
}

/// The emotion readings that `payload` holds: it must be an object in which
/// each of the seven emotions names a number. Other members are ignored.
pub open spec fn scores_in(payload: JsonValue) -> Option<EmotionScores> {
    match members_of(payload) {
        Some(fields) => {
            let anger = number_in(field_of(fields, "anger"@));
            let contempt = number_in(field_of(fields, "contempt"@));
            let disgust = number_in(field_of(fields, "disgust"@));
            let fear = number_in(field_of(fields, "fear"@));
            let joy = number_in(field_of(fields, "joy"@));
            let surprise = number_in(field_of(fields, "surprise"@));
            let sad = number_in(field_of(fields, "sad"@));
            if anger is Some && contempt is Some && disgust is Some && fear is Some && joy is Some
                && surprise is Some && sad is Some {
                Some(
                    EmotionScores {
                        anger: anger->0,
                        contempt: contempt->0,
                        disgust: disgust->0,
                        fear: fear->0,
                        joy: joy->0,
                        surprise: surprise->0,
                        sad: sad->0,
                    },
                )
            } else {
                None
            }
        },
        None => None,
    }
}

/// The advice and the song that `payload` holds: it must be an object in
/// which `advice` and `song` each name a string.
pub open spec fn advice_in(payload: JsonValue) -> Option<(Seq<char>, Seq<char>)> {
    match members_of(payload) {
        Some(fields) => {
            let advice = text_in(field_of(fields, "advice"@));
            let song = text_in(field_of(fields, "song"@));
            if advice is Some && song is Some {
                Some((advice->0, song->0))
            } else {
                None
            }
        },
        None => None,
    }
}

/// Finds the member named `name`.
pub fn lookup<'a>(fields: &'a Vec<(String, JsonValue)>, name: &str) -> (found: Option<
    &'a JsonValue,
>)
    ensures
        match found {
            Some(value) => field_of(fields@, name@) == Some(*value),
            None => field_of(fields@, name@) is None,
        },
{
    let mut at: usize = 0;
    while at < fields.len()
        invariant
            at <= fields.len(),
            field_of(fields@, name@) == field_from(fields@, name@, at as int),
        decreases fields.len() - at,
    {
        if text_eq(fields[at].0.as_str(), name) {
            return Some(&fields[at].1);
        }
        at += 1;
    }
    None
}

/// Reads the member named `name` as a number.
pub fn number_field(fields: &Vec<(String, JsonValue)>, name: &str) -> (score: Option<Score>)
    ensures
        score == number_in(field_of(fields@, name@)),
{
    match lookup(fields, name) {
        Some(JsonValue::Number(score)) => Some(*score),
        _ => None,
    }
}

/// Reads the member named `name` as a string.
pub fn text_field(fields: &Vec<(String, JsonValue)>, name: &str) -> (text: Option<String>)
    ensures
        match text {
            Some(found) => text_in(field_of(fields@, name@)) == Some(found@),
            None => text_in(field_of(fields@, name@)) is None,
        },
{
    match lookup(fields, name) {
        Some(JsonValue::Text(found)) => Some(found.clone()),
        _ => None,
    }
}

/// Reads a payload as emotion readings; `None` exactly when the payload is
/// not an object or one of the seven readings is missing or not a number.
pub fn parse_emotion_scores(payload: &JsonValue) -> (scores: Option<EmotionScores>)
    ensures
        scores == scores_in(*payload),
{
    match payload {
        JsonValue::Object(fields) => {
            let anger = number_field(fields, "anger");
            let contempt = number_field(fields, "contempt");
            let disgust = number_field(fields, "disgust");
            let fear = number_field(fields, "fear");
            let joy = number_field(fields, "joy");
            let surprise = number_field(fields, "surprise");
            let sad = number_field(fields, "sad");
            match (anger, contempt, disgust, fear, joy, surprise, sad) {
                (
                    Some(anger),
                    Some(contempt),
                    Some(disgust),
                    Some(fear),
                    Some(joy),
                    Some(surprise),
                    Some(sad),
                ) => Some(EmotionScores { anger, contempt, disgust, fear, joy, surprise, sad }),
                _ => None,
            }
        },
        _ => None,
    }
}

/// Reads a payload as daily advice; `None` exactly when the payload is not an
/// object or `advice` or `song` is missing or not a string.
pub fn parse_daily_advice(payload: &JsonValue) -> (advice: Option<DailyAdvice>)
    ensures
        match advice {
            Some(found) => advice_in(*payload) == Some((found.advice@, found.song@)),
            None => advice_in(*payload) is None,
        },
{
    match payload {
        JsonValue::Object(fields) => {
            let advice = text_field(fields, "advice");
            let song = text_field(fields, "song");
            match (advice, song) {
                (Some(advice), Some(song)) => Some(DailyAdvice { advice, song }),
                _ => None,
            }
        },
        _ => None,
    }
}

fn number_member(name: &str, score: Score) -> (member: (String, JsonValue))
    ensures
        member.0@ == name@,
        member.1 == JsonValue::Number(score),
{
    (String::from_str(name), JsonValue::Number(score))
}

/// Writes emotion readings as a payload. Reading the payload back gives the
/// same readings.
pub fn emotion_payload(scores: &EmotionScores) -> (payload: JsonValue)
    ensures
        scores_in(payload) == Some(*scores),
{
    let mut fields: Vec<(String, JsonValue)> = Vec::new();
    fields.push(number_member("anger", scores.anger));
    fields.push(number_member("contempt", scores.contempt));
    fields.push(number_member("disgust", scores.disgust));
    fields.push(number_member("fear", scores.fear));
    fields.push(number_member("joy", scores.joy));
    fields.push(number_member("surprise", scores.surprise));
    fields.push(number_member("sad", scores.sad));
    proof {
        reveal_strlit("anger");
        reveal_strlit("contempt");
        reveal_strlit("disgust");
        reveal_strlit("fear");
        reveal_strlit("joy");
        reveal_strlit("surprise");
        reveal_strlit("sad");
        reveal_with_fuel(field_from, 8);
        assert(fields@[0].0@ == "anger"@ && "anger"@.len() == 5);
        assert(fields@[1].0@ == "contempt"@ && "contempt"@.len() == 8);
        assert(fields@[2].0@ == "disgust"@ && "disgust"@.len() == 7);
        assert(fields@[3].0@ == "fear"@ && "fear"@.len() == 4);
        assert(fields@[4].0@ == "joy"@ && "joy"@.len() == 3);
        assert(fields@[5].0@ == "surprise"@ && "surprise"@.len() == 8);
        assert(fields@[6].0@ == "sad"@ && "sad"@.len() == 3);
        assert("contempt"@[0] != "surprise"@[0]);
        assert("joy"@[0] != "sad"@[0]);
        assert(field_of(fields@, "anger"@) == Some(fields@[0].1));
        assert(field_of(fields@, "contempt"@) == Some(fields@[1].1));
        assert(field_of(fields@, "disgust"@) == Some(fields@[2].1));
        assert(field_of(fields@, "fear"@) == Some(fields@[3].1));
        assert(field_of(fields@, "joy"@) == Some(fields@[4].1));
        assert(field_of(fields@, "surprise"@) == Some(fields@[5].1));
        assert(field_of(fields@, "sad"@) == Some(fields@[6].1));
    }
    JsonValue::Object(fields)
}

/// Writes daily advice as a payload. Reading the payload back gives the same
/// advice and song.
pub fn advice_payload(advice: &DailyAdvice) -> (payload: JsonValue)
    ensures
        advice_in(payload) == Some((advice.advice@, advice.song@)),
{
    let mut fields: Vec<(String, JsonValue)> = Vec::new();
    fields.push((String::from_str("advice"), JsonValue::Text(advice.advice.clone())));
    fields.push((String::from_str("song"), JsonValue::Text(advice.song.clone())));
    proof {
        reveal_strlit("advice");
        reveal_strlit("song");
        reveal_with_fuel(field_from, 3);
        assert(fields@[0].0@ == "advice"@ && "advice"@.len() == 6);
        assert(fields@[1].0@ == "song"@ && "song"@.len() == 4);
        assert(field_of(fields@, "advice"@) == Some(fields@[0].1));
        assert(field_of(fields@, "song"@) == Some(fields@[1].1));
    }
    JsonValue::Object(fields)
}

} // verus!
