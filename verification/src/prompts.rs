//! The texts that are sent out: prompts for the model and messages for the
//! chat.
use vstd::prelude::*;
use crate::aggregation::{DailySummary, Quote};

verus! {

/// What the rating prompt says before it names the tool.
pub const SCORING_PROMPT_HEAD: &'static str =
    "\n            You will be acting as an AI Empath.\n            Your are an expert at reading emotions within text messages and chats.\n            The text given will be a message sent to a Slack Channel of a company.\n            The target text will be surrounded by <text></text>.\n            You have to use using ";

/// What the rating prompt says after it names the tool.
pub const SCORING_PROMPT_TAIL: &'static str =
    " to print out the score for each emotion.\n        ";

/// What the advice prompt says before it names the tool.
pub const ADVICE_PROMPT_HEAD: &'static str =
    "\n            You are a mental health professional.\n            You give advices to employees based on the emotion scores evaluated for the text messages they sent to Slack through out the day.\n            The emotion scores for a single emplyee in a single day will be given in the following format.\n\n            <scores>\n            {anger: 0.6, contempt: 0.0, disgust: 0.0, fear: 0.1, joy: 0.6, surprise: 0.0, sad: 0.1}\n            {anger: 0.8, contempt: 0.0, disgust: 0.0, fear: 0.1, joy: 0.0, surprise: 0.0, sad: 0.1}\n            ...\n            <scores>\n\n            Each line represents a set of emotion scores for a single text message.\n            Lines are in the order of when the text message is sent. Earliest comes first.\n            Each score is evaluated in the range of 0.0 to 1.0.\n\n            You are job is to\n            - Give a one sentence advice\n            - Recommend a song to listen.\n\n            You have to use using ";

/// What the advice prompt says after it names the tool.
pub const ADVICE_PROMPT_TAIL: &'static str =
    " to print out the advice and the recommended song.\n        ";

/// What the header of a day's thread says after the date.
pub const THREAD_HEADER_TAIL: &'static str =
    "* :star::star:\nCheck out how you did yesterday and start your day off with AI recommended song!";

/// The lines of `lines` that are not empty, among the first `upto`, joined by
/// line breaks.
pub open spec fn joined_lines(lines: Seq<String>, upto: int) -> Seq<char>
    decreases upto,
{
    if upto <= 0 {
        Seq::empty()
    } else {
        let earlier = joined_lines(lines, upto - 1);
        let line = lines[upto - 1]@;
        if line.len() == 0 {
            earlier
        } else if earlier.len() == 0 {
            line
        } else {
            earlier + "\n"@ + line
        }
    }
}

/// The system prompt that frames the model as a rater of emotions and tells
/// it to answer through the tool `tool_name`.
pub fn scoring_system_prompt(tool_name: &str) -> (prompt: String)
    ensures
        prompt@ == SCORING_PROMPT_HEAD@ + tool_name@ + SCORING_PROMPT_TAIL@,
{
    String::from_str(SCORING_PROMPT_HEAD).concat(tool_name).concat(SCORING_PROMPT_TAIL)
}

/// The user message of a rating: the text between its delimiters.
pub fn scoring_user_message(text: &str) -> (message: String)
    ensures
        message@ == "<text>"@ + text@ + "</text>"@,
{
    String::from_str("<text>").concat(text).concat("</text>")
}

/// The system prompt that frames the model as an advisor and tells it to
/// answer through the tool `tool_name`.
pub fn advice_system_prompt(tool_name: &str) -> (prompt: String)
    ensures
        prompt@ == ADVICE_PROMPT_HEAD@ + tool_name@ + ADVICE_PROMPT_TAIL@,
{
    String::from_str(ADVICE_PROMPT_HEAD).concat(tool_name).concat(ADVICE_PROMPT_TAIL)
}

/// The user message of a request for advice: one line per message of the
/// day, earliest first, between the delimiters. Empty lines are left out.
pub fn advice_user_message(lines: &Vec<String>) -> (message: String)
    ensures
        message@ == "<scores>\n"@ + joined_lines(lines@, lines@.len() as int) + "\n<scores>"@,
{
    let mut body = String::new();
    let mut at: usize = 0;
    while at < lines.len()
        invariant
            at <= lines.len(),
            body@ == joined_lines(lines@, at as int),
        decreases lines.len() - at,
    {
        if !lines[at].as_str().is_empty() {
            if !body.as_str().is_empty() {
                body.append("\n");
            }
            body.append(lines[at].as_str());
        }
        at += 1;
    }
    String::from_str("<scores>\n").concat(body.as_str()).concat("\n<scores>")
}

/// The text of an alert, addressed to the user who wrote the message.
pub fn immediate_warning_text(user_id: &str, message: &str) -> (text: String)
    ensures
        text@ == ":warning:<@"@ + user_id@ + ">:warning:\n"@ + message@,
{
    String::from_str(":warning:<@").concat(user_id).concat(">:warning:\n").concat(message)
}

/// The text of the post that opens the thread of the day `date`.
pub fn daily_thread_text(date: &str) -> (text: String)
    ensures
        text@ == ":star::star: *"@ + date@ + THREAD_HEADER_TAIL@,
{
    String::from_str(":star::star: *").concat(date).concat(THREAD_HEADER_TAIL)
}

/// The opening of a user's summary, addressed to the user.
pub open spec fn greeting_of(user_id: Seq<char>) -> Seq<char> {
    ":heart: <@"@ + user_id + "> :heart:\n"@
}

/// The closing lines of a user's summary: the advice and the song.
pub open spec fn closing_of(advice: Seq<char>, song: Seq<char>) -> Seq<char> {
    "*Advice*: "@ + advice + "\n*Song Recommendation*: "@ + song
}

/// The line that quotes a message: the emotion, its reading as printed, and
/// the message's text.
pub open spec fn quote_line(emotion: Seq<char>, reading: Seq<char>, text: Seq<char>) -> Seq<char> {
    "*Message with max "@ + emotion + " ("@ + reading + ")*: "@ + text + "\n"@
}

/// What a summary says for one emotion: the quote's line, or nothing where no
/// quote is owed.
pub open spec fn quote_text(quote: Option<Quote>, emotion: Seq<char>, reading: Seq<char>) -> Seq<
    char,
> {
    match quote {
        Some(quote) => quote_line(emotion, reading, quote.text@),
        None => Seq::empty(),
    }
}

/// The whole text of a user's summary.
pub open spec fn summary_text_of(
    user_id: Seq<char>,
    summary: DailySummary,
    anger_reading: Seq<char>,
    contempt_reading: Seq<char>,
    disgust_reading: Seq<char>,
) -> Seq<char> {
    greeting_of(user_id) + quote_text(summary.anger, "anger"@, anger_reading) + quote_text(
        summary.contempt,
        "contempt"@,
        contempt_reading,
    ) + quote_text(summary.disgust, "disgust"@, disgust_reading) + closing_of(
        summary.advice@,
        summary.song@,
    )
}

/// The opening of a user's summary, addressed to the user.
pub fn summary_greeting(user_id: &str) -> (text: String)
    ensures
        text@ == greeting_of(user_id@),
{
    String::from_str(":heart: <@").concat(user_id).concat("> :heart:\n")
}

/// The closing lines of a user's summary: the advice and the song.
pub fn summary_closing(advice: &str, song: &str) -> (text: String)
    ensures
        text@ == closing_of(advice@, song@),
{
    String::from_str("*Advice*: ").concat(advice).concat("\n*Song Recommendation*: ").concat(song)
}

/// What a summary says for one emotion, given the reading as it is printed.
pub fn summary_quote(quote: &Option<Quote>, emotion: &str, reading: &str) -> (text: String)
    ensures
        text@ == quote_text(*quote, emotion@, reading@),
{
    match quote {
        Some(quote) => String::from_str("*Message with max ").concat(emotion).concat(" (").concat(
            reading,
        ).concat(")*: ").concat(quote.text.as_str()).concat("\n"),
        None => String::new(),
    }
}

/// The text posted for one user: the greeting, a line for each quote that the
/// summary holds, in the order anger, contempt, disgust, then the advice and
/// the song. The readings are given as they are to be printed.
pub fn summary_text(
    user_id: &str,
    summary: &DailySummary,
    anger_reading: &str,
    contempt_reading: &str,
    disgust_reading: &str,
) -> (text: String)
    ensures
        text@ == summary_text_of(
            user_id@,
            *summary,
            anger_reading@,
            contempt_reading@,
            disgust_reading@,
        ),
{
    let anger = summary_quote(&summary.anger, "anger", anger_reading);
    let contempt = summary_quote(&summary.contempt, "contempt", contempt_reading);
    let disgust = summary_quote(&summary.disgust, "disgust", disgust_reading);
    let closing = summary_closing(summary.advice.as_str(), summary.song.as_str());
    summary_greeting(user_id).concat(anger.as_str()).concat(contempt.as_str()).concat(
        disgust.as_str(),
    ).concat(closing.as_str())
}

} // verus!
