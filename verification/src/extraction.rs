//! Reading a typed payload out of a model's reply.
//!
//! A reply is a list of content blocks. Only a tool-use block that names the
//! expected tool is a candidate, and the reply yields the payload of the first
//! candidate that has the expected shape.
use vstd::prelude::*;
use crate::json::{advice_in, parse_daily_advice, parse_emotion_scores, scores_in, JsonValue};
use crate::score::{DailyAdvice, EmotionScores};
use crate::text::text_eq;

verus! {

/// One block of a reply.
#[derive(Debug, PartialEq, Eq)]
pub enum ContentBlock {
    /// Free text.
    Text(String),
    /// A call of the tool `name` with the payload `input`.
    ToolUse { name: String, input: JsonValue },
    /// Anything else.
    Other,
}

/// Why a reply yielded nothing.
#[derive(Clone, Copy, Debug, PartialEq, Eq, Structural)]
pub enum ExtractionError {
    /// No tool-use block of the reply names the expected tool and holds a
    /// payload of the expected shape.
    ExtractionFailed,
}

/// The payload that `block` offers for the tool `tool_name`.
pub open spec fn candidate(block: ContentBlock, tool_name: Seq<char>) -> Option<JsonValue> {
    match block {
        ContentBlock::ToolUse { name, input } => if name@ == tool_name {
            Some(input)
        } else {
            None
        },
        _ => None,
    }
}

/// The readings that `block` yields for the tool `tool_name`.
pub open spec fn scores_at(block: ContentBlock, tool_name: Seq<char>) -> Option<EmotionScores> {
    match candidate(block, tool_name) {
        Some(input) => scores_in(input),
        None => None,
    }
}

/// The advice that `block` yields for the tool `tool_name`.
pub open spec fn advice_at(block: ContentBlock, tool_name: Seq<char>) -> Option<
    (Seq<char>, Seq<char>),
> {
    match candidate(block, tool_name) {
        Some(input) => advice_in(input),
        None => None,
    }
}

/// The readings of the first block at or after `start` that yields any.
pub open spec fn first_scores_from(blocks: Seq<ContentBlock>, tool_name: Seq<char>, start: int) -> Option<
    EmotionScores,
>
    decreases blocks.len() - start,
{
    if start < 0 || start >= blocks.len() {
        None
    } else if scores_at(blocks[start], tool_name) is Some {
        scores_at(blocks[start], tool_name)
    } else {
        first_scores_from(blocks, tool_name, start + 1)
    }
}

/// The readings that a reply yields.
pub open spec fn first_scores(blocks: Seq<ContentBlock>, tool_name: Seq<char>) -> Option<
    EmotionScores,
> {
    first_scores_from(blocks, tool_name, 0)
}

/// The advice of the first block at or after `start` that yields any.
pub open spec fn first_advice_from(blocks: Seq<ContentBlock>, tool_name: Seq<char>, start: int) -> Option<
    (Seq<char>, Seq<char>),
>
    decreases blocks.len() - start,
{
    if start < 0 || start >= blocks.len() {
        None
    } else if advice_at(blocks[start], tool_name) is Some {
        advice_at(blocks[start], tool_name)
    } else {
        first_advice_from(blocks, tool_name, start + 1)
    }
}

/// The advice that a reply yields.
pub open spec fn first_advice(blocks: Seq<ContentBlock>, tool_name: Seq<char>) -> Option<
    (Seq<char>, Seq<char>),
> {
    first_advice_from(blocks, tool_name, 0)
}

/// The payload that `block` offers for the tool `tool_name`, if it is a
/// tool-use block that names that tool.
pub fn tool_input<'a>(block: &'a ContentBlock, tool_name: &str) -> (input: Option<&'a JsonValue>)
    ensures
        match input {
            Some(payload) => candidate(*block, tool_name@) == Some(*payload),
            None => candidate(*block, tool_name@) is None,
        },
{
    match block {
        ContentBlock::ToolUse { name, input } => {
            if text_eq(name.as_str(), tool_name) {
                Some(input)
            } else {
                None
            }
        },
        _ => None,
    }
}

/// Scans a reply for emotion readings. Blocks that are not tool uses, that
/// name another tool, or whose payload lacks the expected shape are passed
/// over; the first block that remains decides. The scan fails exactly when no
/// block remains.
pub fn select_emotion_scores(blocks: &Vec<ContentBlock>, tool_name: &str) -> (outcome: Result<
    EmotionScores,
    ExtractionError,
>)
    ensures
        match outcome {
            Ok(scores) => first_scores(blocks@, tool_name@) == Some(scores),
            Err(error) => first_scores(blocks@, tool_name@) is None && error
                == ExtractionError::ExtractionFailed,
        },
{
    let mut at: usize = 0;
    while at < blocks.len()
        invariant
            at <= blocks.len(),
            first_scores(blocks@, tool_name@) == first_scores_from(blocks@, tool_name@, at as int),
        decreases blocks.len() - at,
    {
        if let Some(input) = tool_input(&blocks[at], tool_name) {
            if let Some(scores) = parse_emotion_scores(input) {
                return Ok(scores);
            }
        }
        at += 1;
    }
    Err(ExtractionError::ExtractionFailed)
}

/// Scans a reply for daily advice, by the same rule as
/// [`select_emotion_scores`].
pub fn select_daily_advice(blocks: &Vec<ContentBlock>, tool_name: &str) -> (outcome: Result<
    DailyAdvice,
    ExtractionError,
>)
    ensures
        match outcome {
            Ok(advice) => first_advice(blocks@, tool_name@) == Some((advice.advice@, advice.song@)),
            Err(error) => first_advice(blocks@, tool_name@) is None && error
                == ExtractionError::ExtractionFailed,
        },
{
    let mut at: usize = 0;
    while at < blocks.len()
        invariant
            at <= blocks.len(),
            first_advice(blocks@, tool_name@) == first_advice_from(blocks@, tool_name@, at as int),
        decreases blocks.len() - at,
    {
        if let Some(input) = tool_input(&blocks[at], tool_name) {
            if let Some(advice) = parse_daily_advice(input) {
                return Ok(advice);
            }
        }
        at += 1;
    }
    Err(ExtractionError::ExtractionFailed)
}

/// A reply yields readings exactly when one of its blocks does, and then they
/// are those of the earliest such block: every block before it yields none.
pub proof fn first_scores_is_earliest(blocks: Seq<ContentBlock>, tool_name: Seq<char>, start: int)
    requires
        0 <= start,
    ensures
        first_scores_from(blocks, tool_name, start) is None <==> forall|at: int|
            start <= at < blocks.len() ==> #[trigger] scores_at(blocks[at], tool_name) is None,
        first_scores_from(blocks, tool_name, start) is Some ==> exists|at: int|
            start <= at < blocks.len() && #[trigger] scores_at(blocks[at], tool_name)
                == first_scores_from(blocks, tool_name, start) && forall|before: int|
                start <= before < at ==> #[trigger] scores_at(blocks[before], tool_name) is None,
    decreases blocks.len() - start,
{
    if start < blocks.len() {
        if scores_at(blocks[start], tool_name) is Some {
            assert(scores_at(blocks[start], tool_name) == first_scores_from(
                blocks,
                tool_name,
                start,
            ));
        } else {
            first_scores_is_earliest(blocks, tool_name, start + 1);
            if first_scores_from(blocks, tool_name, start) is Some {
                let at = choose|at: int|
                    start + 1 <= at < blocks.len() && #[trigger] scores_at(blocks[at], tool_name)
                        == first_scores_from(blocks, tool_name, start + 1) && forall|before: int|
                        start + 1 <= before < at ==> #[trigger] scores_at(
                            blocks[before],
                            tool_name,
                        ) is None;
                assert(scores_at(blocks[at], tool_name) == first_scores_from(
                    blocks,
                    tool_name,
                    start,
                ));
                assert forall|before: int| start <= before < at implies #[trigger] scores_at(
                    blocks[before],
                    tool_name,
                ) is None by {}
            }
        }
    }
}

/// The same law for advice: a reply yields advice exactly when one of its
/// blocks does, and then it is that of the earliest such block.
pub proof fn first_advice_is_earliest(blocks: Seq<ContentBlock>, tool_name: Seq<char>, start: int)
    requires
        0 <= start,
    ensures
        first_advice_from(blocks, tool_name, start) is None <==> forall|at: int|
            start <= at < blocks.len() ==> #[trigger] advice_at(blocks[at], tool_name) is None,
        first_advice_from(blocks, tool_name, start) is Some ==> exists|at: int|
            start <= at < blocks.len() && #[trigger] advice_at(blocks[at], tool_name)
                == first_advice_from(blocks, tool_name, start) && forall|before: int|
                start <= before < at ==> #[trigger] advice_at(blocks[before], tool_name) is None,
    decreases blocks.len() - start,
{
    if start < blocks.len() {
        if advice_at(blocks[start], tool_name) is Some {
            assert(advice_at(blocks[start], tool_name) == first_advice_from(
                blocks,
                tool_name,
                start,
            ));
        } else {
            first_advice_is_earliest(blocks, tool_name, start + 1);
            if first_advice_from(blocks, tool_name, start) is Some {
                let at = choose|at: int|
                    start + 1 <= at < blocks.len() && #[trigger] advice_at(blocks[at], tool_name)
                        == first_advice_from(blocks, tool_name, start + 1) && forall|before: int|
                        start + 1 <= before < at ==> #[trigger] advice_at(
                            blocks[before],
                            tool_name,
                        ) is None;
                assert(advice_at(blocks[at], tool_name) == first_advice_from(
                    blocks,
                    tool_name,
                    start,
                ));
                assert forall|before: int| start <= before < at implies #[trigger] advice_at(
                    blocks[before],
                    tool_name,
                ) is None by {}
            }
        }
    }
}

} // verus!
