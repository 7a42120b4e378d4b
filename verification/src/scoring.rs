//! Decisions of the scoring pipeline: which queue items to accept and which
//! alerts a scored message raises.
use vstd::prelude::*;
use crate::extraction::{first_scores, select_emotion_scores, ContentBlock};
use crate::score::{Emotion, EmotionScores, Score};

verus! {

/// An alert that a scored message can raise.
#[derive(Clone, Copy, Debug, PartialEq, Eq, Structural)]
pub enum AlertKind {
    Anger,
    Disgust,
    Contempt,
}

impl AlertKind {
    /// The emotion whose reading raises this alert.
    pub open spec fn watched(self) -> Emotion {
        match self {
            AlertKind::Anger => Emotion::Anger,
            AlertKind::Disgust => Emotion::Disgust,
            AlertKind::Contempt => Emotion::Contempt,
        }
    }

    pub fn emotion(&self) -> (emotion: Emotion)
        ensures
            emotion == self.watched(),
    {
        match self {
            AlertKind::Anger => Emotion::Anger,
            AlertKind::Disgust => Emotion::Disgust,
            AlertKind::Contempt => Emotion::Contempt,
        }
    }
}

/// The alerts owed for `scores` under `threshold`, in the order in which they
/// are posted: anger, disgust, contempt.
pub open spec fn alerts_for(scores: EmotionScores, threshold: Score) -> Seq<AlertKind> {
    let anger: Seq<AlertKind> = if scores.anger.above(threshold) {
        seq![AlertKind::Anger]
    } else {
        seq![]
    };
    let disgust: Seq<AlertKind> = if scores.disgust.above(threshold) {
        seq![AlertKind::Disgust]
    } else {
        seq![]
    };
    let contempt: Seq<AlertKind> = if scores.contempt.above(threshold) {
        seq![AlertKind::Contempt]
    } else {
        seq![]
    };
    anger + disgust + contempt
}

/// Compares anger, disgust and contempt with `threshold`, each on its own and
/// strictly; fear, joy, sadness and surprise raise nothing.
pub fn threshold_alerts(scores: &EmotionScores, threshold: Score) -> (alerts: Vec<AlertKind>)
    ensures
        alerts@ == alerts_for(*scores, threshold),
{
    let mut alerts: Vec<AlertKind> = Vec::new();
    if scores.anger.exceeds(threshold) {
        alerts.push(AlertKind::Anger);
    }
    if scores.disgust.exceeds(threshold) {
        alerts.push(AlertKind::Disgust);
    }
    if scores.contempt.exceeds(threshold) {
        alerts.push(AlertKind::Contempt);
    }
    assert(alerts@ =~= alerts_for(*scores, threshold));
    alerts
}

/// An alert is owed exactly when the reading it watches is strictly above the
/// threshold, and no alert is owed twice.
pub proof fn alert_owed_iff_above(scores: EmotionScores, threshold: Score, kind: AlertKind)
    ensures
        alerts_for(scores, threshold).contains(kind) <==> scores.reading(kind.watched()).above(
            threshold,
        ),
        alerts_for(scores, threshold).no_duplicates(),
{
    let alerts = alerts_for(scores, threshold);
    let anger: Seq<AlertKind> = if scores.anger.above(threshold) {
        seq![AlertKind::Anger]
    } else {
        seq![]
    };
    let disgust: Seq<AlertKind> = if scores.disgust.above(threshold) {
        seq![AlertKind::Disgust]
    } else {
        seq![]
    };
    let contempt: Seq<AlertKind> = if scores.contempt.above(threshold) {
        seq![AlertKind::Contempt]
    } else {
        seq![]
    };
    assert(alerts =~= anger + disgust + contempt);
    if scores.reading(kind.watched()).above(threshold) {
        let at: int = match kind {
            AlertKind::Anger => 0,
            AlertKind::Disgust => anger.len() as int,
            AlertKind::Contempt => (anger.len() + disgust.len()) as int,
        };
        assert(alerts[at] == kind);
    }
}

/// The text of the alert of each kind, which names the emotion.
pub fn warning_message(kind: AlertKind) -> (message: String)
    ensures
        message@ == match kind {
            AlertKind::Anger => "Your message shows a high level of anger."@,
            AlertKind::Disgust => "Your message shows a high level of disgust."@,
            AlertKind::Contempt => "Your message shows a high level of contempt."@,
        },
{
    match kind {
        AlertKind::Anger => String::from_str("Your message shows a high level of anger."),
        AlertKind::Disgust => String::from_str("Your message shows a high level of disgust."),
        AlertKind::Contempt => String::from_str("Your message shows a high level of contempt."),
    }
}

/// A queue item is taken up unless it names a source other than the
/// configured queue.
pub fn accepts_source(event_source: &Option<String>, queue_identity: &String) -> (accepted: bool)
    ensures
        accepted == match *event_source {
            Some(source) => source@ == queue_identity@,
            None => true,
        },
{
    match event_source {
        Some(source) => *source == *queue_identity,
        None => true,
    }
}

/// What is done with a queue item once the model has replied.
#[derive(Debug, PartialEq, Eq)]
pub enum ItemPlan {
    /// The reply yields no readings: this item is given up, the rest of the
    /// batch goes on.
    Skip,
    /// Store the readings, then post each alert.
    Persist { scores: EmotionScores, alerts: Vec<AlertKind> },
}

/// Plans the work for one queue item from the model's reply: the readings are
/// those that the reply yields for the tool, and the alerts are those owed for
/// them under `threshold`.
pub fn score_reply(blocks: &Vec<ContentBlock>, tool_name: &str, threshold: Score) -> (plan: ItemPlan)
    ensures
        match plan {
            ItemPlan::Skip => first_scores(blocks@, tool_name@) is None,
            ItemPlan::Persist { scores, alerts } => first_scores(blocks@, tool_name@) == Some(
                scores,
            ) && alerts@ == alerts_for(scores, threshold),
        },
{
    match select_emotion_scores(blocks, tool_name) {
        Ok(scores) => {
            let alerts = threshold_alerts(&scores, threshold);
            ItemPlan::Persist { scores, alerts }
        },
        Err(_) => ItemPlan::Skip,
    }
}

} // verus!
