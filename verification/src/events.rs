//! Inbound chat events, the rules that admit them, and the record that is
//! stored for a scored message.
use vstd::prelude::*;
use crate::calendar::{get_date_month, local_date, local_month, signed_seconds, CalendarError};
use crate::score::EmotionScores;
use crate::text::{occurs_in, text_contains, text_eq};

verus! {

/// A request of the chat platform to prove ownership of the endpoint.
#[derive(Clone, Debug, PartialEq, Eq)]
pub struct EventChallengeRequest {
    pub challenge: String,
    pub token: String,
    /// The payload's `type`.
    pub kind: String,
}

/// A delivery of one chat event.
#[derive(Clone, Debug, PartialEq, Eq)]
pub struct MessageEventRequest {
    pub api_app_id: String,
    pub event_id: String,
    pub event_time: u64,
    pub is_ext_shared_channel: bool,
    pub token: String,
    /// The payload's outer `type`.
    pub kind: String,
    pub event: MessageEvent,
}

/// The chat event inside a delivery.
#[derive(Clone, Debug, PartialEq, Eq)]
pub struct MessageEvent {
    pub channel: String,
    /// `channel` or `im`.
    pub channel_type: String,
    /// The event's `type`.
    pub kind: String,
    /// Absent on a message that a user wrote.
    pub subtype: Option<String>,
    /// The timestamp under which replies are threaded.
    pub event_ts: String,
    pub text: String,
    pub user: String,
    /// Absent on a message that a user wrote.
    pub bot_id: Option<String>,
}

/// Why a delivery is dropped.
#[derive(Clone, Copy, Debug, PartialEq, Eq, Structural)]
pub enum RejectReason {
    /// Not an event callback that carries a message.
    WrongEventType,
    /// Written by a bot.
    BotMessage,
    /// A bot, channel or notification subtype.
    Notification,
    /// No text.
    EmptyText,
}

/// Whether a subtype marks a message that is not a user's own.
pub open spec fn is_excluded_subtype(subtype: Seq<char>) -> bool {
    occurs_in("bot"@, subtype) || occurs_in("channel"@, subtype) || occurs_in(
        "notification"@,
        subtype,
    )
}

/// The first reason, in the order of [`RejectReason`], for which a delivery is
/// dropped; `None` for one that is forwarded.
pub open spec fn rejection(request: MessageEventRequest) -> Option<RejectReason> {
    if request.kind@ != "event_callback"@ || request.event.kind@ != "message"@ {
        Some(RejectReason::WrongEventType)
    } else if request.event.bot_id is Some {
        Some(RejectReason::BotMessage)
    } else if request.event.subtype is Some && is_excluded_subtype(request.event.subtype->0@) {
        Some(RejectReason::Notification)
    } else if request.event.text@.len() == 0 {
        Some(RejectReason::EmptyText)
    } else {
        None
    }
}

/// A challenge is answered exactly when it carries the configured token and
/// is of type `url_verification`.
pub fn verify_challenge(challenge_request: &EventChallengeRequest, verification_token: &str) -> (verified: bool)
    ensures
        verified == (verification_token@ == challenge_request.token@ && challenge_request.kind@
            == "url_verification"@),
{
    text_eq(verification_token, challenge_request.token.as_str()) && text_eq(
        challenge_request.kind.as_str(),
        "url_verification",
    )
}

/// Decides whether a delivery is forwarded to the queue.
pub fn verify_message_request(message_request: &MessageEventRequest) -> (outcome: Result<
    (),
    RejectReason,
>)
    ensures
        match outcome {
            Ok(_) => rejection(*message_request) is None,
            Err(reason) => rejection(*message_request) == Some(reason),
        },
{
    if !text_eq(message_request.kind.as_str(), "event_callback") || !text_eq(
        message_request.event.kind.as_str(),
        "message",
    ) {
        return Err(RejectReason::WrongEventType);
    }
    if message_request.event.bot_id.is_some() {
        return Err(RejectReason::BotMessage);
    }
    match &message_request.event.subtype {
        Some(subtype) => {
            if text_contains(subtype.as_str(), "bot") || text_contains(subtype.as_str(), "channel")
                || text_contains(subtype.as_str(), "notification") {
                return Err(RejectReason::Notification);
            }
        },
        None => {},
    }
    if message_request.event.text.as_str().is_empty() {
        return Err(RejectReason::EmptyText);
    }
    Ok(())
}

/// What the endpoint does with a payload.
#[derive(Clone, Copy, Debug, PartialEq, Eq, Structural)]
pub enum WebhookAction {
    /// Echo the challenge back.
    AnswerChallenge,
    /// Answer with an error: the challenge did not verify.
    RejectChallenge,
    /// Acknowledge and do nothing more.
    Drop,
    /// Acknowledge and put the delivery on the queue.
    Forward,
}

/// The action owed for a payload, read as a challenge where it is one and as
/// a delivery otherwise. A challenge is answered only if the token is
/// configured and verifies. A delivery is forwarded only if nothing rejects it
/// and the queue is configured. Whatever else arrives is dropped.
pub open spec fn webhook_action(
    challenge: Option<EventChallengeRequest>,
    delivery: Option<MessageEventRequest>,
    verification_token: Option<String>,
    queue_configured: bool,
) -> WebhookAction {
    match challenge {
        Some(request) => if verification_token is Some && verification_token->0@ == request.token@
            && request.kind@ == "url_verification"@ {
            WebhookAction::AnswerChallenge
        } else {
            WebhookAction::RejectChallenge
        },
        None => match delivery {
            Some(request) => if rejection(request) is None && queue_configured {
                WebhookAction::Forward
            } else {
                WebhookAction::Drop
            },
            None => WebhookAction::Drop,
        },
    }
}

/// Decides what the endpoint does with a payload.
pub fn decide_webhook(
    challenge: &Option<EventChallengeRequest>,
    delivery: &Option<MessageEventRequest>,
    verification_token: &Option<String>,
    queue_configured: bool,
) -> (action: WebhookAction)
    ensures
        action == webhook_action(*challenge, *delivery, *verification_token, queue_configured),
{
    match challenge {
        Some(request) => {
            let verified = match verification_token {
                Some(token) => verify_challenge(request, token.as_str()),
                None => false,
            };
            if verified {
                WebhookAction::AnswerChallenge
            } else {
                WebhookAction::RejectChallenge
            }
        },
        None => match delivery {
            Some(request) => {
                if verify_message_request(request).is_ok() && queue_configured {
                    WebhookAction::Forward
                } else {
                    WebhookAction::Drop
                }
            },
            None => WebhookAction::Drop,
        },
    }
}

/// The stored record of one scored message.
#[derive(Clone, Debug, PartialEq, Eq)]
pub struct EmotionTableEntry {
    pub event_id: String,
    pub user_id: String,
    pub timestamp: u64,
    /// Local date of `timestamp`.
    pub date: String,
    /// Local month of `timestamp`.
    pub month: String,
    pub channel_id: String,
    pub channel_type: String,
    pub text: String,
    pub scores: EmotionScores,
}

impl EmotionTableEntry {
    /// Whether this record is the one that `request` and `scores` give.
    pub open spec fn records(self, request: MessageEventRequest, scores: EmotionScores) -> bool {
        &&& self.event_id@ == request.event_id@
        &&& self.user_id@ == request.event.user@
        &&& self.timestamp == request.event_time
        &&& local_date(signed_seconds(request.event_time)) == Some(self.date@)
        &&& local_month(signed_seconds(request.event_time)) == Some(self.month@)
        &&& self.channel_id@ == request.event.channel@
        &&& self.channel_type@ == request.event.channel_type@
        &&& self.text@ == request.event.text@
        &&& self.scores == scores
    }

    /// Builds the record of a delivery and its readings. Fails exactly when
    /// the delivery's time has no local date or month.
    pub fn new(message_request: &MessageEventRequest, scores: &EmotionScores) -> (outcome: Result<
        EmotionTableEntry,
        CalendarError,
    >)
        ensures
            match outcome {
                Ok(entry) => entry.records(*message_request, *scores),
                Err(error) => error == CalendarError::OutOfRange && (local_date(
                    signed_seconds(message_request.event_time),
                ) is None || local_month(signed_seconds(message_request.event_time)) is None),
            },
    {
        match get_date_month(message_request.event_time) {
            Ok((date, month)) => Ok(
                EmotionTableEntry {
                    event_id: message_request.event_id.clone(),
                    user_id: message_request.event.user.clone(),
                    timestamp: message_request.event_time,
                    date,
                    month,
                    channel_id: message_request.event.channel.clone(),
                    channel_type: message_request.event.channel_type.clone(),
                    text: message_request.event.text.clone(),
                    scores: *scores,
                },
            ),
            Err(error) => Err(error),
        }
    }
}

} // verus!
