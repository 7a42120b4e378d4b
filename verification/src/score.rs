//! Emotion readings and the values built from them.
use vstd::prelude::*;

verus! {

/// Key of the reading 0.4, the least reading that earns a quoted line in a
/// daily summary.
pub const QUOTE_FLOOR_KEY: i64 = 4600877379321698714;

/// One emotion reading.
///
/// A reading is a real number, intended to lie between 0.0 and 1.0. It is held
/// here by its `key`: the bit pattern of the IEEE-754 double, read as a signed
/// magnitude. For any two readings that are numbers, the larger reading has the
/// larger key, and equal readings have equal keys, so every comparison the
/// pipeline makes is a comparison of keys.
#[derive(Clone, Copy, Debug, PartialEq, Eq, Structural)]
pub struct Score {
    pub key: i64,
}

impl Score {
    /// Whether this reading is strictly greater than `other`.
    pub open spec fn above(self, other: Score) -> bool {
        self.key > other.key
    }

    /// Whether this reading is greater than or equal to `other`.
    pub open spec fn reaches(self, other: Score) -> bool {
        self.key >= other.key
    }

    pub fn from_key(key: i64) -> (score: Score)
        ensures
            score.key == key,
    {
        Score { key }
    }

    pub fn key(&self) -> (key: i64)
        ensures
            key == self.key,
    {
        self.key
    }

    /// Strict comparison: `true` exactly when this reading is greater.
    pub fn exceeds(&self, other: Score) -> (greater: bool)
        ensures
            greater == self.above(other),
    {
        self.key > other.key
    }

    /// `true` exactly when this reading is not smaller than `other`.
    pub fn at_least(&self, other: Score) -> (reached: bool)
        ensures
            reached == self.reaches(other),
    {
        self.key >= other.key
    }

    /// The reading 0.4.
    pub fn quote_floor() -> (floor: Score)
        ensures
            floor.key == QUOTE_FLOOR_KEY,
    {
        Score { key: QUOTE_FLOOR_KEY }
    }
}

/// The seven emotions that a message is rated for.
#[derive(Clone, Copy, Debug, PartialEq, Eq, Structural)]
pub enum Emotion {
    Anger,
    Contempt,
    Disgust,
    Fear,
    Joy,
    Surprise,
    Sad,
}

/// The seven readings of one message.
#[derive(Clone, Copy, Debug, PartialEq, Eq, Structural)]
pub struct EmotionScores {
    pub anger: Score,
    pub contempt: Score,
    pub disgust: Score,
    pub fear: Score,
    pub joy: Score,
    pub surprise: Score,
    pub sad: Score,
}

impl EmotionScores {
    /// The reading for one emotion.
    pub open spec fn reading(self, emotion: Emotion) -> Score {
        match emotion {
            Emotion::Anger => self.anger,
            Emotion::Contempt => self.contempt,
            Emotion::Disgust => self.disgust,
            Emotion::Fear => self.fear,
            Emotion::Joy => self.joy,
            Emotion::Surprise => self.surprise,
            Emotion::Sad => self.sad,
        }
    }

    pub fn get(&self, emotion: Emotion) -> (score: Score)
        ensures
            score == self.reading(emotion),
    {
        match emotion {
            Emotion::Anger => self.anger,
            Emotion::Contempt => self.contempt,
            Emotion::Disgust => self.disgust,
            Emotion::Fear => self.fear,
            Emotion::Joy => self.joy,
            Emotion::Surprise => self.surprise,
            Emotion::Sad => self.sad,
        }
    }
}

/// Coaching for one user and one day: a sentence of advice and a song title.
#[derive(Clone, Debug, PartialEq, Eq)]
pub struct DailyAdvice {
    pub advice: String,
    pub song: String,
}

} // verus!
