//! The daily aggregation: stored records are grouped by user, each user's
//! strongest messages are selected, and a summary is planned.
use vstd::prelude::*;
use crate::events::EmotionTableEntry;
use crate::score::{DailyAdvice, Emotion, EmotionScores, Score, QUOTE_FLOOR_KEY};
use crate::text::text_eq;

verus! {

/// The readings and the text of one message.
#[derive(Clone, Debug, PartialEq, Eq)]
pub struct ScoredText {
    pub scores: EmotionScores,
    pub text: String,
}

/// One user's messages of the day, earliest first.
#[derive(Debug, PartialEq, Eq)]
pub struct UserRecords {
    pub user_id: String,
    pub records: Vec<ScoredText>,
}

/// The readings and texts held by `records`, in order.
pub open spec fn pairs_of(records: Seq<ScoredText>) -> Seq<(EmotionScores, Seq<char>)> {
    Seq::new(records.len(), |at: int| (records[at].scores, records[at].text@))
}

/// The readings and texts of the messages of `user` among the first `upto`
/// entries, in the order of the entries.
pub open spec fn records_of(entries: Seq<EmotionTableEntry>, user: Seq<char>, upto: int) -> Seq<
    (EmotionScores, Seq<char>),
>
    decreases upto,
{
    if upto <= 0 {
        seq![]
    } else {
        let earlier = records_of(entries, user, upto - 1);
        if entries[upto - 1].user_id@ == user {
            earlier.push((entries[upto - 1].scores, entries[upto - 1].text@))
        } else {
            earlier
        }
    }
}

/// Whether `user` is one of `users`.
pub open spec fn listed(users: Seq<String>, user: Seq<char>) -> bool {
    exists|at: int| 0 <= at < users.len() && #[trigger] users[at]@ == user
}

/// The position of the first message of `user` at or after `start`, or the
/// number of entries where there is none.
pub open spec fn first_message_from(entries: Seq<EmotionTableEntry>, user: Seq<char>, start: int) -> int
    decreases entries.len() - start,
{
    if start < 0 || start >= entries.len() {
        entries.len() as int
    } else if entries[start].user_id@ == user {
        start
    } else {
        first_message_from(entries, user, start + 1)
    }
}

/// The position of the first message of `user`.
pub open spec fn first_message(entries: Seq<EmotionTableEntry>, user: Seq<char>) -> int {
    first_message_from(entries, user, 0)
}

/// Whether `users` names the authors of the first `upto` entries and nobody
/// else, each once, in the order of their first messages.
pub open spec fn authors_of(users: Seq<String>, entries: Seq<EmotionTableEntry>, upto: int) -> bool {
    &&& forall|first: int, second: int|
        0 <= first < second < users.len() ==> first_message(entries, #[trigger] users[first]@)
            < first_message(entries, #[trigger] users[second]@)
    &&& forall|at: int| 0 <= at < upto ==> listed(users, #[trigger] entries[at].user_id@)
    &&& forall|at: int|
        0 <= at < users.len() ==> 0 <= first_message(entries, #[trigger] users[at]@) < upto
}

/// Whether `groups` is a grouping of `entries` by user: every author has one
/// group, the groups stand in the order of their users' first messages, no
/// group is empty, and a group holds exactly its user's messages in the order
/// of the entries.
pub open spec fn grouped(groups: Seq<UserRecords>, entries: Seq<EmotionTableEntry>) -> bool {
    &&& forall|first: int, second: int|
        0 <= first < second < groups.len() ==> first_message(
            entries,
            #[trigger] groups[first].user_id@,
        ) < first_message(entries, #[trigger] groups[second].user_id@)
    &&& forall|at: int|
        0 <= at < entries.len() ==> exists|group: int|
            0 <= group < groups.len() && #[trigger] groups[group].user_id@
                == #[trigger] entries[at].user_id@
    &&& forall|group: int|
        0 <= group < groups.len() ==> groups[group].records@.len() > 0 && pairs_of(
            #[trigger] groups[group].records@,
        ) == records_of(entries, groups[group].user_id@, entries.len() as int)
}

/// The reading of `emotion` in the message at `at`.
pub open spec fn reading_at(records: Seq<ScoredText>, emotion: Emotion, at: int) -> int {
    records[at].scores.reading(emotion).key as int
}

/// Whether the message at `at` holds the greatest reading of `emotion` and is
/// the earliest message to do so.
pub open spec fn is_first_maximum(records: Seq<ScoredText>, emotion: Emotion, at: int) -> bool {
    &&& 0 <= at < records.len()
    &&& forall|other: int|
        0 <= other < records.len() ==> #[trigger] reading_at(records, emotion, other) <= reading_at(
            records,
            emotion,
            at,
        )
    &&& forall|before: int|
        0 <= before < at ==> #[trigger] reading_at(records, emotion, before) < reading_at(
            records,
            emotion,
            at,
        )
}

fn is_listed(users: &Vec<String>, user: &str) -> (found: bool)
    ensures
        found == listed(users@, user@),
{
    let mut at: usize = 0;
    while at < users.len()
        invariant
            at <= users.len(),
            forall|seen: int| 0 <= seen < at ==> #[trigger] users[seen]@ != user@,
        decreases users.len() - at,
    {
        if text_eq(users[at].as_str(), user) {
            return true;
        }
        at += 1;
    }
    false
}

/// The first message of a user at or after `start` is a message of that
/// user, and no message of the user stands between `start` and it.
pub proof fn first_message_is_first(entries: Seq<EmotionTableEntry>, user: Seq<char>, start: int)
    requires
        0 <= start <= entries.len(),
    ensures
        start <= first_message_from(entries, user, start) <= entries.len(),
        first_message_from(entries, user, start) < entries.len() ==> entries[first_message_from(
            entries,
            user,
            start,
        )].user_id@ == user,
        forall|at: int|
            start <= at < first_message_from(entries, user, start) ==> (
            #[trigger] entries[at]).user_id@ != user,
    decreases entries.len() - start,
{
    if start < entries.len() && entries[start].user_id@ != user {
        first_message_is_first(entries, user, start + 1);
    }
}

/// Two users with the same first message are the same user, and a user with
/// a first message is the author of an entry.
pub proof fn first_message_names_user(entries: Seq<EmotionTableEntry>, one: Seq<char>, other: Seq<char>)
    requires
        first_message(entries, one) == first_message(entries, other),
        first_message(entries, one) < entries.len(),
    ensures
        one == other,
{
    first_message_is_first(entries, one, 0);
    first_message_is_first(entries, other, 0);
}

/// The authors of `entries`, each once, in the order of their first message.
pub fn distinct_users(entries: &Vec<EmotionTableEntry>) -> (users: Vec<String>)
    ensures
        authors_of(users@, entries@, entries@.len() as int),
{
    let mut users: Vec<String> = Vec::new();
    let mut at: usize = 0;
    while at < entries.len()
        invariant
            at <= entries.len(),
            authors_of(users@, entries@, at as int),
        decreases entries.len() - at,
    {
        let ghost before = users@;
        if !is_listed(&users, entries[at].user_id.as_str()) {
            users.push(entries[at].user_id.clone());
            proof {
                let added = before.len() as int;
                let author = entries@[at as int].user_id@;
                assert(users@[added]@ == author);
                first_message_is_first(entries@, author, 0);
                assert(first_message(entries@, author) == at) by {
                    let found = first_message(entries@, author);
                    if found < at {
                        assert(listed(before, entries@[found].user_id@));
                    }
                }
                assert forall|seen: int| 0 <= seen < at + 1 implies listed(
                    users@,
                    #[trigger] entries@[seen].user_id@,
                ) by {
                    if seen < at {
                        let old_at = choose|old_at: int|
                            0 <= old_at < before.len() && #[trigger] before[old_at]@
                                == entries@[seen].user_id@;
                        assert(users@[old_at]@ == entries@[seen].user_id@);
                    }
                }
                assert forall|user: int| 0 <= user < users@.len() implies 0 <= first_message(
                    entries@,
                    #[trigger] users@[user]@,
                ) < at + 1 by {
                    if user < added {
                        assert(users@[user] == before[user]);
                    }
                }
                assert forall|first: int, second: int|
                    0 <= first < second < users@.len() implies first_message(
                    entries@,
                    #[trigger] users@[first]@,
                ) < first_message(entries@, #[trigger] users@[second]@) by {
                    assert(users@[first] == before[first]);
                    if second < added {
                        assert(users@[second] == before[second]);
                    }
                }
            }
        }
        at += 1;
    }
    users
}

/// The messages of `user` among `entries`, in the order of the entries.
pub fn records_for_user(entries: &Vec<EmotionTableEntry>, user: &str) -> (records: Vec<ScoredText>)
    ensures
        pairs_of(records@) == records_of(entries@, user@, entries@.len() as int),
{
    let mut records: Vec<ScoredText> = Vec::new();
    let mut at: usize = 0;
    assert(pairs_of(records@) =~= records_of(entries@, user@, 0));
    while at < entries.len()
        invariant
            at <= entries.len(),
            pairs_of(records@) == records_of(entries@, user@, at as int),
        decreases entries.len() - at,
    {
        if text_eq(entries[at].user_id.as_str(), user) {
            let ghost before = records@;
            records.push(ScoredText { scores: entries[at].scores, text: entries[at].text.clone() });
            assert(pairs_of(records@) =~= pairs_of(before).push(
                (entries@[at as int].scores, entries@[at as int].text@),
            ));
        }
        at += 1;
    }
    records
}

/// A user who wrote one of the first `upto` entries has a message among them.
pub proof fn author_has_records(entries: Seq<EmotionTableEntry>, user: Seq<char>, upto: int, at: int)
    requires
        0 <= at < upto <= entries.len(),
        entries[at].user_id@ == user,
    ensures
        records_of(entries, user, upto).len() > 0,
    decreases upto,
{
    if at < upto - 1 {
        author_has_records(entries, user, upto - 1, at);
    }
}

/// No two groups of a grouping share a user.
pub proof fn groups_have_distinct_users(
    groups: Seq<UserRecords>,
    entries: Seq<EmotionTableEntry>,
    first: int,
    second: int,
)
    requires
        grouped(groups, entries),
        0 <= first < second < groups.len(),
    ensures
        groups[first].user_id@ != groups[second].user_id@,
{
}

/// Groups the day's records by user. Each group keeps the order in which its
/// user's messages stand in `entries`, and the groups stand in the order of
/// their users' first messages. There is a group exactly when there is an
/// entry.
pub fn group_by_user(entries: &Vec<EmotionTableEntry>) -> (groups: Vec<UserRecords>)
    ensures
        grouped(groups@, entries@),
        groups@.len() == 0 <==> entries@.len() == 0,
{
    let users = distinct_users(entries);
    let mut groups: Vec<UserRecords> = Vec::new();
    let mut at: usize = 0;
    while at < users.len()
        invariant
            at <= users.len(),
            groups@.len() == at,
            authors_of(users@, entries@, entries@.len() as int),
            forall|group: int|
                0 <= group < at ==> (#[trigger] groups@[group]).user_id@ == users@[group]@
                    && groups@[group].records@.len() > 0 && pairs_of(groups@[group].records@)
                    == records_of(entries@, users@[group]@, entries@.len() as int),
        decreases users.len() - at,
    {
        let records = records_for_user(entries, users[at].as_str());
        proof {
            let from = first_message(entries@, users@[at as int]@);
            first_message_is_first(entries@, users@[at as int]@, 0);
            author_has_records(entries@, users@[at as int]@, entries@.len() as int, from);
            assert(pairs_of(records@).len() == records@.len());
        }
        groups.push(UserRecords { user_id: users[at].clone(), records });
        at += 1;
    }
    proof {
        assert forall|seen: int| 0 <= seen < entries@.len() implies exists|group: int|
            0 <= group < groups@.len() && #[trigger] groups@[group].user_id@
                == #[trigger] entries@[seen].user_id@ by {
            assert(listed(users@, entries@[seen].user_id@));
            let group = choose|group: int|
                0 <= group < users@.len() && #[trigger] users@[group]@ == entries@[seen].user_id@;
            assert(groups@[group].user_id@ == entries@[seen].user_id@);
        }
        if entries@.len() > 0 {
            assert(listed(users@, entries@[0].user_id@));
        }
        if users@.len() > 0 {
            assert(groups@[0].user_id@ == users@[0]@);
        }
    }
    groups
}

/// The position of the message with the greatest reading of `emotion`. A
/// later message takes the place of an earlier one only with a strictly
/// greater reading, so among equal readings the earliest message is kept.
/// `None` exactly when there is no message.
pub fn max_record(records: &Vec<ScoredText>, emotion: Emotion) -> (found: Option<usize>)
    ensures
        match found {
            Some(at) => is_first_maximum(records@, emotion, at as int),
            None => records@.len() == 0,
        },
{
    if records.len() == 0 {
        return None;
    }
    let mut best: usize = 0;
    let mut at: usize = 1;
    while at < records.len()
        invariant
            1 <= at <= records.len(),
            best < at,
            is_first_maximum(records@.take(at as int), emotion, best as int),
        decreases records.len() - at,
    {
        let ghost seen = records@.take(at as int);
        let ghost next = records@.take(at + 1);
        let contender = records[at].scores.get(emotion);
        let holder = records[best].scores.get(emotion);
        if contender.exceeds(holder) {
            best = at;
        }
        proof {
            assert forall|other: int| 0 <= other < at implies reading_at(seen, emotion, other)
                == #[trigger] reading_at(next, emotion, other) by {}
        }
        at += 1;
    }
    assert(records@.take(at as int) =~= records@);
    Some(best)
}

/// At most one message is the first maximum, and of two messages with equal
/// readings the later one never is.
pub proof fn first_maximum_is_unique(records: Seq<ScoredText>, emotion: Emotion, one: int, other: int)
    requires
        is_first_maximum(records, emotion, one),
        0 <= other < records.len(),
    ensures
        is_first_maximum(records, emotion, other) ==> other == one,
        one < other ==> reading_at(records, emotion, other) <= reading_at(records, emotion, one),
        other < one ==> reading_at(records, emotion, other) < reading_at(records, emotion, one),
        reading_at(records, emotion, other) == reading_at(records, emotion, one) ==> one <= other,
{
    assert(reading_at(records, emotion, other) <= reading_at(records, emotion, one));
    if is_first_maximum(records, emotion, other) {
        assert(reading_at(records, emotion, one) <= reading_at(records, emotion, other));
    }
}

/// The readings of `records`, in order: what the advice for a user is asked
/// on.
pub fn scores_in_order(records: &Vec<ScoredText>) -> (scores: Vec<EmotionScores>)
    ensures
        scores@ == Seq::new(records@.len(), |at: int| records@[at].scores),
{
    let mut scores: Vec<EmotionScores> = Vec::new();
    let mut at: usize = 0;
    while at < records.len()
        invariant
            at <= records.len(),
            scores@ == Seq::new(at as nat, |seen: int| records@[seen].scores),
        decreases records.len() - at,
    {
        scores.push(records[at].scores);
        assert(scores@ =~= Seq::new((at + 1) as nat, |seen: int| records@[seen].scores));
        at += 1;
    }
    scores
}

/// A message quoted in a summary, with the reading that earned the quote.
#[derive(Clone, Debug, PartialEq, Eq)]
pub struct Quote {
    pub score: Score,
    pub text: String,
}

/// What is posted for one user: up to three quoted messages, the advice and
/// the song.
#[derive(Clone, Debug, PartialEq, Eq)]
pub struct DailySummary {
    pub anger: Option<Quote>,
    pub contempt: Option<Quote>,
    pub disgust: Option<Quote>,
    pub advice: String,
    pub song: String,
}

/// The reading and text of a quote.
pub open spec fn quote_view(quote: Option<Quote>) -> Option<(Score, Seq<char>)> {
    match quote {
        Some(quote) => Some((quote.score, quote.text@)),
        None => None,
    }
}

/// The position of the first maximum of `emotion` among `records`, which must
/// not be empty.
pub open spec fn first_maximum(records: Seq<ScoredText>, emotion: Emotion) -> int
    recommends
        records.len() > 0,
{
    choose|at: int| is_first_maximum(records, emotion, at)
}

/// The quote owed for `emotion`: the first maximum's reading and text if that
/// reading is at least 0.4, and nothing otherwise.
pub open spec fn owed_quote(records: Seq<ScoredText>, emotion: Emotion) -> Option<
    (Score, Seq<char>),
>
    recommends
        records.len() > 0,
{
    let at = first_maximum(records, emotion);
    if reading_at(records, emotion, at) >= QUOTE_FLOOR_KEY {
        Some((records[at].scores.reading(emotion), records[at].text@))
    } else {
        None
    }
}

/// Selects the quote for one emotion. Nothing is quoted from no messages.
pub fn quote_for(records: &Vec<ScoredText>, emotion: Emotion) -> (quote: Option<Quote>)
    ensures
        records@.len() == 0 ==> quote is None,
        records@.len() > 0 ==> quote_view(quote) == owed_quote(records@, emotion),
{
    match max_record(records, emotion) {
        Some(at) => {
            proof {
                let chosen = first_maximum(records@, emotion);
                first_maximum_is_unique(records@, emotion, at as int, chosen);
            }
            let score = records[at].scores.get(emotion);
            if score.at_least(Score::quote_floor()) {
                Some(Quote { score, text: records[at].text.clone() })
            } else {
                None
            }
        },
        None => None,
    }
}

/// Plans the summary for one user from the user's messages and the advice
/// obtained for them. A user without messages gets no summary. Otherwise the
/// summary always carries the advice and the song, and for each of anger,
/// contempt and disgust the quote that is owed.
pub fn build_summary(records: &Vec<ScoredText>, advice: &DailyAdvice) -> (summary: Option<
    DailySummary,
>)
    ensures
        summary is None <==> records@.len() == 0,
        summary matches Some(plan) ==> {
            &&& plan.advice@ == advice.advice@
            &&& plan.song@ == advice.song@
            &&& quote_view(plan.anger) == owed_quote(records@, Emotion::Anger)
            &&& quote_view(plan.contempt) == owed_quote(records@, Emotion::Contempt)
            &&& quote_view(plan.disgust) == owed_quote(records@, Emotion::Disgust)
        },
{
    if records.len() == 0 {
        return None;
    }
    Some(
        DailySummary {
            anger: quote_for(records, Emotion::Anger),
            contempt: quote_for(records, Emotion::Contempt),
            disgust: quote_for(records, Emotion::Disgust),
            advice: advice.advice.clone(),
            song: advice.song.clone(),
        },
    )
}

/// The state of a paged query of the day's records: what has been read so
/// far and whether the store has more.
#[derive(Debug, PartialEq, Eq)]
pub struct Pager {
    pub entries: Vec<EmotionTableEntry>,
    pub exhausted: bool,
}

/// What a paged query does next.
#[derive(Clone, Copy, Debug, PartialEq, Eq, Structural)]
pub enum QueryStep {
    /// Ask the store for the next page.
    Fetch,
    /// Every page has been read.
    Finish,
}

impl Pager {
    /// A query of which no page has been read.
    pub fn new() -> (pager: Pager)
        ensures
            pager.entries@.len() == 0,
            !pager.exhausted,
    {
        Pager { entries: Vec::new(), exhausted: false }
    }

    /// Pages are fetched one after another until a page comes without a
    /// continuation.
    pub fn next_step(&self) -> (step: QueryStep)
        ensures
            step == if self.exhausted {
                QueryStep::Finish
            } else {
                QueryStep::Fetch
            },
    {
        if self.exhausted {
            QueryStep::Finish
        } else {
            QueryStep::Fetch
        }
    }

    /// Takes in one page: its records follow those already read, and the
    /// query is exhausted exactly when the page carries no continuation.
    pub fn absorb(&mut self, page: Vec<EmotionTableEntry>, has_continuation: bool)
        ensures
            final(self).entries@ == old(self).entries@ + page@,
            final(self).exhausted == !has_continuation,
    {
        let mut page = page;
        self.entries.append(&mut page);
        self.exhausted = !has_continuation;
    }
}

} // verus!
