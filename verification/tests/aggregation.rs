use emotion_pipeline::aggregation::{
    build_summary, distinct_users, group_by_user, max_record, quote_for, records_for_user,
    scores_in_order, DailySummary, Pager, QueryStep, Quote, ScoredText, UserRecords,
};
use emotion_pipeline::events::EmotionTableEntry;
use emotion_pipeline::score::{DailyAdvice, Emotion, EmotionScores, Score};

fn score(value: f64) -> Score {
    let bits = value.to_bits();
    let magnitude = (bits & 0x7fff_ffff_ffff_ffff) as i64;
    if bits >> 63 == 0 {
        Score::from_key(magnitude)
    } else {
        Score::from_key(-magnitude)
    }
}

fn scores(anger: f64, contempt: f64, disgust: f64) -> EmotionScores {
    EmotionScores {
        anger: score(anger),
        contempt: score(contempt),
        disgust: score(disgust),
        fear: score(0.0),
        joy: score(0.0),
        surprise: score(0.0),
        sad: score(0.0),
    }
}

fn record(anger: f64, contempt: f64, disgust: f64, text: &str) -> ScoredText {
    ScoredText { scores: scores(anger, contempt, disgust), text: text.to_string() }
}

fn entry(id: &str, user: &str, timestamp: u64, anger: f64, text: &str) -> EmotionTableEntry {
    EmotionTableEntry {
        event_id: id.to_string(),
        user_id: user.to_string(),
        timestamp,
        date: "2024-10-11".to_string(),
        month: "2024-10".to_string(),
        channel_id: "C1".to_string(),
        channel_type: "channel".to_string(),
        text: text.to_string(),
        scores: scores(anger, 0.1, 0.2),
    }
}

fn advice() -> DailyAdvice {
    DailyAdvice { advice: "Take a break.".to_string(), song: "Let It Be".to_string() }
}

#[test]
fn equal_readings_keep_the_earlier_record() {
    let records = vec![record(0.7, 0.0, 0.0, "first"), record(0.7, 0.0, 0.0, "second")];
    assert_eq!(max_record(&records, Emotion::Anger), Some(0));
    let quote = quote_for(&records, Emotion::Anger).unwrap();
    assert_eq!(quote.text, "first");
}

#[test]
fn later_record_wins_only_when_strictly_greater() {
    let records = vec![
        record(0.2, 0.5, 0.9, "a"),
        record(0.9, 0.5, 0.1, "b"),
        record(0.9, 0.6, 0.9, "c"),
    ];
    assert_eq!(max_record(&records, Emotion::Anger), Some(1));
    assert_eq!(max_record(&records, Emotion::Contempt), Some(2));
    assert_eq!(max_record(&records, Emotion::Disgust), Some(0));
    assert_eq!(max_record(&records, Emotion::Joy), Some(0));
    assert_eq!(max_record(&Vec::new(), Emotion::Anger), None);
}

#[test]
fn one_user_three_records_end_to_end() {
    let entries = vec![
        entry("E1", "U1", 1728608400, 0.2, "a"),
        entry("E2", "U1", 1728612000, 0.9, "b"),
        entry("E3", "U1", 1728615600, 0.3, "c"),
    ];
    let groups = group_by_user(&entries);
    assert_eq!(groups.len(), 1);
    assert_eq!(groups[0].user_id, "U1");
    let texts: Vec<&str> = groups[0].records.iter().map(|r| r.text.as_str()).collect();
    assert_eq!(texts, vec!["a", "b", "c"]);

    let asked = scores_in_order(&groups[0].records);
    assert_eq!(asked, vec![scores(0.2, 0.1, 0.2), scores(0.9, 0.1, 0.2), scores(0.3, 0.1, 0.2)]);

    assert_eq!(max_record(&groups[0].records, Emotion::Anger), Some(1));
    let summary = build_summary(&groups[0].records, &advice());
    assert_eq!(
        summary,
        Some(DailySummary {
            anger: Some(Quote { score: score(0.9), text: "b".to_string() }),
            contempt: None,
            disgust: None,
            advice: "Take a break.".to_string(),
            song: "Let It Be".to_string(),
        })
    );
}

#[test]
fn quote_needs_a_reading_of_at_least_four_tenths() {
    let at_floor = vec![record(0.4, 0.39, 0.41, "x")];
    let summary = build_summary(&at_floor, &advice()).unwrap();
    assert_eq!(summary.anger, Some(Quote { score: score(0.4), text: "x".to_string() }));
    assert_eq!(summary.contempt, None);
    assert_eq!(summary.disgust, Some(Quote { score: score(0.41), text: "x".to_string() }));
    assert_eq!(summary.advice, "Take a break.");
    assert_eq!(summary.song, "Let It Be");
}

#[test]
fn no_records_no_summary() {
    assert_eq!(build_summary(&Vec::new(), &advice()), None);
    assert_eq!(quote_for(&Vec::new(), Emotion::Anger), None);
    assert_eq!(group_by_user(&Vec::new()), Vec::<UserRecords>::new());
}

#[test]
fn records_are_grouped_by_user_in_temporal_order() {
    let entries = vec![
        entry("E1", "U1", 1, 0.1, "u1 first"),
        entry("E2", "U2", 2, 0.2, "u2 first"),
        entry("E3", "U1", 3, 0.3, "u1 second"),
        entry("E4", "U3", 4, 0.4, "u3 first"),
        entry("E5", "U2", 5, 0.5, "u2 second"),
        entry("E6", "U1", 6, 0.6, "u1 third"),
    ];
    assert_eq!(distinct_users(&entries), vec!["U1", "U2", "U3"]);
    let groups = group_by_user(&entries);
    assert_eq!(groups.len(), 3);
    let users: Vec<&str> = groups.iter().map(|group| group.user_id.as_str()).collect();
    assert_eq!(users, vec!["U1", "U2", "U3"]);
    for group in &groups {
        let texts: Vec<&str> = group.records.iter().map(|r| r.text.as_str()).collect();
        match group.user_id.as_str() {
            "U1" => assert_eq!(texts, vec!["u1 first", "u1 second", "u1 third"]),
            "U2" => assert_eq!(texts, vec!["u2 first", "u2 second"]),
            "U3" => assert_eq!(texts, vec!["u3 first"]),
            other => panic!("a group for {}", other),
        }
    }
    assert_eq!(
        records_for_user(&entries, "U2"),
        vec![
            ScoredText { scores: scores(0.2, 0.1, 0.2), text: "u2 first".to_string() },
            ScoredText { scores: scores(0.5, 0.1, 0.2), text: "u2 second".to_string() },
        ]
    );
    assert_eq!(records_for_user(&entries, "U9"), Vec::<ScoredText>::new());
}

#[test]
fn pages_are_read_until_one_has_no_continuation() {
    let mut pager = Pager::new();
    assert_eq!(pager.next_step(), QueryStep::Fetch);
    pager.absorb(vec![entry("E1", "U1", 1, 0.1, "a"), entry("E2", "U2", 2, 0.2, "b")], true);
    assert_eq!(pager.next_step(), QueryStep::Fetch);
    pager.absorb(Vec::new(), true);
    assert_eq!(pager.next_step(), QueryStep::Fetch);
    pager.absorb(vec![entry("E3", "U1", 3, 0.3, "c")], false);
    assert_eq!(pager.next_step(), QueryStep::Finish);
    let ids: Vec<&str> = pager.entries.iter().map(|e| e.event_id.as_str()).collect();
    assert_eq!(ids, vec!["E1", "E2", "E3"]);
}
